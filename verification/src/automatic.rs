//! The automatic specification synthesizer.
//!
//! Devices of the reserved vendor/class pair are resolved through live
//! device discovery rather than file-backed documents. A request batch must
//! be entirely automatic or entirely not; the check that rejects a mixed
//! batch stands in the orchestrator. Discovery itself is external work: the
//! caller enumerates the devices and hands the per-device entries and the
//! common edits in as plain data, and `synthesize` assembles the in-memory
//! document from them.

use vstd::prelude::*;

use crate::device_spec::clone_devices;
use crate::device_spec::ContainerEdits;
use crate::device_spec::Device;
use crate::device_spec::DeviceV;
use crate::device_spec::EditsV;
use crate::device_spec::Spec;
use crate::device_spec::SpecV;
use crate::names::parse_device;
use crate::names::parse_name_spec;
use crate::text::str_eq;

verus! {

/// The reserved vendor whose devices are synthesized on demand.
pub open spec fn automatic_vendor() -> Seq<char> {
    "runtime.reserved"@
}

/// The reserved class whose devices are synthesized on demand.
pub open spec fn automatic_class() -> Seq<char> {
    "gpu"@
}

/// Whether a qualified name belongs to the reserved automatic pair.
pub open spec fn is_automatic(name: Seq<char>) -> bool {
    match parse_name_spec(name) {
        Some(p) => p.0 == automatic_vendor() && p.1 == automatic_class(),
        None => false,
    }
}

/// The automatic-vendor devices of a request, in request order.
pub open spec fn automatic_of(devs: Seq<Seq<char>>) -> Seq<Seq<char>>
    decreases devs.len(),
{
    if devs.len() == 0 {
        Seq::empty()
    } else {
        automatic_of(devs.drop_last()) + (if is_automatic(devs.last()) {
            seq![devs.last()]
        } else {
            Seq::empty()
        })
    }
}

/// Keep the devices that belong to the reserved automatic vendor/class.
pub fn filter_automatic_devices(devices: &Vec<String>) -> (r: Vec<String>)
    ensures
        r.deep_view() == automatic_of(devices.deep_view()),
{
    let ghost devsv = devices.deep_view();
    let mut out: Vec<String> = Vec::new();
    let mut i: usize = 0;
    while i < devices.len()
        invariant
            i <= devices.len(),
            devsv == devices.deep_view(),
            out.deep_view() == automatic_of(devsv.take(i as int)),
        decreases devices.len() - i,
    {
        let ghost prev = out.deep_view();
        proof {
            assert(devsv[i as int] == devices@[i as int]@);
        }
        let matched = match parse_device(devices[i].as_str()) {
            Ok(p) => str_eq(p.0.as_str(), "runtime.reserved") && str_eq(p.1.as_str(), "gpu"),
            Err(_) => false,
        };
        proof {
            assert(matched == is_automatic(devsv[i as int]));
        }
        if matched {
            out.push(devices[i].clone());
            proof {
                assert(out.deep_view() =~= prev.push(devsv[i as int]));
            }
        }
        i = i + 1;
        proof {
            let t = devsv.take(i as int);
            assert(t.drop_last() =~= devsv.take(i as int - 1));
            assert(t.last() == devsv[i as int - 1]);
            assert(out.deep_view() =~= automatic_of(t));
        }
    }
    proof {
        assert(devsv.take(devsv.len() as int) =~= devsv);
    }
    out
}

/// What external device discovery returned: the per-device entries, named
/// by bare identifier, and the discovery-wide common edits.
#[derive(Debug)]
pub struct DiscoveryData {
    pub devices: Vec<Device>,
    pub common_edits: Option<ContainerEdits>,
}

#[verifier::ext_equal]
pub ghost struct DiscoveryV {
    pub devices: Seq<DeviceV>,
    pub common_edits: Option<EditsV>,
}

impl DeepView for DiscoveryData {
    type V = DiscoveryV;

    open spec fn deep_view(&self) -> DiscoveryV {
        DiscoveryV {
            devices: self.devices.deep_view(),
            common_edits: self.common_edits.deep_view(),
        }
    }
}

/// The document that `synthesize` assembles from a discovery result.
pub open spec fn synth_spec(d: DiscoveryV) -> SpecV {
    SpecV {
        version: "0.8.0"@,
        kind: "runtime.reserved/gpu"@,
        annotations: None,
        devices: d.devices,
        container_edits: d.common_edits,
    }
}

/// Assemble the in-memory document equivalent to what discovery reported,
/// with vendor and class fixed to the reserved automatic pair.
pub fn synthesize(discovery: &DiscoveryData) -> (r: Spec)
    ensures
        r.deep_view() == synth_spec(discovery.deep_view()),
{
    let r = Spec {
        version: "0.8.0".to_owned(),
        kind: "runtime.reserved/gpu".to_owned(),
        annotations: None,
        devices: clone_devices(&discovery.devices),
        container_edits: match &discovery.common_edits {
            Some(e) => Some(e.duplicate()),
            None => None,
        },
    };
    proof {
        assert(r.deep_view() =~= synth_spec(discovery.deep_view()));
    }
    r
}

} // verus!
