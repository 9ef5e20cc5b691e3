//! The modifier orchestrator.
//!
//! `new_cdi_modifier` extracts the device request from the target
//! specification; an empty request means no modification and is not an
//! error. A non-empty request is classified: a mix of automatic-vendor and
//! other devices is rejected before any lookup; an all-automatic request is
//! resolved against the document synthesized from discovery, falling back
//! to the file-backed registry when discovery failed; anything else is
//! resolved against the registry. The resolved edits are merged, device
//! edits first and each touched document's common edits once after them,
//! and applied to a copy of the target: the input specification is never
//! mutated, and a partially modified specification is never returned.

use vstd::prelude::*;

use crate::automatic::automatic_of;
use crate::automatic::filter_automatic_devices;
use crate::automatic::synth_spec;
use crate::automatic::synthesize;
use crate::automatic::DiscoveryData;
use crate::automatic::DiscoveryV;
use crate::device_spec::SpecV;
use crate::edits::apply;
use crate::edits::apply_views;
use crate::edits::merge_all;
use crate::edits::merge_seq;
use crate::errors::CdiError;
use crate::errors::CdiErrorV;
use crate::extract::annotation_error;
use crate::extract::annotation_tokens;
use crate::extract::extract_result;
use crate::extract::get_devices_from_spec;
use crate::extract::tokens_all_qualified;
use crate::registry::common_of;
use crate::registry::resolved_edits;
use crate::registry::touched_idx;
use crate::registry::unresolved_names;
use crate::registry::Registry;
use crate::registry::Resolution;
use crate::runtime::Config;
use crate::runtime::ConfigV;
use crate::runtime::RuntimeSpec;
use crate::runtime::RuntimeSpecV;

verus! {

/// The outcome of resolving and applying a request against a document set:
/// the modified specification, or the unresolved names.
pub open spec fn path_result(specs: Seq<SpecV>, devs: Seq<Seq<char>>, t: RuntimeSpecV) -> Result<
    RuntimeSpecV,
    Seq<Seq<char>>,
> {
    let unres = unresolved_names(specs, devs);
    if unres.len() > 0 {
        Err(unres)
    } else {
        Ok(
            apply_views(
                merge_seq(
                    resolved_edits(specs, devs) + common_of(specs, touched_idx(specs, devs)),
                ),
                t,
            ),
        )
    }
}

/// Whether the orchestrator's answer matches a path outcome: the modified
/// specification on success, the unresolved names as a fatal error
/// otherwise.
pub open spec fn outcome_matches(
    r: Result<Option<RuntimeSpec>, CdiError>,
    p: Result<RuntimeSpecV, Seq<Seq<char>>>,
) -> bool {
    match r {
        Ok(opt) => match opt {
            Some(m) => p matches Ok(v) && m.deep_view() == v,
            None => false,
        },
        Err(e) => p matches Err(names) && e.deep_view() matches CdiErrorV::UnresolvableDevice {
            names: n,
        } && n == names,
    }
}

/// The full contract of `new_cdi_modifier`, case by case.
pub open spec fn modify_post(
    r: Result<Option<RuntimeSpec>, CdiError>,
    t: RuntimeSpecV,
    c: ConfigV,
    specs: Seq<SpecV>,
    disc: Option<DiscoveryV>,
) -> bool {
    let ok = tokens_all_qualified(annotation_tokens(t.annotations, c.annotation_prefixes));
    let devs = extract_result(t, c);
    let auto = automatic_of(devs);
    &&& (!ok ==> (r matches Err(e) && annotation_error(
        e.deep_view(),
        t.annotations,
        c.annotation_prefixes,
    )))
    &&& ((ok && devs.len() == 0) ==> (r matches Ok(opt) && opt is None))
    &&& ((ok && 0 < auto.len() < devs.len()) ==> (r matches Err(e) && e.deep_view()
        matches CdiErrorV::MixedAutomaticDevices { name } && name == auto[0]))
    &&& ((ok && devs.len() > 0 && auto.len() == devs.len()) ==> (match disc {
        Some(dd) => outcome_matches(r, path_result(seq![synth_spec(dd)], devs, t)),
        None => outcome_matches(r, path_result(specs, devs, t)),
    }))
    &&& ((ok && devs.len() > 0 && auto.len() == 0) ==> outcome_matches(
        r,
        path_result(specs, devs, t),
    ))
}

/// Turn a resolution into the orchestrator's answer: any unresolved name is
/// fatal, otherwise the merged edits are applied to a copy of the target.
fn finish(
    res: Resolution,
    target: &RuntimeSpec,
    Ghost(specs): Ghost<Seq<SpecV>>,
    Ghost(devs): Ghost<Seq<Seq<char>>>,
) -> (r: Result<Option<RuntimeSpec>, CdiError>)
    requires
        res.device_edits.deep_view() == resolved_edits(specs, devs),
        res.common_edits.deep_view() == common_of(specs, touched_idx(specs, devs)),
        res.unresolved.deep_view() == unresolved_names(specs, devs),
    ensures
        outcome_matches(r, path_result(specs, devs, target.deep_view())),
{
    if res.unresolved.len() > 0 {
        proof {
            assert(unresolved_names(specs, devs).len() > 0);
        }
        return Err(CdiError::UnresolvableDevice { names: res.unresolved });
    }
    proof {
        assert(unresolved_names(specs, devs).len() == 0);
    }
    let mut all = res.device_edits;
    let ghost de = all.deep_view();
    let ghost desh = all@;
    let mut common = res.common_edits;
    let ghost cesh = common@;
    all.append(&mut common);
    proof {
        let ce = common_of(specs, touched_idx(specs, devs));
        assert forall|j: int| 0 <= j < all.deep_view().len() implies all.deep_view()[j] == (de
            + ce)[j] by {
            if j < desh.len() {
                assert(all@[j] == desh[j]);
            } else {
                assert(all@[j] == cesh[j - desh.len()]);
            }
        }
        assert(all.deep_view() =~= de + ce);
    }
    let merged = merge_all(&all);
    let out = apply(&merged, target);
    Ok(Some(out))
}

/// Compute the modification that grants the requested devices, or `None`
/// when nothing was requested. The target specification is never mutated:
/// the caller receives a fresh specification or `None`.
pub fn new_cdi_modifier(
    target: &RuntimeSpec,
    cfg: &Config,
    registry: &Registry,
    discovery: Option<&DiscoveryData>,
) -> (r: Result<Option<RuntimeSpec>, CdiError>)
    ensures
        modify_post(
            r,
            target.deep_view(),
            cfg.deep_view(),
            registry.specs.deep_view(),
            discovery.deep_view(),
        ),
{
    let ghost tv = target.deep_view();
    let ghost cv = cfg.deep_view();
    let devices = match get_devices_from_spec(target, cfg) {
        Ok(v) => v,
        Err(e) => {
            return Err(e);
        },
    };
    let ghost devsv = devices.deep_view();
    proof {
        assert(devsv == extract_result(tv, cv));
    }
    if devices.len() == 0 {
        return Ok(None);
    }
    let auto = filter_automatic_devices(&devices);
    proof {
        assert(auto.deep_view() == automatic_of(devsv));
    }
    if auto.len() > 0 && auto.len() != devices.len() {
        proof {
            assert(auto.deep_view()[0] == auto@[0]@);
        }
        return Err(CdiError::MixedAutomaticDevices { name: auto[0].clone() });
    }
    if auto.len() == devices.len() {
        match discovery {
            Some(dd) => {
                let doc = synthesize(dd);
                let synth_registry = Registry { specs: vec![doc] };
                let ghost synth_set = seq![synth_spec(dd.deep_view())];
                proof {
                    assert(synth_registry.specs.deep_view() =~= synth_set);
                }
                let res = synth_registry.resolve(&devices);
                return finish(res, target, Ghost(synth_set), Ghost(devsv));
            },
            None => {},
        }
    }
    let res = registry.resolve(&devices);
    finish(res, target, Ghost(registry.specs.deep_view()), Ghost(devsv))
}

} // verus!
