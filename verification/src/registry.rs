//! The specification registry.
//!
//! `load` takes the documents read from the configured directories, highest
//! priority first, validates each one, and keeps the valid ones in order; a
//! malformed document is skipped with a recorded reason, never a hard error.
//! `resolve` looks each requested qualified name up in the kept documents:
//! the earliest document claiming the device wins, the device's own edits
//! are collected in request order, and each touched document's common edits
//! are collected once, in first-touch order. Names that match nothing are
//! reported back; the caller decides that any unresolved name is fatal.

use vstd::prelude::*;
use vstd::string::StrSliceExecFns;

use crate::device_spec::ContainerEdits;
use crate::device_spec::Device;
use crate::device_spec::DeviceV;
use crate::device_spec::EditsV;
use crate::device_spec::Spec;
use crate::device_spec::SpecV;
use crate::names::is_qualified_name;
use crate::names::is_qualified_spec;
use crate::names::is_valid_token;
use crate::names::parse_device;
use crate::names::parse_name_spec;
use crate::names::valid_token;
use crate::text::find_char;
use crate::text::find_first;
use crate::text::lemma_find_first;
use crate::text::str_eq;
use crate::text::substring;
use crate::text::vec_contains_str;

verus! {

/// The parse of a document kind: `vendor/class`, both valid tokens.
pub open spec fn parse_kind_spec(s: Seq<char>) -> Option<(Seq<char>, Seq<char>)> {
    match find_first(s, '/') {
        None => None,
        Some(j) => {
            let vendor = s.subrange(0, j);
            let class = s.subrange(j + 1, s.len() as int);
            if valid_token(vendor) && valid_token(class) {
                Some((vendor, class))
            } else {
                None
            }
        },
    }
}

/// Parse a document kind, executably.
pub fn parse_kind(kind: &str) -> (r: Option<(String, String)>)
    ensures
        match r {
            Some(p) => parse_kind_spec(kind@) == Some((p.0@, p.1@)),
            None => parse_kind_spec(kind@) is None,
        },
{
    let n = kind.unicode_len();
    match find_char(kind, '/') {
        None => None,
        Some(j) => {
            proof {
                lemma_find_first(kind@, '/');
            }
            let vendor = substring(kind, 0, j);
            let class = substring(kind, j + 1, n);
            if is_valid_token(vendor.as_str()) && is_valid_token(class.as_str()) {
                Some((vendor, class))
            } else {
                None
            }
        },
    }
}

/// Whether a document's schema version is understood: major version zero.
pub open spec fn version_ok(v: Seq<char>) -> bool {
    v.len() >= 2 && v[0] == '0' && v[1] == '.'
}

/// Whether a document's schema version is understood, executably.
pub fn version_supported(v: &str) -> (r: bool)
    ensures
        r == version_ok(v@),
{
    let n = v.unicode_len();
    n >= 2 && v.get_char(0) == '0' && v.get_char(1) == '.'
}

/// A device entry's name must be a bare, non-empty identifier, not a full
/// qualified name: the containing document supplies vendor and class.
pub open spec fn device_name_ok(n: Seq<char>) -> bool {
    n.len() > 0 && !is_qualified_spec(n)
}

/// Whether every device name of the document is a bare identifier.
pub open spec fn device_names_ok(devs: Seq<DeviceV>) -> bool {
    forall|i: int| 0 <= i < devs.len() ==> device_name_ok((#[trigger] devs[i]).name)
}

/// Whether device names are unique within the document.
pub open spec fn devices_unique(devs: Seq<DeviceV>) -> bool {
    forall|i: int, j: int| 0 <= i < j < devs.len() ==> (#[trigger] devs[i]).name != (
    #[trigger] devs[j]).name
}

/// Whether a document is accepted by the registry.
pub open spec fn doc_valid(d: SpecV) -> bool {
    &&& version_ok(d.version)
    &&& parse_kind_spec(d.kind) is Some
    &&& device_names_ok(d.devices)
    &&& devices_unique(d.devices)
}

/// Why a document was skipped.
#[derive(Clone, Copy, Debug, PartialEq, Eq, Structural)]
pub enum SpecLoadReason {
    UnsupportedVersion,
    InvalidKind,
    InvalidDeviceName,
    DuplicateDeviceName,
}

/// A skipped document: its position among the loaded documents, and why.
#[derive(Clone, Copy, Debug, PartialEq, Eq, Structural)]
pub struct LoadSkip {
    pub index: usize,
    pub reason: SpecLoadReason,
}

/// The reason recorded for an invalid document: the first failing check in
/// the order version, kind, device names, uniqueness.
pub open spec fn doc_reason(d: SpecV) -> SpecLoadReason {
    if !version_ok(d.version) {
        SpecLoadReason::UnsupportedVersion
    } else if parse_kind_spec(d.kind) is None {
        SpecLoadReason::InvalidKind
    } else if !device_names_ok(d.devices) {
        SpecLoadReason::InvalidDeviceName
    } else {
        SpecLoadReason::DuplicateDeviceName
    }
}

/// Validate one document.
pub fn check_document(d: &Spec) -> (r: Result<(), SpecLoadReason>)
    ensures
        r is Ok <==> doc_valid(d.deep_view()),
        r matches Err(reason) ==> reason == doc_reason(d.deep_view()),
{
    let ghost dv = d.deep_view();
    if !version_supported(d.version.as_str()) {
        return Err(SpecLoadReason::UnsupportedVersion);
    }
    proof {
        assert(version_ok(dv.version));
    }
    let kind_parse = parse_kind(d.kind.as_str());
    if kind_parse.is_none() {
        return Err(SpecLoadReason::InvalidKind);
    }
    proof {
        assert(parse_kind_spec(dv.kind) is Some);
    }
    let mut i: usize = 0;
    while i < d.devices.len()
        invariant
            i <= d.devices.len(),
            dv == d.deep_view(),
            version_ok(dv.version),
            parse_kind_spec(dv.kind) is Some,
            forall|j: int| 0 <= j < i ==> device_name_ok((#[trigger] dv.devices[j]).name),
        decreases d.devices.len() - i,
    {
        let name = &d.devices[i].name;
        proof {
            assert(dv.devices[i as int].name == d.devices@[i as int].name@);
        }
        if name.unicode_len() == 0 || is_qualified_name(name.as_str()) {
            proof {
                assert(!device_name_ok(dv.devices[i as int].name));
                assert(!device_names_ok(dv.devices));
                assert(!doc_valid(dv));
            }
            return Err(SpecLoadReason::InvalidDeviceName);
        }
        i = i + 1;
    }
    proof {
        assert(device_names_ok(dv.devices));
    }
    let mut seen: Vec<String> = Vec::new();
    let mut k: usize = 0;
    while k < d.devices.len()
        invariant
            k <= d.devices.len(),
            dv == d.deep_view(),
            version_ok(dv.version),
            parse_kind_spec(dv.kind) is Some,
            device_names_ok(dv.devices),
            seen.deep_view() =~= dv.devices.take(k as int).map_values(|x: DeviceV| x.name),
            forall|i2: int, j2: int|
                0 <= i2 < j2 < k ==> (#[trigger] dv.devices[i2]).name != (
                #[trigger] dv.devices[j2]).name,
        decreases d.devices.len() - k,
    {
        let name = &d.devices[k].name;
        proof {
            assert(dv.devices[k as int].name == d.devices@[k as int].name@);
        }
        if vec_contains_str(&seen, name.as_str()) {
            proof {
                assert(!devices_unique(dv.devices)) by {
                    let sv = seen.deep_view();
                    let j = choose|j: int| 0 <= j < sv.len() && sv[j] == name@;
                    assert(dv.devices[j].name == name@);
                    assert(dv.devices[j].name == dv.devices[k as int].name);
                }
                assert(!doc_valid(dv));
            }
            return Err(SpecLoadReason::DuplicateDeviceName);
        }
        let ghost prev = seen.deep_view();
        seen.push(name.clone());
        proof {
            assert(seen.deep_view() =~= prev.push(name@));
            assert(seen.deep_view() =~= dv.devices.take(k as int + 1).map_values(
                |x: DeviceV| x.name,
            ));
            let sv = prev;
            assert forall|i2: int| 0 <= i2 < k implies (#[trigger] dv.devices[i2]).name
                != dv.devices[k as int].name by {
                assert(sv[i2] == dv.devices[i2].name);
            }
        }
        k = k + 1;
    }
    proof {
        assert(devices_unique(dv.devices));
        assert(doc_valid(dv));
    }
    Ok(())
}

/// The valid documents among `docs`, in order.
pub open spec fn kept_specs(docs: Seq<SpecV>) -> Seq<SpecV>
    decreases docs.len(),
{
    if docs.len() == 0 {
        Seq::empty()
    } else {
        kept_specs(docs.drop_last()) + (if doc_valid(docs.last()) {
            seq![docs.last()]
        } else {
            Seq::empty()
        })
    }
}

/// The skipped documents among `docs`, each with its position and reason.
pub open spec fn skipped_docs(docs: Seq<SpecV>) -> Seq<LoadSkip>
    decreases docs.len(),
{
    if docs.len() == 0 {
        Seq::empty()
    } else {
        skipped_docs(docs.drop_last()) + (if doc_valid(docs.last()) {
            Seq::empty()
        } else {
            seq![
                LoadSkip {
                    index: (docs.len() - 1) as usize,
                    reason: doc_reason(docs.last()),
                },
            ]
        })
    }
}

/// The registry: the loaded, validated documents, read-only after `load`,
/// earliest (highest-priority) first.
#[derive(Debug)]
pub struct Registry {
    pub specs: Vec<Spec>,
}

/// Load a registry from documents given highest priority first.
///
/// Every valid document is kept in order; each invalid one is skipped and
/// reported with its position and reason, never a hard error.
pub fn load(docs: Vec<Spec>) -> (r: (Registry, Vec<LoadSkip>))
    ensures
        r.0.specs.deep_view() == kept_specs(docs.deep_view()),
        r.1@ == skipped_docs(docs.deep_view()),
{
    let ghost origv = docs.deep_view();
    let mut rest = docs;
    let total = rest.len();
    let mut kept: Vec<Spec> = Vec::new();
    let mut skips: Vec<LoadSkip> = Vec::new();
    let mut i: usize = 0;
    while rest.len() > 0
        invariant
            i <= total,
            total == origv.len(),
            i + rest.len() == total,
            rest.deep_view() =~= origv.skip(i as int),
            kept.deep_view() == kept_specs(origv.take(i as int)),
            skips@ == skipped_docs(origv.take(i as int)),
        decreases rest.len(),
    {
        let ghost restv = rest.deep_view();
        let ghost oldsh = rest@;
        let d = rest.remove(0);
        proof {
            assert(d.deep_view() == restv[0]);
            assert(restv[0] == origv[i as int]);
            assert forall|j: int| 0 <= j < rest.deep_view().len() implies rest.deep_view()[j]
                == origv.skip(i as int + 1)[j] by {
                assert(rest@[j] == oldsh[j + 1]);
                assert(rest.deep_view()[j] == oldsh[j + 1].deep_view());
                assert(restv[j + 1] == oldsh[j + 1].deep_view());
                assert(restv[j + 1] == origv.skip(i as int)[j + 1]);
            }
            assert(rest.deep_view() =~= origv.skip(i as int + 1));
        }
        let ghost keptv = kept.deep_view();
        let ghost skipsv = skips@;
        match check_document(&d) {
            Ok(_) => {
                kept.push(d);
                proof {
                    assert(kept.deep_view() =~= keptv.push(origv[i as int]));
                }
            },
            Err(reason) => {
                skips.push(LoadSkip { index: i, reason });
            },
        }
        i = i + 1;
        proof {
            let t = origv.take(i as int);
            assert(t.drop_last() =~= origv.take(i as int - 1));
            assert(t.last() == origv[i as int - 1]);
            assert(kept.deep_view() =~= kept_specs(t));
            assert(skips@ =~= skipped_docs(t));
        }
    }
    proof {
        assert(origv.take(origv.len() as int) =~= origv);
    }
    (Registry { specs: kept }, skips)
}

/// Whether document `j` claims the device `vendor/class=id`.
pub open spec fn doc_hit(specs: Seq<SpecV>, j: int, vendor: Seq<char>, class: Seq<char>, id: Seq<
    char,
>) -> bool {
    parse_kind_spec(specs[j].kind) == Some((vendor, class)) && find_device(specs[j].devices, id)
        is Some
}

/// The first device entry named `id`, if any.
pub open spec fn find_device(devs: Seq<DeviceV>, id: Seq<char>) -> Option<int>
    decreases devs.len(),
{
    if devs.len() == 0 {
        None
    } else if devs[0].name == id {
        Some(0)
    } else {
        match find_device(devs.drop_first(), id) {
            Some(i) => Some(i + 1),
            None => None,
        }
    }
}

/// `find_device` returns the first entry named `id`, and `None` means no
/// such entry.
pub proof fn lemma_find_device(devs: Seq<DeviceV>, id: Seq<char>)
    ensures
        match find_device(devs, id) {
            Some(i) => 0 <= i < devs.len() && devs[i].name == id && (forall|j: int|
                0 <= j < i ==> (#[trigger] devs[j]).name != id),
            None => forall|j: int| 0 <= j < devs.len() ==> (#[trigger] devs[j]).name != id,
        },
    decreases devs.len(),
{
    if devs.len() == 0 {
    } else if devs[0].name == id {
    } else {
        lemma_find_device(devs.drop_first(), id);
        match find_device(devs.drop_first(), id) {
            Some(i) => {
                assert(devs.drop_first()[i] == devs[i + 1]);
                assert forall|j: int| 0 <= j < i + 1 implies (#[trigger] devs[j]).name != id by {
                    if j > 0 {
                        assert(devs[j] == devs.drop_first()[j - 1]);
                    }
                }
            },
            None => {
                assert forall|j: int| 0 <= j < devs.len() implies (#[trigger] devs[j]).name
                    != id by {
                    if j > 0 {
                        assert(devs[j] == devs.drop_first()[j - 1]);
                    }
                }
            },
        }
    }
}

/// If entry `i` is named `id` and no earlier one is, the find returns `i`.
pub proof fn lemma_find_device_at(devs: Seq<DeviceV>, id: Seq<char>, i: int)
    requires
        0 <= i < devs.len(),
        devs[i].name == id,
        forall|j: int| 0 <= j < i ==> (#[trigger] devs[j]).name != id,
    ensures
        find_device(devs, id) == Some(i),
{
    lemma_find_device(devs, id);
}

/// The first document claiming `vendor/class=id`, with the position of the
/// device entry inside it.
pub open spec fn lookup_spec(
    specs: Seq<SpecV>,
    vendor: Seq<char>,
    class: Seq<char>,
    id: Seq<char>,
) -> Option<(int, int)>
    decreases specs.len(),
{
    if specs.len() == 0 {
        None
    } else {
        let head = if parse_kind_spec(specs[0].kind) == Some((vendor, class)) {
            find_device(specs[0].devices, id)
        } else {
            None
        };
        match head {
            Some(d) => Some((0, d)),
            None => match lookup_spec(specs.drop_first(), vendor, class, id) {
                Some(p) => Some((p.0 + 1, p.1)),
                None => None,
            },
        }
    }
}

/// `lookup_spec` returns the earliest claiming document, and `None` means
/// no document claims the device.
pub proof fn lemma_lookup(specs: Seq<SpecV>, vendor: Seq<char>, class: Seq<char>, id: Seq<char>)
    ensures
        match lookup_spec(specs, vendor, class, id) {
            Some(p) => 0 <= p.0 < specs.len() && doc_hit(specs, p.0, vendor, class, id)
                && find_device(specs[p.0].devices, id) == Some(p.1) && (forall|j: int|
                0 <= j < p.0 ==> !doc_hit(specs, j, vendor, class, id)),
            None => forall|j: int| 0 <= j < specs.len() ==> !doc_hit(specs, j, vendor, class, id),
        },
    decreases specs.len(),
{
    if specs.len() == 0 {
    } else {
        let head = if parse_kind_spec(specs[0].kind) == Some((vendor, class)) {
            find_device(specs[0].devices, id)
        } else {
            None
        };
        if head is Some {
        } else {
            lemma_lookup(specs.drop_first(), vendor, class, id);
            assert(!doc_hit(specs, 0, vendor, class, id));
            match lookup_spec(specs.drop_first(), vendor, class, id) {
                Some(p) => {
                    assert(specs.drop_first()[p.0] == specs[p.0 + 1]);
                    assert forall|j: int| 0 <= j < p.0 + 1 implies !doc_hit(
                        specs,
                        j,
                        vendor,
                        class,
                        id,
                    ) by {
                        if j > 0 {
                            assert(specs[j] == specs.drop_first()[j - 1]);
                            assert(!doc_hit(specs.drop_first(), j - 1, vendor, class, id));
                        }
                    }
                },
                None => {
                    assert forall|j: int| 0 <= j < specs.len() implies !doc_hit(
                        specs,
                        j,
                        vendor,
                        class,
                        id,
                    ) by {
                        if j > 0 {
                            assert(specs[j] == specs.drop_first()[j - 1]);
                            assert(!doc_hit(specs.drop_first(), j - 1, vendor, class, id));
                        }
                    }
                },
            }
        }
    }
}

/// If document `i` claims the device and no earlier one does, the lookup
/// returns `i` with the device's position inside it.
pub proof fn lemma_lookup_at(
    specs: Seq<SpecV>,
    vendor: Seq<char>,
    class: Seq<char>,
    id: Seq<char>,
    i: int,
    d: int,
)
    requires
        0 <= i < specs.len(),
        doc_hit(specs, i, vendor, class, id),
        find_device(specs[i].devices, id) == Some(d),
        forall|j: int| 0 <= j < i ==> !doc_hit(specs, j, vendor, class, id),
    ensures
        lookup_spec(specs, vendor, class, id) == Some((i, d)),
{
    lemma_lookup(specs, vendor, class, id);
    match lookup_spec(specs, vendor, class, id) {
        Some(p) => {
            if p.0 < i {
                assert(doc_hit(specs, p.0, vendor, class, id));
            } else if p.0 > i {
                assert(!doc_hit(specs, i, vendor, class, id));
            }
        },
        None => {
            assert(!doc_hit(specs, i, vendor, class, id));
        },
    }
}

/// The lookup of one requested name: parse, then search.
pub open spec fn req_lookup(specs: Seq<SpecV>, r: Seq<char>) -> Option<(int, int)> {
    match parse_name_spec(r) {
        None => None,
        Some(p) => lookup_spec(specs, p.0, p.1, p.2),
    }
}

/// The device-specific edits of the resolved requests, in request order.
pub open spec fn resolved_edits(specs: Seq<SpecV>, reqs: Seq<Seq<char>>) -> Seq<EditsV>
    decreases reqs.len(),
{
    if reqs.len() == 0 {
        Seq::empty()
    } else {
        resolved_edits(specs, reqs.drop_last()) + (match req_lookup(specs, reqs.last()) {
            Some(p) => seq![specs[p.0].devices[p.1].container_edits],
            None => Seq::empty(),
        })
    }
}

/// The requests that match nothing, in request order.
pub open spec fn unresolved_names(specs: Seq<SpecV>, reqs: Seq<Seq<char>>) -> Seq<Seq<char>>
    decreases reqs.len(),
{
    if reqs.len() == 0 {
        Seq::empty()
    } else {
        unresolved_names(specs, reqs.drop_last()) + (match req_lookup(specs, reqs.last()) {
            Some(p) => Seq::empty(),
            None => seq![reqs.last()],
        })
    }
}

/// The documents touched by the resolved requests, once each, in
/// first-touch order.
pub open spec fn touched_idx(specs: Seq<SpecV>, reqs: Seq<Seq<char>>) -> Seq<int>
    decreases reqs.len(),
{
    if reqs.len() == 0 {
        Seq::empty()
    } else {
        let pre = touched_idx(specs, reqs.drop_last());
        match req_lookup(specs, reqs.last()) {
            Some(p) => if pre.contains(p.0) {
                pre
            } else {
                pre.push(p.0)
            },
            None => pre,
        }
    }
}

/// The common edits of the given documents, in order, documents without
/// common edits contributing nothing.
pub open spec fn common_of(specs: Seq<SpecV>, touched: Seq<int>) -> Seq<EditsV>
    decreases touched.len(),
{
    if touched.len() == 0 {
        Seq::empty()
    } else {
        common_of(specs, touched.drop_last()) + (match specs[touched.last()].container_edits {
            Some(e) => seq![e],
            None => Seq::empty(),
        })
    }
}

/// The outcome of resolving a request list against a registry.
#[derive(Debug)]
pub struct Resolution {
    /// The resolved devices' own edits, in request order.
    pub device_edits: Vec<ContainerEdits>,
    /// Each touched document's common edits, once per document, in
    /// first-touch order.
    pub common_edits: Vec<ContainerEdits>,
    /// The requested names that matched no document or device.
    pub unresolved: Vec<String>,
}

/// Whether `v` holds `x`.
fn vec_contains_usize(v: &Vec<usize>, x: usize) -> (r: bool)
    ensures
        r == v@.contains(x),
{
    let mut i: usize = 0;
    while i < v.len()
        invariant
            i <= v.len(),
            forall|j: int| 0 <= j < i ==> v@[j] != x,
        decreases v.len() - i,
    {
        if v[i] == x {
            return true;
        }
        i = i + 1;
    }
    proof {
        if v@.contains(x) {
            let k = choose|k: int| 0 <= k < v@.len() && v@[k] == x;
            assert(v@[k] != x);
        }
    }
    false
}

impl Registry {
    /// Find the earliest document claiming `vendor/class=id`, and the
    /// position of the device entry inside it.
    pub fn lookup(&self, vendor: &str, class: &str, id: &str) -> (r: Option<(usize, usize)>)
        ensures
            match r {
                Some(p) => lookup_spec(self.specs.deep_view(), vendor@, class@, id@) == Some(
                    (p.0 as int, p.1 as int),
                ),
                None => lookup_spec(self.specs.deep_view(), vendor@, class@, id@) is None,
            },
    {
        let ghost specsv = self.specs.deep_view();
        let mut i: usize = 0;
        while i < self.specs.len()
            invariant
                i <= self.specs.len(),
                specsv == self.specs.deep_view(),
                forall|j: int| 0 <= j < i ==> !doc_hit(specsv, j, vendor@, class@, id@),
            decreases self.specs.len() - i,
        {
            proof {
                assert(specsv[i as int] == self.specs@[i as int].deep_view());
            }
            let kind_is = match parse_kind(self.specs[i].kind.as_str()) {
                Some(p) => str_eq(p.0.as_str(), vendor) && str_eq(p.1.as_str(), class),
                None => false,
            };
            if kind_is {
                match Self::find_device_in(&self.specs[i].devices, id) {
                    Some(d) => {
                        proof {
                            lemma_lookup_at(
                                specsv,
                                vendor@,
                                class@,
                                id@,
                                i as int,
                                d as int,
                            );
                        }
                        return Some((i, d));
                    },
                    None => {
                        proof {
                            assert(!doc_hit(specsv, i as int, vendor@, class@, id@));
                        }
                    },
                }
            } else {
                proof {
                    assert(!doc_hit(specsv, i as int, vendor@, class@, id@));
                }
            }
            i = i + 1;
        }
        proof {
            lemma_lookup(specsv, vendor@, class@, id@);
            match lookup_spec(specsv, vendor@, class@, id@) {
                Some(p) => {
                    assert(doc_hit(specsv, p.0, vendor@, class@, id@));
                },
                None => {},
            }
        }
        None
    }

    /// Find the first device entry named `id` in a document's device list.
    fn find_device_in(devices: &Vec<Device>, id: &str) -> (r: Option<usize>)
        ensures
            match r {
                Some(d) => find_device(devices.deep_view(), id@) == Some(d as int),
                None => find_device(devices.deep_view(), id@) is None,
            },
    {
        let ghost devsv = devices.deep_view();
        let mut j: usize = 0;
        while j < devices.len()
            invariant
                j <= devices.len(),
                devsv == devices.deep_view(),
                forall|k: int| 0 <= k < j ==> (#[trigger] devsv[k]).name != id@,
            decreases devices.len() - j,
        {
            proof {
                assert(devsv[j as int].name == devices@[j as int].name@);
            }
            if str_eq(devices[j].name.as_str(), id) {
                proof {
                    lemma_find_device_at(devsv, id@, j as int);
                }
                return Some(j);
            }
            j = j + 1;
        }
        proof {
            lemma_find_device(devsv, id@);
            match find_device(devsv, id@) {
                Some(d) => {
                    assert(devsv[d].name == id@);
                },
                None => {},
            }
        }
        None
    }

    /// Resolve a request list: collect each resolved device's edits in
    /// request order, each touched document's common edits once in
    /// first-touch order, and the names that matched nothing.
    pub fn resolve(&self, requests: &Vec<String>) -> (r: Resolution)
        ensures
            r.device_edits.deep_view() == resolved_edits(
                self.specs.deep_view(),
                requests.deep_view(),
            ),
            r.common_edits.deep_view() == common_of(
                self.specs.deep_view(),
                touched_idx(self.specs.deep_view(), requests.deep_view()),
            ),
            r.unresolved.deep_view() == unresolved_names(
                self.specs.deep_view(),
                requests.deep_view(),
            ),
    {
        let ghost specsv = self.specs.deep_view();
        let ghost reqsv = requests.deep_view();
        let mut device_edits: Vec<ContainerEdits> = Vec::new();
        let mut common_edits: Vec<ContainerEdits> = Vec::new();
        let mut unresolved: Vec<String> = Vec::new();
        let mut touched: Vec<usize> = Vec::new();
        let ghost mut ti: Seq<int> = Seq::empty();
        let mut i: usize = 0;
        while i < requests.len()
            invariant
                i <= requests.len(),
                specsv == self.specs.deep_view(),
                reqsv == requests.deep_view(),
                device_edits.deep_view() == resolved_edits(specsv, reqsv.take(i as int)),
                common_edits.deep_view() == common_of(specsv, ti),
                unresolved.deep_view() == unresolved_names(specsv, reqsv.take(i as int)),
                ti == touched_idx(specsv, reqsv.take(i as int)),
                touched@.len() == ti.len(),
                forall|k: int| 0 <= k < ti.len() ==> ti[k] == touched@[k] as int,
            decreases requests.len() - i,
        {
            let req = &requests[i];
            proof {
                assert(reqsv[i as int] == req@);
            }
            let ghost prev_de = device_edits.deep_view();
            let ghost prev_ce = common_edits.deep_view();
            let ghost prev_un = unresolved.deep_view();
            let ghost prev_ti = ti;
            let mut hit: Option<(usize, usize)> = None;
            match parse_device(req.as_str()) {
                Ok(p) => {
                    hit = self.lookup(p.0.as_str(), p.1.as_str(), p.2.as_str());
                },
                Err(_) => {},
            }
            proof {
                match hit {
                    Some(p) => {
                        assert(req_lookup(specsv, req@) == Some((p.0 as int, p.1 as int)));
                    },
                    None => {
                        assert(req_lookup(specsv, req@) is None);
                    },
                }
            }
            match hit {
                Some((s, d)) => {
                    proof {
                        lemma_lookup(specsv, parse_name_spec(req@)->Some_0.0,
                            parse_name_spec(req@)->Some_0.1, parse_name_spec(req@)->Some_0.2);
                        assert(0 <= s < self.specs.len());
                        lemma_find_device(specsv[s as int].devices, parse_name_spec(
                            req@,
                        )->Some_0.2);
                        assert(0 <= d < self.specs@[s as int].devices.len());
                        assert(specsv[s as int] == self.specs@[s as int].deep_view());
                        assert(specsv[s as int].devices[d as int]
                            == self.specs@[s as int].devices@[d as int].deep_view());
                    }
                    let edits = self.specs[s].devices[d].container_edits.duplicate();
                    device_edits.push(edits);
                    proof {
                        assert(device_edits.deep_view() =~= prev_de.push(
                            specsv[s as int].devices[d as int].container_edits,
                        ));
                    }
                    if !vec_contains_usize(&touched, s) {
                        proof {
                            assert(!prev_ti.contains(s as int)) by {
                                if prev_ti.contains(s as int) {
                                    let k = choose|k: int|
                                        0 <= k < prev_ti.len() && prev_ti[k] == s as int;
                                    assert(touched@[k] == s);
                                    assert(touched@.contains(s));
                                }
                            }
                        }
                        touched.push(s);
                        proof {
                            ti = prev_ti.push(s as int);
                        }
                        match &self.specs[s].container_edits {
                            Some(ce) => {
                                let c = ce.duplicate();
                                common_edits.push(c);
                                proof {
                                    assert(specsv[s as int].container_edits
                                        matches Some(e) && e == ce.deep_view());
                                    assert(common_edits.deep_view() =~= prev_ce.push(
                                        ce.deep_view(),
                                    ));
                                    assert(ti.drop_last() =~= prev_ti);
                                    assert(common_edits.deep_view() =~= common_of(specsv, ti));
                                }
                            },
                            None => {
                                proof {
                                    assert(specsv[s as int].container_edits is None);
                                    assert(ti.drop_last() =~= prev_ti);
                                    assert(common_edits.deep_view() =~= common_of(specsv, ti));
                                }
                            },
                        }
                    } else {
                        proof {
                            assert(prev_ti.contains(s as int)) by {
                                let k = choose|k: int|
                                    0 <= k < touched@.len() && touched@[k] == s;
                                assert(prev_ti[k] == s as int);
                            }
                        }
                    }
                },
                None => {
                    unresolved.push(req.clone());
                    proof {
                        assert(unresolved.deep_view() =~= prev_un.push(req@));
                    }
                },
            }
            i = i + 1;
            proof {
                let t = reqsv.take(i as int);
                assert(t.drop_last() =~= reqsv.take(i as int - 1));
                assert(t.last() == reqsv[i as int - 1]);
                assert(device_edits.deep_view() =~= resolved_edits(specsv, t));
                assert(unresolved.deep_view() =~= unresolved_names(specsv, t));
                assert(ti == touched_idx(specsv, t));
            }
        }
        proof {
            assert(reqsv.take(reqsv.len() as int) =~= reqsv);
        }
        Resolution { device_edits, common_edits, unresolved }
    }
}

/// Two requests resolving into the same document contribute that document's
/// common edits exactly once, not twice.
pub proof fn lemma_common_edits_once(
    specs: Seq<SpecV>,
    r1: Seq<char>,
    r2: Seq<char>,
    s: int,
    d1: int,
    d2: int,
)
    requires
        req_lookup(specs, r1) == Some((s, d1)),
        req_lookup(specs, r2) == Some((s, d2)),
    ensures
        touched_idx(specs, seq![r1, r2]) == seq![s],
        common_of(specs, touched_idx(specs, seq![r1, r2])) == (match specs[s].container_edits {
            Some(e) => seq![e],
            None => Seq::<EditsV>::empty(),
        }),
{
    let reqs = seq![r1, r2];
    let empty_reqs = Seq::<Seq<char>>::empty();
    assert(reqs.drop_last() =~= seq![r1]);
    assert(reqs.last() == r2);
    assert(seq![r1].drop_last() =~= empty_reqs);
    assert(seq![r1].last() == r1);
    assert(touched_idx(specs, empty_reqs) == Seq::<int>::empty());
    assert(touched_idx(specs, seq![r1]) == Seq::<int>::empty().push(s));
    let pre = touched_idx(specs, reqs.drop_last());
    assert(pre == Seq::<int>::empty().push(s));
    assert(pre.contains(s)) by {
        assert(pre[0] == s);
    }
    assert(touched_idx(specs, reqs) == pre);
    assert(pre =~= seq![s]);
    let t = seq![s];
    assert(t.drop_last() =~= Seq::<int>::empty());
    assert(t.last() == s);
    assert(common_of(specs, Seq::<int>::empty()) == Seq::<EditsV>::empty());
    match specs[s].container_edits {
        Some(e) => {
            assert(common_of(specs, t) =~= seq![e]);
        },
        None => {
            assert(common_of(specs, t) =~= Seq::<EditsV>::empty());
        },
    }
}

} // verus!
