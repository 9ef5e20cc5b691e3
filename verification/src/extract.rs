//! The device-request extractor.
//!
//! Requests are drawn from exactly one winning source, in this fixed order:
//! annotations first, then the volume-mount-encoded list (when the
//! configuration enables it), then the environment-variable list. Annotation
//! tokens must already be fully qualified; one unqualified token aborts the
//! whole request. Environment tokens are qualified with the configured
//! defaults and pass a privilege gate: unless the configuration allows
//! unprivileged environment requests or the container runs privileged, the
//! whole environment-sourced list is discarded.

use vstd::prelude::*;

use crate::device_spec::clone_strings;
use crate::errors::CdiError;
use crate::errors::CdiErrorV;
use crate::names::is_qualified_name;
use crate::names::is_qualified_spec;
use crate::names::qualify;
use crate::names::qualify_spec;
use crate::runtime::Config;
use crate::runtime::ConfigV;
use crate::runtime::RuntimeSpec;
use crate::runtime::RuntimeSpecV;
use crate::text::dedup_spec;
use crate::text::dedup_strings;
use crate::text::split_on_char;
use crate::text::split_spec;
use crate::text::str_starts_with;
use crate::text::vec_contains_str;

verus! {

/// Whether an annotation key is scanned: some configured prefix begins it.
pub open spec fn key_matches(key: Seq<char>, prefixes: Seq<Seq<char>>) -> bool {
    exists|p: int| 0 <= p < prefixes.len() && (#[trigger] prefixes[p]).is_prefix_of(key)
}

/// Every device token that the annotations contribute, in annotation order,
/// each matching annotation's value split on `,`.
pub open spec fn annotation_tokens(
    anns: Seq<(Seq<char>, Seq<char>)>,
    prefixes: Seq<Seq<char>>,
) -> Seq<Seq<char>>
    decreases anns.len(),
{
    if anns.len() == 0 {
        Seq::empty()
    } else {
        annotation_tokens(anns.drop_last(), prefixes) + (if key_matches(
            anns.last().0,
            prefixes,
        ) {
            split_spec(anns.last().1, ',')
        } else {
            Seq::empty()
        })
    }
}

/// Whether every token is a fully qualified name.
pub open spec fn tokens_all_qualified(toks: Seq<Seq<char>>) -> bool {
    forall|i: int| 0 <= i < toks.len() ==> is_qualified_spec(#[trigger] toks[i])
}

/// Environment tokens qualified with the configured defaults.
pub open spec fn qualify_all(names: Seq<Seq<char>>, dv: Seq<char>, dc: Seq<char>) -> Seq<
    Seq<char>,
> {
    names.map_values(|n: Seq<char>| qualify_spec(n, dv, dc))
}

/// The environment-sourced request: qualified, deduplicated, first-seen
/// order kept.
pub open spec fn env_devices(s: RuntimeSpecV, c: ConfigV) -> Seq<Seq<char>> {
    dedup_spec(qualify_all(s.env_device_list, c.default_vendor, c.default_class))
}

/// The extracted request: the first source that yields devices wins, and
/// the privilege gate may discard the environment-sourced list.
pub open spec fn extract_result(s: RuntimeSpecV, c: ConfigV) -> Seq<Seq<char>> {
    let ann = dedup_spec(annotation_tokens(s.annotations, c.annotation_prefixes));
    if ann.len() > 0 {
        ann
    } else if c.accept_device_list_as_volume_mounts && s.mount_device_list.len() > 0 {
        s.mount_device_list
    } else {
        let env = env_devices(s, c);
        if env.len() == 0 {
            env
        } else if c.accept_envvar_unprivileged || s.privileged {
            env
        } else {
            Seq::empty()
        }
    }
}

/// The shape of an annotation-extraction failure: the error names an
/// unqualified token and the matching annotation key it came from.
pub open spec fn annotation_error(
    e: CdiErrorV,
    anns: Seq<(Seq<char>, Seq<char>)>,
    prefixes: Seq<Seq<char>>,
) -> bool {
    e matches CdiErrorV::InvalidDeviceName { name, key } && !is_qualified_spec(name) && exists|
        a: int,
    |
        0 <= a < anns.len() && (#[trigger] anns[a]).0 == key && key_matches(key, prefixes)
            && split_spec(anns[a].1, ',').contains(name)
}

/// A token of a matching annotation stands among that annotation set's
/// tokens.
proof fn lemma_annotation_tokens_contains(
    anns: Seq<(Seq<char>, Seq<char>)>,
    prefixes: Seq<Seq<char>>,
    a: int,
    tok: Seq<char>,
)
    requires
        0 <= a < anns.len(),
        key_matches(anns[a].0, prefixes),
        split_spec(anns[a].1, ',').contains(tok),
    ensures
        annotation_tokens(anns, prefixes).contains(tok),
    decreases anns.len(),
{
    let whole = annotation_tokens(anns, prefixes);
    let front = annotation_tokens(anns.drop_last(), prefixes);
    if a == anns.len() - 1 {
        let part = split_spec(anns[a].1, ',');
        let k = choose|k: int| 0 <= k < part.len() && part[k] == tok;
        assert(whole[front.len() + k] == tok);
    } else {
        assert(anns.drop_last()[a] == anns[a]);
        lemma_annotation_tokens_contains(anns.drop_last(), prefixes, a, tok);
        let k = choose|k: int| 0 <= k < front.len() && front[k] == tok;
        assert(whole[k] == tok);
    }
}

/// Whether some configured prefix begins `key`, executably.
pub fn key_has_prefix(key: &str, prefixes: &Vec<String>) -> (r: bool)
    ensures
        r == key_matches(key@, prefixes.deep_view()),
{
    let mut i: usize = 0;
    while i < prefixes.len()
        invariant
            i <= prefixes.len(),
            forall|j: int| 0 <= j < i ==> !(#[trigger] prefixes.deep_view()[j]).is_prefix_of(key@),
        decreases prefixes.len() - i,
    {
        if str_starts_with(key, prefixes[i].as_str()) {
            proof {
                assert(prefixes.deep_view()[i as int].is_prefix_of(key@));
            }
            return true;
        }
        i = i + 1;
    }
    proof {
        if key_matches(key@, prefixes.deep_view()) {
            let pv = prefixes.deep_view();
            let p = choose|p: int| 0 <= p < pv.len() && (#[trigger] pv[p]).is_prefix_of(key@);
            assert(!prefixes.deep_view()[p].is_prefix_of(key@));
        }
    }
    false
}

/// Scan the annotations for device requests.
///
/// Keys matching a configured prefix contribute their value split on `,`;
/// every token must already be fully qualified, one that is not aborts the
/// extraction; the result is deduplicated keeping first-seen order.
pub fn get_annotation_devices(prefixes: &Vec<String>, annotations: &Vec<(String, String)>) -> (r:
    Result<Vec<String>, CdiError>)
    ensures
        r is Ok <==> tokens_all_qualified(
            annotation_tokens(annotations.deep_view(), prefixes.deep_view()),
        ),
        r matches Ok(v) ==> v.deep_view() == dedup_spec(
            annotation_tokens(annotations.deep_view(), prefixes.deep_view()),
        ),
        r matches Err(e) ==> annotation_error(
            e.deep_view(),
            annotations.deep_view(),
            prefixes.deep_view(),
        ),
{
    let ghost annsv = annotations.deep_view();
    let ghost prefv = prefixes.deep_view();
    let mut out: Vec<String> = Vec::new();
    let mut a: usize = 0;
    while a < annotations.len()
        invariant
            a <= annotations.len(),
            annsv == annotations.deep_view(),
            prefv == prefixes.deep_view(),
            tokens_all_qualified(annotation_tokens(annsv.take(a as int), prefv)),
            out.deep_view() == dedup_spec(annotation_tokens(annsv.take(a as int), prefv)),
        decreases annotations.len() - a,
    {
        let ghost done = annotation_tokens(annsv.take(a as int), prefv);
        proof {
            assert(annsv.take(a as int + 1).drop_last() =~= annsv.take(a as int));
            assert(annsv.take(a as int + 1).last() == annsv[a as int]);
            assert(annsv[a as int] == (annotations@[a as int].0@, annotations@[a as int].1@));
        }
        let key = &annotations[a].0;
        let value = &annotations[a].1;
        if key_has_prefix(key.as_str(), prefixes) {
            let toks = split_on_char(value.as_str(), ',');
            let ghost toksv = split_spec(value@, ',');
            let mut t: usize = 0;
            while t < toks.len()
                invariant
                    t <= toks.len(),
                    toks.deep_view() == toksv,
                    tokens_all_qualified(done + toksv.take(t as int)),
                    out.deep_view() == dedup_spec(done + toksv.take(t as int)),
                    annsv == annotations.deep_view(),
                    prefv == prefixes.deep_view(),
                    0 <= a < annsv.len(),
                    annsv[a as int].0 == key@,
                    annsv[a as int].1 == value@,
                    key_matches(key@, prefv),
                    done == annotation_tokens(annsv.take(a as int), prefv),
                    toksv == split_spec(value@, ','),
                decreases toks.len() - t,
            {
                let tok = &toks[t];
                proof {
                    assert(toksv[t as int] == tok@);
                }
                if !is_qualified_name(tok.as_str()) {
                    proof {
                        assert(toksv.contains(tok@));
                        lemma_annotation_tokens_contains(annsv, prefv, a as int, tok@);
                        let full = annotation_tokens(annsv, prefv);
                        let k = choose|k: int| 0 <= k < full.len() && full[k] == tok@;
                        assert(!tokens_all_qualified(full));
                    }
                    return Err(
                        CdiError::InvalidDeviceName { name: tok.clone(), key: key.clone() },
                    );
                }
                let ghost prev = done + toksv.take(t as int);
                if !vec_contains_str(&out, tok.as_str()) {
                    out.push(tok.clone());
                    proof {
                        assert(out.deep_view() =~= dedup_spec(prev).push(tok@));
                    }
                }
                t = t + 1;
                proof {
                    let cur = done + toksv.take(t as int);
                    assert(cur.drop_last() =~= prev);
                    assert(cur.last() == toksv[t as int - 1]);
                    assert forall|k: int| 0 <= k < cur.len() implies is_qualified_spec(
                        #[trigger] cur[k],
                    ) by {
                        if k < cur.len() - 1 {
                            assert(cur[k] == cur.drop_last()[k]);
                            assert(is_qualified_spec(prev[k]));
                        } else {
                            assert(cur[k] == toksv[t as int - 1]);
                        }
                    }
                }
            }
            proof {
                assert(toksv.take(toksv.len() as int) =~= toksv);
                assert(annotation_tokens(annsv.take(a as int + 1), prefv) == done + toksv);
            }
        } else {
            proof {
                assert(annotation_tokens(annsv.take(a as int + 1), prefv) =~= done);
                assert(!key_matches(annsv[a as int].0, prefv));
            }
        }
        a = a + 1;
    }
    proof {
        assert(annsv.take(annsv.len() as int) =~= annsv);
    }
    Ok(out)
}

/// Derive the ordered, deduplicated device request from a runtime
/// specification: annotations first, then the mount-encoded list when
/// enabled, then the privilege-gated environment list. An empty result
/// means no device modification is required, not an error.
pub fn get_devices_from_spec(oci_spec: &RuntimeSpec, cfg: &Config) -> (r: Result<
    Vec<String>,
    CdiError,
>)
    ensures
        r is Ok <==> tokens_all_qualified(
            annotation_tokens(
                oci_spec.deep_view().annotations,
                cfg.deep_view().annotation_prefixes,
            ),
        ),
        r matches Ok(v) ==> v.deep_view() == extract_result(oci_spec.deep_view(), cfg.deep_view()),
        r matches Err(e) ==> annotation_error(
            e.deep_view(),
            oci_spec.deep_view().annotations,
            cfg.deep_view().annotation_prefixes,
        ),
{
    let ann = match get_annotation_devices(&cfg.annotation_prefixes, &oci_spec.annotations) {
        Ok(v) => v,
        Err(e) => {
            proof {
                let annsv = oci_spec.annotations.deep_view();
                let prefv = cfg.annotation_prefixes.deep_view();
                if let CdiErrorV::InvalidDeviceName { name, key } = e.deep_view() {
                    let a = choose|a: int|
                        0 <= a < annsv.len() && (#[trigger] annsv[a]).0 == key && key_matches(
                            key,
                            prefv,
                        ) && split_spec(annsv[a].1, ',').contains(name);
                    assert(oci_spec.deep_view().annotations[a] == annsv[a]);
                }
            }
            return Err(e);
        },
    };
    if ann.len() > 0 {
        return Ok(ann);
    }
    if cfg.accept_device_list_as_volume_mounts && oci_spec.mount_device_list.len() > 0 {
        return Ok(clone_strings(&oci_spec.mount_device_list));
    }
    let ghost listv = oci_spec.deep_view().env_device_list;
    let ghost dv = cfg.deep_view().default_vendor;
    let ghost dc = cfg.deep_view().default_class;
    let mut qualified: Vec<String> = Vec::new();
    let mut i: usize = 0;
    while i < oci_spec.env_device_list.len()
        invariant
            i <= oci_spec.env_device_list.len(),
            listv == oci_spec.deep_view().env_device_list,
            dv == cfg.deep_view().default_vendor,
            dc == cfg.deep_view().default_class,
            qualified.deep_view() == qualify_all(listv.take(i as int), dv, dc),
        decreases oci_spec.env_device_list.len() - i,
    {
        let q = qualify(
            oci_spec.env_device_list[i].as_str(),
            cfg.default_vendor.as_str(),
            cfg.default_class.as_str(),
        );
        let ghost prevq = qualified.deep_view();
        let ghost qv = q@;
        qualified.push(q);
        i = i + 1;
        proof {
            assert(listv[i as int - 1] == oci_spec.env_device_list@[i as int - 1]@);
            assert(qv == qualify_spec(listv[i as int - 1], dv, dc));
            assert(qualified.deep_view() =~= prevq.push(qv));
            assert(qualify_all(listv.take(i as int), dv, dc) =~= prevq.push(qv));
        }
    }
    proof {
        assert(listv.take(listv.len() as int) =~= listv);
    }
    let deduped = dedup_strings(&qualified);
    if deduped.len() == 0 {
        proof {
            assert(env_devices(oci_spec.deep_view(), cfg.deep_view()).len() == 0);
        }
        return Ok(deduped);
    }
    if cfg.accept_envvar_unprivileged || oci_spec.is_privileged() {
        return Ok(deduped);
    }
    let none: Vec<String> = Vec::new();
    proof {
        assert(none.deep_view() =~= Seq::<Seq<char>>::empty());
    }
    Ok(none)
}

/// The privilege gate: with annotations and the mount-encoded list yielding
/// nothing, an unprivileged container's environment-sourced request is
/// discarded under a configuration that forbids it, and the identical input
/// yields the qualified, deduplicated list under one that allows it.
pub proof fn lemma_privilege_gate(s: RuntimeSpecV, deny: ConfigV, allow: ConfigV)
    requires
        !s.privileged,
        !deny.accept_envvar_unprivileged,
        allow.accept_envvar_unprivileged,
        allow.annotation_prefixes == deny.annotation_prefixes,
        allow.default_vendor == deny.default_vendor,
        allow.default_class == deny.default_class,
        allow.accept_device_list_as_volume_mounts == deny.accept_device_list_as_volume_mounts,
        dedup_spec(annotation_tokens(s.annotations, deny.annotation_prefixes)).len() == 0,
        !(deny.accept_device_list_as_volume_mounts && s.mount_device_list.len() > 0),
    ensures
        extract_result(s, deny) == Seq::<Seq<char>>::empty(),
        extract_result(s, allow) == env_devices(s, allow),
{
    let env = env_devices(s, deny);
    assert(env_devices(s, allow) == env);
    if env.len() == 0 {
        assert(extract_result(s, deny) =~= Seq::<Seq<char>>::empty());
    }
}

} // verus!
