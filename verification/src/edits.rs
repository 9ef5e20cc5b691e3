//! The container-edit merger.
//!
//! `merge` combines two edit sets: each optional list field is concatenated
//! in call order, and a field absent in both inputs stays absent. `apply`
//! writes a merged edit set into a copy of a target runtime specification:
//! lists are appended, supplementary group IDs are unioned without
//! duplicates, and a resource-control block replaces the target's block
//! whole. `apply` never removes an existing target entry, and never mutates
//! its input; applying the same edits twice duplicates entries by design, so
//! idempotence is the caller's responsibility.

use vstd::prelude::*;

use crate::device_spec::clone_hooks;
use crate::device_spec::clone_mounts;
use crate::device_spec::clone_nodes;
use crate::device_spec::clone_strings;
use crate::device_spec::clone_u32s;
use crate::device_spec::empty_edits;
use crate::device_spec::ContainerEdits;
use crate::device_spec::DeviceNode;
use crate::device_spec::EditsV;
use crate::device_spec::Hook;
use crate::device_spec::Mount;
use crate::runtime::RuntimeSpec;
use crate::runtime::RuntimeSpecV;

verus! {

/// Concatenation of optional sequences: absent in both stays absent.
pub open spec fn opt_cat<T>(a: Option<Seq<T>>, b: Option<Seq<T>>) -> Option<Seq<T>> {
    match (a, b) {
        (Option::None, Option::None) => None,
        (Option::Some(x), Option::None) => Some(x),
        (Option::None, Option::Some(y)) => Some(y),
        (Option::Some(x), Option::Some(y)) => Some(x + y),
    }
}

/// The merge of two edit sets, field by field, `a` before `b`.
pub open spec fn merge_views(a: EditsV, b: EditsV) -> EditsV {
    EditsV {
        env: opt_cat(a.env, b.env),
        device_nodes: opt_cat(a.device_nodes, b.device_nodes),
        hooks: opt_cat(a.hooks, b.hooks),
        mounts: opt_cat(a.mounts, b.mounts),
        intel_rdt: if b.intel_rdt is Some {
            b.intel_rdt
        } else {
            a.intel_rdt
        },
        additional_gids: opt_cat(a.additional_gids, b.additional_gids),
    }
}

/// The merge of a whole sequence of edit sets, in order.
pub open spec fn merge_seq(l: Seq<EditsV>) -> EditsV
    decreases l.len(),
{
    if l.len() == 0 {
        empty_edits()
    } else {
        merge_views(merge_seq(l.drop_last()), l.last())
    }
}

/// Append copies of `src`'s entries to `dst`.
pub fn extend_strings(dst: &mut Vec<String>, src: &Vec<String>)
    ensures
        final(dst)@ == old(dst)@ + src@,
{
    let mut i: usize = 0;
    while i < src.len()
        invariant
            i <= src.len(),
            dst@ == old(dst)@ + src@.take(i as int),
        decreases src.len() - i,
    {
        dst.push(src[i].clone());
        proof {
            assert(dst@ =~= old(dst)@ + src@.take(i as int + 1));
        }
        i = i + 1;
    }
    proof {
        assert(old(dst)@ + src@.take(src@.len() as int) =~= old(dst)@ + src@);
    }
}

/// Append copies of `src`'s entries to `dst`.
pub fn extend_nodes(dst: &mut Vec<DeviceNode>, src: &Vec<DeviceNode>)
    ensures
        final(dst)@ == old(dst)@ + src@,
{
    let mut i: usize = 0;
    while i < src.len()
        invariant
            i <= src.len(),
            dst@ == old(dst)@ + src@.take(i as int),
        decreases src.len() - i,
    {
        dst.push(src[i].duplicate());
        proof {
            assert(dst@ =~= old(dst)@ + src@.take(i as int + 1));
        }
        i = i + 1;
    }
    proof {
        assert(old(dst)@ + src@.take(src@.len() as int) =~= old(dst)@ + src@);
    }
}

/// Append copies of `src`'s entries to `dst`.
pub fn extend_mounts(dst: &mut Vec<Mount>, src: &Vec<Mount>)
    ensures
        final(dst).deep_view() == old(dst).deep_view() + src.deep_view(),
{
    let mut i: usize = 0;
    while i < src.len()
        invariant
            i <= src.len(),
            dst.deep_view() == old(dst).deep_view() + src.deep_view().take(i as int),
        decreases src.len() - i,
    {
        let ghost prev = dst.deep_view();
        let m = src[i].duplicate();
        let ghost mv = m.deep_view();
        dst.push(m);
        proof {
            assert(src.deep_view()[i as int] == src@[i as int].deep_view());
            assert(dst.deep_view() =~= prev.push(mv));
            assert(dst.deep_view() =~= old(dst).deep_view() + src.deep_view().take(i as int + 1));
        }
        i = i + 1;
    }
    proof {
        assert(old(dst).deep_view() + src.deep_view().take(src.deep_view().len() as int)
            =~= old(dst).deep_view() + src.deep_view());
    }
}

/// Append copies of `src`'s entries to `dst`.
pub fn extend_hooks(dst: &mut Vec<Hook>, src: &Vec<Hook>)
    ensures
        final(dst).deep_view() == old(dst).deep_view() + src.deep_view(),
{
    let mut i: usize = 0;
    while i < src.len()
        invariant
            i <= src.len(),
            dst.deep_view() == old(dst).deep_view() + src.deep_view().take(i as int),
        decreases src.len() - i,
    {
        let ghost prev = dst.deep_view();
        let h = src[i].duplicate();
        let ghost hv = h.deep_view();
        dst.push(h);
        proof {
            assert(src.deep_view()[i as int] == src@[i as int].deep_view());
            assert(dst.deep_view() =~= prev.push(hv));
            assert(dst.deep_view() =~= old(dst).deep_view() + src.deep_view().take(i as int + 1));
        }
        i = i + 1;
    }
    proof {
        assert(old(dst).deep_view() + src.deep_view().take(src.deep_view().len() as int)
            =~= old(dst).deep_view() + src.deep_view());
    }
}

/// Append copies of `src`'s entries to `dst`.
pub fn extend_u32s(dst: &mut Vec<u32>, src: &Vec<u32>)
    ensures
        final(dst)@ == old(dst)@ + src@,
{
    let mut i: usize = 0;
    while i < src.len()
        invariant
            i <= src.len(),
            dst@ == old(dst)@ + src@.take(i as int),
        decreases src.len() - i,
    {
        dst.push(src[i]);
        proof {
            assert(dst@ =~= old(dst)@ + src@.take(i as int + 1));
        }
        i = i + 1;
    }
    proof {
        assert(old(dst)@ + src@.take(src@.len() as int) =~= old(dst)@ + src@);
    }
}

/// Merge two edit sets: `a`'s entries first, then `b`'s.
pub fn merge(a: &ContainerEdits, b: &ContainerEdits) -> (r: ContainerEdits)
    ensures
        r.deep_view() == merge_views(a.deep_view(), b.deep_view()),
{
    let env = match (&a.env, &b.env) {
        (None, None) => None,
        (Some(x), None) => Some(clone_strings(x)),
        (None, Some(y)) => Some(clone_strings(y)),
        (Some(x), Some(y)) => {
            let mut v = clone_strings(x);
            extend_strings(&mut v, y);
            Some(v)
        },
    };
    let device_nodes = match (&a.device_nodes, &b.device_nodes) {
        (None, None) => None,
        (Some(x), None) => Some(clone_nodes(x)),
        (None, Some(y)) => Some(clone_nodes(y)),
        (Some(x), Some(y)) => {
            let mut v = clone_nodes(x);
            extend_nodes(&mut v, y);
            Some(v)
        },
    };
    let hooks = match (&a.hooks, &b.hooks) {
        (None, None) => None,
        (Some(x), None) => Some(clone_hooks(x)),
        (None, Some(y)) => Some(clone_hooks(y)),
        (Some(x), Some(y)) => {
            let mut v = clone_hooks(x);
            extend_hooks(&mut v, y);
            Some(v)
        },
    };
    let mounts = match (&a.mounts, &b.mounts) {
        (None, None) => None,
        (Some(x), None) => Some(clone_mounts(x)),
        (None, Some(y)) => Some(clone_mounts(y)),
        (Some(x), Some(y)) => {
            let mut v = clone_mounts(x);
            extend_mounts(&mut v, y);
            Some(v)
        },
    };
    let intel_rdt = match (&a.intel_rdt, &b.intel_rdt) {
        (_, Some(y)) => Some(y.duplicate()),
        (Some(x), None) => Some(x.duplicate()),
        (None, None) => None,
    };
    let additional_gids = match (&a.additional_gids, &b.additional_gids) {
        (None, None) => None,
        (Some(x), None) => Some(clone_u32s(x)),
        (None, Some(y)) => Some(clone_u32s(y)),
        (Some(x), Some(y)) => {
            let mut v = clone_u32s(x);
            extend_u32s(&mut v, y);
            Some(v)
        },
    };
    let r = ContainerEdits { env, device_nodes, hooks, mounts, intel_rdt, additional_gids };
    proof {
        assert(r.deep_view() =~= merge_views(a.deep_view(), b.deep_view()));
    }
    r
}

/// Merge a whole list of edit sets, in order.
pub fn merge_all(edits: &Vec<ContainerEdits>) -> (r: ContainerEdits)
    ensures
        r.deep_view() == merge_seq(edits.deep_view()),
{
    let mut acc = ContainerEdits::empty();
    let mut i: usize = 0;
    while i < edits.len()
        invariant
            i <= edits.len(),
            acc.deep_view() == merge_seq(edits.deep_view().take(i as int)),
        decreases edits.len() - i,
    {
        acc = merge(&acc, &edits[i]);
        i = i + 1;
        proof {
            let t = edits.deep_view().take(i as int);
            assert(t.drop_last() =~= edits.deep_view().take(i as int - 1));
            assert(t.last() == edits.deep_view()[i as int - 1]);
            assert(edits.deep_view()[i as int - 1] == edits@[i as int - 1].deep_view());
        }
    }
    proof {
        assert(edits.deep_view().take(edits.deep_view().len() as int) =~= edits.deep_view());
    }
    acc
}

/// Base sequence with an optional addition appended.
pub open spec fn opt_append<T>(base: Seq<T>, add: Option<Seq<T>>) -> Seq<T> {
    match add {
        Option::Some(x) => base + x,
        Option::None => base,
    }
}

/// Group IDs of `add` united into `base`: an ID already present is not
/// added again, and new IDs keep their first-seen order.
pub open spec fn union_gids(base: Seq<u32>, add: Seq<u32>) -> Seq<u32>
    decreases add.len(),
{
    if add.len() == 0 {
        base
    } else {
        let pre = union_gids(base, add.drop_last());
        if pre.contains(add.last()) {
            pre
        } else {
            pre.push(add.last())
        }
    }
}

/// The result of writing an edit set into a target specification.
pub open spec fn apply_views(e: EditsV, t: RuntimeSpecV) -> RuntimeSpecV {
    RuntimeSpecV {
        annotations: t.annotations,
        process_env: opt_append(t.process_env, e.env),
        mounts: opt_append(t.mounts, e.mounts),
        device_nodes: opt_append(t.device_nodes, e.device_nodes),
        hooks: opt_append(t.hooks, e.hooks),
        intel_rdt: if e.intel_rdt is Some {
            e.intel_rdt
        } else {
            t.intel_rdt
        },
        additional_gids: match e.additional_gids {
            Option::Some(g) => union_gids(t.additional_gids, g),
            Option::None => t.additional_gids,
        },
        privileged: t.privileged,
        mount_device_list: t.mount_device_list,
        env_device_list: t.env_device_list,
    }
}

/// Whether `v` holds `x`.
pub fn vec_contains_u32(v: &Vec<u32>, x: u32) -> (r: bool)
    ensures
        r == v@.contains(x),
{
    let mut i: usize = 0;
    while i < v.len()
        invariant
            i <= v.len(),
            forall|j: int| 0 <= j < i ==> v@[j] != x,
        decreases v.len() - i,
    {
        if v[i] == x {
            return true;
        }
        i = i + 1;
    }
    proof {
        if v@.contains(x) {
            let k = choose|k: int| 0 <= k < v@.len() && v@[k] == x;
            assert(v@[k] != x);
        }
    }
    false
}

/// Union of group IDs, executably.
pub fn union_gids_exec(base: &Vec<u32>, add: &Vec<u32>) -> (r: Vec<u32>)
    ensures
        r@ == union_gids(base@, add@),
{
    let mut out = clone_u32s(base);
    let mut i: usize = 0;
    while i < add.len()
        invariant
            i <= add.len(),
            out@ == union_gids(base@, add@.take(i as int)),
        decreases add.len() - i,
    {
        if !vec_contains_u32(&out, add[i]) {
            out.push(add[i]);
        }
        i = i + 1;
        proof {
            let t = add@.take(i as int);
            assert(t.drop_last() =~= add@.take(i as int - 1));
            assert(t.last() == add@[i as int - 1]);
        }
    }
    proof {
        assert(add@.take(add@.len() as int) =~= add@);
    }
    out
}

/// Write `edits` into a copy of `target`. The target itself is never
/// mutated, and no existing entry of it is removed.
pub fn apply(edits: &ContainerEdits, target: &RuntimeSpec) -> (r: RuntimeSpec)
    ensures
        r.deep_view() == apply_views(edits.deep_view(), target.deep_view()),
{
    let mut out = target.duplicate();
    match &edits.env {
        Some(v) => extend_strings(&mut out.process_env, v),
        None => {},
    }
    match &edits.mounts {
        Some(v) => extend_mounts(&mut out.mounts, v),
        None => {},
    }
    match &edits.device_nodes {
        Some(v) => extend_nodes(&mut out.device_nodes, v),
        None => {},
    }
    match &edits.hooks {
        Some(v) => extend_hooks(&mut out.hooks, v),
        None => {},
    }
    match &edits.intel_rdt {
        Some(v) => {
            out.intel_rdt = Some(v.duplicate());
        },
        None => {},
    }
    match &edits.additional_gids {
        Some(v) => {
            proof {
                assert(v.deep_view() =~= v@);
            }
            let united = union_gids_exec(&out.additional_gids, v);
            out.additional_gids = united;
        },
        None => {},
    }
    proof {
        let ev = edits.deep_view();
        let tv = target.deep_view();
        assert(out.process_env.deep_view() =~= opt_append(tv.process_env, ev.env));
        assert(out.mounts.deep_view() =~= opt_append(tv.mounts, ev.mounts));
        assert(out.device_nodes.deep_view() =~= opt_append(tv.device_nodes, ev.device_nodes));
        assert(out.hooks.deep_view() =~= opt_append(tv.hooks, ev.hooks));
        assert(out.deep_view() =~= apply_views(ev, tv));
    }
    out
}

} // verus!
