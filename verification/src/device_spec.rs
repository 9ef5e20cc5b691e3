//! The declarative device-specification model.
//!
//! A `Spec` is a versioned document: a `kind` (`vendor/class`), optional
//! annotations, an ordered sequence of `Device` entries, and optional
//! registry-wide common edits applied to every container that references any
//! device of the document. A `Device` carries the edits specific to one
//! device. `ContainerEdits` is the unit of modification; all of its list
//! fields are optional, and an absent field is distinct from an empty one.
//!
//! Each exec type has a ghost view (`…V`) over sequences and plain values;
//! the engine's contracts are stated over those views.

use vstd::prelude::*;

verus! {

/// A declarative device-specification document.
#[derive(Debug)]
pub struct Spec {
    pub version: String,
    pub kind: String,
    pub annotations: Option<Vec<(String, String)>>,
    pub devices: Vec<Device>,
    pub container_edits: Option<ContainerEdits>,
}

/// One device of a `Spec`: a bare identifier (the document supplies vendor
/// and class) and the edits that grant access to it.
#[derive(Debug)]
pub struct Device {
    pub name: String,
    pub annotations: Option<Vec<(String, String)>>,
    pub container_edits: ContainerEdits,
}

/// The unit of modification: every field is optional, and an absent list is
/// distinct from an empty one.
#[derive(Debug)]
pub struct ContainerEdits {
    pub env: Option<Vec<String>>,
    pub device_nodes: Option<Vec<DeviceNode>>,
    pub hooks: Option<Vec<Hook>>,
    pub mounts: Option<Vec<Mount>>,
    pub intel_rdt: Option<IntelRdt>,
    pub additional_gids: Option<Vec<u32>>,
}

/// A device special file to create inside the container.
#[derive(Debug)]
pub struct DeviceNode {
    pub path: String,
    pub host_path: Option<String>,
    pub node_type: Option<String>,
    pub major: Option<i64>,
    pub minor: Option<i64>,
    pub file_mode: Option<u32>,
    pub permissions: Option<String>,
    pub uid: Option<u32>,
    pub gid: Option<u32>,
}

/// A host-to-container bind description.
#[derive(Debug)]
pub struct Mount {
    pub host_path: String,
    pub container_path: String,
    pub options: Option<Vec<String>>,
    pub mount_type: Option<String>,
}

/// A lifecycle-hook invocation description.
#[derive(Debug)]
pub struct Hook {
    pub hook_name: String,
    pub path: String,
    pub args: Option<Vec<String>>,
    pub env: Option<Vec<String>>,
    pub timeout: Option<i32>,
}

/// A resource-control block; replaced whole, never merged field by field.
#[derive(Debug)]
pub struct IntelRdt {
    pub clos_id: Option<String>,
    pub l3_cache_schema: Option<String>,
    pub mem_bw_schema: Option<String>,
    pub enable_cmt: Option<bool>,
    pub enable_mbm: Option<bool>,
}

#[verifier::ext_equal]
pub ghost struct SpecV {
    pub version: Seq<char>,
    pub kind: Seq<char>,
    pub annotations: Option<Seq<(Seq<char>, Seq<char>)>>,
    pub devices: Seq<DeviceV>,
    pub container_edits: Option<EditsV>,
}

#[verifier::ext_equal]
pub ghost struct DeviceV {
    pub name: Seq<char>,
    pub annotations: Option<Seq<(Seq<char>, Seq<char>)>>,
    pub container_edits: EditsV,
}

#[verifier::ext_equal]
pub ghost struct EditsV {
    pub env: Option<Seq<Seq<char>>>,
    pub device_nodes: Option<Seq<DeviceNodeV>>,
    pub hooks: Option<Seq<HookV>>,
    pub mounts: Option<Seq<MountV>>,
    pub intel_rdt: Option<IntelRdtV>,
    pub additional_gids: Option<Seq<u32>>,
}

#[verifier::ext_equal]
pub ghost struct DeviceNodeV {
    pub path: Seq<char>,
    pub host_path: Option<Seq<char>>,
    pub node_type: Option<Seq<char>>,
    pub major: Option<i64>,
    pub minor: Option<i64>,
    pub file_mode: Option<u32>,
    pub permissions: Option<Seq<char>>,
    pub uid: Option<u32>,
    pub gid: Option<u32>,
}

#[verifier::ext_equal]
pub ghost struct MountV {
    pub host_path: Seq<char>,
    pub container_path: Seq<char>,
    pub options: Option<Seq<Seq<char>>>,
    pub mount_type: Option<Seq<char>>,
}

#[verifier::ext_equal]
pub ghost struct HookV {
    pub hook_name: Seq<char>,
    pub path: Seq<char>,
    pub args: Option<Seq<Seq<char>>>,
    pub env: Option<Seq<Seq<char>>>,
    pub timeout: Option<i32>,
}

#[verifier::ext_equal]
pub ghost struct IntelRdtV {
    pub clos_id: Option<Seq<char>>,
    pub l3_cache_schema: Option<Seq<char>>,
    pub mem_bw_schema: Option<Seq<char>>,
    pub enable_cmt: Option<bool>,
    pub enable_mbm: Option<bool>,
}

impl DeepView for Spec {
    type V = SpecV;

    open spec fn deep_view(&self) -> SpecV {
        SpecV {
            version: self.version@,
            kind: self.kind@,
            annotations: self.annotations.deep_view(),
            devices: self.devices.deep_view(),
            container_edits: self.container_edits.deep_view(),
        }
    }
}

impl DeepView for Device {
    type V = DeviceV;

    open spec fn deep_view(&self) -> DeviceV {
        DeviceV {
            name: self.name@,
            annotations: self.annotations.deep_view(),
            container_edits: self.container_edits.deep_view(),
        }
    }
}

impl DeepView for ContainerEdits {
    type V = EditsV;

    open spec fn deep_view(&self) -> EditsV {
        EditsV {
            env: self.env.deep_view(),
            device_nodes: self.device_nodes.deep_view(),
            hooks: self.hooks.deep_view(),
            mounts: self.mounts.deep_view(),
            intel_rdt: self.intel_rdt.deep_view(),
            additional_gids: self.additional_gids.deep_view(),
        }
    }
}

impl DeepView for DeviceNode {
    type V = DeviceNodeV;

    open spec fn deep_view(&self) -> DeviceNodeV {
        DeviceNodeV {
            path: self.path@,
            host_path: self.host_path.deep_view(),
            node_type: self.node_type.deep_view(),
            major: self.major,
            minor: self.minor,
            file_mode: self.file_mode,
            permissions: self.permissions.deep_view(),
            uid: self.uid,
            gid: self.gid,
        }
    }
}

impl DeepView for Mount {
    type V = MountV;

    open spec fn deep_view(&self) -> MountV {
        MountV {
            host_path: self.host_path@,
            container_path: self.container_path@,
            options: self.options.deep_view(),
            mount_type: self.mount_type.deep_view(),
        }
    }
}

impl DeepView for Hook {
    type V = HookV;

    open spec fn deep_view(&self) -> HookV {
        HookV {
            hook_name: self.hook_name@,
            path: self.path@,
            args: self.args.deep_view(),
            env: self.env.deep_view(),
            timeout: self.timeout,
        }
    }
}

impl DeepView for IntelRdt {
    type V = IntelRdtV;

    open spec fn deep_view(&self) -> IntelRdtV {
        IntelRdtV {
            clos_id: self.clos_id.deep_view(),
            l3_cache_schema: self.l3_cache_schema.deep_view(),
            mem_bw_schema: self.mem_bw_schema.deep_view(),
            enable_cmt: self.enable_cmt,
            enable_mbm: self.enable_mbm,
        }
    }
}

/// Copy of a vector of strings.
pub fn clone_strings(v: &Vec<String>) -> (r: Vec<String>)
    ensures
        r@ == v@,
        r.deep_view() == v.deep_view(),
{
    let mut out: Vec<String> = Vec::new();
    let mut i: usize = 0;
    while i < v.len()
        invariant
            i <= v.len(),
            out@ == v@.take(i as int),
        decreases v.len() - i,
    {
        out.push(v[i].clone());
        proof {
            assert(out@ =~= v@.take(i as int + 1));
        }
        i = i + 1;
    }
    proof {
        assert(v@.take(v@.len() as int) =~= v@);
        assert(out.deep_view() =~= v.deep_view());
    }
    out
}

/// Copy of an optional vector of strings.
pub fn clone_opt_strings(v: &Option<Vec<String>>) -> (r: Option<Vec<String>>)
    ensures
        r.deep_view() == v.deep_view(),
        r is Some <==> v is Some,
{
    match v {
        Some(inner) => Some(clone_strings(inner)),
        None => None,
    }
}

/// Copy of an optional string.
pub fn clone_opt_string(v: &Option<String>) -> (r: Option<String>)
    ensures
        r == *v,
{
    match v {
        Some(s) => Some(s.clone()),
        None => None,
    }
}

/// Copy of a vector of group IDs.
pub fn clone_u32s(v: &Vec<u32>) -> (r: Vec<u32>)
    ensures
        r@ == v@,
{
    let mut out: Vec<u32> = Vec::new();
    let mut i: usize = 0;
    while i < v.len()
        invariant
            i <= v.len(),
            out@ == v@.take(i as int),
        decreases v.len() - i,
    {
        out.push(v[i]);
        proof {
            assert(out@ =~= v@.take(i as int + 1));
        }
        i = i + 1;
    }
    proof {
        assert(v@.take(v@.len() as int) =~= v@);
    }
    out
}

/// Copy of a vector of key-value annotation pairs.
pub fn clone_annotations(v: &Vec<(String, String)>) -> (r: Vec<(String, String)>)
    ensures
        r@ == v@,
        r.deep_view() == v.deep_view(),
{
    let mut out: Vec<(String, String)> = Vec::new();
    let mut i: usize = 0;
    while i < v.len()
        invariant
            i <= v.len(),
            out@ == v@.take(i as int),
        decreases v.len() - i,
    {
        let pair = (v[i].0.clone(), v[i].1.clone());
        out.push(pair);
        proof {
            assert(out@ =~= v@.take(i as int + 1));
        }
        i = i + 1;
    }
    proof {
        assert(v@.take(v@.len() as int) =~= v@);
        assert(out.deep_view() =~= v.deep_view());
    }
    out
}

impl DeviceNode {
    /// Copy with the same value.
    pub fn duplicate(&self) -> (r: DeviceNode)
        ensures
            r == *self,
    {
        DeviceNode {
            path: self.path.clone(),
            host_path: clone_opt_string(&self.host_path),
            node_type: clone_opt_string(&self.node_type),
            major: self.major,
            minor: self.minor,
            file_mode: self.file_mode,
            permissions: clone_opt_string(&self.permissions),
            uid: self.uid,
            gid: self.gid,
        }
    }
}

impl Mount {
    /// Copy with the same view.
    pub fn duplicate(&self) -> (r: Mount)
        ensures
            r.deep_view() == self.deep_view(),
    {
        let r = Mount {
            host_path: self.host_path.clone(),
            container_path: self.container_path.clone(),
            options: clone_opt_strings(&self.options),
            mount_type: clone_opt_string(&self.mount_type),
        };
        proof {
            assert(r.deep_view() =~= self.deep_view());
        }
        r
    }
}

impl Hook {
    /// Copy with the same view.
    pub fn duplicate(&self) -> (r: Hook)
        ensures
            r.deep_view() == self.deep_view(),
    {
        let r = Hook {
            hook_name: self.hook_name.clone(),
            path: self.path.clone(),
            args: clone_opt_strings(&self.args),
            env: clone_opt_strings(&self.env),
            timeout: self.timeout,
        };
        proof {
            assert(r.deep_view() =~= self.deep_view());
        }
        r
    }
}

impl IntelRdt {
    /// Copy with the same value.
    pub fn duplicate(&self) -> (r: IntelRdt)
        ensures
            r == *self,
    {
        IntelRdt {
            clos_id: clone_opt_string(&self.clos_id),
            l3_cache_schema: clone_opt_string(&self.l3_cache_schema),
            mem_bw_schema: clone_opt_string(&self.mem_bw_schema),
            enable_cmt: self.enable_cmt,
            enable_mbm: self.enable_mbm,
        }
    }
}

/// Copy of a vector of device nodes.
pub fn clone_nodes(v: &Vec<DeviceNode>) -> (r: Vec<DeviceNode>)
    ensures
        r@ == v@,
        r.deep_view() == v.deep_view(),
{
    let mut out: Vec<DeviceNode> = Vec::new();
    let mut i: usize = 0;
    while i < v.len()
        invariant
            i <= v.len(),
            out@ == v@.take(i as int),
        decreases v.len() - i,
    {
        out.push(v[i].duplicate());
        proof {
            assert(out@ =~= v@.take(i as int + 1));
        }
        i = i + 1;
    }
    proof {
        assert(v@.take(v@.len() as int) =~= v@);
        assert(out.deep_view() =~= v.deep_view());
    }
    out
}

/// Copy of a vector of mounts.
pub fn clone_mounts(v: &Vec<Mount>) -> (r: Vec<Mount>)
    ensures
        r.deep_view() == v.deep_view(),
{
    let mut out: Vec<Mount> = Vec::new();
    let mut i: usize = 0;
    while i < v.len()
        invariant
            i <= v.len(),
            out.deep_view() == v.deep_view().take(i as int),
        decreases v.len() - i,
    {
        let ghost prev = out.deep_view();
        let m = v[i].duplicate();
        let ghost mv = m.deep_view();
        out.push(m);
        proof {
            assert(v.deep_view()[i as int] == v@[i as int].deep_view());
            assert(out.deep_view() =~= prev.push(mv));
            assert(prev.push(mv) =~= v.deep_view().take(i as int + 1));
        }
        i = i + 1;
    }
    proof {
        assert(v.deep_view().take(v.deep_view().len() as int) =~= v.deep_view());
    }
    out
}

/// Copy of a vector of hooks.
pub fn clone_hooks(v: &Vec<Hook>) -> (r: Vec<Hook>)
    ensures
        r.deep_view() == v.deep_view(),
{
    let mut out: Vec<Hook> = Vec::new();
    let mut i: usize = 0;
    while i < v.len()
        invariant
            i <= v.len(),
            out.deep_view() == v.deep_view().take(i as int),
        decreases v.len() - i,
    {
        let ghost prev = out.deep_view();
        let h = v[i].duplicate();
        let ghost hv = h.deep_view();
        out.push(h);
        proof {
            assert(v.deep_view()[i as int] == v@[i as int].deep_view());
            assert(out.deep_view() =~= prev.push(hv));
            assert(prev.push(hv) =~= v.deep_view().take(i as int + 1));
        }
        i = i + 1;
    }
    proof {
        assert(v.deep_view().take(v.deep_view().len() as int) =~= v.deep_view());
    }
    out
}

impl ContainerEdits {
    /// The edit set that changes nothing: every field absent.
    pub fn empty() -> (r: ContainerEdits)
        ensures
            r.deep_view() == empty_edits(),
    {
        ContainerEdits {
            env: None,
            device_nodes: None,
            hooks: None,
            mounts: None,
            intel_rdt: None,
            additional_gids: None,
        }
    }

    /// Copy with the same view.
    pub fn duplicate(&self) -> (r: ContainerEdits)
        ensures
            r.deep_view() == self.deep_view(),
    {
        let r = ContainerEdits {
            env: clone_opt_strings(&self.env),
            device_nodes: match &self.device_nodes {
                Some(v) => Some(clone_nodes(v)),
                None => None,
            },
            hooks: match &self.hooks {
                Some(v) => Some(clone_hooks(v)),
                None => None,
            },
            mounts: match &self.mounts {
                Some(v) => Some(clone_mounts(v)),
                None => None,
            },
            intel_rdt: match &self.intel_rdt {
                Some(v) => Some(v.duplicate()),
                None => None,
            },
            additional_gids: match &self.additional_gids {
                Some(v) => Some(clone_u32s(v)),
                None => None,
            },
        };
        proof {
            assert(r.deep_view() =~= self.deep_view());
        }
        r
    }
}

impl Device {
    /// Copy with the same view.
    pub fn duplicate(&self) -> (r: Device)
        ensures
            r.deep_view() == self.deep_view(),
    {
        let r = Device {
            name: self.name.clone(),
            annotations: match &self.annotations {
                Some(v) => Some(clone_annotations(v)),
                None => None,
            },
            container_edits: self.container_edits.duplicate(),
        };
        proof {
            assert(r.deep_view() =~= self.deep_view());
        }
        r
    }
}

/// Copy of a vector of device entries.
pub fn clone_devices(v: &Vec<Device>) -> (r: Vec<Device>)
    ensures
        r.deep_view() == v.deep_view(),
{
    let mut out: Vec<Device> = Vec::new();
    let mut i: usize = 0;
    while i < v.len()
        invariant
            i <= v.len(),
            out.deep_view() == v.deep_view().take(i as int),
        decreases v.len() - i,
    {
        let ghost prev = out.deep_view();
        let d = v[i].duplicate();
        let ghost dvv = d.deep_view();
        out.push(d);
        proof {
            assert(v.deep_view()[i as int] == v@[i as int].deep_view());
            assert(out.deep_view() =~= prev.push(dvv));
            assert(prev.push(dvv) =~= v.deep_view().take(i as int + 1));
        }
        i = i + 1;
    }
    proof {
        assert(v.deep_view().take(v.deep_view().len() as int) =~= v.deep_view());
    }
    out
}

/// The view of an edit set with every field absent.
pub open spec fn empty_edits() -> EditsV {
    EditsV {
        env: None,
        device_nodes: None,
        hooks: None,
        mounts: None,
        intel_rdt: None,
        additional_gids: None,
    }
}

} // verus!
