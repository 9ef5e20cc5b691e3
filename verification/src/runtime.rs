//! The runtime-specification model and the engine configuration.
//!
//! `RuntimeSpec` holds exactly what the engine reads and writes of a
//! container's runtime specification: the annotation pairs in order, the
//! process environment, the mount, device-node and hook lists, the
//! resource-control block, the supplementary group IDs, the privileged flag,
//! and the two structured device-token lists that extraction may consult.
//!
//! `Config` enumerates every recognized option explicitly.

use vstd::prelude::*;

use crate::device_spec::clone_annotations;
use crate::device_spec::clone_hooks;
use crate::device_spec::clone_mounts;
use crate::device_spec::clone_nodes;
use crate::device_spec::clone_strings;
use crate::device_spec::clone_u32s;
use crate::device_spec::DeviceNode;
use crate::device_spec::DeviceNodeV;
use crate::device_spec::Hook;
use crate::device_spec::HookV;
use crate::device_spec::IntelRdt;
use crate::device_spec::IntelRdtV;
use crate::device_spec::Mount;
use crate::device_spec::MountV;

verus! {

/// The parts of a container runtime specification that the engine touches.
#[derive(Debug)]
pub struct RuntimeSpec {
    pub annotations: Vec<(String, String)>,
    pub process_env: Vec<String>,
    pub mounts: Vec<Mount>,
    pub device_nodes: Vec<DeviceNode>,
    pub hooks: Vec<Hook>,
    pub intel_rdt: Option<IntelRdt>,
    pub additional_gids: Vec<u32>,
    pub privileged: bool,
    /// Device names recorded as volume mounts, already validated at write
    /// time; consulted only when the configuration enables this source.
    pub mount_device_list: Vec<String>,
    /// Device tokens taken from environment variables; unqualified tokens
    /// are qualified with the configured defaults before use.
    pub env_device_list: Vec<String>,
}

#[verifier::ext_equal]
pub ghost struct RuntimeSpecV {
    pub annotations: Seq<(Seq<char>, Seq<char>)>,
    pub process_env: Seq<Seq<char>>,
    pub mounts: Seq<MountV>,
    pub device_nodes: Seq<DeviceNodeV>,
    pub hooks: Seq<HookV>,
    pub intel_rdt: Option<IntelRdtV>,
    pub additional_gids: Seq<u32>,
    pub privileged: bool,
    pub mount_device_list: Seq<Seq<char>>,
    pub env_device_list: Seq<Seq<char>>,
}

impl DeepView for RuntimeSpec {
    type V = RuntimeSpecV;

    open spec fn deep_view(&self) -> RuntimeSpecV {
        RuntimeSpecV {
            annotations: self.annotations.deep_view(),
            process_env: self.process_env.deep_view(),
            mounts: self.mounts.deep_view(),
            device_nodes: self.device_nodes.deep_view(),
            hooks: self.hooks.deep_view(),
            intel_rdt: self.intel_rdt.deep_view(),
            additional_gids: self.additional_gids@,
            privileged: self.privileged,
            mount_device_list: self.mount_device_list.deep_view(),
            env_device_list: self.env_device_list.deep_view(),
        }
    }
}

impl RuntimeSpec {
    /// Whether the container runs privileged.
    pub fn is_privileged(&self) -> (r: bool)
        ensures
            r == self.privileged,
    {
        self.privileged
    }

    /// Copy with the same view.
    pub fn duplicate(&self) -> (r: RuntimeSpec)
        ensures
            r.deep_view() == self.deep_view(),
    {
        let r = RuntimeSpec {
            annotations: clone_annotations(&self.annotations),
            process_env: clone_strings(&self.process_env),
            mounts: clone_mounts(&self.mounts),
            device_nodes: clone_nodes(&self.device_nodes),
            hooks: clone_hooks(&self.hooks),
            intel_rdt: match &self.intel_rdt {
                Some(v) => Some(v.duplicate()),
                None => None,
            },
            additional_gids: clone_u32s(&self.additional_gids),
            privileged: self.privileged,
            mount_device_list: clone_strings(&self.mount_device_list),
            env_device_list: clone_strings(&self.env_device_list),
        };
        proof {
            assert(r.deep_view() =~= self.deep_view());
        }
        r
    }
}

/// The engine configuration: every recognized option, explicitly.
#[derive(Debug)]
pub struct Config {
    /// Annotation keys scanned for device requests.
    pub annotation_prefixes: Vec<String>,
    /// Directories holding specification documents, highest priority first.
    pub spec_dirs: Vec<String>,
    /// Default vendor used to qualify bare environment identifiers.
    pub default_vendor: String,
    /// Default class used to qualify bare environment identifiers.
    pub default_class: String,
    /// Whether the volume-mount-encoded device list is consulted.
    pub accept_device_list_as_volume_mounts: bool,
    /// Whether unprivileged containers may request devices through
    /// environment variables.
    pub accept_envvar_unprivileged: bool,
}

#[verifier::ext_equal]
pub ghost struct ConfigV {
    pub annotation_prefixes: Seq<Seq<char>>,
    pub spec_dirs: Seq<Seq<char>>,
    pub default_vendor: Seq<char>,
    pub default_class: Seq<char>,
    pub accept_device_list_as_volume_mounts: bool,
    pub accept_envvar_unprivileged: bool,
}

impl DeepView for Config {
    type V = ConfigV;

    open spec fn deep_view(&self) -> ConfigV {
        ConfigV {
            annotation_prefixes: self.annotation_prefixes.deep_view(),
            spec_dirs: self.spec_dirs.deep_view(),
            default_vendor: self.default_vendor@,
            default_class: self.default_class@,
            accept_device_list_as_volume_mounts: self.accept_device_list_as_volume_mounts,
            accept_envvar_unprivileged: self.accept_envvar_unprivileged,
        }
    }
}

} // verus!
