use edgetpu_cdi::automatic::filter_automatic_devices;
use edgetpu_cdi::automatic::synthesize;
use edgetpu_cdi::automatic::DiscoveryData;
use edgetpu_cdi::device_spec::ContainerEdits;
use edgetpu_cdi::device_spec::Device;
use edgetpu_cdi::device_spec::DeviceNode;
use edgetpu_cdi::device_spec::Hook;
use edgetpu_cdi::device_spec::Mount;
use edgetpu_cdi::device_spec::Spec;
use edgetpu_cdi::errors::CdiError;
use edgetpu_cdi::modifier::new_cdi_modifier;
use edgetpu_cdi::registry::load;
use edgetpu_cdi::registry::Registry;
use edgetpu_cdi::runtime::Config;
use edgetpu_cdi::runtime::RuntimeSpec;

fn strings(v: &[&str]) -> Vec<String> {
    v.iter().map(|s| s.to_string()).collect()
}

fn pairs(v: &[(&str, &str)]) -> Vec<(String, String)> {
    v.iter().map(|(k, val)| (k.to_string(), val.to_string())).collect()
}

fn empty_edits() -> ContainerEdits {
    ContainerEdits {
        env: None,
        device_nodes: None,
        hooks: None,
        mounts: None,
        intel_rdt: None,
        additional_gids: None,
    }
}

fn env_edits(env: &[&str]) -> ContainerEdits {
    let mut e = empty_edits();
    e.env = Some(strings(env));
    e
}

fn device(name: &str, env: &[&str]) -> Device {
    Device {
        name: name.to_string(),
        annotations: None,
        container_edits: env_edits(env),
    }
}

fn doc(kind: &str, devices: Vec<Device>, common: Option<ContainerEdits>) -> Spec {
    Spec {
        version: "0.8.0".to_string(),
        kind: kind.to_string(),
        annotations: None,
        devices,
        container_edits: common,
    }
}

fn base_config() -> Config {
    Config {
        annotation_prefixes: strings(&["cdi.example.org/"]),
        spec_dirs: strings(&["/etc/cdi"]),
        default_vendor: "default.vendor".to_string(),
        default_class: "cls".to_string(),
        accept_device_list_as_volume_mounts: false,
        accept_envvar_unprivileged: false,
    }
}

fn base_spec() -> RuntimeSpec {
    RuntimeSpec {
        annotations: Vec::new(),
        process_env: strings(&["PATH=/bin"]),
        mounts: Vec::<Mount>::new(),
        device_nodes: Vec::<DeviceNode>::new(),
        hooks: Vec::<Hook>::new(),
        intel_rdt: None,
        additional_gids: Vec::new(),
        privileged: false,
        mount_device_list: Vec::new(),
        env_device_list: Vec::new(),
    }
}

fn empty_registry() -> Registry {
    let (registry, _) = load(Vec::new());
    registry
}

#[test]
fn empty_request_returns_none_and_leaves_target_unchanged() {
    let target = base_spec();
    let cfg = base_config();
    let registry = empty_registry();
    let r = new_cdi_modifier(&target, &cfg, &registry, None).unwrap();
    assert!(r.is_none());
    assert_eq!(target.process_env, strings(&["PATH=/bin"]));
    assert!(target.mounts.is_empty());
}

#[test]
fn mixed_automatic_request_fails_before_any_lookup() {
    let mut target = base_spec();
    target.annotations = pairs(&[("cdi.example.org/devices", "runtime.reserved/gpu=0,acme/accel=1")]);
    let cfg = base_config();
    // The registry knows neither device: a mixed batch must fail before any
    // lookup could report them unresolvable.
    let registry = empty_registry();
    match new_cdi_modifier(&target, &cfg, &registry, None) {
        Err(CdiError::MixedAutomaticDevices { name }) => {
            assert_eq!(name, "runtime.reserved/gpu=0");
        },
        other => panic!("expected MixedAutomaticDevices, got {:?}", other),
    }
}

#[test]
fn standard_request_resolves_against_registry_and_modifies_copy() {
    let mut target = base_spec();
    target.annotations = pairs(&[("cdi.example.org/devices", "acme/accel=a,acme/accel=b")]);
    let cfg = base_config();
    let (registry, _) = load(vec![doc(
        "acme/accel",
        vec![device("a", &["A=1"]), device("b", &["B=1"])],
        Some(env_edits(&["COMMON=1"])),
    )]);
    let modified = new_cdi_modifier(&target, &cfg, &registry, None).unwrap().unwrap();
    // Device edits in request order, then the document's common edits once.
    assert_eq!(
        modified.process_env,
        strings(&["PATH=/bin", "A=1", "B=1", "COMMON=1"])
    );
    // The input target is untouched.
    assert_eq!(target.process_env, strings(&["PATH=/bin"]));
}

#[test]
fn unresolvable_request_is_fatal_and_names_the_devices() {
    let mut target = base_spec();
    target.annotations = pairs(&[("cdi.example.org/devices", "acme/accel=missing")]);
    let cfg = base_config();
    let registry = empty_registry();
    match new_cdi_modifier(&target, &cfg, &registry, None) {
        Err(CdiError::UnresolvableDevice { names }) => {
            assert_eq!(names, strings(&["acme/accel=missing"]));
        },
        other => panic!("expected UnresolvableDevice, got {:?}", other),
    }
}

#[test]
fn invalid_annotation_token_is_fatal() {
    let mut target = base_spec();
    target.annotations = pairs(&[("cdi.example.org/devices", "bare")]);
    let cfg = base_config();
    let registry = empty_registry();
    match new_cdi_modifier(&target, &cfg, &registry, None) {
        Err(CdiError::InvalidDeviceName { name, key }) => {
            assert_eq!(name, "bare");
            assert_eq!(key, "cdi.example.org/devices");
        },
        other => panic!("expected InvalidDeviceName, got {:?}", other),
    }
}

#[test]
fn automatic_request_uses_synthesized_document() {
    let mut target = base_spec();
    target.annotations = pairs(&[("cdi.example.org/devices", "runtime.reserved/gpu=0")]);
    let cfg = base_config();
    let registry = empty_registry();
    let discovery = DiscoveryData {
        devices: vec![device("0", &["APEX=0"])],
        common_edits: Some(env_edits(&["DRIVER=/lib"])),
    };
    let modified = new_cdi_modifier(&target, &cfg, &registry, Some(&discovery))
        .unwrap()
        .unwrap();
    assert_eq!(
        modified.process_env,
        strings(&["PATH=/bin", "APEX=0", "DRIVER=/lib"])
    );
}

#[test]
fn automatic_request_falls_back_to_registry_without_discovery() {
    let mut target = base_spec();
    target.annotations = pairs(&[("cdi.example.org/devices", "runtime.reserved/gpu=0")]);
    let cfg = base_config();
    let (registry, _) = load(vec![doc(
        "runtime.reserved/gpu",
        vec![device("0", &["FROMFILE=1"])],
        None,
    )]);
    let modified = new_cdi_modifier(&target, &cfg, &registry, None).unwrap().unwrap();
    assert_eq!(modified.process_env, strings(&["PATH=/bin", "FROMFILE=1"]));
}

#[test]
fn filter_automatic_devices_keeps_reserved_pair_only() {
    let devices = strings(&[
        "runtime.reserved/gpu=0",
        "acme/accel=1",
        "runtime.reserved/tpu=2",
        "runtime.reserved/gpu=3",
    ]);
    let auto = filter_automatic_devices(&devices);
    assert_eq!(auto, strings(&["runtime.reserved/gpu=0", "runtime.reserved/gpu=3"]));
}

#[test]
fn synthesize_builds_reserved_kind_document() {
    let discovery = DiscoveryData {
        devices: vec![device("0", &["APEX=0"])],
        common_edits: None,
    };
    let spec = synthesize(&discovery);
    assert_eq!(spec.kind, "runtime.reserved/gpu");
    assert_eq!(spec.version, "0.8.0");
    assert_eq!(spec.devices.len(), 1);
    assert_eq!(spec.devices[0].name, "0");
    assert!(spec.container_edits.is_none());
}
