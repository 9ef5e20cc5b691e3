use edgetpu_cdi::device_spec::DeviceNode;
use edgetpu_cdi::device_spec::Hook;
use edgetpu_cdi::device_spec::Mount;
use edgetpu_cdi::errors::CdiError;
use edgetpu_cdi::extract::get_annotation_devices;
use edgetpu_cdi::extract::get_devices_from_spec;
use edgetpu_cdi::runtime::Config;
use edgetpu_cdi::runtime::RuntimeSpec;

fn strings(v: &[&str]) -> Vec<String> {
    v.iter().map(|s| s.to_string()).collect()
}

fn pairs(v: &[(&str, &str)]) -> Vec<(String, String)> {
    v.iter().map(|(k, val)| (k.to_string(), val.to_string())).collect()
}

fn base_config() -> Config {
    Config {
        annotation_prefixes: strings(&["prefix/"]),
        spec_dirs: strings(&["/etc/cdi"]),
        default_vendor: "default.vendor".to_string(),
        default_class: "cls".to_string(),
        accept_device_list_as_volume_mounts: false,
        accept_envvar_unprivileged: false,
    }
}

fn base_spec() -> RuntimeSpec {
    RuntimeSpec {
        annotations: Vec::new(),
        process_env: Vec::new(),
        mounts: Vec::<Mount>::new(),
        device_nodes: Vec::<DeviceNode>::new(),
        hooks: Vec::<Hook>::new(),
        intel_rdt: None,
        additional_gids: Vec::new(),
        privileged: false,
        mount_device_list: Vec::new(),
        env_device_list: Vec::new(),
    }
}

#[test]
fn annotation_extraction_scans_matching_prefixes_only() {
    let prefixes = strings(&["prefix/"]);
    let annotations = pairs(&[("prefix/foo", "v1/c=a,v1/c=b"), ("other/x", "ignored")]);
    let devices = get_annotation_devices(&prefixes, &annotations).unwrap();
    assert_eq!(devices, strings(&["v1/c=a", "v1/c=b"]));
}

#[test]
fn annotation_extraction_deduplicates_keeping_first_seen_order() {
    let prefixes = strings(&["prefix/"]);
    let annotations = pairs(&[("prefix/foo", "v1/c=a,v1/c=a")]);
    let devices = get_annotation_devices(&prefixes, &annotations).unwrap();
    assert_eq!(devices, strings(&["v1/c=a"]));
}

#[test]
fn annotation_with_unqualified_token_aborts_whole_request() {
    let prefixes = strings(&["prefix/"]);
    let annotations = pairs(&[("prefix/foo", "v1/c=a,bare")]);
    match get_annotation_devices(&prefixes, &annotations) {
        Err(CdiError::InvalidDeviceName { name, key }) => {
            assert_eq!(name, "bare");
            assert_eq!(key, "prefix/foo");
        },
        other => panic!("expected InvalidDeviceName, got {:?}", other),
    }
}

#[test]
fn empty_annotation_value_is_an_invalid_token() {
    // Splitting an empty value yields one empty token, which is not a
    // qualified name: the request is rejected, never partially accepted.
    let prefixes = strings(&["prefix/"]);
    let annotations = pairs(&[("prefix/foo", "")]);
    match get_annotation_devices(&prefixes, &annotations) {
        Err(CdiError::InvalidDeviceName { name, key }) => {
            assert_eq!(name, "");
            assert_eq!(key, "prefix/foo");
        },
        other => panic!("expected InvalidDeviceName, got {:?}", other),
    }
}

#[test]
fn annotations_win_over_other_sources() {
    let mut spec = base_spec();
    spec.annotations = pairs(&[("prefix/foo", "v1/c=a")]);
    spec.mount_device_list = strings(&["v1/c=frommount"]);
    spec.env_device_list = strings(&["v1/c=fromenv"]);
    let mut cfg = base_config();
    cfg.accept_device_list_as_volume_mounts = true;
    cfg.accept_envvar_unprivileged = true;
    let devices = get_devices_from_spec(&spec, &cfg).unwrap();
    assert_eq!(devices, strings(&["v1/c=a"]));
}

#[test]
fn mount_encoded_list_used_when_enabled_and_annotations_empty() {
    let mut spec = base_spec();
    spec.mount_device_list = strings(&["v1/c=frommount"]);
    spec.env_device_list = strings(&["v1/c=fromenv"]);
    let mut cfg = base_config();
    cfg.accept_device_list_as_volume_mounts = true;
    cfg.accept_envvar_unprivileged = true;
    let devices = get_devices_from_spec(&spec, &cfg).unwrap();
    assert_eq!(devices, strings(&["v1/c=frommount"]));
}

#[test]
fn mount_encoded_list_ignored_when_disabled() {
    let mut spec = base_spec();
    spec.mount_device_list = strings(&["v1/c=frommount"]);
    spec.env_device_list = strings(&["v1/c=fromenv"]);
    let mut cfg = base_config();
    cfg.accept_envvar_unprivileged = true;
    let devices = get_devices_from_spec(&spec, &cfg).unwrap();
    assert_eq!(devices, strings(&["v1/c=fromenv"]));
}

#[test]
fn environment_tokens_are_qualified_and_deduplicated() {
    let mut spec = base_spec();
    spec.env_device_list = strings(&["dev0", "v/c=dev1", "dev0"]);
    let mut cfg = base_config();
    cfg.accept_envvar_unprivileged = true;
    let devices = get_devices_from_spec(&spec, &cfg).unwrap();
    assert_eq!(devices, strings(&["default.vendor/cls=dev0", "v/c=dev1"]));
}

#[test]
fn privilege_gate_discards_env_devices_for_unprivileged_container() {
    let mut spec = base_spec();
    spec.env_device_list = strings(&["dev0"]);
    let cfg = base_config();
    let devices = get_devices_from_spec(&spec, &cfg).unwrap();
    assert!(devices.is_empty());
}

#[test]
fn privilege_gate_opens_when_configuration_allows_unprivileged() {
    let mut spec = base_spec();
    spec.env_device_list = strings(&["dev0"]);
    let mut cfg = base_config();
    cfg.accept_envvar_unprivileged = true;
    let devices = get_devices_from_spec(&spec, &cfg).unwrap();
    assert_eq!(devices, strings(&["default.vendor/cls=dev0"]));
}

#[test]
fn privilege_gate_opens_for_privileged_container() {
    let mut spec = base_spec();
    spec.privileged = true;
    spec.env_device_list = strings(&["dev0"]);
    let cfg = base_config();
    let devices = get_devices_from_spec(&spec, &cfg).unwrap();
    assert_eq!(devices, strings(&["default.vendor/cls=dev0"]));
}

#[test]
fn no_source_yields_empty_request() {
    let spec = base_spec();
    let cfg = base_config();
    let devices = get_devices_from_spec(&spec, &cfg).unwrap();
    assert!(devices.is_empty());
}
