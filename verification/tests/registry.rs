use edgetpu_cdi::device_spec::ContainerEdits;
use edgetpu_cdi::device_spec::Device;
use edgetpu_cdi::device_spec::Spec;
use edgetpu_cdi::registry::load;
use edgetpu_cdi::registry::SpecLoadReason;

fn strings(v: &[&str]) -> Vec<String> {
    v.iter().map(|s| s.to_string()).collect()
}

fn empty_edits() -> ContainerEdits {
    ContainerEdits {
        env: None,
        device_nodes: None,
        hooks: None,
        mounts: None,
        intel_rdt: None,
        additional_gids: None,
    }
}

fn env_edits(env: &[&str]) -> ContainerEdits {
    let mut e = empty_edits();
    e.env = Some(strings(env));
    e
}

fn device(name: &str, env: &[&str]) -> Device {
    Device {
        name: name.to_string(),
        annotations: None,
        container_edits: env_edits(env),
    }
}

fn doc(kind: &str, devices: Vec<Device>, common: Option<ContainerEdits>) -> Spec {
    Spec {
        version: "0.8.0".to_string(),
        kind: kind.to_string(),
        annotations: None,
        devices,
        container_edits: common,
    }
}

#[test]
fn load_keeps_valid_documents_in_priority_order() {
    let docs = vec![
        doc("v/c", vec![device("a", &["A=1"])], None),
        doc("w/d", vec![device("b", &["B=1"])], None),
    ];
    let (registry, skips) = load(docs);
    assert_eq!(registry.specs.len(), 2);
    assert!(skips.is_empty());
    assert_eq!(registry.specs[0].kind, "v/c");
    assert_eq!(registry.specs[1].kind, "w/d");
}

#[test]
fn load_skips_unsupported_major_version() {
    let mut bad = doc("v/c", vec![device("a", &[])], None);
    bad.version = "1.0.0".to_string();
    let good = doc("v/c", vec![device("b", &[])], None);
    let (registry, skips) = load(vec![bad, good]);
    assert_eq!(registry.specs.len(), 1);
    assert_eq!(registry.specs[0].devices[0].name, "b");
    assert_eq!(skips.len(), 1);
    assert_eq!(skips[0].index, 0);
    assert_eq!(skips[0].reason, SpecLoadReason::UnsupportedVersion);
}

#[test]
fn load_skips_invalid_kind() {
    let bad = doc("noslash", vec![device("a", &[])], None);
    let (registry, skips) = load(vec![bad]);
    assert!(registry.specs.is_empty());
    assert_eq!(skips[0].reason, SpecLoadReason::InvalidKind);
}

#[test]
fn load_skips_qualified_device_names() {
    let bad = doc("v/c", vec![device("v/c=a", &[])], None);
    let (registry, skips) = load(vec![bad]);
    assert!(registry.specs.is_empty());
    assert_eq!(skips[0].reason, SpecLoadReason::InvalidDeviceName);
}

#[test]
fn load_skips_duplicate_device_names() {
    let bad = doc("v/c", vec![device("a", &[]), device("a", &[])], None);
    let (registry, skips) = load(vec![bad]);
    assert!(registry.specs.is_empty());
    assert_eq!(skips[0].reason, SpecLoadReason::DuplicateDeviceName);
}

#[test]
fn resolve_collects_device_edits_in_request_order() {
    let docs = vec![doc(
        "v/c",
        vec![device("a", &["A=1"]), device("b", &["B=1"])],
        None,
    )];
    let (registry, _) = load(docs);
    let res = registry.resolve(&strings(&["v/c=b", "v/c=a"]));
    assert!(res.unresolved.is_empty());
    assert_eq!(res.device_edits.len(), 2);
    assert_eq!(res.device_edits[0].env, Some(strings(&["B=1"])));
    assert_eq!(res.device_edits[1].env, Some(strings(&["A=1"])));
}

#[test]
fn resolve_earlier_document_wins_for_the_same_device() {
    let docs = vec![
        doc("v/c", vec![device("a", &["FIRST=1"])], None),
        doc("v/c", vec![device("a", &["SECOND=1"])], None),
    ];
    let (registry, _) = load(docs);
    let res = registry.resolve(&strings(&["v/c=a"]));
    assert_eq!(res.device_edits.len(), 1);
    assert_eq!(res.device_edits[0].env, Some(strings(&["FIRST=1"])));
}

#[test]
fn resolve_falls_through_to_later_document_for_other_devices() {
    let docs = vec![
        doc("v/c", vec![device("a", &["A=1"])], None),
        doc("v/c", vec![device("b", &["B=1"])], None),
    ];
    let (registry, _) = load(docs);
    let res = registry.resolve(&strings(&["v/c=b"]));
    assert!(res.unresolved.is_empty());
    assert_eq!(res.device_edits[0].env, Some(strings(&["B=1"])));
}

#[test]
fn resolve_reports_unresolvable_names() {
    let docs = vec![doc("v/c", vec![device("a", &["A=1"])], None)];
    let (registry, _) = load(docs);
    let res = registry.resolve(&strings(&["v/c=missing", "v/c=a", "w/d=a"]));
    assert_eq!(res.unresolved, strings(&["v/c=missing", "w/d=a"]));
    assert_eq!(res.device_edits.len(), 1);
}

#[test]
fn common_edits_applied_once_for_two_devices_of_one_document() {
    let docs = vec![doc(
        "v/c",
        vec![device("a", &["A=1"]), device("b", &["B=1"])],
        Some(env_edits(&["COMMON=1"])),
    )];
    let (registry, _) = load(docs);
    let res = registry.resolve(&strings(&["v/c=a", "v/c=b"]));
    assert!(res.unresolved.is_empty());
    assert_eq!(res.device_edits.len(), 2);
    assert_eq!(res.common_edits.len(), 1);
    assert_eq!(res.common_edits[0].env, Some(strings(&["COMMON=1"])));
}

#[test]
fn common_edits_collected_once_per_distinct_document() {
    let docs = vec![
        doc("v/c", vec![device("a", &["A=1"])], Some(env_edits(&["C1=1"]))),
        doc("w/d", vec![device("b", &["B=1"])], Some(env_edits(&["C2=1"]))),
    ];
    let (registry, _) = load(docs);
    let res = registry.resolve(&strings(&["v/c=a", "w/d=b", "v/c=a"]));
    assert_eq!(res.common_edits.len(), 2);
    assert_eq!(res.common_edits[0].env, Some(strings(&["C1=1"])));
    assert_eq!(res.common_edits[1].env, Some(strings(&["C2=1"])));
}
