use edgetpu_cdi::device_spec::ContainerEdits;
use edgetpu_cdi::device_spec::DeviceNode;
use edgetpu_cdi::device_spec::Hook;
use edgetpu_cdi::device_spec::IntelRdt;
use edgetpu_cdi::device_spec::Mount;
use edgetpu_cdi::edits::apply;
use edgetpu_cdi::edits::merge;
use edgetpu_cdi::edits::merge_all;
use edgetpu_cdi::runtime::RuntimeSpec;

fn strings(v: &[&str]) -> Vec<String> {
    v.iter().map(|s| s.to_string()).collect()
}

fn empty_edits() -> ContainerEdits {
    ContainerEdits {
        env: None,
        device_nodes: None,
        hooks: None,
        mounts: None,
        intel_rdt: None,
        additional_gids: None,
    }
}

fn env_edits(env: &[&str]) -> ContainerEdits {
    let mut e = empty_edits();
    e.env = Some(strings(env));
    e
}

fn base_target() -> RuntimeSpec {
    RuntimeSpec {
        annotations: Vec::new(),
        process_env: strings(&["PATH=/bin"]),
        mounts: Vec::<Mount>::new(),
        device_nodes: Vec::<DeviceNode>::new(),
        hooks: Vec::<Hook>::new(),
        intel_rdt: None,
        additional_gids: vec![100],
        privileged: false,
        mount_device_list: Vec::new(),
        env_device_list: Vec::new(),
    }
}

#[test]
fn merge_concatenates_env_in_call_order() {
    let a = env_edits(&["X=1"]);
    let b = env_edits(&["Y=2"]);
    let merged = merge(&a, &b);
    assert_eq!(merged.env, Some(strings(&["X=1", "Y=2"])));
}

#[test]
fn merge_keeps_absent_fields_absent() {
    let a = env_edits(&["X=1"]);
    let b = env_edits(&["Y=2"]);
    let merged = merge(&a, &b);
    assert!(merged.device_nodes.is_none());
    assert!(merged.hooks.is_none());
    assert!(merged.mounts.is_none());
    assert!(merged.intel_rdt.is_none());
    assert!(merged.additional_gids.is_none());
}

#[test]
fn merge_present_and_absent_keeps_the_present_list() {
    let a = env_edits(&[]);
    let b = empty_edits();
    let merged = merge(&a, &b);
    // An empty list is present, distinct from an absent field.
    assert_eq!(merged.env, Some(Vec::<String>::new()));
}

#[test]
fn merge_all_folds_in_order() {
    let list = vec![env_edits(&["A=1"]), env_edits(&["B=2"]), env_edits(&["C=3"])];
    let merged = merge_all(&list);
    assert_eq!(merged.env, Some(strings(&["A=1", "B=2", "C=3"])));
}

#[test]
fn merge_later_resource_block_replaces_earlier() {
    let mut a = empty_edits();
    a.intel_rdt = Some(IntelRdt {
        clos_id: Some("one".to_string()),
        l3_cache_schema: None,
        mem_bw_schema: None,
        enable_cmt: None,
        enable_mbm: None,
    });
    let mut b = empty_edits();
    b.intel_rdt = Some(IntelRdt {
        clos_id: Some("two".to_string()),
        l3_cache_schema: None,
        mem_bw_schema: None,
        enable_cmt: None,
        enable_mbm: None,
    });
    let merged = merge(&a, &b);
    assert_eq!(merged.intel_rdt.unwrap().clos_id.unwrap(), "two");
}

#[test]
fn apply_appends_env_and_keeps_existing_entries() {
    let edits = env_edits(&["NEW=1"]);
    let target = base_target();
    let modified = apply(&edits, &target);
    assert_eq!(modified.process_env, strings(&["PATH=/bin", "NEW=1"]));
    // The input target is untouched.
    assert_eq!(target.process_env, strings(&["PATH=/bin"]));
}

#[test]
fn apply_appends_mounts_nodes_and_hooks() {
    let mut edits = empty_edits();
    edits.mounts = Some(vec![Mount {
        host_path: "/dev/apex_0".to_string(),
        container_path: "/dev/apex_0".to_string(),
        options: Some(strings(&["rw"])),
        mount_type: Some("bind".to_string()),
    }]);
    edits.device_nodes = Some(vec![DeviceNode {
        path: "/dev/apex_0".to_string(),
        host_path: None,
        node_type: Some("c".to_string()),
        major: Some(120),
        minor: Some(0),
        file_mode: Some(0o666),
        permissions: Some("rw".to_string()),
        uid: Some(0),
        gid: Some(0),
    }]);
    edits.hooks = Some(vec![Hook {
        hook_name: "createContainer".to_string(),
        path: "/usr/bin/edgetpu-hook".to_string(),
        args: Some(strings(&["edgetpu-hook", "setup"])),
        env: None,
        timeout: Some(5),
    }]);
    let target = base_target();
    let modified = apply(&edits, &target);
    assert_eq!(modified.mounts.len(), 1);
    assert_eq!(modified.mounts[0].container_path, "/dev/apex_0");
    assert_eq!(modified.device_nodes.len(), 1);
    assert_eq!(modified.device_nodes[0].major, Some(120));
    assert_eq!(modified.hooks.len(), 1);
    assert_eq!(modified.hooks[0].hook_name, "createContainer");
}

#[test]
fn apply_unions_gids_without_duplicates() {
    let mut edits = empty_edits();
    edits.additional_gids = Some(vec![100, 44, 44, 101]);
    let target = base_target();
    let modified = apply(&edits, &target);
    assert_eq!(modified.additional_gids, vec![100, 44, 101]);
}

#[test]
fn apply_replaces_resource_block_whole() {
    let mut edits = empty_edits();
    edits.intel_rdt = Some(IntelRdt {
        clos_id: Some("fresh".to_string()),
        l3_cache_schema: None,
        mem_bw_schema: None,
        enable_cmt: Some(true),
        enable_mbm: None,
    });
    let mut target = base_target();
    target.intel_rdt = Some(IntelRdt {
        clos_id: Some("stale".to_string()),
        l3_cache_schema: Some("L3:0=ff".to_string()),
        mem_bw_schema: None,
        enable_cmt: None,
        enable_mbm: None,
    });
    let modified = apply(&edits, &target);
    let rdt = modified.intel_rdt.unwrap();
    assert_eq!(rdt.clos_id.unwrap(), "fresh");
    // Whole-structure replacement: the stale schema is gone.
    assert!(rdt.l3_cache_schema.is_none());
}

#[test]
fn apply_twice_duplicates_entries_by_design() {
    let edits = env_edits(&["NEW=1"]);
    let target = base_target();
    let once = apply(&edits, &target);
    let twice = apply(&edits, &once);
    assert_eq!(twice.process_env, strings(&["PATH=/bin", "NEW=1", "NEW=1"]));
}
