use edgetpu_cdi::install::determine_linux_platform;
use edgetpu_cdi::install::determine_paths;
use edgetpu_cdi::install::determine_platform;
use edgetpu_cdi::install::download_libedgetpu;
use edgetpu_cdi::install::edgetpu_path_of;
use edgetpu_cdi::install::get_install_command;
use edgetpu_cdi::install::install_path_of;
use edgetpu_cdi::install::run_install;
use edgetpu_cdi::install::run_uninstall;
use edgetpu_cdi::install::InstallError;
use edgetpu_cdi::install::Platform;

#[test]
fn install_paths_per_platform() {
    assert_eq!(install_path_of(Platform::Windows), "C:\\Windows\\System32");
    assert_eq!(install_path_of(Platform::MacAmd64), "/usr/local/lib");
    assert_eq!(install_path_of(Platform::LinuxAmd64), "/usr/lib/x86_64-linux-gnu");
    assert_eq!(install_path_of(Platform::LinuxArm32), "/usr/lib/arm-linux-gnueabihf");
    assert_eq!(install_path_of(Platform::LinuxArm64), "/usr/lib/aarch64-linux-gnu");
}

#[test]
fn runtime_library_paths_per_platform() {
    assert_eq!(
        edgetpu_path_of("/tmp/rt", "direct", Platform::LinuxAmd64),
        "/tmp/rt/direct/k8"
    );
    assert_eq!(
        edgetpu_path_of("/tmp/rt", "throttled", Platform::LinuxArm32),
        "/tmp/rt/throttled/arm7a"
    );
    assert_eq!(
        edgetpu_path_of("/tmp/rt", "direct", Platform::LinuxArm64),
        "/tmp/rt/direct/aarch64"
    );
    assert_eq!(
        edgetpu_path_of("root", "direct", Platform::Windows),
        "root/direct/x64_windows/edgetpu.dll"
    );
    assert_eq!(
        edgetpu_path_of("root", "direct", Platform::MacAmd64),
        "root/direct/x86_64-linux-gnu/libedgetpu.so.1.0"
    );
}

#[test]
fn install_requires_root() {
    assert!(matches!(run_install(false, true), Err(InstallError::RootRequired)));
}

#[test]
fn install_picks_frequency_directory() {
    assert_eq!(run_install(true, true).unwrap().freq_dir, "direct");
    assert_eq!(run_install(true, false).unwrap().freq_dir, "throttled");
}

#[test]
fn uninstall_requires_root() {
    assert!(matches!(
        run_uninstall(false, Platform::LinuxAmd64),
        Err(InstallError::RootRequired)
    ));
}

#[test]
fn uninstall_removes_rule_and_library_on_linux() {
    let plan = run_uninstall(true, Platform::LinuxAmd64).unwrap();
    assert_eq!(
        plan.remove,
        vec![
            "/etc/udev/rules.d/99-edgetpu-accelerator.rules".to_string(),
            "/usr/lib/x86_64-linux-gnu/libedgetpu.so.1.0".to_string(),
        ]
    );
}

#[test]
fn uninstall_removes_both_dylibs_on_mac() {
    let plan = run_uninstall(true, Platform::MacArm64).unwrap();
    assert_eq!(
        plan.remove,
        vec![
            "/usr/local/lib/libedgetpu.1.0.dylib".to_string(),
            "/usr/local/lib/libedgetpu.1.dylib".to_string(),
        ]
    );
}

#[test]
fn download_plan_paths_and_actions() {
    let plan = download_libedgetpu("/tmp/out", false, false);
    assert_eq!(plan.zip_path, "/tmp/out/edgetpu_runtime.zip");
    assert_eq!(plan.runtime_path, "/tmp/out/edgetpu_runtime");
    assert!(plan.fetch);
    assert!(plan.unpack);
    assert!(plan.url.ends_with("edgetpu_runtime_20221024.zip"));
}

#[test]
fn download_plan_skips_existing_artifacts() {
    let plan = download_libedgetpu("/tmp/out", true, true);
    assert!(!plan.fetch);
    assert!(!plan.unpack);
}

#[test]
fn platform_mapping() {
    assert_eq!(
        determine_platform("linux", "x86_64").unwrap(),
        ("k8".to_string(), "x86_64-linux-gnu".to_string())
    );
    assert_eq!(
        determine_platform("linux", "arm").unwrap(),
        ("armv7a".to_string(), "arm-linux-gnueabihf".to_string())
    );
    assert_eq!(
        determine_platform("macos", "aarch64").unwrap(),
        ("darwin_arm64".to_string(), "".to_string())
    );
    assert_eq!(
        determine_platform("windows", "x86_64").unwrap(),
        ("x64_windows".to_string(), "".to_string())
    );
    assert!(matches!(
        determine_platform("plan9", "mips"),
        Err(InstallError::UnsupportedPlatform)
    ));
}

#[test]
fn linux_platform_mapping_rejects_other_systems() {
    assert_eq!(
        determine_linux_platform("linux", "aarch64").unwrap(),
        ("aarch64".to_string(), "aarch64-linux-gnu".to_string())
    );
    assert!(matches!(
        determine_linux_platform("macos", "x86_64"),
        Err(InstallError::UnsupportedPlatform)
    ));
}

#[test]
fn paths_prefer_runtime_tree_beside_binary() {
    let (lib, rules) = determine_paths("/opt/edgetpu", true, None);
    assert_eq!(lib, "/opt/edgetpu/libedgetpu");
    assert_eq!(rules, "/opt/edgetpu/libedgetpu/edgetpu-accelerator.rules");
}

#[test]
fn paths_fall_back_to_build_output_or_override() {
    let (lib, rules) = determine_paths("/opt/edgetpu", false, None);
    assert_eq!(lib, "/opt/edgetpu/../out");
    assert_eq!(rules, "/opt/edgetpu/../debian/edgetpu-accelerator.rules");
    let (lib2, _) = determine_paths("/opt/edgetpu", false, Some("/srv/libedgetpu"));
    assert_eq!(lib2, "/srv/libedgetpu");
}

#[test]
fn package_manager_choice() {
    assert_eq!(get_install_command(true, true).unwrap(), "port");
    assert_eq!(get_install_command(false, true).unwrap(), "brew");
    assert!(matches!(
        get_install_command(false, false),
        Err(InstallError::PackageManagerMissing)
    ));
}
