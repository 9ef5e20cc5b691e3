//! Installation planning: the decisions and paths of the runtime
//! installer, separated from the process and file-system work that carries
//! them out.
//!
//! Every function here is a pure computation: the caller supplies what was
//! observed (the platform, the privilege state, which files exist) and
//! receives exact paths and actions. Path strings are joined with `/`.

use vstd::prelude::*;
use vstd::string::StringExecFns;

use crate::text::str_eq;

verus! {

/// A supported platform: operating system and machine architecture.
#[derive(Clone, Copy, Debug, PartialEq, Eq, Structural)]
pub enum Platform {
    LinuxAmd64,
    LinuxArm32,
    LinuxArm64,
    MacAmd64,
    MacArm64,
    Windows,
}

/// Why an installation step is refused.
#[derive(Clone, Copy, Debug, PartialEq, Eq, Structural)]
pub enum InstallError {
    /// Root privileges are required to install or uninstall the driver.
    RootRequired,
    /// The platform is not supported.
    UnsupportedPlatform,
    /// Neither supported package manager is available.
    PackageManagerMissing,
}

/// The directory the runtime library is installed into.
pub open spec fn install_path_spec(p: Platform) -> Seq<char> {
    match p {
        Platform::Windows => "C:\\Windows\\System32"@,
        Platform::MacAmd64 => "/usr/local/lib"@,
        Platform::MacArm64 => "/usr/local/lib"@,
        Platform::LinuxAmd64 => "/usr/lib/x86_64-linux-gnu"@,
        Platform::LinuxArm32 => "/usr/lib/arm-linux-gnueabihf"@,
        Platform::LinuxArm64 => "/usr/lib/aarch64-linux-gnu"@,
    }
}

/// The directory the runtime library is installed into, executably.
pub fn install_path_of(p: Platform) -> (r: String)
    ensures
        r@ == install_path_spec(p),
{
    match p {
        Platform::Windows => "C:\\Windows\\System32".to_owned(),
        Platform::MacAmd64 => "/usr/local/lib".to_owned(),
        Platform::MacArm64 => "/usr/local/lib".to_owned(),
        Platform::LinuxAmd64 => "/usr/lib/x86_64-linux-gnu".to_owned(),
        Platform::LinuxArm32 => "/usr/lib/arm-linux-gnueabihf".to_owned(),
        Platform::LinuxArm64 => "/usr/lib/aarch64-linux-gnu".to_owned(),
    }
}

/// Where the runtime library for a platform lies under an unpacked runtime
/// tree, below the chosen frequency directory.
pub open spec fn edgetpu_path_spec(root: Seq<char>, freq: Seq<char>, p: Platform) -> Seq<char> {
    let base = root + "/"@ + freq;
    match p {
        Platform::Windows => base + "/x64_windows/edgetpu.dll"@,
        Platform::MacAmd64 => base + "/x86_64-linux-gnu/libedgetpu.so.1.0"@,
        Platform::MacArm64 => base + "/x86_64-linux-gnu/libedgetpu.so.1.0"@,
        Platform::LinuxAmd64 => base + "/k8"@,
        Platform::LinuxArm32 => base + "/arm7a"@,
        Platform::LinuxArm64 => base + "/aarch64"@,
    }
}

/// Where the runtime library for a platform lies, executably.
pub fn edgetpu_path_of(lib_root_path: &str, freq_dir: &str, p: Platform) -> (r: String)
    ensures
        r@ == edgetpu_path_spec(lib_root_path@, freq_dir@, p),
{
    let mut out = lib_root_path.to_owned();
    out.append("/");
    out.append(freq_dir);
    match p {
        Platform::Windows => out.append("/x64_windows/edgetpu.dll"),
        Platform::MacAmd64 => out.append("/x86_64-linux-gnu/libedgetpu.so.1.0"),
        Platform::MacArm64 => out.append("/x86_64-linux-gnu/libedgetpu.so.1.0"),
        Platform::LinuxAmd64 => out.append("/k8"),
        Platform::LinuxArm32 => out.append("/arm7a"),
        Platform::LinuxArm64 => out.append("/aarch64"),
    }
    out
}

/// The operating frequency directory of the runtime tree: the maximum
/// frequency uses `direct`, the reduced frequency `throttled`.
pub open spec fn freq_dir_spec(max_freq: bool) -> Seq<char> {
    if max_freq {
        "direct"@
    } else {
        "throttled"@
    }
}

/// What an installation run will do.
#[derive(Debug)]
pub struct InstallPlan {
    /// The frequency directory of the runtime tree to install from.
    pub freq_dir: String,
}

/// Decide an installation run: without root privileges it is refused, and
/// the operating frequency choice picks the runtime directory.
pub fn run_install(privileged: bool, max_freq: bool) -> (r: Result<InstallPlan, InstallError>)
    ensures
        r is Ok <==> privileged,
        r matches Ok(plan) ==> plan.freq_dir@ == freq_dir_spec(max_freq),
        r matches Err(e) ==> e == InstallError::RootRequired,
{
    if !privileged {
        return Err(InstallError::RootRequired);
    }
    if max_freq {
        Ok(InstallPlan { freq_dir: "direct".to_owned() })
    } else {
        Ok(InstallPlan { freq_dir: "throttled".to_owned() })
    }
}

/// The files an uninstallation removes, per platform: the runtime library
/// under the installation directory, the Windows USB library beside it,
/// the macOS symlink, and the Linux udev rule.
pub open spec fn uninstall_files_spec(p: Platform) -> Seq<Seq<char>> {
    let base = install_path_spec(p);
    match p {
        Platform::Windows => seq![base + "/edgetpu.dll"@, base + "/libusb-1.0.dll"@],
        Platform::MacAmd64 => seq![
            base + "/libedgetpu.1.0.dylib"@,
            base + "/libedgetpu.1.dylib"@,
        ],
        Platform::MacArm64 => seq![
            base + "/libedgetpu.1.0.dylib"@,
            base + "/libedgetpu.1.dylib"@,
        ],
        Platform::LinuxAmd64 => seq![
            "/etc/udev/rules.d/99-edgetpu-accelerator.rules"@,
            base + "/libedgetpu.so.1.0"@,
        ],
        Platform::LinuxArm32 => seq![
            "/etc/udev/rules.d/99-edgetpu-accelerator.rules"@,
            base + "/libedgetpu.so.1.0"@,
        ],
        Platform::LinuxArm64 => seq![
            "/etc/udev/rules.d/99-edgetpu-accelerator.rules"@,
            base + "/libedgetpu.so.1.0"@,
        ],
    }
}

/// What an uninstallation run will do.
#[derive(Debug)]
pub struct UninstallPlan {
    /// The files to remove, in order.
    pub remove: Vec<String>,
}

/// Decide an uninstallation run: without root privileges it is refused,
/// otherwise the platform determines exactly which files go.
pub fn run_uninstall(privileged: bool, p: Platform) -> (r: Result<UninstallPlan, InstallError>)
    ensures
        r is Ok <==> privileged,
        r matches Ok(plan) ==> plan.remove.deep_view() == uninstall_files_spec(p),
        r matches Err(e) ==> e == InstallError::RootRequired,
{
    if !privileged {
        return Err(InstallError::RootRequired);
    }
    let base = install_path_of(p);
    let mut remove: Vec<String> = Vec::new();
    match p {
        Platform::Windows => {
            let mut first = base.clone();
            first.append("/edgetpu.dll");
            let mut second = base;
            second.append("/libusb-1.0.dll");
            remove.push(first);
            remove.push(second);
        },
        Platform::MacAmd64 => {
            let mut first = base.clone();
            first.append("/libedgetpu.1.0.dylib");
            let mut second = base;
            second.append("/libedgetpu.1.dylib");
            remove.push(first);
            remove.push(second);
        },
        Platform::MacArm64 => {
            let mut first = base.clone();
            first.append("/libedgetpu.1.0.dylib");
            let mut second = base;
            second.append("/libedgetpu.1.dylib");
            remove.push(first);
            remove.push(second);
        },
        Platform::LinuxAmd64 => {
            remove.push("/etc/udev/rules.d/99-edgetpu-accelerator.rules".to_owned());
            let mut lib = base;
            lib.append("/libedgetpu.so.1.0");
            remove.push(lib);
        },
        Platform::LinuxArm32 => {
            remove.push("/etc/udev/rules.d/99-edgetpu-accelerator.rules".to_owned());
            let mut lib = base;
            lib.append("/libedgetpu.so.1.0");
            remove.push(lib);
        },
        Platform::LinuxArm64 => {
            remove.push("/etc/udev/rules.d/99-edgetpu-accelerator.rules".to_owned());
            let mut lib = base;
            lib.append("/libedgetpu.so.1.0");
            remove.push(lib);
        },
    }
    proof {
        assert(remove.deep_view() =~= uninstall_files_spec(p));
    }
    Ok(UninstallPlan { remove })
}

/// The release archive the runtime is downloaded from.
pub open spec fn runtime_url_spec() -> Seq<char> {
    "https://github.com/google-coral/libedgetpu/releases/download/release-grouper/edgetpu_runtime_20221024.zip"@
}

/// What a download run will do.
#[derive(Debug)]
pub struct DownloadPlan {
    /// The archive to fetch.
    pub url: String,
    /// Where the archive is stored.
    pub zip_path: String,
    /// Where the unpacked runtime tree ends up.
    pub runtime_path: String,
    /// Whether the archive must be fetched: it is not already present.
    pub fetch: bool,
    /// Whether the archive must be unpacked: the tree is not already there.
    pub unpack: bool,
}

/// Decide a runtime download: the archive is fetched only when absent, and
/// unpacked only when the runtime tree is absent; the resulting tree lies
/// under the output directory either way.
pub fn download_libedgetpu(out_path: &str, zip_exists: bool, runtime_exists: bool) -> (r:
    DownloadPlan)
    ensures
        r.url@ == runtime_url_spec(),
        r.zip_path@ == out_path@ + "/edgetpu_runtime.zip"@,
        r.runtime_path@ == out_path@ + "/edgetpu_runtime"@,
        r.fetch == !zip_exists,
        r.unpack == !runtime_exists,
{
    let mut zip_path = out_path.to_owned();
    zip_path.append("/edgetpu_runtime.zip");
    let mut runtime_path = out_path.to_owned();
    runtime_path.append("/edgetpu_runtime");
    DownloadPlan {
        url:
            "https://github.com/google-coral/libedgetpu/releases/download/release-grouper/edgetpu_runtime_20221024.zip".to_owned(),
        zip_path,
        runtime_path,
        fetch: !zip_exists,
        unpack: !runtime_exists,
    }
}

/// The platform for an operating system and machine pair, with the runtime
/// tree's directory name and the GNU host triple where one applies.
pub open spec fn platform_spec(os: Seq<char>, machine: Seq<char>) -> Option<(Seq<char>, Seq<char>)> {
    if os == "linux"@ && machine == "x86_64"@ {
        Some(("k8"@, "x86_64-linux-gnu"@))
    } else if os == "linux"@ && machine == "arm"@ {
        Some(("armv7a"@, "arm-linux-gnueabihf"@))
    } else if os == "linux"@ && machine == "aarch64"@ {
        Some(("aarch64"@, "aarch64-linux-gnu"@))
    } else if os == "macos"@ && machine == "x86_64"@ {
        Some(("darwin_x86_64"@, ""@))
    } else if os == "macos"@ && machine == "aarch64"@ {
        Some(("darwin_arm64"@, ""@))
    } else if os == "windows"@ && machine == "x86_64"@ {
        Some(("x64_windows"@, ""@))
    } else {
        None
    }
}

/// Determine the platform directory and host triple for an operating
/// system and machine pair; an unknown pair is refused.
pub fn determine_platform(os: &str, machine: &str) -> (r: Result<(String, String), InstallError>)
    ensures
        r matches Ok(p) ==> platform_spec(os@, machine@) == Some((p.0@, p.1@)),
        r is Err <==> platform_spec(os@, machine@) is None,
        r matches Err(e) ==> e == InstallError::UnsupportedPlatform,
{
    if str_eq(os, "linux") && str_eq(machine, "x86_64") {
        Ok(("k8".to_owned(), "x86_64-linux-gnu".to_owned()))
    } else if str_eq(os, "linux") && str_eq(machine, "arm") {
        Ok(("armv7a".to_owned(), "arm-linux-gnueabihf".to_owned()))
    } else if str_eq(os, "linux") && str_eq(machine, "aarch64") {
        Ok(("aarch64".to_owned(), "aarch64-linux-gnu".to_owned()))
    } else if str_eq(os, "macos") && str_eq(machine, "x86_64") {
        Ok(("darwin_x86_64".to_owned(), "".to_owned()))
    } else if str_eq(os, "macos") && str_eq(machine, "aarch64") {
        Ok(("darwin_arm64".to_owned(), "".to_owned()))
    } else if str_eq(os, "windows") && str_eq(machine, "x86_64") {
        Ok(("x64_windows".to_owned(), "".to_owned()))
    } else {
        Err(InstallError::UnsupportedPlatform)
    }
}

/// Determine the platform pair for Linux alone: elsewhere there is nothing
/// to uninstall.
pub fn determine_linux_platform(os: &str, machine: &str) -> (r: Result<
    (String, String),
    InstallError,
>)
    ensures
        r matches Ok(p) ==> os@ == "linux"@ && platform_spec(os@, machine@) == Some((p.0@, p.1@)),
        r is Ok <==> (os@ == "linux"@ && platform_spec(os@, machine@) is Some),
        r matches Err(e) ==> e == InstallError::UnsupportedPlatform,
{
    if str_eq(os, "linux") {
        determine_platform(os, machine)
    } else {
        Err(InstallError::UnsupportedPlatform)
    }
}

/// Where the runtime library tree and the udev rule file lie relative to
/// the running binary: beside it under `libedgetpu` when that directory
/// exists, otherwise at the build output next to it, with an optional
/// caller-supplied override for the library directory.
pub fn determine_paths(script_dir: &str, has_runtime_subdir: bool, runtime_override: Option<&str>)
    -> (r: (String, String))
    ensures
        has_runtime_subdir ==> r.0@ == script_dir@ + "/libedgetpu"@ && r.1@ == script_dir@
            + "/libedgetpu/edgetpu-accelerator.rules"@,
        !has_runtime_subdir ==> (match runtime_override {
            Some(o) => r.0@ == o@,
            None => r.0@ == script_dir@ + "/../out"@,
        }) && r.1@ == script_dir@ + "/../debian/edgetpu-accelerator.rules"@,
{
    if has_runtime_subdir {
        let mut lib = script_dir.to_owned();
        lib.append("/libedgetpu");
        let mut rules = script_dir.to_owned();
        rules.append("/libedgetpu/edgetpu-accelerator.rules");
        (lib, rules)
    } else {
        let lib = match runtime_override {
            Some(o) => o.to_owned(),
            None => {
                let mut out = script_dir.to_owned();
                out.append("/../out");
                out
            },
        };
        let mut rules = script_dir.to_owned();
        rules.append("/../debian/edgetpu-accelerator.rules");
        (lib, rules)
    }
}

/// Pick the package manager for library dependencies: MacPorts when
/// available, Homebrew otherwise; neither is refused.
pub fn get_install_command(port_available: bool, brew_available: bool) -> (r: Result<
    String,
    InstallError,
>)
    ensures
        r is Ok <==> (port_available || brew_available),
        r matches Ok(cmd) ==> cmd@ == (if port_available {
            "port"@
        } else {
            "brew"@
        }),
        r matches Err(e) ==> e == InstallError::PackageManagerMissing,
{
    if port_available {
        Ok("port".to_owned())
    } else if brew_available {
        Ok("brew".to_owned())
    } else {
        Err(InstallError::PackageManagerMissing)
    }
}

} // verus!
