use sidecar_shell::platform::AbiEnv;
use sidecar_shell::platform::Arch;
use sidecar_shell::platform::OsFamily;
use sidecar_shell::platform::PlatformDescriptor;
use sidecar_shell::platform::PlatformError;
use sidecar_shell::platform::PlatformFlags;
use sidecar_shell::platform::build_sidecar_path;
use sidecar_shell::platform::detect_abi;
use sidecar_shell::platform::detect_arch;
use sidecar_shell::platform::detect_os;
use sidecar_shell::platform::resolve_platform;
use sidecar_shell::platform::resolve_sidecar_path;

fn no_flags() -> PlatformFlags {
    PlatformFlags {
        arch_x86: false,
        arch_x86_64: false,
        arch_arm: false,
        arch_aarch64: false,
        os_windows: false,
        os_macos: false,
        os_linux: false,
        os_android: false,
        env_gnu: false,
        env_msvc: false,
    }
}

#[test]
fn windows_msvc_path() {
    let mut f = no_flags();
    f.arch_x86_64 = true;
    f.os_windows = true;
    f.env_msvc = true;
    // The ABI suffix joins the OS label with no separator, and Windows
    // binaries carry the .exe extension.
    assert_eq!(
        build_sidecar_path("../dist", "main", &f).unwrap(),
        "../dist/main-x86_64-pc-windowsmsvc.exe"
    );
}

#[test]
fn macos_aarch64_path() {
    let mut f = no_flags();
    f.arch_aarch64 = true;
    f.os_macos = true;
    // No ABI suffix and no extension on macOS.
    assert_eq!(
        build_sidecar_path("../dist", "main", &f).unwrap(),
        "../dist/main-aarch64-apple-darwin"
    );
}

#[test]
fn android_aarch64_path() {
    let mut f = no_flags();
    f.arch_aarch64 = true;
    f.os_android = true;
    assert_eq!(
        build_sidecar_path("../dist", "main", &f).unwrap(),
        "../dist/main-aarch64-linux-android"
    );
}

#[test]
fn linux_gnu_path() {
    let mut f = no_flags();
    f.arch_x86_64 = true;
    f.os_linux = true;
    f.env_gnu = true;
    assert_eq!(
        build_sidecar_path("../dist", "main", &f).unwrap(),
        "../dist/main-x86_64-unknown-linuxgnu"
    );
}

#[test]
fn arm_x86_labels() {
    let mut f = no_flags();
    f.arch_arm = true;
    f.os_linux = true;
    assert_eq!(
        build_sidecar_path("../dist", "main", &f).unwrap(),
        "../dist/main-arm-unknown-linux"
    );
    let mut g = no_flags();
    g.arch_x86 = true;
    g.os_windows = true;
    g.env_gnu = true;
    assert_eq!(
        build_sidecar_path("../dist", "main", &g).unwrap(),
        "../dist/main-i686-pc-windowsgnu.exe"
    );
}

#[test]
fn resolution_is_deterministic() {
    let d = PlatformDescriptor { arch: Arch::Aarch64, os: OsFamily::Macos, abi: AbiEnv::Unspecified };
    let first = resolve_sidecar_path("../dist", "main", d);
    let second = resolve_sidecar_path("../dist", "main", d);
    assert_eq!(first, second);
    assert_eq!(first, "../dist/main-aarch64-apple-darwin");
}

#[test]
fn base_and_stem_are_kept() {
    let d = PlatformDescriptor { arch: Arch::X86_64, os: OsFamily::Linux, abi: AbiEnv::Gnu };
    assert_eq!(
        resolve_sidecar_path("bin", "backend", d),
        "bin/backend-x86_64-unknown-linuxgnu"
    );
}

#[test]
fn unsupported_architecture_fails() {
    let mut f = no_flags();
    f.os_linux = true;
    assert_eq!(
        build_sidecar_path("../dist", "main", &f),
        Err(PlatformError::UnsupportedArchitecture)
    );
    assert_eq!(detect_arch(&f), Err(PlatformError::UnsupportedArchitecture));
}

#[test]
fn unsupported_os_fails() {
    let mut f = no_flags();
    f.arch_x86_64 = true;
    assert_eq!(
        build_sidecar_path("../dist", "main", &f),
        Err(PlatformError::UnsupportedOs)
    );
    assert_eq!(detect_os(&f), Err(PlatformError::UnsupportedOs));
}

#[test]
fn architecture_is_checked_before_os() {
    let f = no_flags();
    assert_eq!(
        build_sidecar_path("../dist", "main", &f),
        Err(PlatformError::UnsupportedArchitecture)
    );
}

#[test]
fn missing_abi_tag_is_not_an_error() {
    let mut f = no_flags();
    f.arch_x86_64 = true;
    f.os_macos = true;
    assert_eq!(detect_abi(&f), AbiEnv::Unspecified);
    assert_eq!(
        resolve_platform(&f),
        Ok(PlatformDescriptor { arch: Arch::X86_64, os: OsFamily::Macos, abi: AbiEnv::Unspecified })
    );
}

#[test]
fn gnu_tag_takes_precedence() {
    let mut f = no_flags();
    f.env_gnu = true;
    f.env_msvc = true;
    assert_eq!(detect_abi(&f), AbiEnv::Gnu);
}

#[test]
fn error_messages() {
    assert_eq!(
        PlatformError::UnsupportedArchitecture.message(),
        "Unsupported architecture"
    );
    assert_eq!(PlatformError::UnsupportedOs.message(), "Unsupported OS");
}
