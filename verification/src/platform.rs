//! Resolution of the sidecar binary's path from the host platform.
//!
//! The sidecar is built once per target triplet and placed by the packaging
//! pipeline under a fixed base directory, named
//! `{stem}-{arch}-{os}{abi}{ext}`. Resolution is a pure function of the
//! platform facts; an architecture or operating system outside the supported
//! set is a hard failure, never a fallback to some default path.

use vstd::prelude::*;
use vstd::string::StringExecFns;

verus! {

/// A supported processor architecture.
#[derive(Clone, Copy, Debug, PartialEq, Eq, Structural)]
pub enum Arch {
    X86,
    X86_64,
    Arm,
    Aarch64,
}

/// A supported operating-system family.
#[derive(Clone, Copy, Debug, PartialEq, Eq, Structural)]
pub enum OsFamily {
    Windows,
    Macos,
    Linux,
    Android,
}

/// The ABI environment of the target. Absence of a tag is valid (macOS and
/// Android binaries carry none), so there is no error variant for it.
#[derive(Clone, Copy, Debug, PartialEq, Eq, Structural)]
pub enum AbiEnv {
    Gnu,
    Msvc,
    Unspecified,
}

/// The platform a sidecar binary is built for, derived once per run.
#[derive(Clone, Copy, Debug, PartialEq, Eq, Structural)]
pub struct PlatformDescriptor {
    pub arch: Arch,
    pub os: OsFamily,
    pub abi: AbiEnv,
}

/// The raw target facts, as the build configuration reports them. The caller
/// fills each flag from its compile-time knowledge of the target.
#[derive(Clone, Copy, Debug, PartialEq, Eq, Structural)]
pub struct PlatformFlags {
    pub arch_x86: bool,
    pub arch_x86_64: bool,
    pub arch_arm: bool,
    pub arch_aarch64: bool,
    pub os_windows: bool,
    pub os_macos: bool,
    pub os_linux: bool,
    pub os_android: bool,
    pub env_gnu: bool,
    pub env_msvc: bool,
}

/// Why resolution failed. Either failure is startup-fatal: the shell must not
/// spawn anything from a platform it does not recognise.
#[derive(Clone, Copy, Debug, PartialEq, Eq, Structural)]
pub enum PlatformError {
    UnsupportedArchitecture,
    UnsupportedOs,
}

/// The canonical label of an architecture inside a target triplet.
pub open spec fn arch_label(a: Arch) -> Seq<char> {
    match a {
        Arch::X86 => "i686"@,
        Arch::X86_64 => "x86_64"@,
        Arch::Arm => "arm"@,
        Arch::Aarch64 => "aarch64"@,
    }
}

/// The canonical label of an operating-system family inside a target triplet.
pub open spec fn os_label(os: OsFamily) -> Seq<char> {
    match os {
        OsFamily::Windows => "pc-windows"@,
        OsFamily::Macos => "apple-darwin"@,
        OsFamily::Linux => "unknown-linux"@,
        OsFamily::Android => "linux-android"@,
    }
}

/// The ABI suffix, joined directly after the OS label with no separator;
/// empty when the target carries no ABI tag.
pub open spec fn abi_suffix(abi: AbiEnv) -> Seq<char> {
    match abi {
        AbiEnv::Gnu => "gnu"@,
        AbiEnv::Msvc => "msvc"@,
        AbiEnv::Unspecified => Seq::<char>::empty(),
    }
}

/// The executable extension of the platform: `.exe` on Windows, nothing
/// anywhere else.
pub open spec fn exe_extension(os: OsFamily) -> Seq<char> {
    match os {
        OsFamily::Windows => ".exe"@,
        _ => Seq::<char>::empty(),
    }
}

/// The full sidecar path: `{base}/{stem}-{arch}-{os}{abi}{ext}`.
pub open spec fn spec_sidecar_path(base: Seq<char>, stem: Seq<char>, d: PlatformDescriptor) -> Seq<
    char,
> {
    base + "/"@ + stem + "-"@ + arch_label(d.arch) + "-"@ + os_label(d.os) + abi_suffix(d.abi)
        + exe_extension(d.os)
}

/// The architecture the flags select, tried in a fixed order; none set is
/// the unsupported-architecture failure.
pub open spec fn spec_detect_arch(f: PlatformFlags) -> Result<Arch, PlatformError> {
    if f.arch_x86 {
        Ok(Arch::X86)
    } else if f.arch_x86_64 {
        Ok(Arch::X86_64)
    } else if f.arch_arm {
        Ok(Arch::Arm)
    } else if f.arch_aarch64 {
        Ok(Arch::Aarch64)
    } else {
        Err(PlatformError::UnsupportedArchitecture)
    }
}

/// The operating-system family the flags select; none set is the
/// unsupported-OS failure.
pub open spec fn spec_detect_os(f: PlatformFlags) -> Result<OsFamily, PlatformError> {
    if f.os_windows {
        Ok(OsFamily::Windows)
    } else if f.os_macos {
        Ok(OsFamily::Macos)
    } else if f.os_linux {
        Ok(OsFamily::Linux)
    } else if f.os_android {
        Ok(OsFamily::Android)
    } else {
        Err(PlatformError::UnsupportedOs)
    }
}

/// The ABI environment the flags select. Total: no tag set is a valid
/// platform fact, not an error.
pub open spec fn spec_detect_abi(f: PlatformFlags) -> AbiEnv {
    if f.env_gnu {
        AbiEnv::Gnu
    } else if f.env_msvc {
        AbiEnv::Msvc
    } else {
        AbiEnv::Unspecified
    }
}

/// The platform the flags describe, architecture checked before the
/// operating system; the first unsupported fact decides the error.
pub open spec fn spec_resolve_platform(f: PlatformFlags) -> Result<
    PlatformDescriptor,
    PlatformError,
> {
    match spec_detect_arch(f) {
        Err(e) => Err(e),
        Ok(arch) => match spec_detect_os(f) {
            Err(e) => Err(e),
            Ok(os) => Ok(PlatformDescriptor { arch, os, abi: spec_detect_abi(f) }),
        },
    }
}

/// The canonical architecture label as a string slice.
pub fn arch_label_str(a: Arch) -> (r: &'static str)
    ensures
        r@ == arch_label(a),
{
    match a {
        Arch::X86 => "i686",
        Arch::X86_64 => "x86_64",
        Arch::Arm => "arm",
        Arch::Aarch64 => "aarch64",
    }
}

/// The canonical operating-system label as a string slice.
pub fn os_label_str(os: OsFamily) -> (r: &'static str)
    ensures
        r@ == os_label(os),
{
    match os {
        OsFamily::Windows => "pc-windows",
        OsFamily::Macos => "apple-darwin",
        OsFamily::Linux => "unknown-linux",
        OsFamily::Android => "linux-android",
    }
}

/// The ABI suffix as a string slice.
pub fn abi_suffix_str(abi: AbiEnv) -> (r: &'static str)
    ensures
        r@ == abi_suffix(abi),
{
    proof {
        reveal_strlit("");
        assert(""@ =~= Seq::<char>::empty());
    }
    match abi {
        AbiEnv::Gnu => "gnu",
        AbiEnv::Msvc => "msvc",
        AbiEnv::Unspecified => "",
    }
}

/// The executable extension as a string slice.
pub fn exe_extension_str(os: OsFamily) -> (r: &'static str)
    ensures
        r@ == exe_extension(os),
{
    proof {
        reveal_strlit("");
        assert(""@ =~= Seq::<char>::empty());
    }
    match os {
        OsFamily::Windows => ".exe",
        _ => "",
    }
}

/// Compose the sidecar path for a recognised platform. Pure and total: one
/// descriptor maps to exactly one path.
pub fn resolve_sidecar_path(base_dir: &str, binary_stem: &str, d: PlatformDescriptor) -> (r:
    String)
    ensures
        r@ == spec_sidecar_path(base_dir@, binary_stem@, d),
{
    let mut path = String::new();
    path.append(base_dir);
    path.append("/");
    path.append(binary_stem);
    path.append("-");
    path.append(arch_label_str(d.arch));
    path.append("-");
    path.append(os_label_str(d.os));
    path.append(abi_suffix_str(d.abi));
    path.append(exe_extension_str(d.os));
    proof {
        assert(path@ =~= spec_sidecar_path(base_dir@, binary_stem@, d));
    }
    path
}

/// Select the architecture from the raw target flags.
pub fn detect_arch(f: &PlatformFlags) -> (r: Result<Arch, PlatformError>)
    ensures
        r == spec_detect_arch(*f),
        r is Ok <==> (f.arch_x86 || f.arch_x86_64 || f.arch_arm || f.arch_aarch64),
{
    if f.arch_x86 {
        Ok(Arch::X86)
    } else if f.arch_x86_64 {
        Ok(Arch::X86_64)
    } else if f.arch_arm {
        Ok(Arch::Arm)
    } else if f.arch_aarch64 {
        Ok(Arch::Aarch64)
    } else {
        Err(PlatformError::UnsupportedArchitecture)
    }
}

/// Select the operating-system family from the raw target flags.
pub fn detect_os(f: &PlatformFlags) -> (r: Result<OsFamily, PlatformError>)
    ensures
        r == spec_detect_os(*f),
        r is Ok <==> (f.os_windows || f.os_macos || f.os_linux || f.os_android),
{
    if f.os_windows {
        Ok(OsFamily::Windows)
    } else if f.os_macos {
        Ok(OsFamily::Macos)
    } else if f.os_linux {
        Ok(OsFamily::Linux)
    } else if f.os_android {
        Ok(OsFamily::Android)
    } else {
        Err(PlatformError::UnsupportedOs)
    }
}

/// Select the ABI environment from the raw target flags. Never fails.
pub fn detect_abi(f: &PlatformFlags) -> (r: AbiEnv)
    ensures
        r == spec_detect_abi(*f),
{
    if f.env_gnu {
        AbiEnv::Gnu
    } else if f.env_msvc {
        AbiEnv::Msvc
    } else {
        AbiEnv::Unspecified
    }
}

/// Derive the platform descriptor from the raw target flags, or fail on the
/// first unsupported fact.
pub fn resolve_platform(f: &PlatformFlags) -> (r: Result<PlatformDescriptor, PlatformError>)
    ensures
        r == spec_resolve_platform(*f),
{
    let arch = match detect_arch(f) {
        Ok(a) => a,
        Err(e) => {
            return Err(e);
        },
    };
    let os = match detect_os(f) {
        Ok(o) => o,
        Err(e) => {
            return Err(e);
        },
    };
    Ok(PlatformDescriptor { arch, os, abi: detect_abi(f) })
}

/// Resolve the sidecar path straight from the raw target flags. On a
/// supported platform the one path of that platform is returned; on an
/// unsupported architecture or operating system the fatal error is returned
/// and no path — partial or otherwise — exists, so nothing can be spawned
/// from it.
pub fn build_sidecar_path(base_dir: &str, binary_stem: &str, f: &PlatformFlags) -> (r: Result<
    String,
    PlatformError,
>)
    ensures
        r is Ok <==> spec_resolve_platform(*f) is Ok,
        r is Ok ==> r->Ok_0@ == spec_sidecar_path(
            base_dir@,
            binary_stem@,
            spec_resolve_platform(*f)->Ok_0,
        ),
        r is Err ==> r->Err_0 == spec_resolve_platform(*f)->Err_0,
{
    match resolve_platform(f) {
        Ok(d) => Ok(resolve_sidecar_path(base_dir, binary_stem, d)),
        Err(e) => Err(e),
    }
}

impl PlatformError {
    /// The startup-fatal message of this error.
    pub fn message(&self) -> (r: &'static str)
        ensures
            *self == PlatformError::UnsupportedArchitecture ==> r@ == "Unsupported architecture"@,
            *self == PlatformError::UnsupportedOs ==> r@ == "Unsupported OS"@,
    {
        match self {
            PlatformError::UnsupportedArchitecture => "Unsupported architecture",
            PlatformError::UnsupportedOs => "Unsupported OS",
        }
    }
}

/// Resolution is deterministic: any two paths resolved from the same base
/// directory, binary stem and platform descriptor are the same path.
pub proof fn lemma_resolution_deterministic(
    base: Seq<char>,
    stem: Seq<char>,
    d: PlatformDescriptor,
    r1: Seq<char>,
    r2: Seq<char>,
)
    requires
        r1 == spec_sidecar_path(base, stem, d),
        r2 == spec_sidecar_path(base, stem, d),
    ensures
        r1 == r2,
{
}

} // verus!
