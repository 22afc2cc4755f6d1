use vstd::prelude::*;

verus! {

#[derive(Clone, Copy, PartialEq, Eq, Structural, Debug)]
pub enum OsFamily {
    Windows,
    Linux,
    MacOs,
}

#[derive(Clone, Copy, PartialEq, Eq, Structural, Debug)]
pub enum Arch {
    X64,
    Arm64,
    X86,
}

/// The (OS, architecture) pair that picks the archive and the binary name.
#[derive(Clone, Copy, PartialEq, Eq, Structural, Debug)]
pub struct PlatformTag {
    pub os: OsFamily,
    pub arch: Arch,
}

#[derive(Debug)]
pub enum PlatformError {
    Unsupported(String),
}

pub open spec fn arch_of(s: Seq<char>) -> Option<Arch> {
    if s == "x86_64"@ {
        Some(Arch::X64)
    } else if s == "aarch64"@ {
        Some(Arch::Arm64)
    } else if s == "x86"@ {
        Some(Arch::X86)
    } else {
        None
    }
}

pub open spec fn os_of(s: Seq<char>) -> Option<OsFamily> {
    if s == "windows"@ {
        Some(OsFamily::Windows)
    } else if s == "linux"@ {
        Some(OsFamily::Linux)
    } else if s == "macos"@ {
        Some(OsFamily::MacOs)
    } else {
        None
    }
}

fn same_text(a: &str, b: &str) -> (r: bool)
    ensures
        r == (a@ == b@),
{
    a.to_owned() == b.to_owned()
}

/// Maps the host's architecture and OS names to a platform tag. An
/// architecture without an artifact gives `Ok(None)`, whatever the OS; a
/// supported architecture on an unknown OS is an error.
pub fn resolve_platform(os: &str, arch: &str) -> (r: Result<Option<PlatformTag>, PlatformError>)
    ensures
        arch_of(arch@) is None ==> r == Ok::<Option<PlatformTag>, PlatformError>(None),
        arch_of(arch@) is Some && os_of(os@) is None ==> (r matches Err(
            PlatformError::Unsupported(s),
        ) && s@ == os@),
        arch_of(arch@) is Some && os_of(os@) is Some ==> r == Ok::<
            Option<PlatformTag>,
            PlatformError,
        >(Some(PlatformTag { os: os_of(os@).unwrap(), arch: arch_of(arch@).unwrap() })),
{
    let a = if same_text(arch, "x86_64") {
        Arch::X64
    } else if same_text(arch, "aarch64") {
        Arch::Arm64
    } else if same_text(arch, "x86") {
        Arch::X86
    } else {
        return Ok(None);
    };
    let o = if same_text(os, "windows") {
        OsFamily::Windows
    } else if same_text(os, "linux") {
        OsFamily::Linux
    } else if same_text(os, "macos") {
        OsFamily::MacOs
    } else {
        return Err(PlatformError::Unsupported(os.to_owned()));
    };
    Ok(Some(PlatformTag { os: o, arch: a }))
}

pub open spec fn install_dir() -> Seq<char> {
    "bin_csharpserver"@
}

pub open spec fn binary_file_name(os: OsFamily) -> Seq<char> {
    if os == OsFamily::Windows {
        "CSharpLanguageServer.exe"@
    } else {
        "CSharpLanguageServer"@
    }
}

/// Where the server binary stands, relative to the plugin's directory.
pub open spec fn binary_path(os: OsFamily) -> Seq<char> {
    install_dir() + "/"@ + binary_file_name(os)
}

pub open spec fn has_exe_suffix(s: Seq<char>) -> bool {
    s.len() >= 4 && s.subrange(s.len() - 4, s.len() as int) == ".exe"@
}

/// The managed binary stands under the install directory, and its name
/// ends in `.exe` on Windows and nowhere else.
pub proof fn lemma_binary_name_suffix(os: OsFamily)
    ensures
        binary_path(os) == install_dir() + "/"@ + binary_file_name(os),
        has_exe_suffix(binary_file_name(os)) <==> os == OsFamily::Windows,
{
    reveal_strlit(".exe");
    reveal_strlit("CSharpLanguageServer.exe");
    reveal_strlit("CSharpLanguageServer");
    let w = "CSharpLanguageServer.exe"@;
    let n = "CSharpLanguageServer"@;
    assert(w.subrange(20, 24) =~= ".exe"@);
    assert(n.subrange(16, 20)[0] != ".exe"@[0]);
}

pub open spec fn os_label(os: OsFamily) -> Seq<char> {
    match os {
        OsFamily::Windows => "win"@,
        OsFamily::Linux => "linux"@,
        OsFamily::MacOs => "osx"@,
    }
}

pub open spec fn arch_label(a: Arch) -> Seq<char> {
    match a {
        Arch::X64 => "x64"@,
        Arch::Arm64 => "arm64"@,
        Arch::X86 => "x86"@,
    }
}

/// The release archive's name for a platform.
pub open spec fn archive_name(p: PlatformTag) -> Seq<char> {
    "omnisharp-"@ + os_label(p.os) + "-"@ + arch_label(p.arch) + ".zip"@
}

pub fn binary_relative_path(os: OsFamily) -> (r: String)
    ensures
        r@ == binary_path(os),
{
    let mut r = "bin_csharpserver".to_owned();
    r.append("/");
    match os {
        OsFamily::Windows => r.append("CSharpLanguageServer.exe"),
        _ => r.append("CSharpLanguageServer"),
    }
    r
}

pub fn archive_file_name(p: PlatformTag) -> (r: String)
    ensures
        r@ == archive_name(p),
{
    let mut r = "omnisharp-".to_owned();
    match p.os {
        OsFamily::Windows => r.append("win"),
        OsFamily::Linux => r.append("linux"),
        OsFamily::MacOs => r.append("osx"),
    }
    r.append("-");
    match p.arch {
        Arch::X64 => r.append("x64"),
        Arch::Arm64 => r.append("arm64"),
        Arch::X86 => r.append("x86"),
    }
    r.append(".zip");
    r
}

} // verus!
