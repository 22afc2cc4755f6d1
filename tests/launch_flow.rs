use csharp_launch::config::{resolve_config, InitOptions};
use csharp_launch::launch::{managed_server_uri, plan_launch, ConfigError, LaunchError, LaunchPlan};
use csharp_launch::platform::{
    archive_file_name, binary_relative_path, resolve_platform, Arch, OsFamily, PlatformError,
    PlatformTag,
};
use csharp_launch::provision::{Action, Event, ProvisionError, Provisioner};

fn no_options() -> InitOptions {
    InitOptions { server_args: None, server_path: None, solution: None, log_level: None }
}

fn strings(v: &[&str]) -> Vec<String> {
    v.iter().map(|s| s.to_string()).collect()
}

fn linux_x64() -> PlatformTag {
    PlatformTag { os: OsFamily::Linux, arch: Arch::X64 }
}

#[test]
fn default_args_use_warning_level() {
    let spec = resolve_config(&no_options());
    assert_eq!(spec.server_args, strings(&["--loglevel", "warning"]));
    assert!(spec.server_path_override.is_none());
}

#[test]
fn solution_and_level_are_rendered() {
    let mut o = no_options();
    o.solution = Some("app.sln".to_string());
    o.log_level = Some("debug".to_string());
    let spec = resolve_config(&o);
    assert_eq!(spec.server_args, strings(&["solution app.sln", "--loglevel", "debug"]));
}

#[test]
fn server_args_replace_defaults() {
    let mut o = no_options();
    o.server_args = Some(strings(&["--a", "b"]));
    o.solution = Some("app.sln".to_string());
    let spec = resolve_config(&o);
    assert_eq!(spec.server_args, strings(&["--a", "b"]));
}

#[test]
fn empty_server_args_keep_defaults() {
    let mut o = no_options();
    o.server_args = Some(vec![]);
    assert_eq!(resolve_config(&o).server_args, strings(&["--loglevel", "warning"]));
}

#[test]
fn empty_server_path_is_no_override() {
    let mut o = no_options();
    o.server_path = Some(String::new());
    assert!(resolve_config(&o).server_path_override.is_none());
}

#[test]
fn server_path_bypasses_provisioning() {
    let mut o = no_options();
    o.server_path = Some("/opt/csharp-ls".to_string());
    match plan_launch(&o, "plan9", "mips") {
        LaunchPlan::UseOverride { uri, args } => {
            assert_eq!(uri.as_str(), "urn:/opt/csharp-ls");
            assert_eq!(args, strings(&["--loglevel", "warning"]));
        }
        _ => panic!("expected the override"),
    }
}

#[test]
fn server_path_args_are_given_args() {
    let mut o = no_options();
    o.server_path = Some("csharp-ls".to_string());
    o.server_args = Some(strings(&["--verbose"]));
    match plan_launch(&o, "linux", "x86_64") {
        LaunchPlan::UseOverride { uri, args } => {
            assert_eq!(uri.as_str(), "urn:csharp-ls");
            assert_eq!(args, strings(&["--verbose"]));
        }
        _ => panic!("expected the override"),
    }
}

#[test]
fn malformed_server_path_is_a_config_error() {
    let mut o = no_options();
    o.server_path = Some("//[::1".to_string());
    match plan_launch(&o, "linux", "x86_64") {
        LaunchPlan::Fail(LaunchError::Config(ConfigError::InvalidServerPath(p))) => {
            assert_eq!(p, "//[::1")
        }
        _ => panic!("expected an invalid server path"),
    }
}

#[test]
fn unsupported_architecture_declines() {
    assert!(matches!(plan_launch(&no_options(), "linux", "mips"), LaunchPlan::Decline));
    assert!(matches!(resolve_platform("plan9", "mips"), Ok(None)));
}

#[test]
fn unsupported_os_is_reported() {
    match plan_launch(&no_options(), "plan9", "x86_64") {
        LaunchPlan::Fail(LaunchError::Platform(PlatformError::Unsupported(os))) => {
            assert_eq!(os, "plan9")
        }
        _ => panic!("expected an unsupported OS"),
    }
}

#[test]
fn supported_platform_is_provisioned() {
    match plan_launch(&no_options(), "windows", "aarch64") {
        LaunchPlan::Provision { platform, .. } => {
            assert_eq!(platform, PlatformTag { os: OsFamily::Windows, arch: Arch::Arm64 })
        }
        _ => panic!("expected provisioning"),
    }
    assert!(matches!(
        resolve_platform("macos", "x86"),
        Ok(Some(PlatformTag { os: OsFamily::MacOs, arch: Arch::X86 }))
    ));
}

#[test]
fn binary_name_has_exe_only_on_windows() {
    assert_eq!(binary_relative_path(OsFamily::Windows), "bin_csharpserver/CSharpLanguageServer.exe");
    assert_eq!(binary_relative_path(OsFamily::Linux), "bin_csharpserver/CSharpLanguageServer");
    assert_eq!(binary_relative_path(OsFamily::MacOs), "bin_csharpserver/CSharpLanguageServer");
}

#[test]
fn archive_names() {
    assert_eq!(archive_file_name(linux_x64()), "omnisharp-linux-x64.zip");
    let p = PlatformTag { os: OsFamily::Windows, arch: Arch::Arm64 };
    assert_eq!(archive_file_name(p), "omnisharp-win-arm64.zip");
    let p = PlatformTag { os: OsFamily::MacOs, arch: Arch::X86 };
    assert_eq!(archive_file_name(p), "omnisharp-osx-x86.zip");
}

fn body(tag: &str) -> Event {
    Event::Fetched(format!("{{\"tag_name\":\"{tag}\",\"name\":\"r\"}}").into_bytes())
}

#[test]
fn version_mismatch_reinstalls_and_records_new_tag() {
    let mut m = Provisioner::new(linux_x64());
    assert!(matches!(m.first_action(), Action::FetchMetadata));
    assert!(matches!(m.advance(body("v1.1")), Action::ReadRecord));
    assert!(matches!(m.advance(Event::RecordRead("v1.0".to_string())), Action::RemoveInstall));
    match m.advance(Event::Succeeded) {
        Action::Download { url, archive } => {
            assert_eq!(
                url,
                "https://github.com/OmniSharp/omnisharp-roslyn/releases/download/v1.1/omnisharp-linux-x64.zip"
            );
            assert_eq!(archive, "omnisharp-linux-x64.zip");
        }
        _ => panic!("expected a download"),
    }
    assert!(matches!(m.advance(Event::Succeeded), Action::CreateInstallDir));
    assert!(matches!(m.advance(Event::Succeeded), Action::Extract { .. }));
    assert!(matches!(m.advance(Event::Succeeded), Action::DeleteArchive));
    match m.advance(Event::Succeeded) {
        Action::WriteRecord(t) => assert_eq!(t, "v1.1"),
        _ => panic!("expected the record write"),
    }
    match m.advance(Event::Succeeded) {
        Action::Done(p) => assert_eq!(p, "bin_csharpserver/CSharpLanguageServer"),
        _ => panic!("expected done"),
    }
    assert!(m.is_finished());
}

#[test]
fn same_version_makes_no_download() {
    let p = PlatformTag { os: OsFamily::Windows, arch: Arch::X64 };
    let mut m = Provisioner::new(p);
    assert!(matches!(m.advance(body("v1.1")), Action::ReadRecord));
    match m.advance(Event::RecordRead("v1.1".to_string())) {
        Action::Done(p) => assert_eq!(p, "bin_csharpserver/CSharpLanguageServer.exe"),
        _ => panic!("expected done"),
    }
    assert!(m.is_finished());
}

#[test]
fn metadata_errors() {
    let mut m = Provisioner::new(linux_x64());
    assert!(matches!(m.advance(Event::Fetched(b"not json".to_vec())), Action::Fail(ProvisionError::Network)));
    let mut m = Provisioner::new(linux_x64());
    let no_tag = Event::Fetched(b"{\"name\":\"r\"}".to_vec());
    assert!(matches!(m.advance(no_tag), Action::Fail(ProvisionError::Metadata)));
    let mut m = Provisioner::new(linux_x64());
    assert!(matches!(m.advance(Event::Failed), Action::Fail(ProvisionError::Network)));
}

#[test]
fn failed_extraction_deletes_archive_and_keeps_record() {
    let mut m = Provisioner::new(linux_x64());
    m.advance(body("v2"));
    m.advance(Event::RecordRead(String::new()));
    m.advance(Event::Failed);
    m.advance(Event::Succeeded);
    m.advance(Event::Succeeded);
    assert!(matches!(m.advance(Event::Failed), Action::DeleteArchive));
    assert!(matches!(m.advance(Event::Succeeded), Action::Fail(ProvisionError::Archive)));
    assert!(m.is_finished());
}

#[test]
fn failed_download_and_write() {
    let mut m = Provisioner::new(linux_x64());
    m.advance(body("v2"));
    m.advance(Event::RecordRead("v1".to_string()));
    m.advance(Event::Succeeded);
    assert!(matches!(m.advance(Event::Failed), Action::DeleteArchive));
    assert!(matches!(m.advance(Event::Succeeded), Action::Fail(ProvisionError::Network)));
    let mut m = Provisioner::new(linux_x64());
    assert!(matches!(m.advance(Event::Fetched(b"{\"tag_name\":\"v2\"}".to_vec())), Action::ReadRecord));
    assert!(matches!(m.advance(Event::Failed), Action::Fail(ProvisionError::Filesystem)));
}

#[test]
fn managed_uri_joins_binary_under_base() {
    let uri = managed_server_uri("file:///plugins/csharp/", "bin_csharpserver/CSharpLanguageServer");
    assert_eq!(uri, Some("file:///plugins/csharp/bin_csharpserver/CSharpLanguageServer".to_string()));
    let win = managed_server_uri("file:///plugins/csharp/", &binary_relative_path(OsFamily::Windows));
    assert_eq!(win, Some("file:///plugins/csharp/bin_csharpserver/CSharpLanguageServer.exe".to_string()));
    assert!(managed_server_uri("not a uri", "bin_csharpserver/CSharpLanguageServer").is_none());
}
