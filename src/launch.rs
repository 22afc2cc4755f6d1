use vstd::prelude::*;
use lsp_types::Url;
use crate::config::{InitOptions, resolve_config, resolved_args, resolved_override, strs};
use crate::platform::{PlatformError, PlatformTag, arch_of, os_of, resolve_platform};

verus! {

#[verifier::external_type_specification]
#[verifier::external_body]
pub struct ExUrl(Url);

/// Whether `url` accepts the text as a URI.
pub uninterp spec fn url_parses(s: Seq<char>) -> bool;

/// Relies on url::Url::parse (re-exported by lsp-types as `Url`) to read a
/// URI; whether it succeeds depends on the text alone.
#[verifier::external_body]
fn parse_uri(s: &str) -> (r: Option<Url>)
    ensures
        r is Some <==> url_parses(s@),
{
    Url::parse(s).ok()
}

#[derive(Debug)]
pub enum ConfigError {
    /// `serverPath` could not be read as a URI.
    InvalidServerPath(String),
}

/// What the initialize handling does next.
pub enum LaunchPlan {
    /// Start the server at the user's `serverPath`, read as `urn:<path>`.
    UseOverride { uri: Url, args: Vec<String> },
    /// Provision the managed binary for this platform, then start it.
    Provision { platform: PlatformTag, args: Vec<String> },
    /// No artifact exists for this architecture: start nothing, report nothing.
    Decline,
    Fail(LaunchError),
}

#[derive(Debug)]
pub enum LaunchError {
    Config(ConfigError),
    Platform(PlatformError),
}

/// The text of `rel` resolved against the URI `base` by `url`, where both
/// steps succeed.
pub uninterp spec fn joined_uri(base: Seq<char>, rel: Seq<char>) -> Option<Seq<char>>;

/// Relies on url::Url::parse to read the base, and on url::Url::join to
/// resolve `rel` against it; the result is the joined URI's text.
#[verifier::external_body]
fn join_uri(base: &str, rel: &str) -> (r: Option<String>)
    ensures
        r is Some <==> joined_uri(base@, rel@) is Some,
        r matches Some(t) ==> joined_uri(base@, rel@) == Some(t@),
        !url_parses(base@) ==> r is None,
{
    Url::parse(base).and_then(|b| b.join(rel)).ok().map(|u| u.to_string())
}

/// The managed server's URI: the binary's relative path resolved against
/// the plugin's base URI; none where the base is not a URI or the join
/// fails.
pub fn managed_server_uri(base: &str, binary: &str) -> (r: Option<String>)
    ensures
        r is Some <==> joined_uri(base@, binary@) is Some,
        r matches Some(t) ==> joined_uri(base@, binary@) == Some(t@),
        !url_parses(base@) ==> r is None,
{
    join_uri(base, binary)
}

pub open spec fn urn_of(p: Seq<char>) -> Seq<char> {
    "urn:"@ + p
}

/// Decides how the server is launched: an override path bypasses the
/// platform lookup and provisioning; otherwise the platform decides.
pub fn plan_launch(o: &InitOptions, os: &str, arch: &str) -> (r: LaunchPlan)
    ensures
        resolved_override(*o) is Some ==> !(r is Provision) && !(r is Decline),
        resolved_override(*o) is Some && url_parses(urn_of(resolved_override(*o).unwrap())) ==> (
        r matches LaunchPlan::UseOverride { args, .. } && strs(args@) == resolved_args(*o)),
        resolved_override(*o) is Some && !url_parses(urn_of(resolved_override(*o).unwrap())) ==> (
        r matches LaunchPlan::Fail(LaunchError::Config(ConfigError::InvalidServerPath(s)))
            && s@ == resolved_override(*o).unwrap()),
        resolved_override(*o) is None && arch_of(arch@) is None ==> r is Decline,
        resolved_override(*o) is None && arch_of(arch@) is Some && os_of(os@) is None ==> (
        r matches LaunchPlan::Fail(LaunchError::Platform(PlatformError::Unsupported(s))) && s@
            == os@),
        resolved_override(*o) is None && arch_of(arch@) is Some && os_of(os@) is Some ==> (
        r matches LaunchPlan::Provision { platform, args } && platform == (PlatformTag {
            os: os_of(os@).unwrap(),
            arch: arch_of(arch@).unwrap(),
        }) && strs(args@) == resolved_args(*o)),
{
    let spec = resolve_config(o);
    match spec.server_path_override {
        Some(p) => {
            let mut uri_text = "urn:".to_owned();
            uri_text.append(p.as_str());
            match parse_uri(uri_text.as_str()) {
                Some(uri) => LaunchPlan::UseOverride { uri, args: spec.server_args },
                None => LaunchPlan::Fail(LaunchError::Config(ConfigError::InvalidServerPath(p))),
            }
        },
        None => match resolve_platform(os, arch) {
            Ok(Some(platform)) => LaunchPlan::Provision { platform, args: spec.server_args },
            Ok(None) => LaunchPlan::Decline,
            Err(e) => LaunchPlan::Fail(LaunchError::Platform(e)),
        },
    }
}

} // verus!
