//! What the cache asks of the transport that fetches for it.

use vstd::prelude::*;
use vstd::string::StringExecFns;

verus! {

/// The number of seconds after which every fetch is given up.
pub const CLIENT_REQUEST_TIMEOUT: u64 = 10;

/// Whether `text` parses as an absolute URL by the rules of the url crate.
pub uninterp spec fn is_absolute_url(text: Seq<char>) -> bool;

/// `Url::parse`, which reqwest hands on from the url crate: whether `text`
/// parses as an absolute URL.
#[verifier::external_body]
pub(crate) fn parses_as_url(text: &str) -> (valid: bool)
    ensures
        valid == is_absolute_url(text@),
{
    reqwest::Url::parse(text).is_ok()
}

/// The name that the client gives itself on every request: the platform's
/// family, system and architecture, then the package and its version. A
/// package without a name is `bt_file_cache`, one without a version `0.0.1b`.
pub open spec fn user_agent_text(
    family: Seq<char>,
    os: Seq<char>,
    arch: Seq<char>,
    package: Option<Seq<char>>,
    version: Option<Seq<char>>,
) -> Seq<char> {
    "Mozilla/5.0 ("@ + family + "; "@ + os + "; "@ + arch + ") "@ + match package {
        Some(name) => name,
        None => "bt_file_cache"@,
    } + "/"@ + match version {
        Some(number) => number,
        None => "0.0.1b"@,
    }
}

/// The name that the client gives itself on every request.
pub fn default_user_agent(
    family: &str,
    os: &str,
    arch: &str,
    package: Option<&str>,
    version: Option<&str>,
) -> (agent: String)
    ensures
        agent@ == user_agent_text(family@, os@, arch@, package.deep_view(), version.deep_view()),
{
    let package = match package {
        Some(name) => name,
        None => "bt_file_cache",
    };
    let version = match version {
        Some(number) => number,
        None => "0.0.1b",
    };
    "Mozilla/5.0 (".to_owned().concat(family).concat("; ").concat(os).concat("; ").concat(
        arch,
    ).concat(") ").concat(package).concat("/").concat(version)
}

} // verus!
