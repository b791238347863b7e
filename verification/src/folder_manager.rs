//! Where the data of an application lies: folder names joined to a base path.

use crate::error::CacheError;
use vstd::prelude::*;
use vstd::string::StringExecFns;

verus! {

/// The text of the path that the platform's joining rule makes of the folder
/// `dir` and the component `name`, where that path has a text.
pub uninterp spec fn joined_path(dir: Seq<char>, name: Seq<char>) -> Option<Seq<char>>;

/// `Path::join` of std, from text to text: the path of `name` adjoined to
/// `dir`, read back with `Path::to_str`, which gives nothing for a path that
/// is not valid Unicode.
#[verifier::external_body]
pub(crate) fn join_path(dir: &str, name: &str) -> (path: Option<String>)
    ensures
        path.deep_view() == joined_path(dir@, name@),
{
    std::path::Path::new(dir).join(name).to_str().map(String::from)
}

/// Whether `c` has the Unicode property White_Space.
pub uninterp spec fn white_space(c: char) -> bool;

/// `text` without the white space at its start.
pub open spec fn trimmed_start(text: Seq<char>) -> Seq<char>
    decreases text.len(),
{
    if text.len() > 0 && white_space(text.first()) {
        trimmed_start(text.drop_first())
    } else {
        text
    }
}

/// `text` without the white space at its end.
pub open spec fn trimmed_end(text: Seq<char>) -> Seq<char>
    decreases text.len(),
{
    if text.len() > 0 && white_space(text.last()) {
        trimmed_end(text.drop_last())
    } else {
        text
    }
}

/// `text` without the white space at its start and at its end.
pub open spec fn trimmed(text: Seq<char>) -> Seq<char> {
    trimmed_end(trimmed_start(text))
}

/// `str::trim` of std: the text without leading and trailing white space, so
/// that what is left neither starts nor ends with a character that has the
/// property White_Space.
#[verifier::external_body]
pub(crate) fn trim(text: &str) -> (inner: &str)
    ensures
        inner@ == trimmed(text@),
        inner@.len() > 0 ==> !white_space(inner@.first()) && !white_space(inner@.last()),
{
    text.trim()
}

/// The path `path` with the folder `name` adjoined, where there is such a
/// folder: a name that is missing, empty or blank adds nothing.
pub open spec fn with_folder(path: Option<Seq<char>>, name: Option<Seq<char>>) -> Option<
    Seq<char>,
> {
    match (path, name) {
        (Some(p), Some(n)) => if trimmed(n).len() > 0 {
            joined_path(p, trimmed(n))
        } else {
            path
        },
        _ => path,
    }
}

/// The data folder of an application below `base`: the application's folder,
/// and in it the subfolder, each adjoined where it is named.
pub open spec fn data_path(
    base: Seq<char>,
    app_folder_name: Option<Seq<char>>,
    subfolder: Option<Seq<char>>,
) -> Option<Seq<char>> {
    with_folder(with_folder(Some(base), app_folder_name), subfolder)
}

/// Adjoins the folder `name` to `path`, if it names one.
fn push_folder(path: Option<String>, name: Option<&str>) -> (longer: Option<String>)
    ensures
        longer.deep_view() == with_folder(path.deep_view(), name.deep_view()),
{
    match (path, name) {
        (Some(p), Some(n)) => {
            let inner = trim(n);
            if inner.is_empty() {
                Some(p)
            } else {
                join_path(p.as_str(), inner)
            }
        },
        (path, _) => path,
    }
}

/// The path of the folder in which an application keeps its data: `base`,
/// then the application's folder, then the subfolder. Names are trimmed, and a
/// name that is missing or blank is skipped. Fails with
/// `DirectoryResolution` when the path has no text.
pub fn get_local_usr_data_path(
    base: &str,
    app_folder_name: Option<&str>,
    subfolder: Option<&str>,
) -> (path: Result<String, CacheError>)
    ensures
        match data_path(base@, app_folder_name.deep_view(), subfolder.deep_view()) {
            Some(text) => path matches Ok(p) && p@ == text,
            None => path == Err::<String, CacheError>(CacheError::DirectoryResolution),
        },
{
    let start = Some(base.to_owned());
    let with_app = push_folder(start, app_folder_name);
    match push_folder(with_app, subfolder) {
        Some(p) => Ok(p),
        None => Err(CacheError::DirectoryResolution),
    }
}

/// The platforms that keep the data of applications in a place of their own.
#[derive(Clone, Copy, Debug, PartialEq, Eq, Structural)]
pub enum Platform {
    Windows,
    MacOs,
    Linux,
    Android,
    Ios,
    /// Any other platform: data goes below the current directory.
    Other,
}

/// `home`, or the current directory where no home directory is known.
pub open spec fn home_or_here(home: Option<Seq<char>>) -> Seq<char> {
    match home {
        Some(h) => h,
        None => "."@,
    }
}

/// The folder below which the applications of a user keep their data, from
/// what the environment says: on Windows the local application data; on macOS
/// `Library/Application Support` in the home directory; on Linux the XDG data
/// home, else `.local/share` in the home directory; on Android the home
/// directory; on iOS `Documents` in it. Where the environment is silent, and
/// on other platforms, it is the current directory.
pub open spec fn platform_data_path(
    platform: Platform,
    local_app_data: Option<Seq<char>>,
    xdg_data_home: Option<Seq<char>>,
    home: Option<Seq<char>>,
) -> Option<Seq<char>> {
    match platform {
        Platform::Windows => Some(home_or_here(local_app_data)),
        Platform::MacOs => match joined_path(home_or_here(home), "Library"@) {
            Some(library) => joined_path(library, "Application Support"@),
            None => None,
        },
        Platform::Linux => match (xdg_data_home, home) {
            (Some(data), _) => Some(data),
            (None, Some(h)) => Some(h + "/.local/share"@),
            (None, None) => Some("."@),
        },
        Platform::Android => Some(home_or_here(home)),
        Platform::Ios => joined_path(home_or_here(home), "Documents"@),
        Platform::Other => Some("."@),
    }
}

/// `home`, or the current directory where no home directory is known.
fn or_here(home: Option<&str>) -> (dir: &str)
    ensures
        dir@ == home_or_here(home.deep_view()),
{
    match home {
        Some(h) => h,
        None => ".",
    }
}

/// The folder below which the applications of a user keep their data on
/// `platform`, given the values of the environment variables `LOCALAPPDATA`,
/// `XDG_DATA_HOME` and `HOME`, each where it is set. Fails with
/// `DirectoryResolution` when the path has no text.
pub fn get_platform_data_path(
    platform: Platform,
    local_app_data: Option<&str>,
    xdg_data_home: Option<&str>,
    home: Option<&str>,
) -> (path: Result<String, CacheError>)
    ensures
        match platform_data_path(
            platform,
            local_app_data.deep_view(),
            xdg_data_home.deep_view(),
            home.deep_view(),
        ) {
            Some(text) => path matches Ok(p) && p@ == text,
            None => path == Err::<String, CacheError>(CacheError::DirectoryResolution),
        },
{
    let found = match platform {
        Platform::Windows => Some(or_here(local_app_data).to_owned()),
        Platform::MacOs => match join_path(or_here(home), "Library") {
            Some(library) => join_path(library.as_str(), "Application Support"),
            None => None,
        },
        Platform::Linux => match (xdg_data_home, home) {
            (Some(data), _) => Some(data.to_owned()),
            (None, Some(h)) => Some(h.to_owned().concat("/.local/share")),
            (None, None) => Some(".".to_owned()),
        },
        Platform::Android => Some(or_here(home).to_owned()),
        Platform::Ios => join_path(or_here(home), "Documents"),
        Platform::Other => Some(".".to_owned()),
    };
    match found {
        Some(p) => Ok(p),
        None => Err(CacheError::DirectoryResolution),
    }
}

} // verus!
