//! Data folders, and what the transport is told.

use bt_file_cache::cache::BTCache;
use bt_file_cache::error::CacheError;
use bt_file_cache::folder_manager::{get_local_usr_data_path, get_platform_data_path, Platform};
use bt_file_cache::transport::{default_user_agent, CLIENT_REQUEST_TIMEOUT};
use regex::Regex;

const APP_NAME: &str = "bt_file_cache";
const BASE: &str = "/home/tester/.local/share";

#[test]
fn test_get_app_path_no_create_success() {
    let subfolder = "db";
    let re = Regex::new(r"^/home/.*/\.local/share/bt_file_cache/db").unwrap();
    let df = get_local_usr_data_path(BASE, Some(APP_NAME), Some(subfolder)).unwrap();
    assert!(re.is_match(&df));
}

#[test]
fn test_get_app_path_create_success() {
    let subfolder = "db.test";
    let re = Regex::new(r"^/home/.*/\.local/share/bt_file_cache/db.test").unwrap();
    let df = get_local_usr_data_path(BASE, Some(APP_NAME), Some(subfolder));
    assert!(df.is_ok());
    assert!(re.is_match(&df.unwrap()));
}

#[test]
fn names_are_joined_in_their_order() {
    assert_eq!(
        get_local_usr_data_path(BASE, Some(APP_NAME), Some("db")),
        Ok("/home/tester/.local/share/bt_file_cache/db".to_owned())
    );
    assert_eq!(
        get_local_usr_data_path("/data/", Some("app"), Some("cache")),
        Ok("/data/app/cache".to_owned())
    );
    assert_eq!(get_local_usr_data_path(".", Some("app"), None), Ok("./app".to_owned()));
    assert_eq!(get_local_usr_data_path("", Some("app"), Some("x")), Ok("app/x".to_owned()));
}

#[test]
fn missing_and_blank_names_are_skipped() {
    assert_eq!(get_local_usr_data_path(BASE, None, None), Ok(BASE.to_owned()));
    assert_eq!(get_local_usr_data_path(BASE, Some(""), Some("")), Ok(BASE.to_owned()));
    assert_eq!(get_local_usr_data_path(BASE, Some("  \t\n"), Some("db")), Ok(format!("{}/db", BASE)));
    assert_eq!(get_local_usr_data_path(BASE, None, Some("db")), Ok(format!("{}/db", BASE)));
    assert_eq!(
        get_local_usr_data_path(BASE, Some("app"), Some("\u{a0}\u{2003}")),
        Ok(format!("{}/app", BASE))
    );
}

#[test]
fn names_are_trimmed() {
    assert_eq!(
        get_local_usr_data_path(BASE, Some("  app "), Some("\tdb\n")),
        Ok(format!("{}/app/db", BASE))
    );
    assert_eq!(
        get_local_usr_data_path(BASE, Some(" my app "), None),
        Ok(format!("{}/my app", BASE))
    );
}

#[test]
fn an_absolute_name_replaces_what_came_before() {
    assert_eq!(get_local_usr_data_path(BASE, Some("/srv/app"), Some("db")), Ok("/srv/app/db".to_owned()));
}

#[test]
fn each_platform_has_its_data_folder() {
    let home = Some("/home/u");
    assert_eq!(
        get_platform_data_path(Platform::Linux, None, Some("/xdg"), home),
        Ok("/xdg".to_owned())
    );
    assert_eq!(
        get_platform_data_path(Platform::Linux, None, None, home),
        Ok("/home/u/.local/share".to_owned())
    );
    assert_eq!(get_platform_data_path(Platform::Linux, Some("x"), None, None), Ok(".".to_owned()));
    assert_eq!(
        get_platform_data_path(Platform::Windows, Some("C:\\Users\\u\\AppData\\Local"), None, home),
        Ok("C:\\Users\\u\\AppData\\Local".to_owned())
    );
    assert_eq!(get_platform_data_path(Platform::Windows, None, None, home), Ok(".".to_owned()));
    assert_eq!(
        get_platform_data_path(Platform::MacOs, None, None, Some("/Users/u")),
        Ok("/Users/u/Library/Application Support".to_owned())
    );
    assert_eq!(
        get_platform_data_path(Platform::MacOs, None, None, None),
        Ok("./Library/Application Support".to_owned())
    );
    assert_eq!(get_platform_data_path(Platform::Android, None, None, home), Ok("/home/u".to_owned()));
    assert_eq!(get_platform_data_path(Platform::Android, None, None, None), Ok(".".to_owned()));
    assert_eq!(
        get_platform_data_path(Platform::Ios, None, None, home),
        Ok("/home/u/Documents".to_owned())
    );
    assert_eq!(get_platform_data_path(Platform::Other, Some("a"), Some("b"), home), Ok(".".to_owned()));
}

#[test]
fn the_cache_lies_in_the_data_folder_of_the_platform() {
    let base = get_platform_data_path(Platform::Linux, None, None, Some("/home/u")).unwrap();
    let cache: Result<BTCache, CacheError> = BTCache::new(&base, Some("bt_cache"));
    assert_eq!(cache.unwrap().folder_path(), "/home/u/.local/share/bt_cache/cache");
}

#[test]
fn the_client_names_itself() {
    assert_eq!(
        default_user_agent("unix", "linux", "x86_64", Some("bt_file_cache"), Some("0.1.4")),
        "Mozilla/5.0 (unix; linux; x86_64) bt_file_cache/0.1.4"
    );
    assert_eq!(
        default_user_agent("windows", "windows", "aarch64", None, None),
        "Mozilla/5.0 (windows; windows; aarch64) bt_file_cache/0.0.1b"
    );
    assert_eq!(CLIENT_REQUEST_TIMEOUT, 10);
}
