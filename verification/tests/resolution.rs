use std::collections::HashMap;

use xdg_rs::get_cache_home_from_env;
use xdg_rs::get_config_dirs_from_env;
use xdg_rs::get_config_home_from_env;
use xdg_rs::get_data_dirs_from_env;
use xdg_rs::get_data_home_from_env;
use xdg_rs::get_runtime_dir_from_env;
use xdg_rs::resolve_list;
use xdg_rs::resolve_optional;
use xdg_rs::resolve_single;
use xdg_rs::ErrorKind;
use xdg_rs::XdgError;

const HOME: &str = "/home/u";

#[test]
fn test_env_with_no_xdg_vars() {
    let mut custom_env = HashMap::new();
    custom_env.insert("dummy", "");

    let f = |var: &str| custom_env.get(var).map(|v| v.to_string());

    assert!(get_data_home_from_env(&f, Some(HOME)).unwrap() == "/home/u/.local/share");
    assert!(
        get_data_dirs_from_env(&f)
            == vec!["/usr/local/share".to_string(), "/usr/share".to_string()]
    );
    assert!(get_config_home_from_env(&f, Some(HOME)).unwrap() == "/home/u/.config");
    assert!(get_config_dirs_from_env(&f) == vec!["/etc/xdg".to_string()]);
    assert!(get_cache_home_from_env(&f, Some(HOME)).unwrap() == "/home/u/.cache");
    assert!(get_runtime_dir_from_env(&f) == None);
}

#[test]
fn test_env_with_empty_xdg_vars() {
    let mut custom_env = HashMap::new();
    custom_env.insert("XDG_DATA_HOME", "");
    custom_env.insert("XDG_DATA_DIRS", "");
    custom_env.insert("XDG_CONFIG_HOME", "");
    custom_env.insert("XDG_CONFIG_DIRS", "");
    custom_env.insert("XDG_CACHE_HOME", "");

    let f = |var: &str| custom_env.get(var).map(|v| v.to_string());

    assert!(get_data_home_from_env(&f, Some(HOME)).unwrap() == "/home/u/.local/share");
    assert!(
        get_data_dirs_from_env(&f)
            == vec!["/usr/local/share".to_string(), "/usr/share".to_string()]
    );
    assert!(get_config_home_from_env(&f, Some(HOME)).unwrap() == "/home/u/.config");
    assert!(get_config_dirs_from_env(&f) == vec!["/etc/xdg".to_string()]);
    assert!(get_cache_home_from_env(&f, Some(HOME)).unwrap() == "/home/u/.cache");
    assert!(get_runtime_dir_from_env(&f) == None);
}

#[test]
fn test_env_with_xdg_vars() {
    let mut custom_env = HashMap::new();
    custom_env.insert("XDG_DATA_HOME", "/base/user/data");
    custom_env.insert("XDG_DATA_DIRS", "/base/share/data:/base/local/data");
    custom_env.insert("XDG_CONFIG_HOME", "/base/user/config");
    custom_env.insert("XDG_CONFIG_DIRS", "/base/config:/base/local/config");
    custom_env.insert("XDG_CACHE_HOME", "/base/user/cache");

    let f = |var: &str| custom_env.get(var).map(|v| v.to_string());

    assert!(get_data_home_from_env(&f, Some(HOME)).unwrap() == "/base/user/data");
    assert!(
        get_data_dirs_from_env(&f)
            == vec!["/base/share/data".to_string(), "/base/local/data".to_string()]
    );
    assert!(get_config_home_from_env(&f, Some(HOME)).unwrap() == "/base/user/config");
    assert!(
        get_config_dirs_from_env(&f)
            == vec!["/base/config".to_string(), "/base/local/config".to_string()]
    );
    assert!(get_cache_home_from_env(&f, Some(HOME)).unwrap() == "/base/user/cache");
}

#[test]
fn scenario_no_vars_set_home_known() {
    let f = |_var: &str| None;

    assert_eq!(
        get_data_home_from_env(&f, Some("/home/u")).unwrap(),
        "/home/u/.local/share"
    );
    assert_eq!(get_config_dirs_from_env(&f), vec!["/etc/xdg".to_string()]);
    assert_eq!(get_runtime_dir_from_env(&f), None);
}

#[test]
fn scenario_empty_data_dirs_is_unset() {
    let f = |var: &str| {
        if var == "XDG_DATA_DIRS" {
            Some(String::new())
        } else {
            None
        }
    };

    assert_eq!(
        get_data_dirs_from_env(&f),
        vec!["/usr/local/share".to_string(), "/usr/share".to_string()]
    );
}

#[test]
fn scenario_absolute_config_home_taken_verbatim() {
    let f = |var: &str| {
        if var == "XDG_CONFIG_HOME" {
            Some("/tmp/cfg".to_string())
        } else {
            None
        }
    };

    assert_eq!(get_config_home_from_env(&f, Some("/home/u")).unwrap(), "/tmp/cfg");
}

#[test]
fn single_keeps_absolute_value() {
    let r = resolve_single(Some("/var/data"), Some(HOME), ".local/share");
    assert_eq!(r.unwrap(), "/var/data");
}

#[test]
fn single_falls_back_on_relative_value() {
    let r = resolve_single(Some("relative/path"), Some(HOME), ".local/share");
    assert_eq!(r.unwrap(), "/home/u/.local/share");
}

#[test]
fn single_falls_back_on_empty_value() {
    let r = resolve_single(Some(""), Some(HOME), ".config");
    assert_eq!(r.unwrap(), "/home/u/.config");
}

#[test]
fn single_joins_home_with_trailing_slash() {
    let r = resolve_single(None, Some("/home/u/"), ".cache");
    assert_eq!(r.unwrap(), "/home/u/.cache");
}

#[test]
fn single_without_home_is_no_home_error() {
    let r = resolve_single(None, None, ".config");
    let e = r.unwrap_err();
    assert_eq!(e.kind(), ErrorKind::Xdg(XdgError::NoHomeDir));
}

#[test]
fn list_splits_verbatim_keeping_order_and_duplicates() {
    let r = resolve_list(Some("/a:rel::/b:/a"), "/ignored");
    assert_eq!(
        r,
        vec![
            "/a".to_string(),
            "rel".to_string(),
            "".to_string(),
            "/b".to_string(),
            "/a".to_string()
        ]
    );
}

#[test]
fn list_single_segment_without_separator() {
    let r = resolve_list(Some("/only"), "/d1:/d2");
    assert_eq!(r, vec!["/only".to_string()]);
}

#[test]
fn list_defaults_when_absent_or_empty() {
    assert_eq!(
        resolve_list(None, "/usr/local/share:/usr/share"),
        vec!["/usr/local/share".to_string(), "/usr/share".to_string()]
    );
    assert_eq!(
        resolve_list(Some(""), "/usr/local/share:/usr/share"),
        vec!["/usr/local/share".to_string(), "/usr/share".to_string()]
    );
}

#[test]
fn optional_is_absent_unless_absolute() {
    assert_eq!(resolve_optional(None), None);
    assert_eq!(resolve_optional(Some("")), None);
    assert_eq!(resolve_optional(Some("relative")), None);
    assert_eq!(resolve_optional(Some("/run/user/1000")), Some("/run/user/1000".to_string()));
}

#[test]
fn optional_is_idempotent_on_its_result() {
    let first = resolve_optional(Some("/run/user/1000")).unwrap();
    let second = resolve_optional(Some(first.as_str())).unwrap();
    assert_eq!(first, second);
}
