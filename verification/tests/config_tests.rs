use std::path::PathBuf;

use ini::Ini;
use idmrs::config::{is_true_word, split_key, truthy, Config};

fn empty_config() -> Config {
    Config::from_ini(PathBuf::from("idm.ini"), Ini::new())
}

#[test]
fn split_key_download_path() {
    assert_eq!(split_key("DOWNLOAD_PATH"), ("download".to_string(), "path".to_string()));
}

#[test]
fn split_key_keeps_later_underscores_in_the_option() {
    assert_eq!(
        split_key("DATA_USER_AGENT"),
        ("data".to_string(), "user_agent".to_string())
    );
}

#[test]
fn split_key_without_underscore_names_itself_twice() {
    assert_eq!(split_key("Verbose"), ("verbose".to_string(), "verbose".to_string()));
}

#[test]
fn split_key_leading_underscore() {
    assert_eq!(split_key("_X"), ("".to_string(), "x".to_string()));
}

#[test]
fn truthy_values() {
    for v in ["1", "true", "TRUE", "Yes", "on", "ON"] {
        assert!(truthy(v), "{v}");
    }
    for v in ["0", "false", "no", "off", "", "yes ", "2", "ok", "OK"] {
        assert!(!truthy(v), "{v}");
    }
}

#[test]
fn unset_key_reads_none_and_false() {
    let cfg = empty_config();
    assert_eq!(cfg.get("DOWNLOAD_PATH"), None);
    assert!(!cfg.get_bool("DOWNLOAD_CONFIRM"));
}

#[test]
fn write_then_get_reads_the_value_back() {
    let mut cfg = empty_config();
    cfg.write_config("Download", "PATH", r"D:\Downloads");
    assert_eq!(cfg.get("DOWNLOAD_PATH").as_deref(), Some(r"D:\Downloads"));
    assert_eq!(cfg.get("download_path").as_deref(), Some(r"D:\Downloads"));
    assert_eq!(cfg.get("DOWNLOAD_CONFIRM"), None);
    assert_eq!(cfg.ini().get_from(Some("download"), "path"), Some(r"D:\Downloads"));
}

#[test]
fn write_replaces_and_keeps_other_keys() {
    let mut cfg = empty_config();
    cfg.write_config("download", "path", "a");
    cfg.write_config("download", "confirm", "1");
    cfg.write_config("download", "path", "b");
    assert_eq!(cfg.get("DOWNLOAD_PATH").as_deref(), Some("b"));
    assert!(cfg.get_bool("DOWNLOAD_CONFIRM"));
}

#[test]
fn get_bool_reads_the_file_values() {
    let ini = Ini::load_from_str("[download]\nconfirm = Yes\n[debug]\nverbose = 0\n").unwrap();
    let cfg = Config::from_ini(PathBuf::from("idm.ini"), ini);
    assert!(cfg.get_bool("DOWNLOAD_CONFIRM"));
    assert!(!cfg.get_bool("DEBUG_VERBOSE"));
    assert_eq!(cfg.get("DEBUG_VERBOSE").as_deref(), Some("0"));
}

#[test]
fn config_keeps_its_path() {
    let cfg = Config::from_ini(PathBuf::from("/tmp/idm.ini"), Ini::new());
    assert_eq!(cfg.path(), &PathBuf::from("/tmp/idm.ini"));
}

#[test]
fn ok_does_not_count_as_true() {
    let ini = Ini::load_from_str("[debug]\nverbose = OK\n").unwrap();
    let cfg = Config::from_ini(PathBuf::from("idm.ini"), ini);
    assert_eq!(cfg.get("DEBUG_VERBOSE").as_deref(), Some("OK"));
    assert!(!cfg.get_bool("DEBUG_VERBOSE"));
}

#[test]
fn readme_config_confirm_is_read_as_download_confirm() {
    let mut cfg = empty_config();
    cfg.write_config("download", "confirm", "1");
    assert!(cfg.get_bool("DOWNLOAD_CONFIRM"));
    assert!(cfg.get_bool("download_confirm"));
    assert!(cfg.get_bool("Download_Confirm"));
}

#[test]
fn keys_differing_in_case_read_the_same_setting() {
    let mut cfg = empty_config();
    cfg.write_config("DATA", "User_Agent", "UA");
    assert_eq!(cfg.get("DATA_USER_AGENT").as_deref(), Some("UA"));
    assert_eq!(cfg.get("data_user_agent").as_deref(), Some("UA"));
    assert_eq!(cfg.get("Data_User_Agent").as_deref(), Some("UA"));
}

#[test]
fn true_words_on_lowercased_text() {
    for v in ["1", "true", "yes", "on"] {
        assert!(is_true_word(v), "{v}");
    }
    for v in ["TRUE", "Yes", "ok", "0", ""] {
        assert!(!is_true_word(v), "{v}");
    }
}
