use std::path::PathBuf;

use ini::Ini;
use idmrs::cli::{
    build_request, choose_mode, clipboard_url, is_version_request, parse_config_arg,
    resolve_settings, typed_url, wants_clipboard, CliError, ConfigCommand, RequestOptions,
    Settings,
};
use idmrs::config::Config;
use idmrs::request::DownloadMode;

fn store(c: ConfigCommand) -> Option<(String, String, String)> {
    match c {
        ConfigCommand::Store { section, option, value } => Some((section, option, value)),
        _ => None,
    }
}

#[test]
fn config_doc() {
    assert!(matches!(parse_config_arg("doc"), ConfigCommand::Docs));
}

#[test]
fn config_set_keeps_colons_in_the_value() {
    assert_eq!(
        store(parse_config_arg(r"download:path:D:\Downloads")),
        Some(("download".to_string(), "path".to_string(), r"D:\Downloads".to_string()))
    );
}

#[test]
fn config_set_with_empty_value() {
    assert_eq!(
        store(parse_config_arg("debug:verbose:")),
        Some(("debug".to_string(), "verbose".to_string(), "".to_string()))
    );
}

#[test]
fn config_invalid() {
    assert!(matches!(parse_config_arg("download:path"), ConfigCommand::Invalid));
    assert!(matches!(parse_config_arg("docs"), ConfigCommand::Invalid));
    assert!(matches!(parse_config_arg(""), ConfigCommand::Invalid));
}

#[test]
fn mode_choice() {
    assert_eq!(choose_mode(true, true), DownloadMode::Confirm);
    assert_eq!(choose_mode(true, false), DownloadMode::Confirm);
    assert_eq!(choose_mode(false, true), DownloadMode::AddOnly);
    assert_eq!(choose_mode(false, false), DownloadMode::Download);
}

fn cfg_from(text: &str) -> Config {
    Config::from_ini(PathBuf::from("idm.ini"), Ini::load_from_str(text).unwrap())
}

#[test]
fn settings_default_without_config() {
    let cfg = cfg_from("");
    let s = resolve_settings(None, false, false, None, &cfg);
    assert_eq!(s.download_path, ".");
    assert_eq!(s.mode, DownloadMode::Download);
    assert_eq!(s.user_agent, None);
}

#[test]
fn settings_from_config() {
    let cfg = cfg_from("[download]\npath = D:/dl\nconfirm = 1\n[data]\nuser_agent = UA\n");
    let s = resolve_settings(None, false, true, None, &cfg);
    assert_eq!(s.download_path, "D:/dl");
    assert_eq!(s.mode, DownloadMode::Confirm);
    assert_eq!(s.user_agent.as_deref(), Some("UA"));
}

#[test]
fn command_line_beats_config() {
    let cfg = cfg_from("[download]\npath = D:\\dl\nconfirm = 0\n[data]\nuser_agent = UA\n");
    let s = resolve_settings(Some("E:\\x".to_string()), false, true, Some("Mine".to_string()), &cfg);
    assert_eq!(s.download_path, "E:\\x");
    assert_eq!(s.mode, DownloadMode::AddOnly);
    assert_eq!(s.user_agent.as_deref(), Some("Mine"));
}

#[test]
fn request_for_a_url() {
    let settings = Settings {
        download_path: "dir".to_string(),
        mode: DownloadMode::AddOnly,
        user_agent: Some("UA".to_string()),
    };
    let opts = RequestOptions {
        referrer: Some("R".to_string()),
        cookie: None,
        post_data: Some("D".to_string()),
        username: Some("U".to_string()),
        password: None,
        output: Some("O".to_string()),
    };
    let r = build_request("http://h/f", &settings, &opts);
    assert_eq!(r.link, "http://h/f");
    assert_eq!(r.path_to_save.as_deref(), Some("dir"));
    assert_eq!(r.mode, DownloadMode::AddOnly);
    assert_eq!(r.referrer.as_deref(), Some("R"));
    assert_eq!(r.cookie, None);
    assert_eq!(r.post_data.as_deref(), Some("D"));
    assert_eq!(r.user.as_deref(), Some("U"));
    assert_eq!(r.password, None);
    assert_eq!(r.output.as_deref(), Some("O"));
    assert_eq!(r.user_agent.as_deref(), Some("UA"));
}

#[test]
fn clipboard_marker() {
    assert!(wants_clipboard("c"));
    assert!(!wants_clipboard("C"));
    assert!(!wants_clipboard("cc"));
    assert!(!wants_clipboard("http://c"));
}

#[test]
fn clipboard_text() {
    assert_eq!(clipboard_url(Some("http://x".to_string())).as_deref(), Some("http://x"));
    assert_eq!(clipboard_url(Some(String::new())), None);
    assert_eq!(clipboard_url(None), None);
}

#[test]
fn typed_url_is_trimmed() {
    assert_eq!(typed_url("  http://x/y \r\n"), Ok("http://x/y".to_string()));
}

#[test]
fn typed_url_empty_is_refused() {
    assert_eq!(typed_url(" \n"), Err(CliError::NoInputUrl));
    assert_eq!(typed_url(""), Err(CliError::NoInputUrl));
}

#[test]
fn error_messages() {
    assert_eq!(CliError::NoUrl.message(), "No URL given. Run with --help for usage.");
    assert_eq!(CliError::NoInputUrl.message(), "You not input URL Download !");
}

#[test]
fn version_request() {
    let a = |v: &[&str]| v.iter().map(|s| s.to_string()).collect::<Vec<String>>();
    assert!(is_version_request(&a(&["idmrs", "-V"])));
    assert!(is_version_request(&a(&["idmrs", "--version"])));
    assert!(!is_version_request(&a(&["idmrs", "-V", "x"])));
    assert!(!is_version_request(&a(&["idmrs", "-v"])));
    assert!(!is_version_request(&a(&["idmrs"])));
}
