use idmrs::text::{chars_of, contains_text, find_char_from, same_text, trim, white_space};
use idmrs::window::{find_idm_window, is_idm_window_title, WindowInfo};

#[test]
fn idm_titles() {
    assert!(is_idm_window_title("Internet Download Manager 6.42"));
    assert!(is_idm_window_title("INTERNET DOWNLOAD MANAGER"));
    assert!(!is_idm_window_title("Internet  Download Manager"));
    assert!(!is_idm_window_title("IDM"));
    assert!(!is_idm_window_title(""));
}

fn w(visible: bool, title: &str) -> WindowInfo {
    WindowInfo { visible, title: title.to_string() }
}

#[test]
fn first_visible_idm_window_is_picked() {
    let ws = vec![
        w(true, "Editor"),
        w(false, "Internet Download Manager"),
        w(true, ""),
        w(true, "Internet Download Manager 6.42"),
        w(true, "internet download manager"),
    ];
    assert_eq!(find_idm_window(&ws), Some(3));
}

#[test]
fn no_idm_window() {
    let ws = vec![w(true, "Editor"), w(false, "Internet Download Manager")];
    assert_eq!(find_idm_window(&ws), None);
    assert_eq!(find_idm_window(&Vec::new()), None);
}

#[test]
fn text_helpers() {
    assert_eq!(chars_of("aé_"), vec!['a', 'é', '_']);
    assert!(contains_text("abcabd", "abd"));
    assert!(contains_text("abc", ""));
    assert!(!contains_text("ab", "abc"));
    assert!(same_text("x", "x"));
    assert!(!same_text("x", "X"));
    let cs = chars_of("a:b:c");
    assert_eq!(find_char_from(&cs, ':', 0), Some(1));
    assert_eq!(find_char_from(&cs, ':', 2), Some(3));
    assert_eq!(find_char_from(&cs, ':', 4), None);
}

#[test]
fn trim_agrees_with_std() {
    for s in [
        "",
        "   ",
        "  a b  ",
        "\t\r\nurl\u{85}",
        "\u{a0}\u{2003}x\u{3000}",
        "\u{200b}x",
        "x",
        " \u{1680}\u{2028}\u{2029}\u{202f}\u{205f}y z\u{b}\u{c}",
    ] {
        assert_eq!(trim(s), s.trim(), "{s:?}");
    }
    for c in ['\t', '\n', ' ', '\u{85}', '\u{a0}', '\u{2000}', '\u{200a}', '\u{3000}'] {
        assert!(white_space(c));
        assert!(c.is_whitespace());
    }
    for c in ['a', '\u{200b}', '\u{1f}', '\u{feff}', '\u{200c}'] {
        assert!(!white_space(c));
        assert_eq!(c.is_whitespace(), false);
    }
}
