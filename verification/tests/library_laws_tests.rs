use tt::browser::{encode, translate_url};
use tt::color::{hyperlink, paint, BOLD};
use tt::commands::help::pad;
use tt::engine::Query;
use tt::error::Error;
use tt::google::{lanes, status_error, with_browser_link};
use tt::engine::Translation;
use tt::render::{render, Filter, Meta};
use tt::lang::{canonical, display_name, is_identity, languages, name, normalize_key, resolve_source, resolve_target};
use tt::text::{decimal, join_strings, str_lt};

#[test]
fn canonical_ignores_case_and_separators() {
    for (a, b) in [("PT-br", "pt_BR"), ("English", "eNgLiSh"), ("zh tw", "ZH-TW")] {
        assert_eq!(canonical(a), canonical(b));
        assert_eq!(normalize_key(a), normalize_key(b));
    }
    assert_eq!(normalize_key(&normalize_key("  Pt Br ")), normalize_key("  Pt Br "));
}

#[test]
fn every_listed_code_resolves_to_itself() {
    for (code, _) in languages() {
        assert_eq!(canonical(code), Some(code));
        assert_eq!(resolve_source(code).unwrap(), code);
        if code != "auto" {
            assert_eq!(resolve_target(code).unwrap(), code);
        }
    }
    assert_eq!(languages()[0], ("auto", "detect"));
}

#[test]
fn resolving_twice_changes_nothing() {
    for input in ["br", "english", "ZH", "detect"] {
        let once = resolve_source(input).unwrap();
        assert_eq!(resolve_source(&once).unwrap(), once);
    }
}

#[test]
fn target_is_never_auto_and_errors_carry_the_input() {
    match resolve_target("detect") {
        Err(Error::BadArgs(m)) => assert_eq!(m, "target language cannot be 'auto'"),
        other => panic!("got {other:?}"),
    }
    match resolve_source("klingon") {
        Err(Error::UnknownLanguage(m)) => assert_eq!(m, "klingon"),
        other => panic!("got {other:?}"),
    }
}

#[test]
fn identity_needs_the_same_code_and_not_auto() {
    assert!(is_identity("en", "en"));
    assert!(is_identity("pt-BR", "pt-BR"));
    assert!(!is_identity("br", "pt-BR"));
    assert!(!is_identity("auto", "auto"));
    assert!(!is_identity("en", "es"));
    assert!(is_identity("klingon", "klingon"));
}

#[test]
fn display_names_fall_back_to_the_code() {
    assert_eq!(display_name("pt"), "Portuguese (Brazil)");
    assert_eq!(display_name("EN"), "English");
    assert_eq!(display_name("xx"), "xx");
    assert_eq!(name("es"), Some("Spanish"));
    assert_eq!(name("english"), None);
}

#[test]
fn encoding_keeps_only_unreserved_bytes() {
    let e = encode("a b/c?d=é~");
    assert_eq!(e, "a%20b%2Fc%3Fd%3D%C3%A9~");
    assert!(e.bytes().all(|b| b.is_ascii_alphanumeric() || b"-_.~%".contains(&b)));
    assert_eq!(encode(""), "");
}

#[test]
fn browser_link_is_added_to_network_errors_only() {
    let q = Query { sl: "auto", tl: "en", text: "bom dia" };
    let e = with_browser_link(Error::Network("HTTP 500".to_string()), &q);
    assert_eq!(
        e.message(),
        format!("network error: HTTP 500; open in a browser: {}", translate_url("auto", "en", "bom dia"))
    );
    let e = with_browser_link(Error::Parse("x".to_string()), &q);
    assert!(matches!(e, Error::Parse(ref m) if m == "x"));
}

#[test]
fn status_errors_name_the_code() {
    assert_eq!(status_error(429).message(), "network error: HTTP 429 rate limited");
    assert_eq!(status_error(503).message(), "network error: HTTP 503");
    assert_eq!(status_error(0).message(), "network error: HTTP 0");
    assert_eq!(status_error(65535).exit_code(), 4);
}

#[test]
fn exit_codes_per_error_kind() {
    assert_eq!(Error::BadArgs(String::new()).exit_code(), 2);
    assert_eq!(Error::UnknownLanguage(String::new()).exit_code(), 3);
    assert_eq!(Error::Network(String::new()).exit_code(), 4);
    assert_eq!(Error::Parse(String::new()).exit_code(), 5);
    assert_eq!(Error::Config(String::new()).exit_code(), 6);
    assert_eq!(Error::Parse("p".to_string()).message(), "could not read translation response: p");
}

#[test]
fn json_strings_escape_like_serde() {
    let quote = |text: &str| {
        let t = Translation { primary: text.to_string(), ..Translation::default() };
        let m = Meta { sl: "", tl: "", text: "", engine: "", cached: false };
        let out = render(&t, Filter::Json, false, &m);
        let start = out.find("\"primary\":").unwrap() + "\"primary\":".len();
        let end = out.find(",\"correction\"").unwrap();
        out[start..end].to_string()
    };
    assert_eq!(quote("plain"), "\"plain\"");
    assert_eq!(quote("a\"b\\c"), "\"a\\\"b\\\\c\"");
    assert_eq!(quote("\n\t\r\u{8}\u{c}"), "\"\\n\\t\\r\\b\\f\"");
    assert_eq!(quote("\u{1}\u{1f}"), "\"\\u0001\\u001f\"");
    assert_eq!(quote("olá\u{7f}"), "\"olá\u{7f}\"");
}

#[test]
fn painting_wraps_only_with_color() {
    assert_eq!(paint(false, BOLD, "x"), "x");
    assert_eq!(paint(true, BOLD, "x"), "\x1b[1mx\x1b[0m");
    assert_eq!(hyperlink(false, "u", "t"), "t");
    assert_eq!(hyperlink(true, "u", "t"), "\x1b]8;;u\x1b\\t\x1b]8;;\x1b\\");
}

#[test]
fn text_helpers() {
    assert_eq!(decimal(0), "0");
    assert_eq!(decimal(18446744073709551615), "18446744073709551615");
    assert!(str_lt("ab", "b"));
    assert!(str_lt("a", "ab"));
    assert!(!str_lt("b", "b"));
    assert_eq!(join_strings(&vec!["a".to_string(), "b".to_string()], ", "), "a, b");
    assert_eq!(join_strings(&vec![], ", "), "");
    assert_eq!(pad("pt", 5), "pt   ");
    assert_eq!(pad("toolong", 3), "toolong");
}

#[test]
fn there_are_eight_lanes() {
    assert_eq!(lanes().len(), 8);
}
