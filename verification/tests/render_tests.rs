use tt::engine::{Synonym, Translation};
use tt::render::{default_hint, footer, render, split_lines, Filter, Meta};

fn sample() -> Translation {
    Translation {
        primary: "olá".to_string(),
        detected_source: Some("en".to_string()),
        synonyms: vec![
            Synonym {
                word: "olá".to_string(),
                back: vec!["hello".to_string(), "hi".to_string()],
            },
            Synonym {
                word: "oi".to_string(),
                back: vec!["hi".to_string()],
            },
        ],
        ..Translation::default()
    }
}

fn no_synonyms() -> Translation {
    Translation {
        primary: "casa".to_string(),
        detected_source: Some("en".to_string()),
        synonyms: vec![],
        ..Translation::default()
    }
}

fn meta<'a>() -> Meta<'a> {
    Meta {
        sl: "en",
        tl: "pt-BR",
        text: "hello",
        engine: "google",
        cached: false,
    }
}

#[test]
fn quiet_prints_only_primary() {
    assert_eq!(render(&sample(), Filter::Quiet, false, &meta()), "olá");
}

#[test]
fn quiet_never_has_color() {
    assert_eq!(render(&sample(), Filter::Quiet, true, &meta()), "olá");
}

#[test]
fn synonyms_prints_only_block() {
    let out = render(&sample(), Filter::Synonyms, false, &meta());
    assert_eq!(out, "olá  hello, hi\noi  hi");
    assert!(!out.contains("casa"));
}

#[test]
fn full_has_primary_and_synonyms() {
    let out = render(&sample(), Filter::Full, false, &meta());
    assert!(out.starts_with("olá"));
    assert!(out.contains("oi  hi"));
}

#[test]
fn full_without_synonyms_is_just_primary() {
    assert_eq!(render(&no_synonyms(), Filter::Full, false, &meta()), "casa");
}

#[test]
fn plain_output_has_no_ansi() {
    let out = render(&sample(), Filter::Full, false, &meta());
    assert!(!out.contains('\x1b'));
}

#[test]
fn color_output_has_ansi() {
    let out = render(&sample(), Filter::Full, true, &meta());
    assert!(out.contains('\x1b'));
}

#[test]
fn synonyms_filter_states_when_empty() {
    let out = render(&no_synonyms(), Filter::Synonyms, false, &meta());
    assert_eq!(out, "no synonyms for this translation");
    assert!(!out.is_empty());
}

#[test]
fn synonyms_filter_empty_message_colored_on_tty() {
    let out = render(&no_synonyms(), Filter::Synonyms, true, &meta());
    assert!(out.contains("no synonyms"));
    assert!(out.contains('\x1b'));
}

#[test]
fn synonyms_block_without_back_has_no_double_space() {
    let t = Translation {
        primary: "x".to_string(),
        detected_source: None,
        synonyms: vec![Synonym {
            word: "solo".to_string(),
            back: vec![],
        }],
        ..Translation::default()
    };
    assert_eq!(render(&t, Filter::Synonyms, false, &meta()), "solo");
}

#[test]
fn verbose_has_all_sections() {
    let out = render(&sample(), Filter::Full, false, &meta());
    let _ = out;
    let v = render(&sample(), Filter::Verbose, false, &meta());
    assert!(v.contains("translating"));
    assert!(v.contains("ORIGINAL"));
    assert!(v.contains("TRANSLATION"));
    assert!(v.contains("SYNONYMS"));
    assert!(v.contains("hello"));
    assert!(v.contains("olá"));
}

#[test]
fn verbose_resolves_language_names() {
    let v = render(&sample(), Filter::Verbose, false, &meta());
    assert!(v.contains("English"));
    assert!(v.contains("Portuguese (Brazil)"));
}

#[test]
fn verbose_auto_uses_detected_source_name() {
    let m = Meta {
        sl: "auto",
        tl: "es",
        text: "hello",
        engine: "google",
        cached: false,
    };
    let v = render(&sample(), Filter::Verbose, false, &m);
    assert!(v.contains("English"));
    assert!(v.contains("Spanish"));
}

#[test]
fn verbose_states_when_no_synonyms() {
    let v = render(&no_synonyms(), Filter::Verbose, false, &meta());
    assert!(v.contains("no synonyms for this translation"));
}

// Exact layouts.

#[test]
fn verbose_layout_is_exact() {
    let v = render(&sample(), Filter::Verbose, false, &meta());
    assert_eq!(
        v,
        "translating English -> Portuguese (Brazil)\n\nORIGINAL (English)\n  hello\n\n\
TRANSLATION (Portuguese (Brazil))\n  olá\n\nSYNONYMS\n  olá  hello, hi\n  oi  hi"
    );
}

#[test]
fn verbose_marks_cached_results() {
    let m = Meta { sl: "auto", tl: "en", text: "bom dia", engine: "google", cached: true };
    let t = Translation {
        primary: "good morning".to_string(),
        detected_source: Some("pt".to_string()),
        ..Translation::default()
    };
    let v = render(&t, Filter::Verbose, false, &m);
    assert!(v.starts_with("translating Portuguese (Brazil) (detected) -> English (cached)\n"));
}

#[test]
fn full_layout_shows_detection_hint_and_transliteration() {
    let t = Translation {
        primary: "konnichiwa".to_string(),
        detected_source: Some("en".to_string()),
        correction: Some("hello".to_string()),
        target_translit: Some("Kon'nichiwa".to_string()),
        ..Translation::default()
    };
    let m = Meta { sl: "auto", tl: "ja", text: "helo", engine: "google", cached: false };
    assert_eq!(
        render(&t, Filter::Full, false, &m),
        "detected: English\ndid you mean: hello\nkonnichiwa\nKon'nichiwa"
    );
    assert_eq!(
        render(&t, Filter::Full, true, &m),
        "\x1b[2mdetected: English\x1b[0m\n\x1b[2mdid you mean: hello\x1b[0m\n\
\x1b[1mkonnichiwa\x1b[0m\n\x1b[2mKon'nichiwa\x1b[0m"
    );
}

#[test]
fn verbose_indents_every_line_of_the_input() {
    let m = Meta { sl: "en", tl: "es", text: "one\r\ntwo\n", engine: "google", cached: false };
    let t = Translation { primary: "uno".to_string(), ..Translation::default() };
    let v = render(&t, Filter::Verbose, false, &m);
    assert!(v.contains("ORIGINAL (English)\n  one\n  two\n\nTRANSLATION (Spanish)\n  uno\n"));
    assert!(v.ends_with("SYNONYMS\n  no synonyms for this translation"));
}

#[test]
fn json_is_one_escaped_line() {
    let t = Translation {
        primary: "say \"hi\"\n".to_string(),
        detected_source: Some("en".to_string()),
        synonyms: vec![Synonym { word: "oi".to_string(), back: vec!["hi".to_string(), "hey".to_string()] }],
        ..Translation::default()
    };
    let m = Meta { sl: "auto", tl: "pt-BR", text: "tab\there", engine: "google", cached: true };
    let out = render(&t, Filter::Json, true, &m);
    assert_eq!(
        out,
        "{\"sl\":\"auto\",\"tl\":\"pt-BR\",\"detected\":\"en\",\"text\":\"tab\\there\",\
\"primary\":\"say \\\"hi\\\"\\n\",\"correction\":null,\
\"synonyms\":[{\"word\":\"oi\",\"back\":[\"hi\",\"hey\"]}],\"engine\":\"google\",\"cached\":true}"
    );
    assert!(!out.contains('\n'));
    assert!(!out.contains('\x1b'));
}

#[test]
fn split_lines_follows_str_lines() {
    assert_eq!(split_lines("a\r\nb\n\nc"), vec!["a", "b", "", "c"]);
    assert_eq!(split_lines("a\n"), vec!["a"]);
    assert!(split_lines("").is_empty());
}

#[test]
fn footer_and_hint() {
    let hint = default_hint("auto", "en");
    assert_eq!(
        hint,
        "sl=auto and tl=en come from the default profile; change them with `tt default sl=<lang> tl=<lang>`"
    );
    assert_eq!(footer(false, Some("h"), "https://x/"), "\nh\nhttps://x/");
    assert_eq!(footer(false, None, "https://x/"), "\nhttps://x/");
    assert_eq!(
        footer(true, None, "u"),
        "\n\x1b]8;;u\x1b\\u\x1b]8;;\x1b\\"
    );
}
