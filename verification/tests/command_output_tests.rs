use tt::cli::parse;
use tt::commands::help::{help, languages};
use tt::commands::profile::{default_set_line, default_show_line, done_line, list_text};
use tt::commands::translate::{after_lookup, all_default, first_step, report, stores, uses_cache, Next};
use tt::error::Error;
use tt::config::Config;
use tt::engine::{identity_translation, Synonym, Translation};
use tt::input::finish_input;
use tt::render::{render, Filter, Meta};

const URL: &str = "https://translate.google.com/?sl=auto&tl=en&text=bom%20dia&op=translate";

fn sample() -> Translation {
    Translation {
        primary: "good morning".to_string(),
        detected_source: Some("pt".to_string()),
        synonyms: vec![Synonym {
            word: "good morning".to_string(),
            back: vec!["bom dia".to_string()],
        }],
        ..Translation::default()
    }
}

fn meta<'a>(sl: &'a str, tl: &'a str, cached: bool) -> Meta<'a> {
    Meta { sl, tl, text: "bom dia", engine: "fake", cached }
}

fn args(list: &[&str]) -> Vec<String> {
    list.iter().map(|s| s.to_string()).collect()
}

/// What the program writes to standard error for a failed command line.
fn failure(list: &[&str]) -> (i32, String) {
    let e = parse(&args(list)).unwrap_err();
    (e.exit_code(), format!("tt: {}\n", e.message()))
}

#[test]
fn no_args_prints_help() {
    let out = help(false);
    assert!(out.starts_with("tt  command-line text translator\n"));
    for section in [
        "TRANSLATE", "FLAGS", "DEFAULTS", "PROFILES", "LANGUAGES", "UPDATE", "EXAMPLES",
    ] {
        assert!(out.contains(&format!("\n{section}\n")), "missing {section}");
    }
}

#[test]
fn help_is_colored_on_a_tty_only() {
    assert!(help(true).contains("\x1b["));
    assert!(!help(false).contains("\x1b["));
}

#[test]
fn help_mentions_every_command() {
    let out = help(false);
    for cmd in [
        "tt <text>", "tt tl=<lang> <text>", "tt p=<profile> <text>", "tt f=<file> ...",
        "-q, --quiet", "-s, --synonyms", "-v, --verbose", "tt default", "tt profile add",
        "tt profile list", "tt profile patch", "tt profile delete", "tt languages", "tt update",
    ] {
        assert!(out.contains(cmd), "missing {cmd}");
    }
}

#[test]
fn languages_lists_codes_and_names() {
    let out = languages(false);
    assert!(out.starts_with("SUPPORTED LANGUAGES\n"));
    assert!(out.contains("  pt-BR    Portuguese (Brazil)\n"));
    assert!(out.contains("  en       English\n"));
    assert!(out.contains("aliases and any capitalization work"));
}

#[test]
fn languages_rejects_arguments() {
    assert_eq!(failure(&["languages", "extra"]), (2, "tt: 'languages' takes no arguments\n".to_string()));
}

#[test]
fn default_show_prints_builtin_default() {
    let config = Config::with_builtin_default();
    assert_eq!(default_show_line(&config).unwrap(), "sl=auto tl=en");
}

#[test]
fn default_set_reports_the_canonical_languages() {
    let mut config = Config::with_builtin_default();
    config.set_default(Some("pt"), Some("en")).unwrap();
    assert_eq!(default_set_line(&config).unwrap(), "default set: sl=pt-BR tl=en");
    assert!(default_show_line(&Config::default()).is_none());
}

#[test]
fn profile_list_shows_every_profile_and_tags_default() {
    let mut config = Config::with_builtin_default();
    config.add("br", "en", "pt-BR").unwrap();
    assert_eq!(
        list_text(&config, false),
        "  br       sl=en  tl=pt-BR\n  default  sl=auto  tl=en  (used when no p= is given)\n"
    );
}

#[test]
fn profile_list_is_colored_on_a_tty() {
    let config = Config::with_builtin_default();
    assert!(list_text(&config, true).contains("\x1b[1mdefault\x1b[0m"));
}

#[test]
fn profile_commands_confirm_by_name() {
    assert_eq!(done_line("added", "br"), "profile added: br");
    assert_eq!(done_line("deleted", "br"), "profile deleted: br");
    assert_eq!(done_line("patched", "br"), "profile patched: br");
}

#[test]
fn profile_unknown_subcommand_is_bad_args() {
    assert_eq!(
        failure(&["profile", "explode"]),
        (2, "tt: unknown profile subcommand: explode\n".to_string())
    );
}

#[test]
fn exclusive_flags_are_rejected() {
    assert_eq!(
        failure(&["-q", "-v", "oi"]),
        (2, "tt: --quiet, --synonyms, --verbose and --json are mutually exclusive\n".to_string())
    );
}

#[test]
fn footer_shows_hint_and_url_on_a_tty() {
    let (_, err) = report(&sample(), Filter::Full, true, true, &meta("auto", "en", false), true);
    let err = err.unwrap();
    assert!(err.starts_with("\n\x1b[2msl=auto and tl=en come from the default profile"));
    assert!(err.contains("tt default sl=<lang> tl=<lang>"));
    assert!(err.contains(&format!("\x1b]8;;{URL}\x1b\\{URL}\x1b]8;;\x1b\\\n")));
}

#[test]
fn footer_is_absent_when_piped() {
    let (out, err) = report(&sample(), Filter::Full, false, false, &meta("auto", "en", false), true);
    assert!(err.is_none());
    assert_eq!(out, format!("{}\n", render(&sample(), Filter::Full, false, &meta("auto", "en", false))));
}

#[test]
fn footer_is_absent_in_quiet_mode() {
    let (out, err) = report(&sample(), Filter::Quiet, true, true, &meta("auto", "en", false), true);
    assert_eq!(out, "good morning\n");
    assert!(err.is_none());
}

#[test]
fn hint_is_absent_when_any_language_is_explicit() {
    let (_, err) = report(&sample(), Filter::Full, true, true, &meta("auto", "en", false), false);
    let err = err.unwrap();
    assert!(!err.contains("default profile"));
    assert!(err.contains("https://translate.google.com/"));
}

#[test]
fn hint_is_absent_in_verbose_mode() {
    let (_, err) = report(&sample(), Filter::Verbose, true, true, &meta("auto", "en", false), true);
    let err = err.unwrap();
    assert!(!err.contains("default profile"));
    assert!(err.contains("https://translate.google.com/"));
}

#[test]
fn identity_translation_echoes_the_input() {
    let t = identity_translation("hello there", "en");
    let (out, _) = report(&t, Filter::Full, false, false, &meta("en", "en", false), false);
    assert_eq!(out, "hello there\n");
    assert!(!uses_cache(false, "en", "en"));
    assert!(uses_cache(false, "auto", "en"));
    assert!(!uses_cache(true, "pt-BR", "en"));
}

#[test]
fn json_prints_one_structured_line_and_no_footer() {
    let (out, err) = report(&sample(), Filter::Json, true, true, &meta("auto", "en", false), true);
    assert!(err.is_none());
    assert_eq!(out.matches('\n').count(), 1);
    assert!(!out.contains("\x1b["));
    let value: serde_json::Value = serde_json::from_str(&out).unwrap();
    assert_eq!(value["sl"], "auto");
    assert_eq!(value["tl"], "en");
    assert_eq!(value["detected"], "pt");
    assert_eq!(value["text"], "bom dia");
    assert_eq!(value["primary"], "good morning");
    assert_eq!(value["correction"], serde_json::Value::Null);
    assert_eq!(value["synonyms"][0]["word"], "good morning");
    assert_eq!(value["synonyms"][0]["back"][0], "bom dia");
    assert_eq!(value["engine"], "fake");
    assert_eq!(value["cached"], false);
}

#[test]
fn json_reports_a_cache_hit() {
    let (first, _) = report(&sample(), Filter::Json, false, false, &meta("auto", "en", false), true);
    assert!(first.contains("\"cached\":false"));
    let (second, _) = report(&sample(), Filter::Json, false, false, &meta("auto", "en", true), true);
    assert!(second.contains("\"cached\":true"));
}

#[test]
fn verbose_marks_a_cache_hit() {
    let (first, _) = report(&sample(), Filter::Verbose, false, false, &meta("auto", "en", false), true);
    assert!(!first.contains("(cached)"));
    let (second, _) = report(&sample(), Filter::Verbose, false, false, &meta("auto", "en", true), true);
    assert!(second.starts_with("translating Portuguese (Brazil) (detected) -> English (cached)\n"));
}

#[test]
fn full_output_is_identical_on_a_hit() {
    let (first, _) = report(&sample(), Filter::Full, false, false, &meta("auto", "en", false), true);
    let (second, _) = report(&sample(), Filter::Full, false, false, &meta("auto", "en", true), true);
    assert_eq!(first, second);
}

#[test]
fn whitespace_only_input_is_bad_args() {
    let e = finish_input("   \n").unwrap_err();
    assert_eq!(e.exit_code(), 2);
    assert_eq!(format!("tt: {}\n", e.message()), "tt: no text to translate\n");
    assert_eq!(finish_input("  bom dia\n").unwrap(), "bom dia");
}

#[test]
fn piped_report_is_plain_in_every_layout() {
    for filter in [Filter::Full, Filter::Quiet, Filter::Synonyms, Filter::Verbose, Filter::Json] {
        let (out, err) = report(&sample(), filter, false, true, &meta("auto", "en", true), true);
        assert!(!out.contains('\x1b'), "{filter:?}");
        assert!(err.is_none());
    }
}

#[test]
fn plain_screens_have_no_escape() {
    assert!(!languages(false).contains('\x1b'));
    assert!(languages(true).contains('\x1b'));
    let mut config = Config::with_builtin_default();
    config.add("br", "en", "pt-BR").unwrap();
    assert!(!list_text(&config, false).contains('\x1b'));
}

#[test]
fn identity_languages_skip_the_engine() {
    match first_step("en", "en", "hello there", false) {
        Next::Answer(t, cached) => {
            assert_eq!(t.primary, "hello there");
            assert_eq!(t.detected_source.as_deref(), Some("en"));
            assert!(!cached);
        }
        _ => panic!("expected the input back"),
    }
    assert!(matches!(first_step("auto", "en", "oi", false), Next::Lookup));
    assert!(matches!(first_step("auto", "en", "oi", true), Next::Ask));
}

#[test]
fn cache_hits_are_shown_and_misses_ask() {
    match after_lookup(Some(sample())) {
        Next::Answer(t, cached) => {
            assert_eq!(t, sample());
            assert!(cached);
        }
        _ => panic!("expected the hit"),
    }
    assert!(matches!(after_lookup(None), Next::Ask));
}

#[test]
fn only_successes_are_stored() {
    assert!(stores(&Ok(sample()), true));
    assert!(!stores(&Ok(sample()), false));
    assert!(!stores(&Err(Error::Network("boom".to_string())), true));
}

#[test]
fn the_hint_needs_nothing_named() {
    assert!(all_default(false, false, false, true, false));
    assert!(!all_default(false, false, true, true, false));
    assert!(!all_default(false, false, false, false, false));
    assert!(!all_default(false, false, false, true, true));
}
