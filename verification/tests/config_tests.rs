use tt::config::Config;

#[test]
fn set_default_canonicalizes() {
    let mut cfg = Config::with_builtin_default();
    cfg.set_default(Some("pt"), Some("english")).unwrap();
    let d = cfg.profiles.get("default").unwrap();
    assert_eq!(d.sl, "pt-BR");
    assert_eq!(d.tl, "en");
}

#[test]
fn add_canonicalizes_and_rejects_duplicate() {
    let mut cfg = Config::with_builtin_default();
    cfg.add("br", "english", "brazilian").unwrap();
    let br = cfg.profiles.get("br").unwrap();
    assert_eq!(br.sl, "en");
    assert_eq!(br.tl, "pt-BR");
    assert!(cfg.add("br", "en", "pt").is_err());
}

#[test]
fn add_rejects_unknown_language() {
    let mut cfg = Config::with_builtin_default();
    assert!(cfg.add("x", "klingon", "en").is_err());
    assert!(cfg.add("x", "en", "klingon").is_err());
}

#[test]
fn add_rejects_auto_target() {
    let mut cfg = Config::with_builtin_default();
    assert!(cfg.add("x", "auto", "auto").is_err());
}

#[test]
fn delete_removes_profile() {
    let mut cfg = Config::with_builtin_default();
    cfg.add("br", "en", "pt").unwrap();
    cfg.delete("br").unwrap();
    assert!(!cfg.profiles.contains_key("br"));
}

#[test]
fn delete_default_is_rejected() {
    let mut cfg = Config::with_builtin_default();
    assert!(cfg.delete("default").is_err());
}

#[test]
fn delete_unknown_is_rejected() {
    let mut cfg = Config::with_builtin_default();
    assert!(cfg.delete("ghost").is_err());
}

#[test]
fn patch_updates_fields() {
    let mut cfg = Config::with_builtin_default();
    cfg.add("br", "en", "pt").unwrap();
    cfg.patch("br", Some("de"), None, None).unwrap();
    let br = cfg.profiles.get("br").unwrap();
    assert_eq!(br.sl, "de");
    assert_eq!(br.tl, "pt-BR");
}

#[test]
fn patch_renames() {
    let mut cfg = Config::with_builtin_default();
    cfg.add("br", "en", "pt").unwrap();
    cfg.patch("br", None, None, Some("brazil")).unwrap();
    assert!(!cfg.profiles.contains_key("br"));
    assert!(cfg.profiles.contains_key("brazil"));
}

#[test]
fn patch_rename_onto_existing_is_rejected() {
    let mut cfg = Config::with_builtin_default();
    cfg.add("br", "en", "pt").unwrap();
    cfg.add("es", "en", "es").unwrap();
    assert!(cfg.patch("br", None, None, Some("es")).is_err());
}

#[test]
fn cannot_rename_default() {
    let mut cfg = Config::with_builtin_default();
    assert!(cfg.patch("default", None, None, Some("main")).is_err());
}

#[test]
fn cannot_rename_a_profile_to_default() {
    let mut cfg = Config::with_builtin_default();
    cfg.add("br", "en", "pt").unwrap();
    assert!(cfg.patch("br", None, None, Some("default")).is_err());
}

#[test]
fn patch_unknown_profile_is_rejected() {
    let mut cfg = Config::with_builtin_default();
    assert!(cfg.patch("ghost", Some("en"), None, None).is_err());
}

#[test]
fn patch_rejects_bad_language() {
    let mut cfg = Config::with_builtin_default();
    cfg.add("br", "en", "pt").unwrap();
    assert!(cfg.patch("br", Some("klingon"), None, None).is_err());
}

#[test]
fn resolve_uses_default_when_nothing_given() {
    let cfg = Config::with_builtin_default();
    let r = cfg.resolve(None, None, None).unwrap();
    assert_eq!(r.sl, "auto");
    assert_eq!(r.tl, "en");
}

#[test]
fn resolve_inline_overrides_profile() {
    let mut cfg = Config::with_builtin_default();
    cfg.add("br", "en", "pt").unwrap();
    let r = cfg.resolve(Some("br"), Some("de"), None).unwrap();
    assert_eq!(r.sl, "de");
    assert_eq!(r.tl, "pt-BR");
}

#[test]
fn resolve_inline_tl_overrides_profile() {
    let mut cfg = Config::with_builtin_default();
    cfg.add("br", "en", "pt").unwrap();
    let r = cfg.resolve(Some("br"), None, Some("es")).unwrap();
    assert_eq!(r.sl, "en");
    assert_eq!(r.tl, "es");
}

#[test]
fn resolve_unknown_profile_is_rejected() {
    let cfg = Config::with_builtin_default();
    assert!(cfg.resolve(Some("ghost"), None, None).is_err());
}

#[test]
fn resolve_rejects_bad_inline_language() {
    let cfg = Config::with_builtin_default();
    assert!(cfg.resolve(None, Some("klingon"), None).is_err());
}

// Further cases of the profile store.

#[test]
fn ensure_default_adds_the_builtin_once() {
    let mut cfg = Config::default();
    assert!(!cfg.profiles.contains_key("default"));
    cfg.ensure_default();
    let d = cfg.profiles.get("default").unwrap();
    assert_eq!(d.sl, "auto");
    assert_eq!(d.tl, "en");
    cfg.set_default(Some("pt"), None).unwrap();
    cfg.ensure_default();
    assert_eq!(cfg.profiles.get("default").unwrap().sl, "pt-BR");
    assert_eq!(cfg.profiles.len(), 1);
}

#[test]
fn profiles_are_listed_in_name_order() {
    let mut cfg = Config::with_builtin_default();
    cfg.add("zz", "en", "es").unwrap();
    cfg.add("br", "en", "pt").unwrap();
    cfg.add("es", "en", "es").unwrap();
    let names: Vec<&str> = (0..cfg.profiles.len()).map(|i| cfg.profiles.entry(i).0).collect();
    assert_eq!(names, vec!["br", "default", "es", "zz"]);
}

#[test]
fn failed_changes_leave_the_profiles_alone() {
    let mut cfg = Config::with_builtin_default();
    cfg.add("br", "en", "pt").unwrap();
    assert!(cfg.patch("br", Some("en"), Some("klingon"), Some("x")).is_err());
    let br = cfg.profiles.get("br").unwrap();
    assert_eq!(br.sl, "en");
    assert_eq!(br.tl, "pt-BR");
    assert!(!cfg.profiles.contains_key("x"));
    assert_eq!(cfg.profiles.len(), 2);
}

#[test]
fn error_messages_name_the_problem() {
    let mut cfg = Config::with_builtin_default();
    assert_eq!(cfg.delete("default").unwrap_err().message(), "cannot delete the default profile");
    assert_eq!(cfg.delete("ghost").unwrap_err().message(), "unknown profile: ghost");
    assert_eq!(cfg.add("", "en", "pt").unwrap_err().message(), "profile name required");
    assert_eq!(cfg.add("default", "en", "pt").unwrap_err().message(), "profile already exists: default");
    assert_eq!(cfg.add("x", "auto", "auto").unwrap_err().message(), "target language cannot be 'auto'");
    assert_eq!(cfg.patch("default", None, None, Some("main")).unwrap_err().message(), "cannot rename the default profile");
    cfg.add("br", "en", "pt").unwrap();
    assert_eq!(cfg.patch("br", None, None, Some("default")).unwrap_err().message(), "cannot name a profile 'default'");
    assert_eq!(cfg.resolve(Some("ghost"), None, None).unwrap_err().exit_code(), 2);
    assert_eq!(cfg.resolve(None, Some("klingon"), None).unwrap_err().exit_code(), 3);
}

#[test]
fn rename_to_the_same_name_only_updates() {
    let mut cfg = Config::with_builtin_default();
    cfg.add("br", "en", "pt").unwrap();
    cfg.patch("br", None, Some("es"), Some("br")).unwrap();
    assert_eq!(cfg.profiles.get("br").unwrap().tl, "es");
    assert_eq!(cfg.profiles.len(), 2);
}
