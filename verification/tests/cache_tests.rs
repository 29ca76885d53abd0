use std::path::PathBuf;

use tt::cache::{entry_matches, entry_name, evict_plan, fnv1a, tally, Cache, Key, CAP};

fn key<'a>(text: &'a str) -> Key<'a> {
    Key {
        engine: "google",
        sl: "pt-BR",
        tl: "en",
        text,
    }
}

#[test]
fn default_cap_is_one_thousand() {
    assert_eq!(CAP, 1000);
}

#[test]
fn hash_is_stable_and_separates_fields() {
    assert_eq!(fnv1a(&key("bom dia")), fnv1a(&key("bom dia")));
    assert_ne!(fnv1a(&key("bom dia")), fnv1a(&key("bom  dia")));
    let a = Key {
        engine: "google",
        sl: "ab",
        tl: "c",
        text: "x",
    };
    let b = Key {
        engine: "google",
        sl: "a",
        tl: "bc",
        text: "x",
    };
    assert_ne!(fnv1a(&a), fnv1a(&b));
}

// Further cases of the cache's pure parts.

#[test]
fn hash_matches_known_values() {
    assert_eq!(fnv1a(&key("bom dia")), 0x3ebdf17e4494f630);
    let empty = Key { engine: "", sl: "", tl: "", text: "" };
    assert_eq!(fnv1a(&empty), 0xdc545a7f9dce13f5);
}

#[test]
fn entry_names_are_sixteen_hex_digits() {
    assert_eq!(entry_name(&key("bom dia")), "3ebdf17e4494f630.json");
    let empty = Key { engine: "", sl: "", tl: "", text: "" };
    assert_eq!(entry_name(&empty), format!("{:016x}.json", fnv1a(&empty)));
}

#[test]
fn entries_must_match_every_field() {
    let k = key("bom dia");
    assert!(entry_matches("google", "pt-BR", "en", "bom dia", &k));
    assert!(!entry_matches("google", "pt-BR", "en", "boa tarde", &k));
    assert!(!entry_matches("google", "pt-BR", "es", "bom dia", &k));
    assert!(!entry_matches("fake", "pt-BR", "en", "bom dia", &k));
}

#[test]
fn eviction_removes_the_oldest_beyond_the_cap() {
    assert!(evict_plan(&vec![5, 1, 9], 3).is_empty());
    assert_eq!(evict_plan(&vec![300, 100, 200, 400], 2), vec![1, 2]);
    assert_eq!(evict_plan(&vec![7, 7, 7], 1), vec![0, 1]);
    assert_eq!(evict_plan(&vec![1, 2, 3], 0), vec![0, 1, 2]);
    assert!(evict_plan(&vec![], 0).is_empty());
}

#[test]
fn stats_sum_the_sizes() {
    let s = tally(&vec![]);
    assert_eq!((s.entries, s.bytes), (0, 0));
    let s = tally(&vec![120, 80, 1]);
    assert_eq!((s.entries, s.bytes), (3, 201));
}

#[test]
fn caches_keep_their_capacity() {
    assert_eq!(Cache::new(PathBuf::from("c")).cap(), CAP);
    let c = Cache::with_cap(PathBuf::from("d"), 2);
    assert_eq!(c.cap(), 2);
    assert_eq!(c.dir(), &PathBuf::from("d"));
}
