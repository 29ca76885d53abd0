//! Language codes: normalizing user input, resolving aliases to canonical
//! codes, and the table of supported languages.

use vstd::prelude::*;
use crate::error::{string_result, Error, ErrorView};
use crate::text::{lacks, opt_str, owned, push_char, str_eq};

verus! {

/// The first of two options that is present.
pub open spec fn or_else(a: Option<Seq<char>>, b: Option<Seq<char>>) -> Option<Seq<char>> {
    match a {
        Some(x) => Some(x),
        None => b,
    }
}

/// ASCII letters and digits: the only characters a key keeps.
pub open spec fn is_key_char(c: char) -> bool {
    ('a' <= c <= 'z') || ('A' <= c <= 'Z') || ('0' <= c <= '9')
}

/// ASCII lower-casing of one character.
pub open spec fn ascii_lower(c: char) -> char {
    if 'A' <= c <= 'Z' {
        ((c as u32) + 32) as char
    } else {
        c
    }
}

/// The lookup key of a user-typed language: its ASCII letters and digits,
/// lower-cased, everything else dropped.
pub open spec fn normalize(s: Seq<char>) -> Seq<char>
    decreases s.len(),
{
    if s.len() == 0 {
        Seq::empty()
    } else if is_key_char(s.last()) {
        normalize(s.drop_last()).push(ascii_lower(s.last()))
    } else {
        normalize(s.drop_last())
    }
}

/// Aliases, part 1 of 4: the code a normalized alias stands for.
pub open spec fn aliases_0(k: Seq<char>) -> Option<Seq<char>> {
    if k == "auto"@ || k == "detect"@ {
        Some("auto"@)
    } else if k == "en"@ || k == "eng"@ || k == "english"@ {
        Some("en"@)
    } else if k == "ptbr"@ || k == "br"@ || k == "pt"@ || k == "ptbra"@ || k == "portugues"@ || k == "portuguese"@ || k == "brazilian"@ {
        Some("pt-BR"@)
    } else if k == "ptpt"@ || k == "portugal"@ {
        Some("pt-PT"@)
    } else if k == "es"@ || k == "spa"@ || k == "spanish"@ || k == "espanol"@ || k == "castellano"@ {
        Some("es"@)
    } else if k == "fr"@ || k == "fra"@ || k == "fre"@ || k == "french"@ || k == "francais"@ {
        Some("fr"@)
    } else if k == "de"@ || k == "deu"@ || k == "ger"@ || k == "german"@ || k == "deutsch"@ {
        Some("de"@)
    } else if k == "it"@ || k == "ita"@ || k == "italian"@ || k == "italiano"@ {
        Some("it"@)
    } else {
        None
    }
}

/// Aliases, part 2 of 4: the code a normalized alias stands for.
pub open spec fn aliases_1(k: Seq<char>) -> Option<Seq<char>> {
    if k == "ja"@ || k == "jp"@ || k == "jpn"@ || k == "japanese"@ {
        Some("ja"@)
    } else if k == "ko"@ || k == "kor"@ || k == "korean"@ {
        Some("ko"@)
    } else if k == "zh"@ || k == "zhcn"@ || k == "chinese"@ || k == "mandarin"@ || k == "simplifiedchinese"@ {
        Some("zh-CN"@)
    } else if k == "zhtw"@ || k == "traditionalchinese"@ {
        Some("zh-TW"@)
    } else if k == "ru"@ || k == "rus"@ || k == "russian"@ {
        Some("ru"@)
    } else if k == "ar"@ || k == "ara"@ || k == "arabic"@ {
        Some("ar"@)
    } else if k == "nl"@ || k == "nld"@ || k == "dutch"@ {
        Some("nl"@)
    } else if k == "sv"@ || k == "swe"@ || k == "swedish"@ {
        Some("sv"@)
    } else {
        None
    }
}

/// Aliases, part 3 of 4: the code a normalized alias stands for.
pub open spec fn aliases_2(k: Seq<char>) -> Option<Seq<char>> {
    if k == "pl"@ || k == "pol"@ || k == "polish"@ {
        Some("pl"@)
    } else if k == "tr"@ || k == "tur"@ || k == "turkish"@ {
        Some("tr"@)
    } else if k == "hi"@ || k == "hin"@ || k == "hindi"@ {
        Some("hi"@)
    } else if k == "el"@ || k == "gre"@ || k == "greek"@ {
        Some("el"@)
    } else if k == "he"@ || k == "heb"@ || k == "hebrew"@ || k == "iw"@ {
        Some("he"@)
    } else if k == "cs"@ || k == "cze"@ || k == "czech"@ {
        Some("cs"@)
    } else if k == "da"@ || k == "dan"@ || k == "danish"@ {
        Some("da"@)
    } else if k == "fi"@ || k == "fin"@ || k == "finnish"@ {
        Some("fi"@)
    } else {
        None
    }
}

/// Aliases, part 4 of 4: the code a normalized alias stands for.
pub open spec fn aliases_3(k: Seq<char>) -> Option<Seq<char>> {
    if k == "no"@ || k == "nor"@ || k == "norwegian"@ {
        Some("no"@)
    } else if k == "uk"@ || k == "ukr"@ || k == "ukrainian"@ {
        Some("uk"@)
    } else if k == "vi"@ || k == "vie"@ || k == "vietnamese"@ {
        Some("vi"@)
    } else if k == "th"@ || k == "tha"@ || k == "thai"@ {
        Some("th"@)
    } else if k == "id"@ || k == "ind"@ || k == "indonesian"@ {
        Some("id"@)
    } else if k == "ro"@ || k == "ron"@ || k == "rum"@ || k == "romanian"@ {
        Some("ro"@)
    } else if k == "hu"@ || k == "hun"@ || k == "hungarian"@ {
        Some("hu"@)
    } else {
        None
    }
}

/// The canonical code that a normalized key stands for, if any.
pub open spec fn code_for_key(k: Seq<char>) -> Option<Seq<char>> {
    or_else(aliases_0(k), or_else(aliases_1(k), or_else(aliases_2(k), aliases_3(k))))
}

fn lookup_aliases_0(k: &str) -> (r: Option<&'static str>)
    ensures
        opt_str(r) == aliases_0(k@),
{
    if str_eq(k, "auto") || str_eq(k, "detect") {
        Some("auto")
    } else if str_eq(k, "en") || str_eq(k, "eng") || str_eq(k, "english") {
        Some("en")
    } else if str_eq(k, "ptbr") || str_eq(k, "br") || str_eq(k, "pt") || str_eq(k, "ptbra") || str_eq(k, "portugues") || str_eq(k, "portuguese") || str_eq(k, "brazilian") {
        Some("pt-BR")
    } else if str_eq(k, "ptpt") || str_eq(k, "portugal") {
        Some("pt-PT")
    } else if str_eq(k, "es") || str_eq(k, "spa") || str_eq(k, "spanish") || str_eq(k, "espanol") || str_eq(k, "castellano") {
        Some("es")
    } else if str_eq(k, "fr") || str_eq(k, "fra") || str_eq(k, "fre") || str_eq(k, "french") || str_eq(k, "francais") {
        Some("fr")
    } else if str_eq(k, "de") || str_eq(k, "deu") || str_eq(k, "ger") || str_eq(k, "german") || str_eq(k, "deutsch") {
        Some("de")
    } else if str_eq(k, "it") || str_eq(k, "ita") || str_eq(k, "italian") || str_eq(k, "italiano") {
        Some("it")
    } else {
        None
    }
}

fn lookup_aliases_1(k: &str) -> (r: Option<&'static str>)
    ensures
        opt_str(r) == aliases_1(k@),
{
    if str_eq(k, "ja") || str_eq(k, "jp") || str_eq(k, "jpn") || str_eq(k, "japanese") {
        Some("ja")
    } else if str_eq(k, "ko") || str_eq(k, "kor") || str_eq(k, "korean") {
        Some("ko")
    } else if str_eq(k, "zh") || str_eq(k, "zhcn") || str_eq(k, "chinese") || str_eq(k, "mandarin") || str_eq(k, "simplifiedchinese") {
        Some("zh-CN")
    } else if str_eq(k, "zhtw") || str_eq(k, "traditionalchinese") {
        Some("zh-TW")
    } else if str_eq(k, "ru") || str_eq(k, "rus") || str_eq(k, "russian") {
        Some("ru")
    } else if str_eq(k, "ar") || str_eq(k, "ara") || str_eq(k, "arabic") {
        Some("ar")
    } else if str_eq(k, "nl") || str_eq(k, "nld") || str_eq(k, "dutch") {
        Some("nl")
    } else if str_eq(k, "sv") || str_eq(k, "swe") || str_eq(k, "swedish") {
        Some("sv")
    } else {
        None
    }
}

fn lookup_aliases_2(k: &str) -> (r: Option<&'static str>)
    ensures
        opt_str(r) == aliases_2(k@),
{
    if str_eq(k, "pl") || str_eq(k, "pol") || str_eq(k, "polish") {
        Some("pl")
    } else if str_eq(k, "tr") || str_eq(k, "tur") || str_eq(k, "turkish") {
        Some("tr")
    } else if str_eq(k, "hi") || str_eq(k, "hin") || str_eq(k, "hindi") {
        Some("hi")
    } else if str_eq(k, "el") || str_eq(k, "gre") || str_eq(k, "greek") {
        Some("el")
    } else if str_eq(k, "he") || str_eq(k, "heb") || str_eq(k, "hebrew") || str_eq(k, "iw") {
        Some("he")
    } else if str_eq(k, "cs") || str_eq(k, "cze") || str_eq(k, "czech") {
        Some("cs")
    } else if str_eq(k, "da") || str_eq(k, "dan") || str_eq(k, "danish") {
        Some("da")
    } else if str_eq(k, "fi") || str_eq(k, "fin") || str_eq(k, "finnish") {
        Some("fi")
    } else {
        None
    }
}

fn lookup_aliases_3(k: &str) -> (r: Option<&'static str>)
    ensures
        opt_str(r) == aliases_3(k@),
{
    if str_eq(k, "no") || str_eq(k, "nor") || str_eq(k, "norwegian") {
        Some("no")
    } else if str_eq(k, "uk") || str_eq(k, "ukr") || str_eq(k, "ukrainian") {
        Some("uk")
    } else if str_eq(k, "vi") || str_eq(k, "vie") || str_eq(k, "vietnamese") {
        Some("vi")
    } else if str_eq(k, "th") || str_eq(k, "tha") || str_eq(k, "thai") {
        Some("th")
    } else if str_eq(k, "id") || str_eq(k, "ind") || str_eq(k, "indonesian") {
        Some("id")
    } else if str_eq(k, "ro") || str_eq(k, "ron") || str_eq(k, "rum") || str_eq(k, "romanian") {
        Some("ro")
    } else if str_eq(k, "hu") || str_eq(k, "hun") || str_eq(k, "hungarian") {
        Some("hu")
    } else {
        None
    }
}
/// The English name of a canonical code, from the table of supported languages.
pub open spec fn name_of(code: Seq<char>) -> Option<Seq<char>> {
    if code == "auto"@ {
        Some("detect"@)
    } else if code == "en"@ {
        Some("English"@)
    } else if code == "pt-BR"@ {
        Some("Portuguese (Brazil)"@)
    } else if code == "pt-PT"@ {
        Some("Portuguese (Portugal)"@)
    } else if code == "es"@ {
        Some("Spanish"@)
    } else if code == "fr"@ {
        Some("French"@)
    } else if code == "de"@ {
        Some("German"@)
    } else if code == "it"@ {
        Some("Italian"@)
    } else if code == "ja"@ {
        Some("Japanese"@)
    } else if code == "ko"@ {
        Some("Korean"@)
    } else if code == "zh-CN"@ {
        Some("Chinese (Simplified)"@)
    } else if code == "zh-TW"@ {
        Some("Chinese (Traditional)"@)
    } else if code == "ru"@ {
        Some("Russian"@)
    } else if code == "ar"@ {
        Some("Arabic"@)
    } else if code == "nl"@ {
        Some("Dutch"@)
    } else if code == "sv"@ {
        Some("Swedish"@)
    } else if code == "pl"@ {
        Some("Polish"@)
    } else if code == "tr"@ {
        Some("Turkish"@)
    } else if code == "hi"@ {
        Some("Hindi"@)
    } else if code == "el"@ {
        Some("Greek"@)
    } else if code == "he"@ {
        Some("Hebrew"@)
    } else if code == "cs"@ {
        Some("Czech"@)
    } else if code == "da"@ {
        Some("Danish"@)
    } else if code == "fi"@ {
        Some("Finnish"@)
    } else if code == "no"@ {
        Some("Norwegian"@)
    } else if code == "uk"@ {
        Some("Ukrainian"@)
    } else if code == "vi"@ {
        Some("Vietnamese"@)
    } else if code == "th"@ {
        Some("Thai"@)
    } else if code == "id"@ {
        Some("Indonesian"@)
    } else if code == "ro"@ {
        Some("Romanian"@)
    } else if code == "hu"@ {
        Some("Hungarian"@)
    } else {
        None
    }
}

/// The supported languages, code and name, in display order.
pub open spec fn language_table() -> Seq<(Seq<char>, Seq<char>)> {
    seq![
        ("auto"@, "detect"@),
        ("en"@, "English"@),
        ("pt-BR"@, "Portuguese (Brazil)"@),
        ("pt-PT"@, "Portuguese (Portugal)"@),
        ("es"@, "Spanish"@),
        ("fr"@, "French"@),
        ("de"@, "German"@),
        ("it"@, "Italian"@),
        ("ja"@, "Japanese"@),
        ("ko"@, "Korean"@),
        ("zh-CN"@, "Chinese (Simplified)"@),
        ("zh-TW"@, "Chinese (Traditional)"@),
        ("ru"@, "Russian"@),
        ("ar"@, "Arabic"@),
        ("nl"@, "Dutch"@),
        ("sv"@, "Swedish"@),
        ("pl"@, "Polish"@),
        ("tr"@, "Turkish"@),
        ("hi"@, "Hindi"@),
        ("el"@, "Greek"@),
        ("he"@, "Hebrew"@),
        ("cs"@, "Czech"@),
        ("da"@, "Danish"@),
        ("fi"@, "Finnish"@),
        ("no"@, "Norwegian"@),
        ("uk"@, "Ukrainian"@),
        ("vi"@, "Vietnamese"@),
        ("th"@, "Thai"@),
        ("id"@, "Indonesian"@),
        ("ro"@, "Romanian"@),
        ("hu"@, "Hungarian"@),
    ]
}
/// The canonical code a user-typed language resolves to.
pub open spec fn canonical_of(input: Seq<char>) -> Option<Seq<char>> {
    code_for_key(normalize(input))
}

/// Translating is the identity when both codes are the same and not `auto`.
pub open spec fn is_identity_spec(sl: Seq<char>, tl: Seq<char>) -> bool {
    sl != "auto"@ && sl == tl
}

pub fn is_identity(sl: &str, tl: &str) -> (r: bool)
    ensures
        r == is_identity_spec(sl@, tl@),
{
    !str_eq(sl, "auto") && str_eq(sl, tl)
}

fn is_key_char_exec(c: char) -> (r: bool)
    ensures
        r == is_key_char(c),
{
    ('a' <= c && c <= 'z') || ('A' <= c && c <= 'Z') || ('0' <= c && c <= '9')
}

fn ascii_lower_exec(c: char) -> (r: char)
    ensures
        r == ascii_lower(c),
{
    if 'A' <= c && c <= 'Z' {
        let b: u8 = (c as u32 + 32) as u8;
        b as char
    } else {
        c
    }
}

pub fn normalize_key(input: &str) -> (r: String)
    ensures
        r@ == normalize(input@),
{
    let n = input.unicode_len();
    let mut out = String::new();
    let mut i: usize = 0;
    while i < n
        invariant
            n == input@.len(),
            i <= n,
            out@ == normalize(input@.take(i as int)),
        decreases n - i,
    {
        let c = input.get_char(i);
        assert(input@.take(i + 1).drop_last() =~= input@.take(i as int));
        if is_key_char_exec(c) {
            push_char(&mut out, ascii_lower_exec(c));
        }
        i = i + 1;
    }
    assert(input@.take(n as int) =~= input@);
    out
}

pub fn canonical(input: &str) -> (r: Option<&'static str>)
    ensures
        opt_str(r) == canonical_of(input@),
{
    let key = normalize_key(input);
    let k = key.as_str();
    match lookup_aliases_0(k) {
        Some(c) => Some(c),
        None => match lookup_aliases_1(k) {
            Some(c) => Some(c),
            None => match lookup_aliases_2(k) {
                Some(c) => Some(c),
                None => lookup_aliases_3(k),
            },
        },
    }
}

pub fn name(code: &str) -> (r: Option<&'static str>)
    ensures
        opt_str(r) == name_of(code@),
{
    if str_eq(code, "auto") {
        Some("detect")
    } else if str_eq(code, "en") {
        Some("English")
    } else if str_eq(code, "pt-BR") {
        Some("Portuguese (Brazil)")
    } else if str_eq(code, "pt-PT") {
        Some("Portuguese (Portugal)")
    } else if str_eq(code, "es") {
        Some("Spanish")
    } else if str_eq(code, "fr") {
        Some("French")
    } else if str_eq(code, "de") {
        Some("German")
    } else if str_eq(code, "it") {
        Some("Italian")
    } else if str_eq(code, "ja") {
        Some("Japanese")
    } else if str_eq(code, "ko") {
        Some("Korean")
    } else if str_eq(code, "zh-CN") {
        Some("Chinese (Simplified)")
    } else if str_eq(code, "zh-TW") {
        Some("Chinese (Traditional)")
    } else if str_eq(code, "ru") {
        Some("Russian")
    } else if str_eq(code, "ar") {
        Some("Arabic")
    } else if str_eq(code, "nl") {
        Some("Dutch")
    } else if str_eq(code, "sv") {
        Some("Swedish")
    } else if str_eq(code, "pl") {
        Some("Polish")
    } else if str_eq(code, "tr") {
        Some("Turkish")
    } else if str_eq(code, "hi") {
        Some("Hindi")
    } else if str_eq(code, "el") {
        Some("Greek")
    } else if str_eq(code, "he") {
        Some("Hebrew")
    } else if str_eq(code, "cs") {
        Some("Czech")
    } else if str_eq(code, "da") {
        Some("Danish")
    } else if str_eq(code, "fi") {
        Some("Finnish")
    } else if str_eq(code, "no") {
        Some("Norwegian")
    } else if str_eq(code, "uk") {
        Some("Ukrainian")
    } else if str_eq(code, "vi") {
        Some("Vietnamese")
    } else if str_eq(code, "th") {
        Some("Thai")
    } else if str_eq(code, "id") {
        Some("Indonesian")
    } else if str_eq(code, "ro") {
        Some("Romanian")
    } else if str_eq(code, "hu") {
        Some("Hungarian")
    } else {
        None
    }
}

pub fn languages() -> (r: Vec<(&'static str, &'static str)>)
    ensures
        r@.len() == language_table().len(),
        forall|i: int| 0 <= i < r@.len() ==> (#[trigger] r@[i]).0@ == language_table()[i].0 && r@[i].1@ == language_table()[i].1,
{
    let mut v: Vec<(&'static str, &'static str)> = Vec::new();
    v.push(("auto", "detect"));
    v.push(("en", "English"));
    v.push(("pt-BR", "Portuguese (Brazil)"));
    v.push(("pt-PT", "Portuguese (Portugal)"));
    v.push(("es", "Spanish"));
    v.push(("fr", "French"));
    v.push(("de", "German"));
    v.push(("it", "Italian"));
    v.push(("ja", "Japanese"));
    v.push(("ko", "Korean"));
    v.push(("zh-CN", "Chinese (Simplified)"));
    v.push(("zh-TW", "Chinese (Traditional)"));
    v.push(("ru", "Russian"));
    v.push(("ar", "Arabic"));
    v.push(("nl", "Dutch"));
    v.push(("sv", "Swedish"));
    v.push(("pl", "Polish"));
    v.push(("tr", "Turkish"));
    v.push(("hi", "Hindi"));
    v.push(("el", "Greek"));
    v.push(("he", "Hebrew"));
    v.push(("cs", "Czech"));
    v.push(("da", "Danish"));
    v.push(("fi", "Finnish"));
    v.push(("no", "Norwegian"));
    v.push(("uk", "Ukrainian"));
    v.push(("vi", "Vietnamese"));
    v.push(("th", "Thai"));
    v.push(("id", "Indonesian"));
    v.push(("ro", "Romanian"));
    v.push(("hu", "Hungarian"));
    v
}
/// Resolving a source language: any known language, `auto` included.
pub open spec fn resolve_source_of(input: Seq<char>) -> Result<Seq<char>, ErrorView> {
    match canonical_of(input) {
        Some(c) => Ok(c),
        None => Err(ErrorView::UnknownLanguage(input)),
    }
}

/// Resolving a target language: any known language but `auto`.
pub open spec fn resolve_target_of(input: Seq<char>) -> Result<Seq<char>, ErrorView> {
    match canonical_of(input) {
        Some(c) => if c == "auto"@ {
            Err(ErrorView::BadArgs("target language cannot be 'auto'"@))
        } else {
            Ok(c)
        },
        None => Err(ErrorView::UnknownLanguage(input)),
    }
}

pub fn resolve_source(input: &str) -> (r: Result<String, Error>)
    ensures
        string_result(r) == resolve_source_of(input@),
{
    match canonical(input) {
        Some(c) => Ok(owned(c)),
        None => Err(Error::UnknownLanguage(owned(input))),
    }
}

pub fn resolve_target(input: &str) -> (r: Result<String, Error>)
    ensures
        string_result(r) == resolve_target_of(input@),
{
    match canonical(input) {
        Some(c) => {
            if str_eq(c, "auto") {
                Err(Error::BadArgs(owned("target language cannot be 'auto'")))
            } else {
                Ok(owned(c))
            }
        },
        None => Err(Error::UnknownLanguage(owned(input))),
    }
}

/// A readable name for any code or alias: the table name of what it
/// resolves to, else the text itself.
pub open spec fn display_name_of(code: Seq<char>) -> Seq<char> {
    match canonical_of(code) {
        Some(c) => match name_of(c) {
            Some(n) => n,
            None => code,
        },
        None => code,
    }
}

pub fn display_name(code: &str) -> (r: String)
    ensures
        r@ == display_name_of(code@),
{
    match canonical(code) {
        Some(c) => match name(c) {
            Some(n) => owned(n),
            None => owned(code),
        },
        None => owned(code),
    }
}

/// No name in the table holds an escape character.
proof fn lemma_names_lack_escape(code: Seq<char>)
    ensures
        name_of(code) matches Some(n) ==> lacks(n, '\x1b'),
{
    reveal_strlit("detect");
    reveal_strlit("English");
    reveal_strlit("Portuguese (Brazil)");
    reveal_strlit("Portuguese (Portugal)");
    reveal_strlit("Spanish");
    reveal_strlit("French");
    reveal_strlit("German");
    reveal_strlit("Italian");
    reveal_strlit("Japanese");
    reveal_strlit("Korean");
    reveal_strlit("Chinese (Simplified)");
    reveal_strlit("Chinese (Traditional)");
    reveal_strlit("Russian");
    reveal_strlit("Arabic");
    reveal_strlit("Dutch");
    reveal_strlit("Swedish");
    reveal_strlit("Polish");
    reveal_strlit("Turkish");
    reveal_strlit("Hindi");
    reveal_strlit("Greek");
    reveal_strlit("Hebrew");
    reveal_strlit("Czech");
    reveal_strlit("Danish");
    reveal_strlit("Finnish");
    reveal_strlit("Norwegian");
    reveal_strlit("Ukrainian");
    reveal_strlit("Vietnamese");
    reveal_strlit("Thai");
    reveal_strlit("Indonesian");
    reveal_strlit("Romanian");
    reveal_strlit("Hungarian");
}

/// A display name is plain text when the code it was asked for is.
pub proof fn lemma_display_name_lacks_escape(code: Seq<char>)
    requires
        lacks(code, '\x1b'),
    ensures
        lacks(display_name_of(code), '\x1b'),
{
    if let Some(c) = canonical_of(code) {
        lemma_names_lack_escape(c);
    }
}

/// Every character of a text lower-cased (ASCII letters only).
pub open spec fn lower_all(s: Seq<char>) -> Seq<char> {
    s.map_values(|c: char| ascii_lower(c))
}

proof fn lemma_lower_key_char(c: char)
    ensures
        is_key_char(ascii_lower(c)) == is_key_char(c),
        ascii_lower(ascii_lower(c)) == ascii_lower(c),
{
}

/// Letter case never matters: a language written in any mix of upper and
/// lower case resolves to the same code.
pub proof fn law_case_insensitive(s: Seq<char>)
    ensures
        normalize(lower_all(s)) == normalize(s),
        canonical_of(lower_all(s)) == canonical_of(s),
    decreases s.len(),
{
    if s.len() > 0 {
        assert(lower_all(s).drop_last() =~= lower_all(s.drop_last()));
        assert(lower_all(s).last() == ascii_lower(s.last()));
        lemma_lower_key_char(s.last());
        law_case_insensitive(s.drop_last());
    } else {
        assert(lower_all(s) =~= s);
    }
}

/// A key is already normalized: normalizing twice changes nothing.
pub proof fn law_normalize_idempotent(s: Seq<char>)
    ensures
        normalize(normalize(s)) == normalize(s),
    decreases s.len(),
{
    if s.len() > 0 {
        law_normalize_idempotent(s.drop_last());
        let p = normalize(s.drop_last());
        if is_key_char(s.last()) {
            let c = ascii_lower(s.last());
            lemma_lower_key_char(s.last());
            assert(p.push(c).drop_last() =~= p);
            assert(p.push(c).last() == c);
        }
    }
}

/// A target language is never `auto`.
pub proof fn law_target_is_never_auto(input: Seq<char>)
    ensures
        resolve_target_of(input) matches Ok(c) ==> c != "auto"@,
{
}

/// The same code on both sides is an identity translation unless it is
/// `auto`, which never is.
pub proof fn law_identity_needs_a_real_language(sl: Seq<char>)
    ensures
        !is_identity_spec("auto"@, sl),
        sl != "auto"@ ==> is_identity_spec(sl, sl),
{
}

proof fn lemma_fixed_auto()
    ensures
        canonical_of("auto"@) == Some("auto"@),
{
    reveal_strlit("auto");
    reveal_with_fuel(normalize, 5);
    assert(normalize("auto"@) =~= "auto"@);
}

proof fn lemma_fixed_en()
    ensures
        canonical_of("en"@) == Some("en"@),
{
    reveal_strlit("en");
    assert("en"@.len() != "auto"@.len()) by { reveal_strlit("auto"); }
    assert("en"@.len() != "detect"@.len()) by { reveal_strlit("detect"); }
    reveal_with_fuel(normalize, 3);
    assert(normalize("en"@) =~= "en"@);
}

proof fn lemma_fixed_ptbr()
    ensures
        canonical_of("pt-BR"@) == Some("pt-BR"@),
{
    reveal_strlit("auto");
    reveal_strlit("pt-BR");
    reveal_strlit("ptbr");
    assert("ptbr"@[0] != "auto"@[0]);
    assert("ptbr"@.len() != "detect"@.len()) by { reveal_strlit("detect"); }
    assert("ptbr"@.len() != "en"@.len()) by { reveal_strlit("en"); }
    assert("ptbr"@.len() != "eng"@.len()) by { reveal_strlit("eng"); }
    assert("ptbr"@.len() != "english"@.len()) by { reveal_strlit("english"); }
    reveal_with_fuel(normalize, 6);
    assert(normalize("pt-BR"@) =~= "ptbr"@);
}

proof fn lemma_fixed_ptpt()
    ensures
        canonical_of("pt-PT"@) == Some("pt-PT"@),
{
    reveal_strlit("auto");
    reveal_strlit("pt-PT");
    reveal_strlit("ptbr");
    reveal_strlit("ptpt");
    assert("ptpt"@[0] != "auto"@[0]);
    assert("ptpt"@.len() != "detect"@.len()) by { reveal_strlit("detect"); }
    assert("ptpt"@.len() != "en"@.len()) by { reveal_strlit("en"); }
    assert("ptpt"@.len() != "eng"@.len()) by { reveal_strlit("eng"); }
    assert("ptpt"@.len() != "english"@.len()) by { reveal_strlit("english"); }
    assert("ptpt"@[2] != "ptbr"@[2]);
    assert("ptpt"@.len() != "br"@.len()) by { reveal_strlit("br"); }
    assert("ptpt"@.len() != "pt"@.len()) by { reveal_strlit("pt"); }
    assert("ptpt"@.len() != "ptbra"@.len()) by { reveal_strlit("ptbra"); }
    assert("ptpt"@.len() != "portugues"@.len()) by { reveal_strlit("portugues"); }
    assert("ptpt"@.len() != "portuguese"@.len()) by { reveal_strlit("portuguese"); }
    assert("ptpt"@.len() != "brazilian"@.len()) by { reveal_strlit("brazilian"); }
    reveal_with_fuel(normalize, 6);
    assert(normalize("pt-PT"@) =~= "ptpt"@);
}

proof fn lemma_fixed_es()
    ensures
        canonical_of("es"@) == Some("es"@),
{
    reveal_strlit("br");
    reveal_strlit("en");
    reveal_strlit("es");
    reveal_strlit("pt");
    assert("es"@.len() != "auto"@.len()) by { reveal_strlit("auto"); }
    assert("es"@.len() != "detect"@.len()) by { reveal_strlit("detect"); }
    assert("es"@[1] != "en"@[1]);
    assert("es"@.len() != "eng"@.len()) by { reveal_strlit("eng"); }
    assert("es"@.len() != "english"@.len()) by { reveal_strlit("english"); }
    assert("es"@.len() != "ptbr"@.len()) by { reveal_strlit("ptbr"); }
    assert("es"@[0] != "br"@[0]);
    assert("es"@[0] != "pt"@[0]);
    assert("es"@.len() != "ptbra"@.len()) by { reveal_strlit("ptbra"); }
    assert("es"@.len() != "portugues"@.len()) by { reveal_strlit("portugues"); }
    assert("es"@.len() != "portuguese"@.len()) by { reveal_strlit("portuguese"); }
    assert("es"@.len() != "brazilian"@.len()) by { reveal_strlit("brazilian"); }
    assert("es"@.len() != "ptpt"@.len()) by { reveal_strlit("ptpt"); }
    assert("es"@.len() != "portugal"@.len()) by { reveal_strlit("portugal"); }
    reveal_with_fuel(normalize, 3);
    assert(normalize("es"@) =~= "es"@);
}

proof fn lemma_fixed_fr()
    ensures
        canonical_of("fr"@) == Some("fr"@),
{
    reveal_strlit("br");
    reveal_strlit("en");
    reveal_strlit("es");
    reveal_strlit("fr");
    reveal_strlit("pt");
    assert("fr"@.len() != "auto"@.len()) by { reveal_strlit("auto"); }
    assert("fr"@.len() != "detect"@.len()) by { reveal_strlit("detect"); }
    assert("fr"@[0] != "en"@[0]);
    assert("fr"@.len() != "eng"@.len()) by { reveal_strlit("eng"); }
    assert("fr"@.len() != "english"@.len()) by { reveal_strlit("english"); }
    assert("fr"@.len() != "ptbr"@.len()) by { reveal_strlit("ptbr"); }
    assert("fr"@[0] != "br"@[0]);
    assert("fr"@[0] != "pt"@[0]);
    assert("fr"@.len() != "ptbra"@.len()) by { reveal_strlit("ptbra"); }
    assert("fr"@.len() != "portugues"@.len()) by { reveal_strlit("portugues"); }
    assert("fr"@.len() != "portuguese"@.len()) by { reveal_strlit("portuguese"); }
    assert("fr"@.len() != "brazilian"@.len()) by { reveal_strlit("brazilian"); }
    assert("fr"@.len() != "ptpt"@.len()) by { reveal_strlit("ptpt"); }
    assert("fr"@.len() != "portugal"@.len()) by { reveal_strlit("portugal"); }
    assert("fr"@[0] != "es"@[0]);
    assert("fr"@.len() != "spa"@.len()) by { reveal_strlit("spa"); }
    assert("fr"@.len() != "spanish"@.len()) by { reveal_strlit("spanish"); }
    assert("fr"@.len() != "espanol"@.len()) by { reveal_strlit("espanol"); }
    assert("fr"@.len() != "castellano"@.len()) by { reveal_strlit("castellano"); }
    reveal_with_fuel(normalize, 3);
    assert(normalize("fr"@) =~= "fr"@);
}

proof fn lemma_fixed_de()
    ensures
        canonical_of("de"@) == Some("de"@),
{
    reveal_strlit("br");
    reveal_strlit("de");
    reveal_strlit("en");
    reveal_strlit("es");
    reveal_strlit("fr");
    reveal_strlit("pt");
    assert("de"@.len() != "auto"@.len()) by { reveal_strlit("auto"); }
    assert("de"@.len() != "detect"@.len()) by { reveal_strlit("detect"); }
    assert("de"@[0] != "en"@[0]);
    assert("de"@.len() != "eng"@.len()) by { reveal_strlit("eng"); }
    assert("de"@.len() != "english"@.len()) by { reveal_strlit("english"); }
    assert("de"@.len() != "ptbr"@.len()) by { reveal_strlit("ptbr"); }
    assert("de"@[0] != "br"@[0]);
    assert("de"@[0] != "pt"@[0]);
    assert("de"@.len() != "ptbra"@.len()) by { reveal_strlit("ptbra"); }
    assert("de"@.len() != "portugues"@.len()) by { reveal_strlit("portugues"); }
    assert("de"@.len() != "portuguese"@.len()) by { reveal_strlit("portuguese"); }
    assert("de"@.len() != "brazilian"@.len()) by { reveal_strlit("brazilian"); }
    assert("de"@.len() != "ptpt"@.len()) by { reveal_strlit("ptpt"); }
    assert("de"@.len() != "portugal"@.len()) by { reveal_strlit("portugal"); }
    assert("de"@[0] != "es"@[0]);
    assert("de"@.len() != "spa"@.len()) by { reveal_strlit("spa"); }
    assert("de"@.len() != "spanish"@.len()) by { reveal_strlit("spanish"); }
    assert("de"@.len() != "espanol"@.len()) by { reveal_strlit("espanol"); }
    assert("de"@.len() != "castellano"@.len()) by { reveal_strlit("castellano"); }
    assert("de"@[0] != "fr"@[0]);
    assert("de"@.len() != "fra"@.len()) by { reveal_strlit("fra"); }
    assert("de"@.len() != "fre"@.len()) by { reveal_strlit("fre"); }
    assert("de"@.len() != "french"@.len()) by { reveal_strlit("french"); }
    assert("de"@.len() != "francais"@.len()) by { reveal_strlit("francais"); }
    reveal_with_fuel(normalize, 3);
    assert(normalize("de"@) =~= "de"@);
}

proof fn lemma_fixed_it()
    ensures
        canonical_of("it"@) == Some("it"@),
{
    reveal_strlit("br");
    reveal_strlit("de");
    reveal_strlit("en");
    reveal_strlit("es");
    reveal_strlit("fr");
    reveal_strlit("it");
    reveal_strlit("pt");
    assert("it"@.len() != "auto"@.len()) by { reveal_strlit("auto"); }
    assert("it"@.len() != "detect"@.len()) by { reveal_strlit("detect"); }
    assert("it"@[0] != "en"@[0]);
    assert("it"@.len() != "eng"@.len()) by { reveal_strlit("eng"); }
    assert("it"@.len() != "english"@.len()) by { reveal_strlit("english"); }
    assert("it"@.len() != "ptbr"@.len()) by { reveal_strlit("ptbr"); }
    assert("it"@[0] != "br"@[0]);
    assert("it"@[0] != "pt"@[0]);
    assert("it"@.len() != "ptbra"@.len()) by { reveal_strlit("ptbra"); }
    assert("it"@.len() != "portugues"@.len()) by { reveal_strlit("portugues"); }
    assert("it"@.len() != "portuguese"@.len()) by { reveal_strlit("portuguese"); }
    assert("it"@.len() != "brazilian"@.len()) by { reveal_strlit("brazilian"); }
    assert("it"@.len() != "ptpt"@.len()) by { reveal_strlit("ptpt"); }
    assert("it"@.len() != "portugal"@.len()) by { reveal_strlit("portugal"); }
    assert("it"@[0] != "es"@[0]);
    assert("it"@.len() != "spa"@.len()) by { reveal_strlit("spa"); }
    assert("it"@.len() != "spanish"@.len()) by { reveal_strlit("spanish"); }
    assert("it"@.len() != "espanol"@.len()) by { reveal_strlit("espanol"); }
    assert("it"@.len() != "castellano"@.len()) by { reveal_strlit("castellano"); }
    assert("it"@[0] != "fr"@[0]);
    assert("it"@.len() != "fra"@.len()) by { reveal_strlit("fra"); }
    assert("it"@.len() != "fre"@.len()) by { reveal_strlit("fre"); }
    assert("it"@.len() != "french"@.len()) by { reveal_strlit("french"); }
    assert("it"@.len() != "francais"@.len()) by { reveal_strlit("francais"); }
    assert("it"@[0] != "de"@[0]);
    assert("it"@.len() != "deu"@.len()) by { reveal_strlit("deu"); }
    assert("it"@.len() != "ger"@.len()) by { reveal_strlit("ger"); }
    assert("it"@.len() != "german"@.len()) by { reveal_strlit("german"); }
    assert("it"@.len() != "deutsch"@.len()) by { reveal_strlit("deutsch"); }
    reveal_with_fuel(normalize, 3);
    assert(normalize("it"@) =~= "it"@);
}

proof fn lemma_fixed_ja()
    ensures
        canonical_of("ja"@) == Some("ja"@),
{
    reveal_strlit("br");
    reveal_strlit("de");
    reveal_strlit("en");
    reveal_strlit("es");
    reveal_strlit("fr");
    reveal_strlit("it");
    reveal_strlit("ja");
    reveal_strlit("pt");
    assert("ja"@.len() != "auto"@.len()) by { reveal_strlit("auto"); }
    assert("ja"@.len() != "detect"@.len()) by { reveal_strlit("detect"); }
    assert("ja"@[0] != "en"@[0]);
    assert("ja"@.len() != "eng"@.len()) by { reveal_strlit("eng"); }
    assert("ja"@.len() != "english"@.len()) by { reveal_strlit("english"); }
    assert("ja"@.len() != "ptbr"@.len()) by { reveal_strlit("ptbr"); }
    assert("ja"@[0] != "br"@[0]);
    assert("ja"@[0] != "pt"@[0]);
    assert("ja"@.len() != "ptbra"@.len()) by { reveal_strlit("ptbra"); }
    assert("ja"@.len() != "portugues"@.len()) by { reveal_strlit("portugues"); }
    assert("ja"@.len() != "portuguese"@.len()) by { reveal_strlit("portuguese"); }
    assert("ja"@.len() != "brazilian"@.len()) by { reveal_strlit("brazilian"); }
    assert("ja"@.len() != "ptpt"@.len()) by { reveal_strlit("ptpt"); }
    assert("ja"@.len() != "portugal"@.len()) by { reveal_strlit("portugal"); }
    assert("ja"@[0] != "es"@[0]);
    assert("ja"@.len() != "spa"@.len()) by { reveal_strlit("spa"); }
    assert("ja"@.len() != "spanish"@.len()) by { reveal_strlit("spanish"); }
    assert("ja"@.len() != "espanol"@.len()) by { reveal_strlit("espanol"); }
    assert("ja"@.len() != "castellano"@.len()) by { reveal_strlit("castellano"); }
    assert("ja"@[0] != "fr"@[0]);
    assert("ja"@.len() != "fra"@.len()) by { reveal_strlit("fra"); }
    assert("ja"@.len() != "fre"@.len()) by { reveal_strlit("fre"); }
    assert("ja"@.len() != "french"@.len()) by { reveal_strlit("french"); }
    assert("ja"@.len() != "francais"@.len()) by { reveal_strlit("francais"); }
    assert("ja"@[0] != "de"@[0]);
    assert("ja"@.len() != "deu"@.len()) by { reveal_strlit("deu"); }
    assert("ja"@.len() != "ger"@.len()) by { reveal_strlit("ger"); }
    assert("ja"@.len() != "german"@.len()) by { reveal_strlit("german"); }
    assert("ja"@.len() != "deutsch"@.len()) by { reveal_strlit("deutsch"); }
    assert("ja"@[0] != "it"@[0]);
    assert("ja"@.len() != "ita"@.len()) by { reveal_strlit("ita"); }
    assert("ja"@.len() != "italian"@.len()) by { reveal_strlit("italian"); }
    assert("ja"@.len() != "italiano"@.len()) by { reveal_strlit("italiano"); }
    reveal_with_fuel(normalize, 3);
    assert(normalize("ja"@) =~= "ja"@);
}

proof fn lemma_fixed_ko()
    ensures
        canonical_of("ko"@) == Some("ko"@),
{
    reveal_strlit("br");
    reveal_strlit("de");
    reveal_strlit("en");
    reveal_strlit("es");
    reveal_strlit("fr");
    reveal_strlit("it");
    reveal_strlit("ja");
    reveal_strlit("jp");
    reveal_strlit("ko");
    reveal_strlit("pt");
    assert("ko"@.len() != "auto"@.len()) by { reveal_strlit("auto"); }
    assert("ko"@.len() != "detect"@.len()) by { reveal_strlit("detect"); }
    assert("ko"@[0] != "en"@[0]);
    assert("ko"@.len() != "eng"@.len()) by { reveal_strlit("eng"); }
    assert("ko"@.len() != "english"@.len()) by { reveal_strlit("english"); }
    assert("ko"@.len() != "ptbr"@.len()) by { reveal_strlit("ptbr"); }
    assert("ko"@[0] != "br"@[0]);
    assert("ko"@[0] != "pt"@[0]);
    assert("ko"@.len() != "ptbra"@.len()) by { reveal_strlit("ptbra"); }
    assert("ko"@.len() != "portugues"@.len()) by { reveal_strlit("portugues"); }
    assert("ko"@.len() != "portuguese"@.len()) by { reveal_strlit("portuguese"); }
    assert("ko"@.len() != "brazilian"@.len()) by { reveal_strlit("brazilian"); }
    assert("ko"@.len() != "ptpt"@.len()) by { reveal_strlit("ptpt"); }
    assert("ko"@.len() != "portugal"@.len()) by { reveal_strlit("portugal"); }
    assert("ko"@[0] != "es"@[0]);
    assert("ko"@.len() != "spa"@.len()) by { reveal_strlit("spa"); }
    assert("ko"@.len() != "spanish"@.len()) by { reveal_strlit("spanish"); }
    assert("ko"@.len() != "espanol"@.len()) by { reveal_strlit("espanol"); }
    assert("ko"@.len() != "castellano"@.len()) by { reveal_strlit("castellano"); }
    assert("ko"@[0] != "fr"@[0]);
    assert("ko"@.len() != "fra"@.len()) by { reveal_strlit("fra"); }
    assert("ko"@.len() != "fre"@.len()) by { reveal_strlit("fre"); }
    assert("ko"@.len() != "french"@.len()) by { reveal_strlit("french"); }
    assert("ko"@.len() != "francais"@.len()) by { reveal_strlit("francais"); }
    assert("ko"@[0] != "de"@[0]);
    assert("ko"@.len() != "deu"@.len()) by { reveal_strlit("deu"); }
    assert("ko"@.len() != "ger"@.len()) by { reveal_strlit("ger"); }
    assert("ko"@.len() != "german"@.len()) by { reveal_strlit("german"); }
    assert("ko"@.len() != "deutsch"@.len()) by { reveal_strlit("deutsch"); }
    assert("ko"@[0] != "it"@[0]);
    assert("ko"@.len() != "ita"@.len()) by { reveal_strlit("ita"); }
    assert("ko"@.len() != "italian"@.len()) by { reveal_strlit("italian"); }
    assert("ko"@.len() != "italiano"@.len()) by { reveal_strlit("italiano"); }
    assert("ko"@[0] != "ja"@[0]);
    assert("ko"@[0] != "jp"@[0]);
    assert("ko"@.len() != "jpn"@.len()) by { reveal_strlit("jpn"); }
    assert("ko"@.len() != "japanese"@.len()) by { reveal_strlit("japanese"); }
    reveal_with_fuel(normalize, 3);
    assert(normalize("ko"@) =~= "ko"@);
}

proof fn lemma_fixed_zhcn()
    ensures
        canonical_of("zh-CN"@) == Some("zh-CN"@),
{
    reveal_strlit("auto");
    reveal_strlit("ptbr");
    reveal_strlit("ptpt");
    reveal_strlit("zh-CN");
    reveal_strlit("zhcn");
    assert("zhcn"@[0] != "auto"@[0]);
    assert("zhcn"@.len() != "detect"@.len()) by { reveal_strlit("detect"); }
    assert("zhcn"@.len() != "en"@.len()) by { reveal_strlit("en"); }
    assert("zhcn"@.len() != "eng"@.len()) by { reveal_strlit("eng"); }
    assert("zhcn"@.len() != "english"@.len()) by { reveal_strlit("english"); }
    assert("zhcn"@[0] != "ptbr"@[0]);
    assert("zhcn"@.len() != "br"@.len()) by { reveal_strlit("br"); }
    assert("zhcn"@.len() != "pt"@.len()) by { reveal_strlit("pt"); }
    assert("zhcn"@.len() != "ptbra"@.len()) by { reveal_strlit("ptbra"); }
    assert("zhcn"@.len() != "portugues"@.len()) by { reveal_strlit("portugues"); }
    assert("zhcn"@.len() != "portuguese"@.len()) by { reveal_strlit("portuguese"); }
    assert("zhcn"@.len() != "brazilian"@.len()) by { reveal_strlit("brazilian"); }
    assert("zhcn"@[0] != "ptpt"@[0]);
    assert("zhcn"@.len() != "portugal"@.len()) by { reveal_strlit("portugal"); }
    assert("zhcn"@.len() != "es"@.len()) by { reveal_strlit("es"); }
    assert("zhcn"@.len() != "spa"@.len()) by { reveal_strlit("spa"); }
    assert("zhcn"@.len() != "spanish"@.len()) by { reveal_strlit("spanish"); }
    assert("zhcn"@.len() != "espanol"@.len()) by { reveal_strlit("espanol"); }
    assert("zhcn"@.len() != "castellano"@.len()) by { reveal_strlit("castellano"); }
    assert("zhcn"@.len() != "fr"@.len()) by { reveal_strlit("fr"); }
    assert("zhcn"@.len() != "fra"@.len()) by { reveal_strlit("fra"); }
    assert("zhcn"@.len() != "fre"@.len()) by { reveal_strlit("fre"); }
    assert("zhcn"@.len() != "french"@.len()) by { reveal_strlit("french"); }
    assert("zhcn"@.len() != "francais"@.len()) by { reveal_strlit("francais"); }
    assert("zhcn"@.len() != "de"@.len()) by { reveal_strlit("de"); }
    assert("zhcn"@.len() != "deu"@.len()) by { reveal_strlit("deu"); }
    assert("zhcn"@.len() != "ger"@.len()) by { reveal_strlit("ger"); }
    assert("zhcn"@.len() != "german"@.len()) by { reveal_strlit("german"); }
    assert("zhcn"@.len() != "deutsch"@.len()) by { reveal_strlit("deutsch"); }
    assert("zhcn"@.len() != "it"@.len()) by { reveal_strlit("it"); }
    assert("zhcn"@.len() != "ita"@.len()) by { reveal_strlit("ita"); }
    assert("zhcn"@.len() != "italian"@.len()) by { reveal_strlit("italian"); }
    assert("zhcn"@.len() != "italiano"@.len()) by { reveal_strlit("italiano"); }
    assert("zhcn"@.len() != "ja"@.len()) by { reveal_strlit("ja"); }
    assert("zhcn"@.len() != "jp"@.len()) by { reveal_strlit("jp"); }
    assert("zhcn"@.len() != "jpn"@.len()) by { reveal_strlit("jpn"); }
    assert("zhcn"@.len() != "japanese"@.len()) by { reveal_strlit("japanese"); }
    assert("zhcn"@.len() != "ko"@.len()) by { reveal_strlit("ko"); }
    assert("zhcn"@.len() != "kor"@.len()) by { reveal_strlit("kor"); }
    assert("zhcn"@.len() != "korean"@.len()) by { reveal_strlit("korean"); }
    reveal_with_fuel(normalize, 6);
    assert(normalize("zh-CN"@) =~= "zhcn"@);
}

proof fn lemma_fixed_zhtw()
    ensures
        canonical_of("zh-TW"@) == Some("zh-TW"@),
{
    reveal_strlit("auto");
    reveal_strlit("ptbr");
    reveal_strlit("ptpt");
    reveal_strlit("zh-TW");
    reveal_strlit("zhcn");
    reveal_strlit("zhtw");
    assert("zhtw"@[0] != "auto"@[0]);
    assert("zhtw"@.len() != "detect"@.len()) by { reveal_strlit("detect"); }
    assert("zhtw"@.len() != "en"@.len()) by { reveal_strlit("en"); }
    assert("zhtw"@.len() != "eng"@.len()) by { reveal_strlit("eng"); }
    assert("zhtw"@.len() != "english"@.len()) by { reveal_strlit("english"); }
    assert("zhtw"@[0] != "ptbr"@[0]);
    assert("zhtw"@.len() != "br"@.len()) by { reveal_strlit("br"); }
    assert("zhtw"@.len() != "pt"@.len()) by { reveal_strlit("pt"); }
    assert("zhtw"@.len() != "ptbra"@.len()) by { reveal_strlit("ptbra"); }
    assert("zhtw"@.len() != "portugues"@.len()) by { reveal_strlit("portugues"); }
    assert("zhtw"@.len() != "portuguese"@.len()) by { reveal_strlit("portuguese"); }
    assert("zhtw"@.len() != "brazilian"@.len()) by { reveal_strlit("brazilian"); }
    assert("zhtw"@[0] != "ptpt"@[0]);
    assert("zhtw"@.len() != "portugal"@.len()) by { reveal_strlit("portugal"); }
    assert("zhtw"@.len() != "es"@.len()) by { reveal_strlit("es"); }
    assert("zhtw"@.len() != "spa"@.len()) by { reveal_strlit("spa"); }
    assert("zhtw"@.len() != "spanish"@.len()) by { reveal_strlit("spanish"); }
    assert("zhtw"@.len() != "espanol"@.len()) by { reveal_strlit("espanol"); }
    assert("zhtw"@.len() != "castellano"@.len()) by { reveal_strlit("castellano"); }
    assert("zhtw"@.len() != "fr"@.len()) by { reveal_strlit("fr"); }
    assert("zhtw"@.len() != "fra"@.len()) by { reveal_strlit("fra"); }
    assert("zhtw"@.len() != "fre"@.len()) by { reveal_strlit("fre"); }
    assert("zhtw"@.len() != "french"@.len()) by { reveal_strlit("french"); }
    assert("zhtw"@.len() != "francais"@.len()) by { reveal_strlit("francais"); }
    assert("zhtw"@.len() != "de"@.len()) by { reveal_strlit("de"); }
    assert("zhtw"@.len() != "deu"@.len()) by { reveal_strlit("deu"); }
    assert("zhtw"@.len() != "ger"@.len()) by { reveal_strlit("ger"); }
    assert("zhtw"@.len() != "german"@.len()) by { reveal_strlit("german"); }
    assert("zhtw"@.len() != "deutsch"@.len()) by { reveal_strlit("deutsch"); }
    assert("zhtw"@.len() != "it"@.len()) by { reveal_strlit("it"); }
    assert("zhtw"@.len() != "ita"@.len()) by { reveal_strlit("ita"); }
    assert("zhtw"@.len() != "italian"@.len()) by { reveal_strlit("italian"); }
    assert("zhtw"@.len() != "italiano"@.len()) by { reveal_strlit("italiano"); }
    assert("zhtw"@.len() != "ja"@.len()) by { reveal_strlit("ja"); }
    assert("zhtw"@.len() != "jp"@.len()) by { reveal_strlit("jp"); }
    assert("zhtw"@.len() != "jpn"@.len()) by { reveal_strlit("jpn"); }
    assert("zhtw"@.len() != "japanese"@.len()) by { reveal_strlit("japanese"); }
    assert("zhtw"@.len() != "ko"@.len()) by { reveal_strlit("ko"); }
    assert("zhtw"@.len() != "kor"@.len()) by { reveal_strlit("kor"); }
    assert("zhtw"@.len() != "korean"@.len()) by { reveal_strlit("korean"); }
    assert("zhtw"@.len() != "zh"@.len()) by { reveal_strlit("zh"); }
    assert("zhtw"@[2] != "zhcn"@[2]);
    assert("zhtw"@.len() != "chinese"@.len()) by { reveal_strlit("chinese"); }
    assert("zhtw"@.len() != "mandarin"@.len()) by { reveal_strlit("mandarin"); }
    assert("zhtw"@.len() != "simplifiedchinese"@.len()) by { reveal_strlit("simplifiedchinese"); }
    reveal_with_fuel(normalize, 6);
    assert(normalize("zh-TW"@) =~= "zhtw"@);
}

proof fn lemma_fixed_ru()
    ensures
        canonical_of("ru"@) == Some("ru"@),
{
    reveal_strlit("br");
    reveal_strlit("de");
    reveal_strlit("en");
    reveal_strlit("es");
    reveal_strlit("fr");
    reveal_strlit("it");
    reveal_strlit("ja");
    reveal_strlit("jp");
    reveal_strlit("ko");
    reveal_strlit("pt");
    reveal_strlit("ru");
    reveal_strlit("zh");
    assert("ru"@.len() != "auto"@.len()) by { reveal_strlit("auto"); }
    assert("ru"@.len() != "detect"@.len()) by { reveal_strlit("detect"); }
    assert("ru"@[0] != "en"@[0]);
    assert("ru"@.len() != "eng"@.len()) by { reveal_strlit("eng"); }
    assert("ru"@.len() != "english"@.len()) by { reveal_strlit("english"); }
    assert("ru"@.len() != "ptbr"@.len()) by { reveal_strlit("ptbr"); }
    assert("ru"@[0] != "br"@[0]);
    assert("ru"@[0] != "pt"@[0]);
    assert("ru"@.len() != "ptbra"@.len()) by { reveal_strlit("ptbra"); }
    assert("ru"@.len() != "portugues"@.len()) by { reveal_strlit("portugues"); }
    assert("ru"@.len() != "portuguese"@.len()) by { reveal_strlit("portuguese"); }
    assert("ru"@.len() != "brazilian"@.len()) by { reveal_strlit("brazilian"); }
    assert("ru"@.len() != "ptpt"@.len()) by { reveal_strlit("ptpt"); }
    assert("ru"@.len() != "portugal"@.len()) by { reveal_strlit("portugal"); }
    assert("ru"@[0] != "es"@[0]);
    assert("ru"@.len() != "spa"@.len()) by { reveal_strlit("spa"); }
    assert("ru"@.len() != "spanish"@.len()) by { reveal_strlit("spanish"); }
    assert("ru"@.len() != "espanol"@.len()) by { reveal_strlit("espanol"); }
    assert("ru"@.len() != "castellano"@.len()) by { reveal_strlit("castellano"); }
    assert("ru"@[0] != "fr"@[0]);
    assert("ru"@.len() != "fra"@.len()) by { reveal_strlit("fra"); }
    assert("ru"@.len() != "fre"@.len()) by { reveal_strlit("fre"); }
    assert("ru"@.len() != "french"@.len()) by { reveal_strlit("french"); }
    assert("ru"@.len() != "francais"@.len()) by { reveal_strlit("francais"); }
    assert("ru"@[0] != "de"@[0]);
    assert("ru"@.len() != "deu"@.len()) by { reveal_strlit("deu"); }
    assert("ru"@.len() != "ger"@.len()) by { reveal_strlit("ger"); }
    assert("ru"@.len() != "german"@.len()) by { reveal_strlit("german"); }
    assert("ru"@.len() != "deutsch"@.len()) by { reveal_strlit("deutsch"); }
    assert("ru"@[0] != "it"@[0]);
    assert("ru"@.len() != "ita"@.len()) by { reveal_strlit("ita"); }
    assert("ru"@.len() != "italian"@.len()) by { reveal_strlit("italian"); }
    assert("ru"@.len() != "italiano"@.len()) by { reveal_strlit("italiano"); }
    assert("ru"@[0] != "ja"@[0]);
    assert("ru"@[0] != "jp"@[0]);
    assert("ru"@.len() != "jpn"@.len()) by { reveal_strlit("jpn"); }
    assert("ru"@.len() != "japanese"@.len()) by { reveal_strlit("japanese"); }
    assert("ru"@[0] != "ko"@[0]);
    assert("ru"@.len() != "kor"@.len()) by { reveal_strlit("kor"); }
    assert("ru"@.len() != "korean"@.len()) by { reveal_strlit("korean"); }
    assert("ru"@[0] != "zh"@[0]);
    assert("ru"@.len() != "zhcn"@.len()) by { reveal_strlit("zhcn"); }
    assert("ru"@.len() != "chinese"@.len()) by { reveal_strlit("chinese"); }
    assert("ru"@.len() != "mandarin"@.len()) by { reveal_strlit("mandarin"); }
    assert("ru"@.len() != "simplifiedchinese"@.len()) by { reveal_strlit("simplifiedchinese"); }
    assert("ru"@.len() != "zhtw"@.len()) by { reveal_strlit("zhtw"); }
    assert("ru"@.len() != "traditionalchinese"@.len()) by { reveal_strlit("traditionalchinese"); }
    reveal_with_fuel(normalize, 3);
    assert(normalize("ru"@) =~= "ru"@);
}

proof fn lemma_fixed_ar()
    ensures
        canonical_of("ar"@) == Some("ar"@),
{
    reveal_strlit("ar");
    reveal_strlit("br");
    reveal_strlit("de");
    reveal_strlit("en");
    reveal_strlit("es");
    reveal_strlit("fr");
    reveal_strlit("it");
    reveal_strlit("ja");
    reveal_strlit("jp");
    reveal_strlit("ko");
    reveal_strlit("pt");
    reveal_strlit("ru");
    reveal_strlit("zh");
    assert("ar"@.len() != "auto"@.len()) by { reveal_strlit("auto"); }
    assert("ar"@.len() != "detect"@.len()) by { reveal_strlit("detect"); }
    assert("ar"@[0] != "en"@[0]);
    assert("ar"@.len() != "eng"@.len()) by { reveal_strlit("eng"); }
    assert("ar"@.len() != "english"@.len()) by { reveal_strlit("english"); }
    assert("ar"@.len() != "ptbr"@.len()) by { reveal_strlit("ptbr"); }
    assert("ar"@[0] != "br"@[0]);
    assert("ar"@[0] != "pt"@[0]);
    assert("ar"@.len() != "ptbra"@.len()) by { reveal_strlit("ptbra"); }
    assert("ar"@.len() != "portugues"@.len()) by { reveal_strlit("portugues"); }
    assert("ar"@.len() != "portuguese"@.len()) by { reveal_strlit("portuguese"); }
    assert("ar"@.len() != "brazilian"@.len()) by { reveal_strlit("brazilian"); }
    assert("ar"@.len() != "ptpt"@.len()) by { reveal_strlit("ptpt"); }
    assert("ar"@.len() != "portugal"@.len()) by { reveal_strlit("portugal"); }
    assert("ar"@[0] != "es"@[0]);
    assert("ar"@.len() != "spa"@.len()) by { reveal_strlit("spa"); }
    assert("ar"@.len() != "spanish"@.len()) by { reveal_strlit("spanish"); }
    assert("ar"@.len() != "espanol"@.len()) by { reveal_strlit("espanol"); }
    assert("ar"@.len() != "castellano"@.len()) by { reveal_strlit("castellano"); }
    assert("ar"@[0] != "fr"@[0]);
    assert("ar"@.len() != "fra"@.len()) by { reveal_strlit("fra"); }
    assert("ar"@.len() != "fre"@.len()) by { reveal_strlit("fre"); }
    assert("ar"@.len() != "french"@.len()) by { reveal_strlit("french"); }
    assert("ar"@.len() != "francais"@.len()) by { reveal_strlit("francais"); }
    assert("ar"@[0] != "de"@[0]);
    assert("ar"@.len() != "deu"@.len()) by { reveal_strlit("deu"); }
    assert("ar"@.len() != "ger"@.len()) by { reveal_strlit("ger"); }
    assert("ar"@.len() != "german"@.len()) by { reveal_strlit("german"); }
    assert("ar"@.len() != "deutsch"@.len()) by { reveal_strlit("deutsch"); }
    assert("ar"@[0] != "it"@[0]);
    assert("ar"@.len() != "ita"@.len()) by { reveal_strlit("ita"); }
    assert("ar"@.len() != "italian"@.len()) by { reveal_strlit("italian"); }
    assert("ar"@.len() != "italiano"@.len()) by { reveal_strlit("italiano"); }
    assert("ar"@[0] != "ja"@[0]);
    assert("ar"@[0] != "jp"@[0]);
    assert("ar"@.len() != "jpn"@.len()) by { reveal_strlit("jpn"); }
    assert("ar"@.len() != "japanese"@.len()) by { reveal_strlit("japanese"); }
    assert("ar"@[0] != "ko"@[0]);
    assert("ar"@.len() != "kor"@.len()) by { reveal_strlit("kor"); }
    assert("ar"@.len() != "korean"@.len()) by { reveal_strlit("korean"); }
    assert("ar"@[0] != "zh"@[0]);
    assert("ar"@.len() != "zhcn"@.len()) by { reveal_strlit("zhcn"); }
    assert("ar"@.len() != "chinese"@.len()) by { reveal_strlit("chinese"); }
    assert("ar"@.len() != "mandarin"@.len()) by { reveal_strlit("mandarin"); }
    assert("ar"@.len() != "simplifiedchinese"@.len()) by { reveal_strlit("simplifiedchinese"); }
    assert("ar"@.len() != "zhtw"@.len()) by { reveal_strlit("zhtw"); }
    assert("ar"@.len() != "traditionalchinese"@.len()) by { reveal_strlit("traditionalchinese"); }
    assert("ar"@[0] != "ru"@[0]);
    assert("ar"@.len() != "rus"@.len()) by { reveal_strlit("rus"); }
    assert("ar"@.len() != "russian"@.len()) by { reveal_strlit("russian"); }
    reveal_with_fuel(normalize, 3);
    assert(normalize("ar"@) =~= "ar"@);
}

proof fn lemma_fixed_nl()
    ensures
        canonical_of("nl"@) == Some("nl"@),
{
    reveal_strlit("ar");
    reveal_strlit("br");
    reveal_strlit("de");
    reveal_strlit("en");
    reveal_strlit("es");
    reveal_strlit("fr");
    reveal_strlit("it");
    reveal_strlit("ja");
    reveal_strlit("jp");
    reveal_strlit("ko");
    reveal_strlit("nl");
    reveal_strlit("pt");
    reveal_strlit("ru");
    reveal_strlit("zh");
    assert("nl"@.len() != "auto"@.len()) by { reveal_strlit("auto"); }
    assert("nl"@.len() != "detect"@.len()) by { reveal_strlit("detect"); }
    assert("nl"@[0] != "en"@[0]);
    assert("nl"@.len() != "eng"@.len()) by { reveal_strlit("eng"); }
    assert("nl"@.len() != "english"@.len()) by { reveal_strlit("english"); }
    assert("nl"@.len() != "ptbr"@.len()) by { reveal_strlit("ptbr"); }
    assert("nl"@[0] != "br"@[0]);
    assert("nl"@[0] != "pt"@[0]);
    assert("nl"@.len() != "ptbra"@.len()) by { reveal_strlit("ptbra"); }
    assert("nl"@.len() != "portugues"@.len()) by { reveal_strlit("portugues"); }
    assert("nl"@.len() != "portuguese"@.len()) by { reveal_strlit("portuguese"); }
    assert("nl"@.len() != "brazilian"@.len()) by { reveal_strlit("brazilian"); }
    assert("nl"@.len() != "ptpt"@.len()) by { reveal_strlit("ptpt"); }
    assert("nl"@.len() != "portugal"@.len()) by { reveal_strlit("portugal"); }
    assert("nl"@[0] != "es"@[0]);
    assert("nl"@.len() != "spa"@.len()) by { reveal_strlit("spa"); }
    assert("nl"@.len() != "spanish"@.len()) by { reveal_strlit("spanish"); }
    assert("nl"@.len() != "espanol"@.len()) by { reveal_strlit("espanol"); }
    assert("nl"@.len() != "castellano"@.len()) by { reveal_strlit("castellano"); }
    assert("nl"@[0] != "fr"@[0]);
    assert("nl"@.len() != "fra"@.len()) by { reveal_strlit("fra"); }
    assert("nl"@.len() != "fre"@.len()) by { reveal_strlit("fre"); }
    assert("nl"@.len() != "french"@.len()) by { reveal_strlit("french"); }
    assert("nl"@.len() != "francais"@.len()) by { reveal_strlit("francais"); }
    assert("nl"@[0] != "de"@[0]);
    assert("nl"@.len() != "deu"@.len()) by { reveal_strlit("deu"); }
    assert("nl"@.len() != "ger"@.len()) by { reveal_strlit("ger"); }
    assert("nl"@.len() != "german"@.len()) by { reveal_strlit("german"); }
    assert("nl"@.len() != "deutsch"@.len()) by { reveal_strlit("deutsch"); }
    assert("nl"@[0] != "it"@[0]);
    assert("nl"@.len() != "ita"@.len()) by { reveal_strlit("ita"); }
    assert("nl"@.len() != "italian"@.len()) by { reveal_strlit("italian"); }
    assert("nl"@.len() != "italiano"@.len()) by { reveal_strlit("italiano"); }
    assert("nl"@[0] != "ja"@[0]);
    assert("nl"@[0] != "jp"@[0]);
    assert("nl"@.len() != "jpn"@.len()) by { reveal_strlit("jpn"); }
    assert("nl"@.len() != "japanese"@.len()) by { reveal_strlit("japanese"); }
    assert("nl"@[0] != "ko"@[0]);
    assert("nl"@.len() != "kor"@.len()) by { reveal_strlit("kor"); }
    assert("nl"@.len() != "korean"@.len()) by { reveal_strlit("korean"); }
    assert("nl"@[0] != "zh"@[0]);
    assert("nl"@.len() != "zhcn"@.len()) by { reveal_strlit("zhcn"); }
    assert("nl"@.len() != "chinese"@.len()) by { reveal_strlit("chinese"); }
    assert("nl"@.len() != "mandarin"@.len()) by { reveal_strlit("mandarin"); }
    assert("nl"@.len() != "simplifiedchinese"@.len()) by { reveal_strlit("simplifiedchinese"); }
    assert("nl"@.len() != "zhtw"@.len()) by { reveal_strlit("zhtw"); }
    assert("nl"@.len() != "traditionalchinese"@.len()) by { reveal_strlit("traditionalchinese"); }
    assert("nl"@[0] != "ru"@[0]);
    assert("nl"@.len() != "rus"@.len()) by { reveal_strlit("rus"); }
    assert("nl"@.len() != "russian"@.len()) by { reveal_strlit("russian"); }
    assert("nl"@[0] != "ar"@[0]);
    assert("nl"@.len() != "ara"@.len()) by { reveal_strlit("ara"); }
    assert("nl"@.len() != "arabic"@.len()) by { reveal_strlit("arabic"); }
    reveal_with_fuel(normalize, 3);
    assert(normalize("nl"@) =~= "nl"@);
}

proof fn lemma_fixed_sv()
    ensures
        canonical_of("sv"@) == Some("sv"@),
{
    reveal_strlit("ar");
    reveal_strlit("br");
    reveal_strlit("de");
    reveal_strlit("en");
    reveal_strlit("es");
    reveal_strlit("fr");
    reveal_strlit("it");
    reveal_strlit("ja");
    reveal_strlit("jp");
    reveal_strlit("ko");
    reveal_strlit("nl");
    reveal_strlit("pt");
    reveal_strlit("ru");
    reveal_strlit("sv");
    reveal_strlit("zh");
    assert("sv"@.len() != "auto"@.len()) by { reveal_strlit("auto"); }
    assert("sv"@.len() != "detect"@.len()) by { reveal_strlit("detect"); }
    assert("sv"@[0] != "en"@[0]);
    assert("sv"@.len() != "eng"@.len()) by { reveal_strlit("eng"); }
    assert("sv"@.len() != "english"@.len()) by { reveal_strlit("english"); }
    assert("sv"@.len() != "ptbr"@.len()) by { reveal_strlit("ptbr"); }
    assert("sv"@[0] != "br"@[0]);
    assert("sv"@[0] != "pt"@[0]);
    assert("sv"@.len() != "ptbra"@.len()) by { reveal_strlit("ptbra"); }
    assert("sv"@.len() != "portugues"@.len()) by { reveal_strlit("portugues"); }
    assert("sv"@.len() != "portuguese"@.len()) by { reveal_strlit("portuguese"); }
    assert("sv"@.len() != "brazilian"@.len()) by { reveal_strlit("brazilian"); }
    assert("sv"@.len() != "ptpt"@.len()) by { reveal_strlit("ptpt"); }
    assert("sv"@.len() != "portugal"@.len()) by { reveal_strlit("portugal"); }
    assert("sv"@[0] != "es"@[0]);
    assert("sv"@.len() != "spa"@.len()) by { reveal_strlit("spa"); }
    assert("sv"@.len() != "spanish"@.len()) by { reveal_strlit("spanish"); }
    assert("sv"@.len() != "espanol"@.len()) by { reveal_strlit("espanol"); }
    assert("sv"@.len() != "castellano"@.len()) by { reveal_strlit("castellano"); }
    assert("sv"@[0] != "fr"@[0]);
    assert("sv"@.len() != "fra"@.len()) by { reveal_strlit("fra"); }
    assert("sv"@.len() != "fre"@.len()) by { reveal_strlit("fre"); }
    assert("sv"@.len() != "french"@.len()) by { reveal_strlit("french"); }
    assert("sv"@.len() != "francais"@.len()) by { reveal_strlit("francais"); }
    assert("sv"@[0] != "de"@[0]);
    assert("sv"@.len() != "deu"@.len()) by { reveal_strlit("deu"); }
    assert("sv"@.len() != "ger"@.len()) by { reveal_strlit("ger"); }
    assert("sv"@.len() != "german"@.len()) by { reveal_strlit("german"); }
    assert("sv"@.len() != "deutsch"@.len()) by { reveal_strlit("deutsch"); }
    assert("sv"@[0] != "it"@[0]);
    assert("sv"@.len() != "ita"@.len()) by { reveal_strlit("ita"); }
    assert("sv"@.len() != "italian"@.len()) by { reveal_strlit("italian"); }
    assert("sv"@.len() != "italiano"@.len()) by { reveal_strlit("italiano"); }
    assert("sv"@[0] != "ja"@[0]);
    assert("sv"@[0] != "jp"@[0]);
    assert("sv"@.len() != "jpn"@.len()) by { reveal_strlit("jpn"); }
    assert("sv"@.len() != "japanese"@.len()) by { reveal_strlit("japanese"); }
    assert("sv"@[0] != "ko"@[0]);
    assert("sv"@.len() != "kor"@.len()) by { reveal_strlit("kor"); }
    assert("sv"@.len() != "korean"@.len()) by { reveal_strlit("korean"); }
    assert("sv"@[0] != "zh"@[0]);
    assert("sv"@.len() != "zhcn"@.len()) by { reveal_strlit("zhcn"); }
    assert("sv"@.len() != "chinese"@.len()) by { reveal_strlit("chinese"); }
    assert("sv"@.len() != "mandarin"@.len()) by { reveal_strlit("mandarin"); }
    assert("sv"@.len() != "simplifiedchinese"@.len()) by { reveal_strlit("simplifiedchinese"); }
    assert("sv"@.len() != "zhtw"@.len()) by { reveal_strlit("zhtw"); }
    assert("sv"@.len() != "traditionalchinese"@.len()) by { reveal_strlit("traditionalchinese"); }
    assert("sv"@[0] != "ru"@[0]);
    assert("sv"@.len() != "rus"@.len()) by { reveal_strlit("rus"); }
    assert("sv"@.len() != "russian"@.len()) by { reveal_strlit("russian"); }
    assert("sv"@[0] != "ar"@[0]);
    assert("sv"@.len() != "ara"@.len()) by { reveal_strlit("ara"); }
    assert("sv"@.len() != "arabic"@.len()) by { reveal_strlit("arabic"); }
    assert("sv"@[0] != "nl"@[0]);
    assert("sv"@.len() != "nld"@.len()) by { reveal_strlit("nld"); }
    assert("sv"@.len() != "dutch"@.len()) by { reveal_strlit("dutch"); }
    reveal_with_fuel(normalize, 3);
    assert(normalize("sv"@) =~= "sv"@);
}

proof fn lemma_fixed_pl()
    ensures
        canonical_of("pl"@) == Some("pl"@),
{
    reveal_strlit("ar");
    reveal_strlit("br");
    reveal_strlit("de");
    reveal_strlit("en");
    reveal_strlit("es");
    reveal_strlit("fr");
    reveal_strlit("it");
    reveal_strlit("ja");
    reveal_strlit("jp");
    reveal_strlit("ko");
    reveal_strlit("nl");
    reveal_strlit("pl");
    reveal_strlit("pt");
    reveal_strlit("ru");
    reveal_strlit("sv");
    reveal_strlit("zh");
    assert("pl"@.len() != "auto"@.len()) by { reveal_strlit("auto"); }
    assert("pl"@.len() != "detect"@.len()) by { reveal_strlit("detect"); }
    assert("pl"@[0] != "en"@[0]);
    assert("pl"@.len() != "eng"@.len()) by { reveal_strlit("eng"); }
    assert("pl"@.len() != "english"@.len()) by { reveal_strlit("english"); }
    assert("pl"@.len() != "ptbr"@.len()) by { reveal_strlit("ptbr"); }
    assert("pl"@[0] != "br"@[0]);
    assert("pl"@[1] != "pt"@[1]);
    assert("pl"@.len() != "ptbra"@.len()) by { reveal_strlit("ptbra"); }
    assert("pl"@.len() != "portugues"@.len()) by { reveal_strlit("portugues"); }
    assert("pl"@.len() != "portuguese"@.len()) by { reveal_strlit("portuguese"); }
    assert("pl"@.len() != "brazilian"@.len()) by { reveal_strlit("brazilian"); }
    assert("pl"@.len() != "ptpt"@.len()) by { reveal_strlit("ptpt"); }
    assert("pl"@.len() != "portugal"@.len()) by { reveal_strlit("portugal"); }
    assert("pl"@[0] != "es"@[0]);
    assert("pl"@.len() != "spa"@.len()) by { reveal_strlit("spa"); }
    assert("pl"@.len() != "spanish"@.len()) by { reveal_strlit("spanish"); }
    assert("pl"@.len() != "espanol"@.len()) by { reveal_strlit("espanol"); }
    assert("pl"@.len() != "castellano"@.len()) by { reveal_strlit("castellano"); }
    assert("pl"@[0] != "fr"@[0]);
    assert("pl"@.len() != "fra"@.len()) by { reveal_strlit("fra"); }
    assert("pl"@.len() != "fre"@.len()) by { reveal_strlit("fre"); }
    assert("pl"@.len() != "french"@.len()) by { reveal_strlit("french"); }
    assert("pl"@.len() != "francais"@.len()) by { reveal_strlit("francais"); }
    assert("pl"@[0] != "de"@[0]);
    assert("pl"@.len() != "deu"@.len()) by { reveal_strlit("deu"); }
    assert("pl"@.len() != "ger"@.len()) by { reveal_strlit("ger"); }
    assert("pl"@.len() != "german"@.len()) by { reveal_strlit("german"); }
    assert("pl"@.len() != "deutsch"@.len()) by { reveal_strlit("deutsch"); }
    assert("pl"@[0] != "it"@[0]);
    assert("pl"@.len() != "ita"@.len()) by { reveal_strlit("ita"); }
    assert("pl"@.len() != "italian"@.len()) by { reveal_strlit("italian"); }
    assert("pl"@.len() != "italiano"@.len()) by { reveal_strlit("italiano"); }
    assert("pl"@[0] != "ja"@[0]);
    assert("pl"@[0] != "jp"@[0]);
    assert("pl"@.len() != "jpn"@.len()) by { reveal_strlit("jpn"); }
    assert("pl"@.len() != "japanese"@.len()) by { reveal_strlit("japanese"); }
    assert("pl"@[0] != "ko"@[0]);
    assert("pl"@.len() != "kor"@.len()) by { reveal_strlit("kor"); }
    assert("pl"@.len() != "korean"@.len()) by { reveal_strlit("korean"); }
    assert("pl"@[0] != "zh"@[0]);
    assert("pl"@.len() != "zhcn"@.len()) by { reveal_strlit("zhcn"); }
    assert("pl"@.len() != "chinese"@.len()) by { reveal_strlit("chinese"); }
    assert("pl"@.len() != "mandarin"@.len()) by { reveal_strlit("mandarin"); }
    assert("pl"@.len() != "simplifiedchinese"@.len()) by { reveal_strlit("simplifiedchinese"); }
    assert("pl"@.len() != "zhtw"@.len()) by { reveal_strlit("zhtw"); }
    assert("pl"@.len() != "traditionalchinese"@.len()) by { reveal_strlit("traditionalchinese"); }
    assert("pl"@[0] != "ru"@[0]);
    assert("pl"@.len() != "rus"@.len()) by { reveal_strlit("rus"); }
    assert("pl"@.len() != "russian"@.len()) by { reveal_strlit("russian"); }
    assert("pl"@[0] != "ar"@[0]);
    assert("pl"@.len() != "ara"@.len()) by { reveal_strlit("ara"); }
    assert("pl"@.len() != "arabic"@.len()) by { reveal_strlit("arabic"); }
    assert("pl"@[0] != "nl"@[0]);
    assert("pl"@.len() != "nld"@.len()) by { reveal_strlit("nld"); }
    assert("pl"@.len() != "dutch"@.len()) by { reveal_strlit("dutch"); }
    assert("pl"@[0] != "sv"@[0]);
    assert("pl"@.len() != "swe"@.len()) by { reveal_strlit("swe"); }
    assert("pl"@.len() != "swedish"@.len()) by { reveal_strlit("swedish"); }
    reveal_with_fuel(normalize, 3);
    assert(normalize("pl"@) =~= "pl"@);
}

proof fn lemma_fixed_tr()
    ensures
        canonical_of("tr"@) == Some("tr"@),
{
    reveal_strlit("ar");
    reveal_strlit("br");
    reveal_strlit("de");
    reveal_strlit("en");
    reveal_strlit("es");
    reveal_strlit("fr");
    reveal_strlit("it");
    reveal_strlit("ja");
    reveal_strlit("jp");
    reveal_strlit("ko");
    reveal_strlit("nl");
    reveal_strlit("pl");
    reveal_strlit("pt");
    reveal_strlit("ru");
    reveal_strlit("sv");
    reveal_strlit("tr");
    reveal_strlit("zh");
    assert("tr"@.len() != "auto"@.len()) by { reveal_strlit("auto"); }
    assert("tr"@.len() != "detect"@.len()) by { reveal_strlit("detect"); }
    assert("tr"@[0] != "en"@[0]);
    assert("tr"@.len() != "eng"@.len()) by { reveal_strlit("eng"); }
    assert("tr"@.len() != "english"@.len()) by { reveal_strlit("english"); }
    assert("tr"@.len() != "ptbr"@.len()) by { reveal_strlit("ptbr"); }
    assert("tr"@[0] != "br"@[0]);
    assert("tr"@[0] != "pt"@[0]);
    assert("tr"@.len() != "ptbra"@.len()) by { reveal_strlit("ptbra"); }
    assert("tr"@.len() != "portugues"@.len()) by { reveal_strlit("portugues"); }
    assert("tr"@.len() != "portuguese"@.len()) by { reveal_strlit("portuguese"); }
    assert("tr"@.len() != "brazilian"@.len()) by { reveal_strlit("brazilian"); }
    assert("tr"@.len() != "ptpt"@.len()) by { reveal_strlit("ptpt"); }
    assert("tr"@.len() != "portugal"@.len()) by { reveal_strlit("portugal"); }
    assert("tr"@[0] != "es"@[0]);
    assert("tr"@.len() != "spa"@.len()) by { reveal_strlit("spa"); }
    assert("tr"@.len() != "spanish"@.len()) by { reveal_strlit("spanish"); }
    assert("tr"@.len() != "espanol"@.len()) by { reveal_strlit("espanol"); }
    assert("tr"@.len() != "castellano"@.len()) by { reveal_strlit("castellano"); }
    assert("tr"@[0] != "fr"@[0]);
    assert("tr"@.len() != "fra"@.len()) by { reveal_strlit("fra"); }
    assert("tr"@.len() != "fre"@.len()) by { reveal_strlit("fre"); }
    assert("tr"@.len() != "french"@.len()) by { reveal_strlit("french"); }
    assert("tr"@.len() != "francais"@.len()) by { reveal_strlit("francais"); }
    assert("tr"@[0] != "de"@[0]);
    assert("tr"@.len() != "deu"@.len()) by { reveal_strlit("deu"); }
    assert("tr"@.len() != "ger"@.len()) by { reveal_strlit("ger"); }
    assert("tr"@.len() != "german"@.len()) by { reveal_strlit("german"); }
    assert("tr"@.len() != "deutsch"@.len()) by { reveal_strlit("deutsch"); }
    assert("tr"@[0] != "it"@[0]);
    assert("tr"@.len() != "ita"@.len()) by { reveal_strlit("ita"); }
    assert("tr"@.len() != "italian"@.len()) by { reveal_strlit("italian"); }
    assert("tr"@.len() != "italiano"@.len()) by { reveal_strlit("italiano"); }
    assert("tr"@[0] != "ja"@[0]);
    assert("tr"@[0] != "jp"@[0]);
    assert("tr"@.len() != "jpn"@.len()) by { reveal_strlit("jpn"); }
    assert("tr"@.len() != "japanese"@.len()) by { reveal_strlit("japanese"); }
    assert("tr"@[0] != "ko"@[0]);
    assert("tr"@.len() != "kor"@.len()) by { reveal_strlit("kor"); }
    assert("tr"@.len() != "korean"@.len()) by { reveal_strlit("korean"); }
    assert("tr"@[0] != "zh"@[0]);
    assert("tr"@.len() != "zhcn"@.len()) by { reveal_strlit("zhcn"); }
    assert("tr"@.len() != "chinese"@.len()) by { reveal_strlit("chinese"); }
    assert("tr"@.len() != "mandarin"@.len()) by { reveal_strlit("mandarin"); }
    assert("tr"@.len() != "simplifiedchinese"@.len()) by { reveal_strlit("simplifiedchinese"); }
    assert("tr"@.len() != "zhtw"@.len()) by { reveal_strlit("zhtw"); }
    assert("tr"@.len() != "traditionalchinese"@.len()) by { reveal_strlit("traditionalchinese"); }
    assert("tr"@[0] != "ru"@[0]);
    assert("tr"@.len() != "rus"@.len()) by { reveal_strlit("rus"); }
    assert("tr"@.len() != "russian"@.len()) by { reveal_strlit("russian"); }
    assert("tr"@[0] != "ar"@[0]);
    assert("tr"@.len() != "ara"@.len()) by { reveal_strlit("ara"); }
    assert("tr"@.len() != "arabic"@.len()) by { reveal_strlit("arabic"); }
    assert("tr"@[0] != "nl"@[0]);
    assert("tr"@.len() != "nld"@.len()) by { reveal_strlit("nld"); }
    assert("tr"@.len() != "dutch"@.len()) by { reveal_strlit("dutch"); }
    assert("tr"@[0] != "sv"@[0]);
    assert("tr"@.len() != "swe"@.len()) by { reveal_strlit("swe"); }
    assert("tr"@.len() != "swedish"@.len()) by { reveal_strlit("swedish"); }
    assert("tr"@[0] != "pl"@[0]);
    assert("tr"@.len() != "pol"@.len()) by { reveal_strlit("pol"); }
    assert("tr"@.len() != "polish"@.len()) by { reveal_strlit("polish"); }
    reveal_with_fuel(normalize, 3);
    assert(normalize("tr"@) =~= "tr"@);
}

proof fn lemma_fixed_hi()
    ensures
        canonical_of("hi"@) == Some("hi"@),
{
    reveal_strlit("ar");
    reveal_strlit("br");
    reveal_strlit("de");
    reveal_strlit("en");
    reveal_strlit("es");
    reveal_strlit("fr");
    reveal_strlit("hi");
    reveal_strlit("it");
    reveal_strlit("ja");
    reveal_strlit("jp");
    reveal_strlit("ko");
    reveal_strlit("nl");
    reveal_strlit("pl");
    reveal_strlit("pt");
    reveal_strlit("ru");
    reveal_strlit("sv");
    reveal_strlit("tr");
    reveal_strlit("zh");
    assert("hi"@.len() != "auto"@.len()) by { reveal_strlit("auto"); }
    assert("hi"@.len() != "detect"@.len()) by { reveal_strlit("detect"); }
    assert("hi"@[0] != "en"@[0]);
    assert("hi"@.len() != "eng"@.len()) by { reveal_strlit("eng"); }
    assert("hi"@.len() != "english"@.len()) by { reveal_strlit("english"); }
    assert("hi"@.len() != "ptbr"@.len()) by { reveal_strlit("ptbr"); }
    assert("hi"@[0] != "br"@[0]);
    assert("hi"@[0] != "pt"@[0]);
    assert("hi"@.len() != "ptbra"@.len()) by { reveal_strlit("ptbra"); }
    assert("hi"@.len() != "portugues"@.len()) by { reveal_strlit("portugues"); }
    assert("hi"@.len() != "portuguese"@.len()) by { reveal_strlit("portuguese"); }
    assert("hi"@.len() != "brazilian"@.len()) by { reveal_strlit("brazilian"); }
    assert("hi"@.len() != "ptpt"@.len()) by { reveal_strlit("ptpt"); }
    assert("hi"@.len() != "portugal"@.len()) by { reveal_strlit("portugal"); }
    assert("hi"@[0] != "es"@[0]);
    assert("hi"@.len() != "spa"@.len()) by { reveal_strlit("spa"); }
    assert("hi"@.len() != "spanish"@.len()) by { reveal_strlit("spanish"); }
    assert("hi"@.len() != "espanol"@.len()) by { reveal_strlit("espanol"); }
    assert("hi"@.len() != "castellano"@.len()) by { reveal_strlit("castellano"); }
    assert("hi"@[0] != "fr"@[0]);
    assert("hi"@.len() != "fra"@.len()) by { reveal_strlit("fra"); }
    assert("hi"@.len() != "fre"@.len()) by { reveal_strlit("fre"); }
    assert("hi"@.len() != "french"@.len()) by { reveal_strlit("french"); }
    assert("hi"@.len() != "francais"@.len()) by { reveal_strlit("francais"); }
    assert("hi"@[0] != "de"@[0]);
    assert("hi"@.len() != "deu"@.len()) by { reveal_strlit("deu"); }
    assert("hi"@.len() != "ger"@.len()) by { reveal_strlit("ger"); }
    assert("hi"@.len() != "german"@.len()) by { reveal_strlit("german"); }
    assert("hi"@.len() != "deutsch"@.len()) by { reveal_strlit("deutsch"); }
    assert("hi"@[0] != "it"@[0]);
    assert("hi"@.len() != "ita"@.len()) by { reveal_strlit("ita"); }
    assert("hi"@.len() != "italian"@.len()) by { reveal_strlit("italian"); }
    assert("hi"@.len() != "italiano"@.len()) by { reveal_strlit("italiano"); }
    assert("hi"@[0] != "ja"@[0]);
    assert("hi"@[0] != "jp"@[0]);
    assert("hi"@.len() != "jpn"@.len()) by { reveal_strlit("jpn"); }
    assert("hi"@.len() != "japanese"@.len()) by { reveal_strlit("japanese"); }
    assert("hi"@[0] != "ko"@[0]);
    assert("hi"@.len() != "kor"@.len()) by { reveal_strlit("kor"); }
    assert("hi"@.len() != "korean"@.len()) by { reveal_strlit("korean"); }
    assert("hi"@[0] != "zh"@[0]);
    assert("hi"@.len() != "zhcn"@.len()) by { reveal_strlit("zhcn"); }
    assert("hi"@.len() != "chinese"@.len()) by { reveal_strlit("chinese"); }
    assert("hi"@.len() != "mandarin"@.len()) by { reveal_strlit("mandarin"); }
    assert("hi"@.len() != "simplifiedchinese"@.len()) by { reveal_strlit("simplifiedchinese"); }
    assert("hi"@.len() != "zhtw"@.len()) by { reveal_strlit("zhtw"); }
    assert("hi"@.len() != "traditionalchinese"@.len()) by { reveal_strlit("traditionalchinese"); }
    assert("hi"@[0] != "ru"@[0]);
    assert("hi"@.len() != "rus"@.len()) by { reveal_strlit("rus"); }
    assert("hi"@.len() != "russian"@.len()) by { reveal_strlit("russian"); }
    assert("hi"@[0] != "ar"@[0]);
    assert("hi"@.len() != "ara"@.len()) by { reveal_strlit("ara"); }
    assert("hi"@.len() != "arabic"@.len()) by { reveal_strlit("arabic"); }
    assert("hi"@[0] != "nl"@[0]);
    assert("hi"@.len() != "nld"@.len()) by { reveal_strlit("nld"); }
    assert("hi"@.len() != "dutch"@.len()) by { reveal_strlit("dutch"); }
    assert("hi"@[0] != "sv"@[0]);
    assert("hi"@.len() != "swe"@.len()) by { reveal_strlit("swe"); }
    assert("hi"@.len() != "swedish"@.len()) by { reveal_strlit("swedish"); }
    assert("hi"@[0] != "pl"@[0]);
    assert("hi"@.len() != "pol"@.len()) by { reveal_strlit("pol"); }
    assert("hi"@.len() != "polish"@.len()) by { reveal_strlit("polish"); }
    assert("hi"@[0] != "tr"@[0]);
    assert("hi"@.len() != "tur"@.len()) by { reveal_strlit("tur"); }
    assert("hi"@.len() != "turkish"@.len()) by { reveal_strlit("turkish"); }
    reveal_with_fuel(normalize, 3);
    assert(normalize("hi"@) =~= "hi"@);
}

proof fn lemma_fixed_el()
    ensures
        canonical_of("el"@) == Some("el"@),
{
    reveal_strlit("ar");
    reveal_strlit("br");
    reveal_strlit("de");
    reveal_strlit("el");
    reveal_strlit("en");
    reveal_strlit("es");
    reveal_strlit("fr");
    reveal_strlit("hi");
    reveal_strlit("it");
    reveal_strlit("ja");
    reveal_strlit("jp");
    reveal_strlit("ko");
    reveal_strlit("nl");
    reveal_strlit("pl");
    reveal_strlit("pt");
    reveal_strlit("ru");
    reveal_strlit("sv");
    reveal_strlit("tr");
    reveal_strlit("zh");
    assert("el"@.len() != "auto"@.len()) by { reveal_strlit("auto"); }
    assert("el"@.len() != "detect"@.len()) by { reveal_strlit("detect"); }
    assert("el"@[1] != "en"@[1]);
    assert("el"@.len() != "eng"@.len()) by { reveal_strlit("eng"); }
    assert("el"@.len() != "english"@.len()) by { reveal_strlit("english"); }
    assert("el"@.len() != "ptbr"@.len()) by { reveal_strlit("ptbr"); }
    assert("el"@[0] != "br"@[0]);
    assert("el"@[0] != "pt"@[0]);
    assert("el"@.len() != "ptbra"@.len()) by { reveal_strlit("ptbra"); }
    assert("el"@.len() != "portugues"@.len()) by { reveal_strlit("portugues"); }
    assert("el"@.len() != "portuguese"@.len()) by { reveal_strlit("portuguese"); }
    assert("el"@.len() != "brazilian"@.len()) by { reveal_strlit("brazilian"); }
    assert("el"@.len() != "ptpt"@.len()) by { reveal_strlit("ptpt"); }
    assert("el"@.len() != "portugal"@.len()) by { reveal_strlit("portugal"); }
    assert("el"@[1] != "es"@[1]);
    assert("el"@.len() != "spa"@.len()) by { reveal_strlit("spa"); }
    assert("el"@.len() != "spanish"@.len()) by { reveal_strlit("spanish"); }
    assert("el"@.len() != "espanol"@.len()) by { reveal_strlit("espanol"); }
    assert("el"@.len() != "castellano"@.len()) by { reveal_strlit("castellano"); }
    assert("el"@[0] != "fr"@[0]);
    assert("el"@.len() != "fra"@.len()) by { reveal_strlit("fra"); }
    assert("el"@.len() != "fre"@.len()) by { reveal_strlit("fre"); }
    assert("el"@.len() != "french"@.len()) by { reveal_strlit("french"); }
    assert("el"@.len() != "francais"@.len()) by { reveal_strlit("francais"); }
    assert("el"@[0] != "de"@[0]);
    assert("el"@.len() != "deu"@.len()) by { reveal_strlit("deu"); }
    assert("el"@.len() != "ger"@.len()) by { reveal_strlit("ger"); }
    assert("el"@.len() != "german"@.len()) by { reveal_strlit("german"); }
    assert("el"@.len() != "deutsch"@.len()) by { reveal_strlit("deutsch"); }
    assert("el"@[0] != "it"@[0]);
    assert("el"@.len() != "ita"@.len()) by { reveal_strlit("ita"); }
    assert("el"@.len() != "italian"@.len()) by { reveal_strlit("italian"); }
    assert("el"@.len() != "italiano"@.len()) by { reveal_strlit("italiano"); }
    assert("el"@[0] != "ja"@[0]);
    assert("el"@[0] != "jp"@[0]);
    assert("el"@.len() != "jpn"@.len()) by { reveal_strlit("jpn"); }
    assert("el"@.len() != "japanese"@.len()) by { reveal_strlit("japanese"); }
    assert("el"@[0] != "ko"@[0]);
    assert("el"@.len() != "kor"@.len()) by { reveal_strlit("kor"); }
    assert("el"@.len() != "korean"@.len()) by { reveal_strlit("korean"); }
    assert("el"@[0] != "zh"@[0]);
    assert("el"@.len() != "zhcn"@.len()) by { reveal_strlit("zhcn"); }
    assert("el"@.len() != "chinese"@.len()) by { reveal_strlit("chinese"); }
    assert("el"@.len() != "mandarin"@.len()) by { reveal_strlit("mandarin"); }
    assert("el"@.len() != "simplifiedchinese"@.len()) by { reveal_strlit("simplifiedchinese"); }
    assert("el"@.len() != "zhtw"@.len()) by { reveal_strlit("zhtw"); }
    assert("el"@.len() != "traditionalchinese"@.len()) by { reveal_strlit("traditionalchinese"); }
    assert("el"@[0] != "ru"@[0]);
    assert("el"@.len() != "rus"@.len()) by { reveal_strlit("rus"); }
    assert("el"@.len() != "russian"@.len()) by { reveal_strlit("russian"); }
    assert("el"@[0] != "ar"@[0]);
    assert("el"@.len() != "ara"@.len()) by { reveal_strlit("ara"); }
    assert("el"@.len() != "arabic"@.len()) by { reveal_strlit("arabic"); }
    assert("el"@[0] != "nl"@[0]);
    assert("el"@.len() != "nld"@.len()) by { reveal_strlit("nld"); }
    assert("el"@.len() != "dutch"@.len()) by { reveal_strlit("dutch"); }
    assert("el"@[0] != "sv"@[0]);
    assert("el"@.len() != "swe"@.len()) by { reveal_strlit("swe"); }
    assert("el"@.len() != "swedish"@.len()) by { reveal_strlit("swedish"); }
    assert("el"@[0] != "pl"@[0]);
    assert("el"@.len() != "pol"@.len()) by { reveal_strlit("pol"); }
    assert("el"@.len() != "polish"@.len()) by { reveal_strlit("polish"); }
    assert("el"@[0] != "tr"@[0]);
    assert("el"@.len() != "tur"@.len()) by { reveal_strlit("tur"); }
    assert("el"@.len() != "turkish"@.len()) by { reveal_strlit("turkish"); }
    assert("el"@[0] != "hi"@[0]);
    assert("el"@.len() != "hin"@.len()) by { reveal_strlit("hin"); }
    assert("el"@.len() != "hindi"@.len()) by { reveal_strlit("hindi"); }
    reveal_with_fuel(normalize, 3);
    assert(normalize("el"@) =~= "el"@);
}

proof fn lemma_fixed_he()
    ensures
        canonical_of("he"@) == Some("he"@),
{
    reveal_strlit("ar");
    reveal_strlit("br");
    reveal_strlit("de");
    reveal_strlit("el");
    reveal_strlit("en");
    reveal_strlit("es");
    reveal_strlit("fr");
    reveal_strlit("he");
    reveal_strlit("hi");
    reveal_strlit("it");
    reveal_strlit("ja");
    reveal_strlit("jp");
    reveal_strlit("ko");
    reveal_strlit("nl");
    reveal_strlit("pl");
    reveal_strlit("pt");
    reveal_strlit("ru");
    reveal_strlit("sv");
    reveal_strlit("tr");
    reveal_strlit("zh");
    assert("he"@.len() != "auto"@.len()) by { reveal_strlit("auto"); }
    assert("he"@.len() != "detect"@.len()) by { reveal_strlit("detect"); }
    assert("he"@[0] != "en"@[0]);
    assert("he"@.len() != "eng"@.len()) by { reveal_strlit("eng"); }
    assert("he"@.len() != "english"@.len()) by { reveal_strlit("english"); }
    assert("he"@.len() != "ptbr"@.len()) by { reveal_strlit("ptbr"); }
    assert("he"@[0] != "br"@[0]);
    assert("he"@[0] != "pt"@[0]);
    assert("he"@.len() != "ptbra"@.len()) by { reveal_strlit("ptbra"); }
    assert("he"@.len() != "portugues"@.len()) by { reveal_strlit("portugues"); }
    assert("he"@.len() != "portuguese"@.len()) by { reveal_strlit("portuguese"); }
    assert("he"@.len() != "brazilian"@.len()) by { reveal_strlit("brazilian"); }
    assert("he"@.len() != "ptpt"@.len()) by { reveal_strlit("ptpt"); }
    assert("he"@.len() != "portugal"@.len()) by { reveal_strlit("portugal"); }
    assert("he"@[0] != "es"@[0]);
    assert("he"@.len() != "spa"@.len()) by { reveal_strlit("spa"); }
    assert("he"@.len() != "spanish"@.len()) by { reveal_strlit("spanish"); }
    assert("he"@.len() != "espanol"@.len()) by { reveal_strlit("espanol"); }
    assert("he"@.len() != "castellano"@.len()) by { reveal_strlit("castellano"); }
    assert("he"@[0] != "fr"@[0]);
    assert("he"@.len() != "fra"@.len()) by { reveal_strlit("fra"); }
    assert("he"@.len() != "fre"@.len()) by { reveal_strlit("fre"); }
    assert("he"@.len() != "french"@.len()) by { reveal_strlit("french"); }
    assert("he"@.len() != "francais"@.len()) by { reveal_strlit("francais"); }
    assert("he"@[0] != "de"@[0]);
    assert("he"@.len() != "deu"@.len()) by { reveal_strlit("deu"); }
    assert("he"@.len() != "ger"@.len()) by { reveal_strlit("ger"); }
    assert("he"@.len() != "german"@.len()) by { reveal_strlit("german"); }
    assert("he"@.len() != "deutsch"@.len()) by { reveal_strlit("deutsch"); }
    assert("he"@[0] != "it"@[0]);
    assert("he"@.len() != "ita"@.len()) by { reveal_strlit("ita"); }
    assert("he"@.len() != "italian"@.len()) by { reveal_strlit("italian"); }
    assert("he"@.len() != "italiano"@.len()) by { reveal_strlit("italiano"); }
    assert("he"@[0] != "ja"@[0]);
    assert("he"@[0] != "jp"@[0]);
    assert("he"@.len() != "jpn"@.len()) by { reveal_strlit("jpn"); }
    assert("he"@.len() != "japanese"@.len()) by { reveal_strlit("japanese"); }
    assert("he"@[0] != "ko"@[0]);
    assert("he"@.len() != "kor"@.len()) by { reveal_strlit("kor"); }
    assert("he"@.len() != "korean"@.len()) by { reveal_strlit("korean"); }
    assert("he"@[0] != "zh"@[0]);
    assert("he"@.len() != "zhcn"@.len()) by { reveal_strlit("zhcn"); }
    assert("he"@.len() != "chinese"@.len()) by { reveal_strlit("chinese"); }
    assert("he"@.len() != "mandarin"@.len()) by { reveal_strlit("mandarin"); }
    assert("he"@.len() != "simplifiedchinese"@.len()) by { reveal_strlit("simplifiedchinese"); }
    assert("he"@.len() != "zhtw"@.len()) by { reveal_strlit("zhtw"); }
    assert("he"@.len() != "traditionalchinese"@.len()) by { reveal_strlit("traditionalchinese"); }
    assert("he"@[0] != "ru"@[0]);
    assert("he"@.len() != "rus"@.len()) by { reveal_strlit("rus"); }
    assert("he"@.len() != "russian"@.len()) by { reveal_strlit("russian"); }
    assert("he"@[0] != "ar"@[0]);
    assert("he"@.len() != "ara"@.len()) by { reveal_strlit("ara"); }
    assert("he"@.len() != "arabic"@.len()) by { reveal_strlit("arabic"); }
    assert("he"@[0] != "nl"@[0]);
    assert("he"@.len() != "nld"@.len()) by { reveal_strlit("nld"); }
    assert("he"@.len() != "dutch"@.len()) by { reveal_strlit("dutch"); }
    assert("he"@[0] != "sv"@[0]);
    assert("he"@.len() != "swe"@.len()) by { reveal_strlit("swe"); }
    assert("he"@.len() != "swedish"@.len()) by { reveal_strlit("swedish"); }
    assert("he"@[0] != "pl"@[0]);
    assert("he"@.len() != "pol"@.len()) by { reveal_strlit("pol"); }
    assert("he"@.len() != "polish"@.len()) by { reveal_strlit("polish"); }
    assert("he"@[0] != "tr"@[0]);
    assert("he"@.len() != "tur"@.len()) by { reveal_strlit("tur"); }
    assert("he"@.len() != "turkish"@.len()) by { reveal_strlit("turkish"); }
    assert("he"@[1] != "hi"@[1]);
    assert("he"@.len() != "hin"@.len()) by { reveal_strlit("hin"); }
    assert("he"@.len() != "hindi"@.len()) by { reveal_strlit("hindi"); }
    assert("he"@[0] != "el"@[0]);
    assert("he"@.len() != "gre"@.len()) by { reveal_strlit("gre"); }
    assert("he"@.len() != "greek"@.len()) by { reveal_strlit("greek"); }
    reveal_with_fuel(normalize, 3);
    assert(normalize("he"@) =~= "he"@);
}

proof fn lemma_fixed_cs()
    ensures
        canonical_of("cs"@) == Some("cs"@),
{
    reveal_strlit("ar");
    reveal_strlit("br");
    reveal_strlit("cs");
    reveal_strlit("de");
    reveal_strlit("el");
    reveal_strlit("en");
    reveal_strlit("es");
    reveal_strlit("fr");
    reveal_strlit("he");
    reveal_strlit("hi");
    reveal_strlit("it");
    reveal_strlit("iw");
    reveal_strlit("ja");
    reveal_strlit("jp");
    reveal_strlit("ko");
    reveal_strlit("nl");
    reveal_strlit("pl");
    reveal_strlit("pt");
    reveal_strlit("ru");
    reveal_strlit("sv");
    reveal_strlit("tr");
    reveal_strlit("zh");
    assert("cs"@.len() != "auto"@.len()) by { reveal_strlit("auto"); }
    assert("cs"@.len() != "detect"@.len()) by { reveal_strlit("detect"); }
    assert("cs"@[0] != "en"@[0]);
    assert("cs"@.len() != "eng"@.len()) by { reveal_strlit("eng"); }
    assert("cs"@.len() != "english"@.len()) by { reveal_strlit("english"); }
    assert("cs"@.len() != "ptbr"@.len()) by { reveal_strlit("ptbr"); }
    assert("cs"@[0] != "br"@[0]);
    assert("cs"@[0] != "pt"@[0]);
    assert("cs"@.len() != "ptbra"@.len()) by { reveal_strlit("ptbra"); }
    assert("cs"@.len() != "portugues"@.len()) by { reveal_strlit("portugues"); }
    assert("cs"@.len() != "portuguese"@.len()) by { reveal_strlit("portuguese"); }
    assert("cs"@.len() != "brazilian"@.len()) by { reveal_strlit("brazilian"); }
    assert("cs"@.len() != "ptpt"@.len()) by { reveal_strlit("ptpt"); }
    assert("cs"@.len() != "portugal"@.len()) by { reveal_strlit("portugal"); }
    assert("cs"@[0] != "es"@[0]);
    assert("cs"@.len() != "spa"@.len()) by { reveal_strlit("spa"); }
    assert("cs"@.len() != "spanish"@.len()) by { reveal_strlit("spanish"); }
    assert("cs"@.len() != "espanol"@.len()) by { reveal_strlit("espanol"); }
    assert("cs"@.len() != "castellano"@.len()) by { reveal_strlit("castellano"); }
    assert("cs"@[0] != "fr"@[0]);
    assert("cs"@.len() != "fra"@.len()) by { reveal_strlit("fra"); }
    assert("cs"@.len() != "fre"@.len()) by { reveal_strlit("fre"); }
    assert("cs"@.len() != "french"@.len()) by { reveal_strlit("french"); }
    assert("cs"@.len() != "francais"@.len()) by { reveal_strlit("francais"); }
    assert("cs"@[0] != "de"@[0]);
    assert("cs"@.len() != "deu"@.len()) by { reveal_strlit("deu"); }
    assert("cs"@.len() != "ger"@.len()) by { reveal_strlit("ger"); }
    assert("cs"@.len() != "german"@.len()) by { reveal_strlit("german"); }
    assert("cs"@.len() != "deutsch"@.len()) by { reveal_strlit("deutsch"); }
    assert("cs"@[0] != "it"@[0]);
    assert("cs"@.len() != "ita"@.len()) by { reveal_strlit("ita"); }
    assert("cs"@.len() != "italian"@.len()) by { reveal_strlit("italian"); }
    assert("cs"@.len() != "italiano"@.len()) by { reveal_strlit("italiano"); }
    assert("cs"@[0] != "ja"@[0]);
    assert("cs"@[0] != "jp"@[0]);
    assert("cs"@.len() != "jpn"@.len()) by { reveal_strlit("jpn"); }
    assert("cs"@.len() != "japanese"@.len()) by { reveal_strlit("japanese"); }
    assert("cs"@[0] != "ko"@[0]);
    assert("cs"@.len() != "kor"@.len()) by { reveal_strlit("kor"); }
    assert("cs"@.len() != "korean"@.len()) by { reveal_strlit("korean"); }
    assert("cs"@[0] != "zh"@[0]);
    assert("cs"@.len() != "zhcn"@.len()) by { reveal_strlit("zhcn"); }
    assert("cs"@.len() != "chinese"@.len()) by { reveal_strlit("chinese"); }
    assert("cs"@.len() != "mandarin"@.len()) by { reveal_strlit("mandarin"); }
    assert("cs"@.len() != "simplifiedchinese"@.len()) by { reveal_strlit("simplifiedchinese"); }
    assert("cs"@.len() != "zhtw"@.len()) by { reveal_strlit("zhtw"); }
    assert("cs"@.len() != "traditionalchinese"@.len()) by { reveal_strlit("traditionalchinese"); }
    assert("cs"@[0] != "ru"@[0]);
    assert("cs"@.len() != "rus"@.len()) by { reveal_strlit("rus"); }
    assert("cs"@.len() != "russian"@.len()) by { reveal_strlit("russian"); }
    assert("cs"@[0] != "ar"@[0]);
    assert("cs"@.len() != "ara"@.len()) by { reveal_strlit("ara"); }
    assert("cs"@.len() != "arabic"@.len()) by { reveal_strlit("arabic"); }
    assert("cs"@[0] != "nl"@[0]);
    assert("cs"@.len() != "nld"@.len()) by { reveal_strlit("nld"); }
    assert("cs"@.len() != "dutch"@.len()) by { reveal_strlit("dutch"); }
    assert("cs"@[0] != "sv"@[0]);
    assert("cs"@.len() != "swe"@.len()) by { reveal_strlit("swe"); }
    assert("cs"@.len() != "swedish"@.len()) by { reveal_strlit("swedish"); }
    assert("cs"@[0] != "pl"@[0]);
    assert("cs"@.len() != "pol"@.len()) by { reveal_strlit("pol"); }
    assert("cs"@.len() != "polish"@.len()) by { reveal_strlit("polish"); }
    assert("cs"@[0] != "tr"@[0]);
    assert("cs"@.len() != "tur"@.len()) by { reveal_strlit("tur"); }
    assert("cs"@.len() != "turkish"@.len()) by { reveal_strlit("turkish"); }
    assert("cs"@[0] != "hi"@[0]);
    assert("cs"@.len() != "hin"@.len()) by { reveal_strlit("hin"); }
    assert("cs"@.len() != "hindi"@.len()) by { reveal_strlit("hindi"); }
    assert("cs"@[0] != "el"@[0]);
    assert("cs"@.len() != "gre"@.len()) by { reveal_strlit("gre"); }
    assert("cs"@.len() != "greek"@.len()) by { reveal_strlit("greek"); }
    assert("cs"@[0] != "he"@[0]);
    assert("cs"@.len() != "heb"@.len()) by { reveal_strlit("heb"); }
    assert("cs"@.len() != "hebrew"@.len()) by { reveal_strlit("hebrew"); }
    assert("cs"@[0] != "iw"@[0]);
    reveal_with_fuel(normalize, 3);
    assert(normalize("cs"@) =~= "cs"@);
}

proof fn lemma_fixed_da()
    ensures
        canonical_of("da"@) == Some("da"@),
{
    reveal_strlit("ar");
    reveal_strlit("br");
    reveal_strlit("cs");
    reveal_strlit("da");
    reveal_strlit("de");
    reveal_strlit("el");
    reveal_strlit("en");
    reveal_strlit("es");
    reveal_strlit("fr");
    reveal_strlit("he");
    reveal_strlit("hi");
    reveal_strlit("it");
    reveal_strlit("iw");
    reveal_strlit("ja");
    reveal_strlit("jp");
    reveal_strlit("ko");
    reveal_strlit("nl");
    reveal_strlit("pl");
    reveal_strlit("pt");
    reveal_strlit("ru");
    reveal_strlit("sv");
    reveal_strlit("tr");
    reveal_strlit("zh");
    assert("da"@.len() != "auto"@.len()) by { reveal_strlit("auto"); }
    assert("da"@.len() != "detect"@.len()) by { reveal_strlit("detect"); }
    assert("da"@[0] != "en"@[0]);
    assert("da"@.len() != "eng"@.len()) by { reveal_strlit("eng"); }
    assert("da"@.len() != "english"@.len()) by { reveal_strlit("english"); }
    assert("da"@.len() != "ptbr"@.len()) by { reveal_strlit("ptbr"); }
    assert("da"@[0] != "br"@[0]);
    assert("da"@[0] != "pt"@[0]);
    assert("da"@.len() != "ptbra"@.len()) by { reveal_strlit("ptbra"); }
    assert("da"@.len() != "portugues"@.len()) by { reveal_strlit("portugues"); }
    assert("da"@.len() != "portuguese"@.len()) by { reveal_strlit("portuguese"); }
    assert("da"@.len() != "brazilian"@.len()) by { reveal_strlit("brazilian"); }
    assert("da"@.len() != "ptpt"@.len()) by { reveal_strlit("ptpt"); }
    assert("da"@.len() != "portugal"@.len()) by { reveal_strlit("portugal"); }
    assert("da"@[0] != "es"@[0]);
    assert("da"@.len() != "spa"@.len()) by { reveal_strlit("spa"); }
    assert("da"@.len() != "spanish"@.len()) by { reveal_strlit("spanish"); }
    assert("da"@.len() != "espanol"@.len()) by { reveal_strlit("espanol"); }
    assert("da"@.len() != "castellano"@.len()) by { reveal_strlit("castellano"); }
    assert("da"@[0] != "fr"@[0]);
    assert("da"@.len() != "fra"@.len()) by { reveal_strlit("fra"); }
    assert("da"@.len() != "fre"@.len()) by { reveal_strlit("fre"); }
    assert("da"@.len() != "french"@.len()) by { reveal_strlit("french"); }
    assert("da"@.len() != "francais"@.len()) by { reveal_strlit("francais"); }
    assert("da"@[1] != "de"@[1]);
    assert("da"@.len() != "deu"@.len()) by { reveal_strlit("deu"); }
    assert("da"@.len() != "ger"@.len()) by { reveal_strlit("ger"); }
    assert("da"@.len() != "german"@.len()) by { reveal_strlit("german"); }
    assert("da"@.len() != "deutsch"@.len()) by { reveal_strlit("deutsch"); }
    assert("da"@[0] != "it"@[0]);
    assert("da"@.len() != "ita"@.len()) by { reveal_strlit("ita"); }
    assert("da"@.len() != "italian"@.len()) by { reveal_strlit("italian"); }
    assert("da"@.len() != "italiano"@.len()) by { reveal_strlit("italiano"); }
    assert("da"@[0] != "ja"@[0]);
    assert("da"@[0] != "jp"@[0]);
    assert("da"@.len() != "jpn"@.len()) by { reveal_strlit("jpn"); }
    assert("da"@.len() != "japanese"@.len()) by { reveal_strlit("japanese"); }
    assert("da"@[0] != "ko"@[0]);
    assert("da"@.len() != "kor"@.len()) by { reveal_strlit("kor"); }
    assert("da"@.len() != "korean"@.len()) by { reveal_strlit("korean"); }
    assert("da"@[0] != "zh"@[0]);
    assert("da"@.len() != "zhcn"@.len()) by { reveal_strlit("zhcn"); }
    assert("da"@.len() != "chinese"@.len()) by { reveal_strlit("chinese"); }
    assert("da"@.len() != "mandarin"@.len()) by { reveal_strlit("mandarin"); }
    assert("da"@.len() != "simplifiedchinese"@.len()) by { reveal_strlit("simplifiedchinese"); }
    assert("da"@.len() != "zhtw"@.len()) by { reveal_strlit("zhtw"); }
    assert("da"@.len() != "traditionalchinese"@.len()) by { reveal_strlit("traditionalchinese"); }
    assert("da"@[0] != "ru"@[0]);
    assert("da"@.len() != "rus"@.len()) by { reveal_strlit("rus"); }
    assert("da"@.len() != "russian"@.len()) by { reveal_strlit("russian"); }
    assert("da"@[0] != "ar"@[0]);
    assert("da"@.len() != "ara"@.len()) by { reveal_strlit("ara"); }
    assert("da"@.len() != "arabic"@.len()) by { reveal_strlit("arabic"); }
    assert("da"@[0] != "nl"@[0]);
    assert("da"@.len() != "nld"@.len()) by { reveal_strlit("nld"); }
    assert("da"@.len() != "dutch"@.len()) by { reveal_strlit("dutch"); }
    assert("da"@[0] != "sv"@[0]);
    assert("da"@.len() != "swe"@.len()) by { reveal_strlit("swe"); }
    assert("da"@.len() != "swedish"@.len()) by { reveal_strlit("swedish"); }
    assert("da"@[0] != "pl"@[0]);
    assert("da"@.len() != "pol"@.len()) by { reveal_strlit("pol"); }
    assert("da"@.len() != "polish"@.len()) by { reveal_strlit("polish"); }
    assert("da"@[0] != "tr"@[0]);
    assert("da"@.len() != "tur"@.len()) by { reveal_strlit("tur"); }
    assert("da"@.len() != "turkish"@.len()) by { reveal_strlit("turkish"); }
    assert("da"@[0] != "hi"@[0]);
    assert("da"@.len() != "hin"@.len()) by { reveal_strlit("hin"); }
    assert("da"@.len() != "hindi"@.len()) by { reveal_strlit("hindi"); }
    assert("da"@[0] != "el"@[0]);
    assert("da"@.len() != "gre"@.len()) by { reveal_strlit("gre"); }
    assert("da"@.len() != "greek"@.len()) by { reveal_strlit("greek"); }
    assert("da"@[0] != "he"@[0]);
    assert("da"@.len() != "heb"@.len()) by { reveal_strlit("heb"); }
    assert("da"@.len() != "hebrew"@.len()) by { reveal_strlit("hebrew"); }
    assert("da"@[0] != "iw"@[0]);
    assert("da"@[0] != "cs"@[0]);
    assert("da"@.len() != "cze"@.len()) by { reveal_strlit("cze"); }
    assert("da"@.len() != "czech"@.len()) by { reveal_strlit("czech"); }
    reveal_with_fuel(normalize, 3);
    assert(normalize("da"@) =~= "da"@);
}

proof fn lemma_fixed_fi()
    ensures
        canonical_of("fi"@) == Some("fi"@),
{
    reveal_strlit("ar");
    reveal_strlit("br");
    reveal_strlit("cs");
    reveal_strlit("da");
    reveal_strlit("de");
    reveal_strlit("el");
    reveal_strlit("en");
    reveal_strlit("es");
    reveal_strlit("fi");
    reveal_strlit("fr");
    reveal_strlit("he");
    reveal_strlit("hi");
    reveal_strlit("it");
    reveal_strlit("iw");
    reveal_strlit("ja");
    reveal_strlit("jp");
    reveal_strlit("ko");
    reveal_strlit("nl");
    reveal_strlit("pl");
    reveal_strlit("pt");
    reveal_strlit("ru");
    reveal_strlit("sv");
    reveal_strlit("tr");
    reveal_strlit("zh");
    assert("fi"@.len() != "auto"@.len()) by { reveal_strlit("auto"); }
    assert("fi"@.len() != "detect"@.len()) by { reveal_strlit("detect"); }
    assert("fi"@[0] != "en"@[0]);
    assert("fi"@.len() != "eng"@.len()) by { reveal_strlit("eng"); }
    assert("fi"@.len() != "english"@.len()) by { reveal_strlit("english"); }
    assert("fi"@.len() != "ptbr"@.len()) by { reveal_strlit("ptbr"); }
    assert("fi"@[0] != "br"@[0]);
    assert("fi"@[0] != "pt"@[0]);
    assert("fi"@.len() != "ptbra"@.len()) by { reveal_strlit("ptbra"); }
    assert("fi"@.len() != "portugues"@.len()) by { reveal_strlit("portugues"); }
    assert("fi"@.len() != "portuguese"@.len()) by { reveal_strlit("portuguese"); }
    assert("fi"@.len() != "brazilian"@.len()) by { reveal_strlit("brazilian"); }
    assert("fi"@.len() != "ptpt"@.len()) by { reveal_strlit("ptpt"); }
    assert("fi"@.len() != "portugal"@.len()) by { reveal_strlit("portugal"); }
    assert("fi"@[0] != "es"@[0]);
    assert("fi"@.len() != "spa"@.len()) by { reveal_strlit("spa"); }
    assert("fi"@.len() != "spanish"@.len()) by { reveal_strlit("spanish"); }
    assert("fi"@.len() != "espanol"@.len()) by { reveal_strlit("espanol"); }
    assert("fi"@.len() != "castellano"@.len()) by { reveal_strlit("castellano"); }
    assert("fi"@[1] != "fr"@[1]);
    assert("fi"@.len() != "fra"@.len()) by { reveal_strlit("fra"); }
    assert("fi"@.len() != "fre"@.len()) by { reveal_strlit("fre"); }
    assert("fi"@.len() != "french"@.len()) by { reveal_strlit("french"); }
    assert("fi"@.len() != "francais"@.len()) by { reveal_strlit("francais"); }
    assert("fi"@[0] != "de"@[0]);
    assert("fi"@.len() != "deu"@.len()) by { reveal_strlit("deu"); }
    assert("fi"@.len() != "ger"@.len()) by { reveal_strlit("ger"); }
    assert("fi"@.len() != "german"@.len()) by { reveal_strlit("german"); }
    assert("fi"@.len() != "deutsch"@.len()) by { reveal_strlit("deutsch"); }
    assert("fi"@[0] != "it"@[0]);
    assert("fi"@.len() != "ita"@.len()) by { reveal_strlit("ita"); }
    assert("fi"@.len() != "italian"@.len()) by { reveal_strlit("italian"); }
    assert("fi"@.len() != "italiano"@.len()) by { reveal_strlit("italiano"); }
    assert("fi"@[0] != "ja"@[0]);
    assert("fi"@[0] != "jp"@[0]);
    assert("fi"@.len() != "jpn"@.len()) by { reveal_strlit("jpn"); }
    assert("fi"@.len() != "japanese"@.len()) by { reveal_strlit("japanese"); }
    assert("fi"@[0] != "ko"@[0]);
    assert("fi"@.len() != "kor"@.len()) by { reveal_strlit("kor"); }
    assert("fi"@.len() != "korean"@.len()) by { reveal_strlit("korean"); }
    assert("fi"@[0] != "zh"@[0]);
    assert("fi"@.len() != "zhcn"@.len()) by { reveal_strlit("zhcn"); }
    assert("fi"@.len() != "chinese"@.len()) by { reveal_strlit("chinese"); }
    assert("fi"@.len() != "mandarin"@.len()) by { reveal_strlit("mandarin"); }
    assert("fi"@.len() != "simplifiedchinese"@.len()) by { reveal_strlit("simplifiedchinese"); }
    assert("fi"@.len() != "zhtw"@.len()) by { reveal_strlit("zhtw"); }
    assert("fi"@.len() != "traditionalchinese"@.len()) by { reveal_strlit("traditionalchinese"); }
    assert("fi"@[0] != "ru"@[0]);
    assert("fi"@.len() != "rus"@.len()) by { reveal_strlit("rus"); }
    assert("fi"@.len() != "russian"@.len()) by { reveal_strlit("russian"); }
    assert("fi"@[0] != "ar"@[0]);
    assert("fi"@.len() != "ara"@.len()) by { reveal_strlit("ara"); }
    assert("fi"@.len() != "arabic"@.len()) by { reveal_strlit("arabic"); }
    assert("fi"@[0] != "nl"@[0]);
    assert("fi"@.len() != "nld"@.len()) by { reveal_strlit("nld"); }
    assert("fi"@.len() != "dutch"@.len()) by { reveal_strlit("dutch"); }
    assert("fi"@[0] != "sv"@[0]);
    assert("fi"@.len() != "swe"@.len()) by { reveal_strlit("swe"); }
    assert("fi"@.len() != "swedish"@.len()) by { reveal_strlit("swedish"); }
    assert("fi"@[0] != "pl"@[0]);
    assert("fi"@.len() != "pol"@.len()) by { reveal_strlit("pol"); }
    assert("fi"@.len() != "polish"@.len()) by { reveal_strlit("polish"); }
    assert("fi"@[0] != "tr"@[0]);
    assert("fi"@.len() != "tur"@.len()) by { reveal_strlit("tur"); }
    assert("fi"@.len() != "turkish"@.len()) by { reveal_strlit("turkish"); }
    assert("fi"@[0] != "hi"@[0]);
    assert("fi"@.len() != "hin"@.len()) by { reveal_strlit("hin"); }
    assert("fi"@.len() != "hindi"@.len()) by { reveal_strlit("hindi"); }
    assert("fi"@[0] != "el"@[0]);
    assert("fi"@.len() != "gre"@.len()) by { reveal_strlit("gre"); }
    assert("fi"@.len() != "greek"@.len()) by { reveal_strlit("greek"); }
    assert("fi"@[0] != "he"@[0]);
    assert("fi"@.len() != "heb"@.len()) by { reveal_strlit("heb"); }
    assert("fi"@.len() != "hebrew"@.len()) by { reveal_strlit("hebrew"); }
    assert("fi"@[0] != "iw"@[0]);
    assert("fi"@[0] != "cs"@[0]);
    assert("fi"@.len() != "cze"@.len()) by { reveal_strlit("cze"); }
    assert("fi"@.len() != "czech"@.len()) by { reveal_strlit("czech"); }
    assert("fi"@[0] != "da"@[0]);
    assert("fi"@.len() != "dan"@.len()) by { reveal_strlit("dan"); }
    assert("fi"@.len() != "danish"@.len()) by { reveal_strlit("danish"); }
    reveal_with_fuel(normalize, 3);
    assert(normalize("fi"@) =~= "fi"@);
}

proof fn lemma_fixed_no()
    ensures
        canonical_of("no"@) == Some("no"@),
{
    reveal_strlit("ar");
    reveal_strlit("br");
    reveal_strlit("cs");
    reveal_strlit("da");
    reveal_strlit("de");
    reveal_strlit("el");
    reveal_strlit("en");
    reveal_strlit("es");
    reveal_strlit("fi");
    reveal_strlit("fr");
    reveal_strlit("he");
    reveal_strlit("hi");
    reveal_strlit("it");
    reveal_strlit("iw");
    reveal_strlit("ja");
    reveal_strlit("jp");
    reveal_strlit("ko");
    reveal_strlit("nl");
    reveal_strlit("no");
    reveal_strlit("pl");
    reveal_strlit("pt");
    reveal_strlit("ru");
    reveal_strlit("sv");
    reveal_strlit("tr");
    reveal_strlit("zh");
    assert("no"@.len() != "auto"@.len()) by { reveal_strlit("auto"); }
    assert("no"@.len() != "detect"@.len()) by { reveal_strlit("detect"); }
    assert("no"@[0] != "en"@[0]);
    assert("no"@.len() != "eng"@.len()) by { reveal_strlit("eng"); }
    assert("no"@.len() != "english"@.len()) by { reveal_strlit("english"); }
    assert("no"@.len() != "ptbr"@.len()) by { reveal_strlit("ptbr"); }
    assert("no"@[0] != "br"@[0]);
    assert("no"@[0] != "pt"@[0]);
    assert("no"@.len() != "ptbra"@.len()) by { reveal_strlit("ptbra"); }
    assert("no"@.len() != "portugues"@.len()) by { reveal_strlit("portugues"); }
    assert("no"@.len() != "portuguese"@.len()) by { reveal_strlit("portuguese"); }
    assert("no"@.len() != "brazilian"@.len()) by { reveal_strlit("brazilian"); }
    assert("no"@.len() != "ptpt"@.len()) by { reveal_strlit("ptpt"); }
    assert("no"@.len() != "portugal"@.len()) by { reveal_strlit("portugal"); }
    assert("no"@[0] != "es"@[0]);
    assert("no"@.len() != "spa"@.len()) by { reveal_strlit("spa"); }
    assert("no"@.len() != "spanish"@.len()) by { reveal_strlit("spanish"); }
    assert("no"@.len() != "espanol"@.len()) by { reveal_strlit("espanol"); }
    assert("no"@.len() != "castellano"@.len()) by { reveal_strlit("castellano"); }
    assert("no"@[0] != "fr"@[0]);
    assert("no"@.len() != "fra"@.len()) by { reveal_strlit("fra"); }
    assert("no"@.len() != "fre"@.len()) by { reveal_strlit("fre"); }
    assert("no"@.len() != "french"@.len()) by { reveal_strlit("french"); }
    assert("no"@.len() != "francais"@.len()) by { reveal_strlit("francais"); }
    assert("no"@[0] != "de"@[0]);
    assert("no"@.len() != "deu"@.len()) by { reveal_strlit("deu"); }
    assert("no"@.len() != "ger"@.len()) by { reveal_strlit("ger"); }
    assert("no"@.len() != "german"@.len()) by { reveal_strlit("german"); }
    assert("no"@.len() != "deutsch"@.len()) by { reveal_strlit("deutsch"); }
    assert("no"@[0] != "it"@[0]);
    assert("no"@.len() != "ita"@.len()) by { reveal_strlit("ita"); }
    assert("no"@.len() != "italian"@.len()) by { reveal_strlit("italian"); }
    assert("no"@.len() != "italiano"@.len()) by { reveal_strlit("italiano"); }
    assert("no"@[0] != "ja"@[0]);
    assert("no"@[0] != "jp"@[0]);
    assert("no"@.len() != "jpn"@.len()) by { reveal_strlit("jpn"); }
    assert("no"@.len() != "japanese"@.len()) by { reveal_strlit("japanese"); }
    assert("no"@[0] != "ko"@[0]);
    assert("no"@.len() != "kor"@.len()) by { reveal_strlit("kor"); }
    assert("no"@.len() != "korean"@.len()) by { reveal_strlit("korean"); }
    assert("no"@[0] != "zh"@[0]);
    assert("no"@.len() != "zhcn"@.len()) by { reveal_strlit("zhcn"); }
    assert("no"@.len() != "chinese"@.len()) by { reveal_strlit("chinese"); }
    assert("no"@.len() != "mandarin"@.len()) by { reveal_strlit("mandarin"); }
    assert("no"@.len() != "simplifiedchinese"@.len()) by { reveal_strlit("simplifiedchinese"); }
    assert("no"@.len() != "zhtw"@.len()) by { reveal_strlit("zhtw"); }
    assert("no"@.len() != "traditionalchinese"@.len()) by { reveal_strlit("traditionalchinese"); }
    assert("no"@[0] != "ru"@[0]);
    assert("no"@.len() != "rus"@.len()) by { reveal_strlit("rus"); }
    assert("no"@.len() != "russian"@.len()) by { reveal_strlit("russian"); }
    assert("no"@[0] != "ar"@[0]);
    assert("no"@.len() != "ara"@.len()) by { reveal_strlit("ara"); }
    assert("no"@.len() != "arabic"@.len()) by { reveal_strlit("arabic"); }
    assert("no"@[1] != "nl"@[1]);
    assert("no"@.len() != "nld"@.len()) by { reveal_strlit("nld"); }
    assert("no"@.len() != "dutch"@.len()) by { reveal_strlit("dutch"); }
    assert("no"@[0] != "sv"@[0]);
    assert("no"@.len() != "swe"@.len()) by { reveal_strlit("swe"); }
    assert("no"@.len() != "swedish"@.len()) by { reveal_strlit("swedish"); }
    assert("no"@[0] != "pl"@[0]);
    assert("no"@.len() != "pol"@.len()) by { reveal_strlit("pol"); }
    assert("no"@.len() != "polish"@.len()) by { reveal_strlit("polish"); }
    assert("no"@[0] != "tr"@[0]);
    assert("no"@.len() != "tur"@.len()) by { reveal_strlit("tur"); }
    assert("no"@.len() != "turkish"@.len()) by { reveal_strlit("turkish"); }
    assert("no"@[0] != "hi"@[0]);
    assert("no"@.len() != "hin"@.len()) by { reveal_strlit("hin"); }
    assert("no"@.len() != "hindi"@.len()) by { reveal_strlit("hindi"); }
    assert("no"@[0] != "el"@[0]);
    assert("no"@.len() != "gre"@.len()) by { reveal_strlit("gre"); }
    assert("no"@.len() != "greek"@.len()) by { reveal_strlit("greek"); }
    assert("no"@[0] != "he"@[0]);
    assert("no"@.len() != "heb"@.len()) by { reveal_strlit("heb"); }
    assert("no"@.len() != "hebrew"@.len()) by { reveal_strlit("hebrew"); }
    assert("no"@[0] != "iw"@[0]);
    assert("no"@[0] != "cs"@[0]);
    assert("no"@.len() != "cze"@.len()) by { reveal_strlit("cze"); }
    assert("no"@.len() != "czech"@.len()) by { reveal_strlit("czech"); }
    assert("no"@[0] != "da"@[0]);
    assert("no"@.len() != "dan"@.len()) by { reveal_strlit("dan"); }
    assert("no"@.len() != "danish"@.len()) by { reveal_strlit("danish"); }
    assert("no"@[0] != "fi"@[0]);
    assert("no"@.len() != "fin"@.len()) by { reveal_strlit("fin"); }
    assert("no"@.len() != "finnish"@.len()) by { reveal_strlit("finnish"); }
    reveal_with_fuel(normalize, 3);
    assert(normalize("no"@) =~= "no"@);
}

proof fn lemma_fixed_uk()
    ensures
        canonical_of("uk"@) == Some("uk"@),
{
    reveal_strlit("ar");
    reveal_strlit("br");
    reveal_strlit("cs");
    reveal_strlit("da");
    reveal_strlit("de");
    reveal_strlit("el");
    reveal_strlit("en");
    reveal_strlit("es");
    reveal_strlit("fi");
    reveal_strlit("fr");
    reveal_strlit("he");
    reveal_strlit("hi");
    reveal_strlit("it");
    reveal_strlit("iw");
    reveal_strlit("ja");
    reveal_strlit("jp");
    reveal_strlit("ko");
    reveal_strlit("nl");
    reveal_strlit("no");
    reveal_strlit("pl");
    reveal_strlit("pt");
    reveal_strlit("ru");
    reveal_strlit("sv");
    reveal_strlit("tr");
    reveal_strlit("uk");
    reveal_strlit("zh");
    assert("uk"@.len() != "auto"@.len()) by { reveal_strlit("auto"); }
    assert("uk"@.len() != "detect"@.len()) by { reveal_strlit("detect"); }
    assert("uk"@[0] != "en"@[0]);
    assert("uk"@.len() != "eng"@.len()) by { reveal_strlit("eng"); }
    assert("uk"@.len() != "english"@.len()) by { reveal_strlit("english"); }
    assert("uk"@.len() != "ptbr"@.len()) by { reveal_strlit("ptbr"); }
    assert("uk"@[0] != "br"@[0]);
    assert("uk"@[0] != "pt"@[0]);
    assert("uk"@.len() != "ptbra"@.len()) by { reveal_strlit("ptbra"); }
    assert("uk"@.len() != "portugues"@.len()) by { reveal_strlit("portugues"); }
    assert("uk"@.len() != "portuguese"@.len()) by { reveal_strlit("portuguese"); }
    assert("uk"@.len() != "brazilian"@.len()) by { reveal_strlit("brazilian"); }
    assert("uk"@.len() != "ptpt"@.len()) by { reveal_strlit("ptpt"); }
    assert("uk"@.len() != "portugal"@.len()) by { reveal_strlit("portugal"); }
    assert("uk"@[0] != "es"@[0]);
    assert("uk"@.len() != "spa"@.len()) by { reveal_strlit("spa"); }
    assert("uk"@.len() != "spanish"@.len()) by { reveal_strlit("spanish"); }
    assert("uk"@.len() != "espanol"@.len()) by { reveal_strlit("espanol"); }
    assert("uk"@.len() != "castellano"@.len()) by { reveal_strlit("castellano"); }
    assert("uk"@[0] != "fr"@[0]);
    assert("uk"@.len() != "fra"@.len()) by { reveal_strlit("fra"); }
    assert("uk"@.len() != "fre"@.len()) by { reveal_strlit("fre"); }
    assert("uk"@.len() != "french"@.len()) by { reveal_strlit("french"); }
    assert("uk"@.len() != "francais"@.len()) by { reveal_strlit("francais"); }
    assert("uk"@[0] != "de"@[0]);
    assert("uk"@.len() != "deu"@.len()) by { reveal_strlit("deu"); }
    assert("uk"@.len() != "ger"@.len()) by { reveal_strlit("ger"); }
    assert("uk"@.len() != "german"@.len()) by { reveal_strlit("german"); }
    assert("uk"@.len() != "deutsch"@.len()) by { reveal_strlit("deutsch"); }
    assert("uk"@[0] != "it"@[0]);
    assert("uk"@.len() != "ita"@.len()) by { reveal_strlit("ita"); }
    assert("uk"@.len() != "italian"@.len()) by { reveal_strlit("italian"); }
    assert("uk"@.len() != "italiano"@.len()) by { reveal_strlit("italiano"); }
    assert("uk"@[0] != "ja"@[0]);
    assert("uk"@[0] != "jp"@[0]);
    assert("uk"@.len() != "jpn"@.len()) by { reveal_strlit("jpn"); }
    assert("uk"@.len() != "japanese"@.len()) by { reveal_strlit("japanese"); }
    assert("uk"@[0] != "ko"@[0]);
    assert("uk"@.len() != "kor"@.len()) by { reveal_strlit("kor"); }
    assert("uk"@.len() != "korean"@.len()) by { reveal_strlit("korean"); }
    assert("uk"@[0] != "zh"@[0]);
    assert("uk"@.len() != "zhcn"@.len()) by { reveal_strlit("zhcn"); }
    assert("uk"@.len() != "chinese"@.len()) by { reveal_strlit("chinese"); }
    assert("uk"@.len() != "mandarin"@.len()) by { reveal_strlit("mandarin"); }
    assert("uk"@.len() != "simplifiedchinese"@.len()) by { reveal_strlit("simplifiedchinese"); }
    assert("uk"@.len() != "zhtw"@.len()) by { reveal_strlit("zhtw"); }
    assert("uk"@.len() != "traditionalchinese"@.len()) by { reveal_strlit("traditionalchinese"); }
    assert("uk"@[0] != "ru"@[0]);
    assert("uk"@.len() != "rus"@.len()) by { reveal_strlit("rus"); }
    assert("uk"@.len() != "russian"@.len()) by { reveal_strlit("russian"); }
    assert("uk"@[0] != "ar"@[0]);
    assert("uk"@.len() != "ara"@.len()) by { reveal_strlit("ara"); }
    assert("uk"@.len() != "arabic"@.len()) by { reveal_strlit("arabic"); }
    assert("uk"@[0] != "nl"@[0]);
    assert("uk"@.len() != "nld"@.len()) by { reveal_strlit("nld"); }
    assert("uk"@.len() != "dutch"@.len()) by { reveal_strlit("dutch"); }
    assert("uk"@[0] != "sv"@[0]);
    assert("uk"@.len() != "swe"@.len()) by { reveal_strlit("swe"); }
    assert("uk"@.len() != "swedish"@.len()) by { reveal_strlit("swedish"); }
    assert("uk"@[0] != "pl"@[0]);
    assert("uk"@.len() != "pol"@.len()) by { reveal_strlit("pol"); }
    assert("uk"@.len() != "polish"@.len()) by { reveal_strlit("polish"); }
    assert("uk"@[0] != "tr"@[0]);
    assert("uk"@.len() != "tur"@.len()) by { reveal_strlit("tur"); }
    assert("uk"@.len() != "turkish"@.len()) by { reveal_strlit("turkish"); }
    assert("uk"@[0] != "hi"@[0]);
    assert("uk"@.len() != "hin"@.len()) by { reveal_strlit("hin"); }
    assert("uk"@.len() != "hindi"@.len()) by { reveal_strlit("hindi"); }
    assert("uk"@[0] != "el"@[0]);
    assert("uk"@.len() != "gre"@.len()) by { reveal_strlit("gre"); }
    assert("uk"@.len() != "greek"@.len()) by { reveal_strlit("greek"); }
    assert("uk"@[0] != "he"@[0]);
    assert("uk"@.len() != "heb"@.len()) by { reveal_strlit("heb"); }
    assert("uk"@.len() != "hebrew"@.len()) by { reveal_strlit("hebrew"); }
    assert("uk"@[0] != "iw"@[0]);
    assert("uk"@[0] != "cs"@[0]);
    assert("uk"@.len() != "cze"@.len()) by { reveal_strlit("cze"); }
    assert("uk"@.len() != "czech"@.len()) by { reveal_strlit("czech"); }
    assert("uk"@[0] != "da"@[0]);
    assert("uk"@.len() != "dan"@.len()) by { reveal_strlit("dan"); }
    assert("uk"@.len() != "danish"@.len()) by { reveal_strlit("danish"); }
    assert("uk"@[0] != "fi"@[0]);
    assert("uk"@.len() != "fin"@.len()) by { reveal_strlit("fin"); }
    assert("uk"@.len() != "finnish"@.len()) by { reveal_strlit("finnish"); }
    assert("uk"@[0] != "no"@[0]);
    assert("uk"@.len() != "nor"@.len()) by { reveal_strlit("nor"); }
    assert("uk"@.len() != "norwegian"@.len()) by { reveal_strlit("norwegian"); }
    reveal_with_fuel(normalize, 3);
    assert(normalize("uk"@) =~= "uk"@);
}

proof fn lemma_fixed_vi()
    ensures
        canonical_of("vi"@) == Some("vi"@),
{
    reveal_strlit("ar");
    reveal_strlit("br");
    reveal_strlit("cs");
    reveal_strlit("da");
    reveal_strlit("de");
    reveal_strlit("el");
    reveal_strlit("en");
    reveal_strlit("es");
    reveal_strlit("fi");
    reveal_strlit("fr");
    reveal_strlit("he");
    reveal_strlit("hi");
    reveal_strlit("it");
    reveal_strlit("iw");
    reveal_strlit("ja");
    reveal_strlit("jp");
    reveal_strlit("ko");
    reveal_strlit("nl");
    reveal_strlit("no");
    reveal_strlit("pl");
    reveal_strlit("pt");
    reveal_strlit("ru");
    reveal_strlit("sv");
    reveal_strlit("tr");
    reveal_strlit("uk");
    reveal_strlit("vi");
    reveal_strlit("zh");
    assert("vi"@.len() != "auto"@.len()) by { reveal_strlit("auto"); }
    assert("vi"@.len() != "detect"@.len()) by { reveal_strlit("detect"); }
    assert("vi"@[0] != "en"@[0]);
    assert("vi"@.len() != "eng"@.len()) by { reveal_strlit("eng"); }
    assert("vi"@.len() != "english"@.len()) by { reveal_strlit("english"); }
    assert("vi"@.len() != "ptbr"@.len()) by { reveal_strlit("ptbr"); }
    assert("vi"@[0] != "br"@[0]);
    assert("vi"@[0] != "pt"@[0]);
    assert("vi"@.len() != "ptbra"@.len()) by { reveal_strlit("ptbra"); }
    assert("vi"@.len() != "portugues"@.len()) by { reveal_strlit("portugues"); }
    assert("vi"@.len() != "portuguese"@.len()) by { reveal_strlit("portuguese"); }
    assert("vi"@.len() != "brazilian"@.len()) by { reveal_strlit("brazilian"); }
    assert("vi"@.len() != "ptpt"@.len()) by { reveal_strlit("ptpt"); }
    assert("vi"@.len() != "portugal"@.len()) by { reveal_strlit("portugal"); }
    assert("vi"@[0] != "es"@[0]);
    assert("vi"@.len() != "spa"@.len()) by { reveal_strlit("spa"); }
    assert("vi"@.len() != "spanish"@.len()) by { reveal_strlit("spanish"); }
    assert("vi"@.len() != "espanol"@.len()) by { reveal_strlit("espanol"); }
    assert("vi"@.len() != "castellano"@.len()) by { reveal_strlit("castellano"); }
    assert("vi"@[0] != "fr"@[0]);
    assert("vi"@.len() != "fra"@.len()) by { reveal_strlit("fra"); }
    assert("vi"@.len() != "fre"@.len()) by { reveal_strlit("fre"); }
    assert("vi"@.len() != "french"@.len()) by { reveal_strlit("french"); }
    assert("vi"@.len() != "francais"@.len()) by { reveal_strlit("francais"); }
    assert("vi"@[0] != "de"@[0]);
    assert("vi"@.len() != "deu"@.len()) by { reveal_strlit("deu"); }
    assert("vi"@.len() != "ger"@.len()) by { reveal_strlit("ger"); }
    assert("vi"@.len() != "german"@.len()) by { reveal_strlit("german"); }
    assert("vi"@.len() != "deutsch"@.len()) by { reveal_strlit("deutsch"); }
    assert("vi"@[0] != "it"@[0]);
    assert("vi"@.len() != "ita"@.len()) by { reveal_strlit("ita"); }
    assert("vi"@.len() != "italian"@.len()) by { reveal_strlit("italian"); }
    assert("vi"@.len() != "italiano"@.len()) by { reveal_strlit("italiano"); }
    assert("vi"@[0] != "ja"@[0]);
    assert("vi"@[0] != "jp"@[0]);
    assert("vi"@.len() != "jpn"@.len()) by { reveal_strlit("jpn"); }
    assert("vi"@.len() != "japanese"@.len()) by { reveal_strlit("japanese"); }
    assert("vi"@[0] != "ko"@[0]);
    assert("vi"@.len() != "kor"@.len()) by { reveal_strlit("kor"); }
    assert("vi"@.len() != "korean"@.len()) by { reveal_strlit("korean"); }
    assert("vi"@[0] != "zh"@[0]);
    assert("vi"@.len() != "zhcn"@.len()) by { reveal_strlit("zhcn"); }
    assert("vi"@.len() != "chinese"@.len()) by { reveal_strlit("chinese"); }
    assert("vi"@.len() != "mandarin"@.len()) by { reveal_strlit("mandarin"); }
    assert("vi"@.len() != "simplifiedchinese"@.len()) by { reveal_strlit("simplifiedchinese"); }
    assert("vi"@.len() != "zhtw"@.len()) by { reveal_strlit("zhtw"); }
    assert("vi"@.len() != "traditionalchinese"@.len()) by { reveal_strlit("traditionalchinese"); }
    assert("vi"@[0] != "ru"@[0]);
    assert("vi"@.len() != "rus"@.len()) by { reveal_strlit("rus"); }
    assert("vi"@.len() != "russian"@.len()) by { reveal_strlit("russian"); }
    assert("vi"@[0] != "ar"@[0]);
    assert("vi"@.len() != "ara"@.len()) by { reveal_strlit("ara"); }
    assert("vi"@.len() != "arabic"@.len()) by { reveal_strlit("arabic"); }
    assert("vi"@[0] != "nl"@[0]);
    assert("vi"@.len() != "nld"@.len()) by { reveal_strlit("nld"); }
    assert("vi"@.len() != "dutch"@.len()) by { reveal_strlit("dutch"); }
    assert("vi"@[0] != "sv"@[0]);
    assert("vi"@.len() != "swe"@.len()) by { reveal_strlit("swe"); }
    assert("vi"@.len() != "swedish"@.len()) by { reveal_strlit("swedish"); }
    assert("vi"@[0] != "pl"@[0]);
    assert("vi"@.len() != "pol"@.len()) by { reveal_strlit("pol"); }
    assert("vi"@.len() != "polish"@.len()) by { reveal_strlit("polish"); }
    assert("vi"@[0] != "tr"@[0]);
    assert("vi"@.len() != "tur"@.len()) by { reveal_strlit("tur"); }
    assert("vi"@.len() != "turkish"@.len()) by { reveal_strlit("turkish"); }
    assert("vi"@[0] != "hi"@[0]);
    assert("vi"@.len() != "hin"@.len()) by { reveal_strlit("hin"); }
    assert("vi"@.len() != "hindi"@.len()) by { reveal_strlit("hindi"); }
    assert("vi"@[0] != "el"@[0]);
    assert("vi"@.len() != "gre"@.len()) by { reveal_strlit("gre"); }
    assert("vi"@.len() != "greek"@.len()) by { reveal_strlit("greek"); }
    assert("vi"@[0] != "he"@[0]);
    assert("vi"@.len() != "heb"@.len()) by { reveal_strlit("heb"); }
    assert("vi"@.len() != "hebrew"@.len()) by { reveal_strlit("hebrew"); }
    assert("vi"@[0] != "iw"@[0]);
    assert("vi"@[0] != "cs"@[0]);
    assert("vi"@.len() != "cze"@.len()) by { reveal_strlit("cze"); }
    assert("vi"@.len() != "czech"@.len()) by { reveal_strlit("czech"); }
    assert("vi"@[0] != "da"@[0]);
    assert("vi"@.len() != "dan"@.len()) by { reveal_strlit("dan"); }
    assert("vi"@.len() != "danish"@.len()) by { reveal_strlit("danish"); }
    assert("vi"@[0] != "fi"@[0]);
    assert("vi"@.len() != "fin"@.len()) by { reveal_strlit("fin"); }
    assert("vi"@.len() != "finnish"@.len()) by { reveal_strlit("finnish"); }
    assert("vi"@[0] != "no"@[0]);
    assert("vi"@.len() != "nor"@.len()) by { reveal_strlit("nor"); }
    assert("vi"@.len() != "norwegian"@.len()) by { reveal_strlit("norwegian"); }
    assert("vi"@[0] != "uk"@[0]);
    assert("vi"@.len() != "ukr"@.len()) by { reveal_strlit("ukr"); }
    assert("vi"@.len() != "ukrainian"@.len()) by { reveal_strlit("ukrainian"); }
    reveal_with_fuel(normalize, 3);
    assert(normalize("vi"@) =~= "vi"@);
}

proof fn lemma_fixed_th()
    ensures
        canonical_of("th"@) == Some("th"@),
{
    reveal_strlit("ar");
    reveal_strlit("br");
    reveal_strlit("cs");
    reveal_strlit("da");
    reveal_strlit("de");
    reveal_strlit("el");
    reveal_strlit("en");
    reveal_strlit("es");
    reveal_strlit("fi");
    reveal_strlit("fr");
    reveal_strlit("he");
    reveal_strlit("hi");
    reveal_strlit("it");
    reveal_strlit("iw");
    reveal_strlit("ja");
    reveal_strlit("jp");
    reveal_strlit("ko");
    reveal_strlit("nl");
    reveal_strlit("no");
    reveal_strlit("pl");
    reveal_strlit("pt");
    reveal_strlit("ru");
    reveal_strlit("sv");
    reveal_strlit("th");
    reveal_strlit("tr");
    reveal_strlit("uk");
    reveal_strlit("vi");
    reveal_strlit("zh");
    assert("th"@.len() != "auto"@.len()) by { reveal_strlit("auto"); }
    assert("th"@.len() != "detect"@.len()) by { reveal_strlit("detect"); }
    assert("th"@[0] != "en"@[0]);
    assert("th"@.len() != "eng"@.len()) by { reveal_strlit("eng"); }
    assert("th"@.len() != "english"@.len()) by { reveal_strlit("english"); }
    assert("th"@.len() != "ptbr"@.len()) by { reveal_strlit("ptbr"); }
    assert("th"@[0] != "br"@[0]);
    assert("th"@[0] != "pt"@[0]);
    assert("th"@.len() != "ptbra"@.len()) by { reveal_strlit("ptbra"); }
    assert("th"@.len() != "portugues"@.len()) by { reveal_strlit("portugues"); }
    assert("th"@.len() != "portuguese"@.len()) by { reveal_strlit("portuguese"); }
    assert("th"@.len() != "brazilian"@.len()) by { reveal_strlit("brazilian"); }
    assert("th"@.len() != "ptpt"@.len()) by { reveal_strlit("ptpt"); }
    assert("th"@.len() != "portugal"@.len()) by { reveal_strlit("portugal"); }
    assert("th"@[0] != "es"@[0]);
    assert("th"@.len() != "spa"@.len()) by { reveal_strlit("spa"); }
    assert("th"@.len() != "spanish"@.len()) by { reveal_strlit("spanish"); }
    assert("th"@.len() != "espanol"@.len()) by { reveal_strlit("espanol"); }
    assert("th"@.len() != "castellano"@.len()) by { reveal_strlit("castellano"); }
    assert("th"@[0] != "fr"@[0]);
    assert("th"@.len() != "fra"@.len()) by { reveal_strlit("fra"); }
    assert("th"@.len() != "fre"@.len()) by { reveal_strlit("fre"); }
    assert("th"@.len() != "french"@.len()) by { reveal_strlit("french"); }
    assert("th"@.len() != "francais"@.len()) by { reveal_strlit("francais"); }
    assert("th"@[0] != "de"@[0]);
    assert("th"@.len() != "deu"@.len()) by { reveal_strlit("deu"); }
    assert("th"@.len() != "ger"@.len()) by { reveal_strlit("ger"); }
    assert("th"@.len() != "german"@.len()) by { reveal_strlit("german"); }
    assert("th"@.len() != "deutsch"@.len()) by { reveal_strlit("deutsch"); }
    assert("th"@[0] != "it"@[0]);
    assert("th"@.len() != "ita"@.len()) by { reveal_strlit("ita"); }
    assert("th"@.len() != "italian"@.len()) by { reveal_strlit("italian"); }
    assert("th"@.len() != "italiano"@.len()) by { reveal_strlit("italiano"); }
    assert("th"@[0] != "ja"@[0]);
    assert("th"@[0] != "jp"@[0]);
    assert("th"@.len() != "jpn"@.len()) by { reveal_strlit("jpn"); }
    assert("th"@.len() != "japanese"@.len()) by { reveal_strlit("japanese"); }
    assert("th"@[0] != "ko"@[0]);
    assert("th"@.len() != "kor"@.len()) by { reveal_strlit("kor"); }
    assert("th"@.len() != "korean"@.len()) by { reveal_strlit("korean"); }
    assert("th"@[0] != "zh"@[0]);
    assert("th"@.len() != "zhcn"@.len()) by { reveal_strlit("zhcn"); }
    assert("th"@.len() != "chinese"@.len()) by { reveal_strlit("chinese"); }
    assert("th"@.len() != "mandarin"@.len()) by { reveal_strlit("mandarin"); }
    assert("th"@.len() != "simplifiedchinese"@.len()) by { reveal_strlit("simplifiedchinese"); }
    assert("th"@.len() != "zhtw"@.len()) by { reveal_strlit("zhtw"); }
    assert("th"@.len() != "traditionalchinese"@.len()) by { reveal_strlit("traditionalchinese"); }
    assert("th"@[0] != "ru"@[0]);
    assert("th"@.len() != "rus"@.len()) by { reveal_strlit("rus"); }
    assert("th"@.len() != "russian"@.len()) by { reveal_strlit("russian"); }
    assert("th"@[0] != "ar"@[0]);
    assert("th"@.len() != "ara"@.len()) by { reveal_strlit("ara"); }
    assert("th"@.len() != "arabic"@.len()) by { reveal_strlit("arabic"); }
    assert("th"@[0] != "nl"@[0]);
    assert("th"@.len() != "nld"@.len()) by { reveal_strlit("nld"); }
    assert("th"@.len() != "dutch"@.len()) by { reveal_strlit("dutch"); }
    assert("th"@[0] != "sv"@[0]);
    assert("th"@.len() != "swe"@.len()) by { reveal_strlit("swe"); }
    assert("th"@.len() != "swedish"@.len()) by { reveal_strlit("swedish"); }
    assert("th"@[0] != "pl"@[0]);
    assert("th"@.len() != "pol"@.len()) by { reveal_strlit("pol"); }
    assert("th"@.len() != "polish"@.len()) by { reveal_strlit("polish"); }
    assert("th"@[1] != "tr"@[1]);
    assert("th"@.len() != "tur"@.len()) by { reveal_strlit("tur"); }
    assert("th"@.len() != "turkish"@.len()) by { reveal_strlit("turkish"); }
    assert("th"@[0] != "hi"@[0]);
    assert("th"@.len() != "hin"@.len()) by { reveal_strlit("hin"); }
    assert("th"@.len() != "hindi"@.len()) by { reveal_strlit("hindi"); }
    assert("th"@[0] != "el"@[0]);
    assert("th"@.len() != "gre"@.len()) by { reveal_strlit("gre"); }
    assert("th"@.len() != "greek"@.len()) by { reveal_strlit("greek"); }
    assert("th"@[0] != "he"@[0]);
    assert("th"@.len() != "heb"@.len()) by { reveal_strlit("heb"); }
    assert("th"@.len() != "hebrew"@.len()) by { reveal_strlit("hebrew"); }
    assert("th"@[0] != "iw"@[0]);
    assert("th"@[0] != "cs"@[0]);
    assert("th"@.len() != "cze"@.len()) by { reveal_strlit("cze"); }
    assert("th"@.len() != "czech"@.len()) by { reveal_strlit("czech"); }
    assert("th"@[0] != "da"@[0]);
    assert("th"@.len() != "dan"@.len()) by { reveal_strlit("dan"); }
    assert("th"@.len() != "danish"@.len()) by { reveal_strlit("danish"); }
    assert("th"@[0] != "fi"@[0]);
    assert("th"@.len() != "fin"@.len()) by { reveal_strlit("fin"); }
    assert("th"@.len() != "finnish"@.len()) by { reveal_strlit("finnish"); }
    assert("th"@[0] != "no"@[0]);
    assert("th"@.len() != "nor"@.len()) by { reveal_strlit("nor"); }
    assert("th"@.len() != "norwegian"@.len()) by { reveal_strlit("norwegian"); }
    assert("th"@[0] != "uk"@[0]);
    assert("th"@.len() != "ukr"@.len()) by { reveal_strlit("ukr"); }
    assert("th"@.len() != "ukrainian"@.len()) by { reveal_strlit("ukrainian"); }
    assert("th"@[0] != "vi"@[0]);
    assert("th"@.len() != "vie"@.len()) by { reveal_strlit("vie"); }
    assert("th"@.len() != "vietnamese"@.len()) by { reveal_strlit("vietnamese"); }
    reveal_with_fuel(normalize, 3);
    assert(normalize("th"@) =~= "th"@);
}

proof fn lemma_fixed_id()
    ensures
        canonical_of("id"@) == Some("id"@),
{
    reveal_strlit("ar");
    reveal_strlit("br");
    reveal_strlit("cs");
    reveal_strlit("da");
    reveal_strlit("de");
    reveal_strlit("el");
    reveal_strlit("en");
    reveal_strlit("es");
    reveal_strlit("fi");
    reveal_strlit("fr");
    reveal_strlit("he");
    reveal_strlit("hi");
    reveal_strlit("id");
    reveal_strlit("it");
    reveal_strlit("iw");
    reveal_strlit("ja");
    reveal_strlit("jp");
    reveal_strlit("ko");
    reveal_strlit("nl");
    reveal_strlit("no");
    reveal_strlit("pl");
    reveal_strlit("pt");
    reveal_strlit("ru");
    reveal_strlit("sv");
    reveal_strlit("th");
    reveal_strlit("tr");
    reveal_strlit("uk");
    reveal_strlit("vi");
    reveal_strlit("zh");
    assert("id"@.len() != "auto"@.len()) by { reveal_strlit("auto"); }
    assert("id"@.len() != "detect"@.len()) by { reveal_strlit("detect"); }
    assert("id"@[0] != "en"@[0]);
    assert("id"@.len() != "eng"@.len()) by { reveal_strlit("eng"); }
    assert("id"@.len() != "english"@.len()) by { reveal_strlit("english"); }
    assert("id"@.len() != "ptbr"@.len()) by { reveal_strlit("ptbr"); }
    assert("id"@[0] != "br"@[0]);
    assert("id"@[0] != "pt"@[0]);
    assert("id"@.len() != "ptbra"@.len()) by { reveal_strlit("ptbra"); }
    assert("id"@.len() != "portugues"@.len()) by { reveal_strlit("portugues"); }
    assert("id"@.len() != "portuguese"@.len()) by { reveal_strlit("portuguese"); }
    assert("id"@.len() != "brazilian"@.len()) by { reveal_strlit("brazilian"); }
    assert("id"@.len() != "ptpt"@.len()) by { reveal_strlit("ptpt"); }
    assert("id"@.len() != "portugal"@.len()) by { reveal_strlit("portugal"); }
    assert("id"@[0] != "es"@[0]);
    assert("id"@.len() != "spa"@.len()) by { reveal_strlit("spa"); }
    assert("id"@.len() != "spanish"@.len()) by { reveal_strlit("spanish"); }
    assert("id"@.len() != "espanol"@.len()) by { reveal_strlit("espanol"); }
    assert("id"@.len() != "castellano"@.len()) by { reveal_strlit("castellano"); }
    assert("id"@[0] != "fr"@[0]);
    assert("id"@.len() != "fra"@.len()) by { reveal_strlit("fra"); }
    assert("id"@.len() != "fre"@.len()) by { reveal_strlit("fre"); }
    assert("id"@.len() != "french"@.len()) by { reveal_strlit("french"); }
    assert("id"@.len() != "francais"@.len()) by { reveal_strlit("francais"); }
    assert("id"@[0] != "de"@[0]);
    assert("id"@.len() != "deu"@.len()) by { reveal_strlit("deu"); }
    assert("id"@.len() != "ger"@.len()) by { reveal_strlit("ger"); }
    assert("id"@.len() != "german"@.len()) by { reveal_strlit("german"); }
    assert("id"@.len() != "deutsch"@.len()) by { reveal_strlit("deutsch"); }
    assert("id"@[1] != "it"@[1]);
    assert("id"@.len() != "ita"@.len()) by { reveal_strlit("ita"); }
    assert("id"@.len() != "italian"@.len()) by { reveal_strlit("italian"); }
    assert("id"@.len() != "italiano"@.len()) by { reveal_strlit("italiano"); }
    assert("id"@[0] != "ja"@[0]);
    assert("id"@[0] != "jp"@[0]);
    assert("id"@.len() != "jpn"@.len()) by { reveal_strlit("jpn"); }
    assert("id"@.len() != "japanese"@.len()) by { reveal_strlit("japanese"); }
    assert("id"@[0] != "ko"@[0]);
    assert("id"@.len() != "kor"@.len()) by { reveal_strlit("kor"); }
    assert("id"@.len() != "korean"@.len()) by { reveal_strlit("korean"); }
    assert("id"@[0] != "zh"@[0]);
    assert("id"@.len() != "zhcn"@.len()) by { reveal_strlit("zhcn"); }
    assert("id"@.len() != "chinese"@.len()) by { reveal_strlit("chinese"); }
    assert("id"@.len() != "mandarin"@.len()) by { reveal_strlit("mandarin"); }
    assert("id"@.len() != "simplifiedchinese"@.len()) by { reveal_strlit("simplifiedchinese"); }
    assert("id"@.len() != "zhtw"@.len()) by { reveal_strlit("zhtw"); }
    assert("id"@.len() != "traditionalchinese"@.len()) by { reveal_strlit("traditionalchinese"); }
    assert("id"@[0] != "ru"@[0]);
    assert("id"@.len() != "rus"@.len()) by { reveal_strlit("rus"); }
    assert("id"@.len() != "russian"@.len()) by { reveal_strlit("russian"); }
    assert("id"@[0] != "ar"@[0]);
    assert("id"@.len() != "ara"@.len()) by { reveal_strlit("ara"); }
    assert("id"@.len() != "arabic"@.len()) by { reveal_strlit("arabic"); }
    assert("id"@[0] != "nl"@[0]);
    assert("id"@.len() != "nld"@.len()) by { reveal_strlit("nld"); }
    assert("id"@.len() != "dutch"@.len()) by { reveal_strlit("dutch"); }
    assert("id"@[0] != "sv"@[0]);
    assert("id"@.len() != "swe"@.len()) by { reveal_strlit("swe"); }
    assert("id"@.len() != "swedish"@.len()) by { reveal_strlit("swedish"); }
    assert("id"@[0] != "pl"@[0]);
    assert("id"@.len() != "pol"@.len()) by { reveal_strlit("pol"); }
    assert("id"@.len() != "polish"@.len()) by { reveal_strlit("polish"); }
    assert("id"@[0] != "tr"@[0]);
    assert("id"@.len() != "tur"@.len()) by { reveal_strlit("tur"); }
    assert("id"@.len() != "turkish"@.len()) by { reveal_strlit("turkish"); }
    assert("id"@[0] != "hi"@[0]);
    assert("id"@.len() != "hin"@.len()) by { reveal_strlit("hin"); }
    assert("id"@.len() != "hindi"@.len()) by { reveal_strlit("hindi"); }
    assert("id"@[0] != "el"@[0]);
    assert("id"@.len() != "gre"@.len()) by { reveal_strlit("gre"); }
    assert("id"@.len() != "greek"@.len()) by { reveal_strlit("greek"); }
    assert("id"@[0] != "he"@[0]);
    assert("id"@.len() != "heb"@.len()) by { reveal_strlit("heb"); }
    assert("id"@.len() != "hebrew"@.len()) by { reveal_strlit("hebrew"); }
    assert("id"@[1] != "iw"@[1]);
    assert("id"@[0] != "cs"@[0]);
    assert("id"@.len() != "cze"@.len()) by { reveal_strlit("cze"); }
    assert("id"@.len() != "czech"@.len()) by { reveal_strlit("czech"); }
    assert("id"@[0] != "da"@[0]);
    assert("id"@.len() != "dan"@.len()) by { reveal_strlit("dan"); }
    assert("id"@.len() != "danish"@.len()) by { reveal_strlit("danish"); }
    assert("id"@[0] != "fi"@[0]);
    assert("id"@.len() != "fin"@.len()) by { reveal_strlit("fin"); }
    assert("id"@.len() != "finnish"@.len()) by { reveal_strlit("finnish"); }
    assert("id"@[0] != "no"@[0]);
    assert("id"@.len() != "nor"@.len()) by { reveal_strlit("nor"); }
    assert("id"@.len() != "norwegian"@.len()) by { reveal_strlit("norwegian"); }
    assert("id"@[0] != "uk"@[0]);
    assert("id"@.len() != "ukr"@.len()) by { reveal_strlit("ukr"); }
    assert("id"@.len() != "ukrainian"@.len()) by { reveal_strlit("ukrainian"); }
    assert("id"@[0] != "vi"@[0]);
    assert("id"@.len() != "vie"@.len()) by { reveal_strlit("vie"); }
    assert("id"@.len() != "vietnamese"@.len()) by { reveal_strlit("vietnamese"); }
    assert("id"@[0] != "th"@[0]);
    assert("id"@.len() != "tha"@.len()) by { reveal_strlit("tha"); }
    assert("id"@.len() != "thai"@.len()) by { reveal_strlit("thai"); }
    reveal_with_fuel(normalize, 3);
    assert(normalize("id"@) =~= "id"@);
}

proof fn lemma_fixed_ro()
    ensures
        canonical_of("ro"@) == Some("ro"@),
{
    reveal_strlit("ar");
    reveal_strlit("br");
    reveal_strlit("cs");
    reveal_strlit("da");
    reveal_strlit("de");
    reveal_strlit("el");
    reveal_strlit("en");
    reveal_strlit("es");
    reveal_strlit("fi");
    reveal_strlit("fr");
    reveal_strlit("he");
    reveal_strlit("hi");
    reveal_strlit("id");
    reveal_strlit("it");
    reveal_strlit("iw");
    reveal_strlit("ja");
    reveal_strlit("jp");
    reveal_strlit("ko");
    reveal_strlit("nl");
    reveal_strlit("no");
    reveal_strlit("pl");
    reveal_strlit("pt");
    reveal_strlit("ro");
    reveal_strlit("ru");
    reveal_strlit("sv");
    reveal_strlit("th");
    reveal_strlit("tr");
    reveal_strlit("uk");
    reveal_strlit("vi");
    reveal_strlit("zh");
    assert("ro"@.len() != "auto"@.len()) by { reveal_strlit("auto"); }
    assert("ro"@.len() != "detect"@.len()) by { reveal_strlit("detect"); }
    assert("ro"@[0] != "en"@[0]);
    assert("ro"@.len() != "eng"@.len()) by { reveal_strlit("eng"); }
    assert("ro"@.len() != "english"@.len()) by { reveal_strlit("english"); }
    assert("ro"@.len() != "ptbr"@.len()) by { reveal_strlit("ptbr"); }
    assert("ro"@[0] != "br"@[0]);
    assert("ro"@[0] != "pt"@[0]);
    assert("ro"@.len() != "ptbra"@.len()) by { reveal_strlit("ptbra"); }
    assert("ro"@.len() != "portugues"@.len()) by { reveal_strlit("portugues"); }
    assert("ro"@.len() != "portuguese"@.len()) by { reveal_strlit("portuguese"); }
    assert("ro"@.len() != "brazilian"@.len()) by { reveal_strlit("brazilian"); }
    assert("ro"@.len() != "ptpt"@.len()) by { reveal_strlit("ptpt"); }
    assert("ro"@.len() != "portugal"@.len()) by { reveal_strlit("portugal"); }
    assert("ro"@[0] != "es"@[0]);
    assert("ro"@.len() != "spa"@.len()) by { reveal_strlit("spa"); }
    assert("ro"@.len() != "spanish"@.len()) by { reveal_strlit("spanish"); }
    assert("ro"@.len() != "espanol"@.len()) by { reveal_strlit("espanol"); }
    assert("ro"@.len() != "castellano"@.len()) by { reveal_strlit("castellano"); }
    assert("ro"@[0] != "fr"@[0]);
    assert("ro"@.len() != "fra"@.len()) by { reveal_strlit("fra"); }
    assert("ro"@.len() != "fre"@.len()) by { reveal_strlit("fre"); }
    assert("ro"@.len() != "french"@.len()) by { reveal_strlit("french"); }
    assert("ro"@.len() != "francais"@.len()) by { reveal_strlit("francais"); }
    assert("ro"@[0] != "de"@[0]);
    assert("ro"@.len() != "deu"@.len()) by { reveal_strlit("deu"); }
    assert("ro"@.len() != "ger"@.len()) by { reveal_strlit("ger"); }
    assert("ro"@.len() != "german"@.len()) by { reveal_strlit("german"); }
    assert("ro"@.len() != "deutsch"@.len()) by { reveal_strlit("deutsch"); }
    assert("ro"@[0] != "it"@[0]);
    assert("ro"@.len() != "ita"@.len()) by { reveal_strlit("ita"); }
    assert("ro"@.len() != "italian"@.len()) by { reveal_strlit("italian"); }
    assert("ro"@.len() != "italiano"@.len()) by { reveal_strlit("italiano"); }
    assert("ro"@[0] != "ja"@[0]);
    assert("ro"@[0] != "jp"@[0]);
    assert("ro"@.len() != "jpn"@.len()) by { reveal_strlit("jpn"); }
    assert("ro"@.len() != "japanese"@.len()) by { reveal_strlit("japanese"); }
    assert("ro"@[0] != "ko"@[0]);
    assert("ro"@.len() != "kor"@.len()) by { reveal_strlit("kor"); }
    assert("ro"@.len() != "korean"@.len()) by { reveal_strlit("korean"); }
    assert("ro"@[0] != "zh"@[0]);
    assert("ro"@.len() != "zhcn"@.len()) by { reveal_strlit("zhcn"); }
    assert("ro"@.len() != "chinese"@.len()) by { reveal_strlit("chinese"); }
    assert("ro"@.len() != "mandarin"@.len()) by { reveal_strlit("mandarin"); }
    assert("ro"@.len() != "simplifiedchinese"@.len()) by { reveal_strlit("simplifiedchinese"); }
    assert("ro"@.len() != "zhtw"@.len()) by { reveal_strlit("zhtw"); }
    assert("ro"@.len() != "traditionalchinese"@.len()) by { reveal_strlit("traditionalchinese"); }
    assert("ro"@[1] != "ru"@[1]);
    assert("ro"@.len() != "rus"@.len()) by { reveal_strlit("rus"); }
    assert("ro"@.len() != "russian"@.len()) by { reveal_strlit("russian"); }
    assert("ro"@[0] != "ar"@[0]);
    assert("ro"@.len() != "ara"@.len()) by { reveal_strlit("ara"); }
    assert("ro"@.len() != "arabic"@.len()) by { reveal_strlit("arabic"); }
    assert("ro"@[0] != "nl"@[0]);
    assert("ro"@.len() != "nld"@.len()) by { reveal_strlit("nld"); }
    assert("ro"@.len() != "dutch"@.len()) by { reveal_strlit("dutch"); }
    assert("ro"@[0] != "sv"@[0]);
    assert("ro"@.len() != "swe"@.len()) by { reveal_strlit("swe"); }
    assert("ro"@.len() != "swedish"@.len()) by { reveal_strlit("swedish"); }
    assert("ro"@[0] != "pl"@[0]);
    assert("ro"@.len() != "pol"@.len()) by { reveal_strlit("pol"); }
    assert("ro"@.len() != "polish"@.len()) by { reveal_strlit("polish"); }
    assert("ro"@[0] != "tr"@[0]);
    assert("ro"@.len() != "tur"@.len()) by { reveal_strlit("tur"); }
    assert("ro"@.len() != "turkish"@.len()) by { reveal_strlit("turkish"); }
    assert("ro"@[0] != "hi"@[0]);
    assert("ro"@.len() != "hin"@.len()) by { reveal_strlit("hin"); }
    assert("ro"@.len() != "hindi"@.len()) by { reveal_strlit("hindi"); }
    assert("ro"@[0] != "el"@[0]);
    assert("ro"@.len() != "gre"@.len()) by { reveal_strlit("gre"); }
    assert("ro"@.len() != "greek"@.len()) by { reveal_strlit("greek"); }
    assert("ro"@[0] != "he"@[0]);
    assert("ro"@.len() != "heb"@.len()) by { reveal_strlit("heb"); }
    assert("ro"@.len() != "hebrew"@.len()) by { reveal_strlit("hebrew"); }
    assert("ro"@[0] != "iw"@[0]);
    assert("ro"@[0] != "cs"@[0]);
    assert("ro"@.len() != "cze"@.len()) by { reveal_strlit("cze"); }
    assert("ro"@.len() != "czech"@.len()) by { reveal_strlit("czech"); }
    assert("ro"@[0] != "da"@[0]);
    assert("ro"@.len() != "dan"@.len()) by { reveal_strlit("dan"); }
    assert("ro"@.len() != "danish"@.len()) by { reveal_strlit("danish"); }
    assert("ro"@[0] != "fi"@[0]);
    assert("ro"@.len() != "fin"@.len()) by { reveal_strlit("fin"); }
    assert("ro"@.len() != "finnish"@.len()) by { reveal_strlit("finnish"); }
    assert("ro"@[0] != "no"@[0]);
    assert("ro"@.len() != "nor"@.len()) by { reveal_strlit("nor"); }
    assert("ro"@.len() != "norwegian"@.len()) by { reveal_strlit("norwegian"); }
    assert("ro"@[0] != "uk"@[0]);
    assert("ro"@.len() != "ukr"@.len()) by { reveal_strlit("ukr"); }
    assert("ro"@.len() != "ukrainian"@.len()) by { reveal_strlit("ukrainian"); }
    assert("ro"@[0] != "vi"@[0]);
    assert("ro"@.len() != "vie"@.len()) by { reveal_strlit("vie"); }
    assert("ro"@.len() != "vietnamese"@.len()) by { reveal_strlit("vietnamese"); }
    assert("ro"@[0] != "th"@[0]);
    assert("ro"@.len() != "tha"@.len()) by { reveal_strlit("tha"); }
    assert("ro"@.len() != "thai"@.len()) by { reveal_strlit("thai"); }
    assert("ro"@[0] != "id"@[0]);
    assert("ro"@.len() != "ind"@.len()) by { reveal_strlit("ind"); }
    assert("ro"@.len() != "indonesian"@.len()) by { reveal_strlit("indonesian"); }
    reveal_with_fuel(normalize, 3);
    assert(normalize("ro"@) =~= "ro"@);
}

proof fn lemma_fixed_hu()
    ensures
        canonical_of("hu"@) == Some("hu"@),
{
    reveal_strlit("ar");
    reveal_strlit("br");
    reveal_strlit("cs");
    reveal_strlit("da");
    reveal_strlit("de");
    reveal_strlit("el");
    reveal_strlit("en");
    reveal_strlit("es");
    reveal_strlit("fi");
    reveal_strlit("fr");
    reveal_strlit("he");
    reveal_strlit("hi");
    reveal_strlit("hu");
    reveal_strlit("id");
    reveal_strlit("it");
    reveal_strlit("iw");
    reveal_strlit("ja");
    reveal_strlit("jp");
    reveal_strlit("ko");
    reveal_strlit("nl");
    reveal_strlit("no");
    reveal_strlit("pl");
    reveal_strlit("pt");
    reveal_strlit("ro");
    reveal_strlit("ru");
    reveal_strlit("sv");
    reveal_strlit("th");
    reveal_strlit("tr");
    reveal_strlit("uk");
    reveal_strlit("vi");
    reveal_strlit("zh");
    assert("hu"@.len() != "auto"@.len()) by { reveal_strlit("auto"); }
    assert("hu"@.len() != "detect"@.len()) by { reveal_strlit("detect"); }
    assert("hu"@[0] != "en"@[0]);
    assert("hu"@.len() != "eng"@.len()) by { reveal_strlit("eng"); }
    assert("hu"@.len() != "english"@.len()) by { reveal_strlit("english"); }
    assert("hu"@.len() != "ptbr"@.len()) by { reveal_strlit("ptbr"); }
    assert("hu"@[0] != "br"@[0]);
    assert("hu"@[0] != "pt"@[0]);
    assert("hu"@.len() != "ptbra"@.len()) by { reveal_strlit("ptbra"); }
    assert("hu"@.len() != "portugues"@.len()) by { reveal_strlit("portugues"); }
    assert("hu"@.len() != "portuguese"@.len()) by { reveal_strlit("portuguese"); }
    assert("hu"@.len() != "brazilian"@.len()) by { reveal_strlit("brazilian"); }
    assert("hu"@.len() != "ptpt"@.len()) by { reveal_strlit("ptpt"); }
    assert("hu"@.len() != "portugal"@.len()) by { reveal_strlit("portugal"); }
    assert("hu"@[0] != "es"@[0]);
    assert("hu"@.len() != "spa"@.len()) by { reveal_strlit("spa"); }
    assert("hu"@.len() != "spanish"@.len()) by { reveal_strlit("spanish"); }
    assert("hu"@.len() != "espanol"@.len()) by { reveal_strlit("espanol"); }
    assert("hu"@.len() != "castellano"@.len()) by { reveal_strlit("castellano"); }
    assert("hu"@[0] != "fr"@[0]);
    assert("hu"@.len() != "fra"@.len()) by { reveal_strlit("fra"); }
    assert("hu"@.len() != "fre"@.len()) by { reveal_strlit("fre"); }
    assert("hu"@.len() != "french"@.len()) by { reveal_strlit("french"); }
    assert("hu"@.len() != "francais"@.len()) by { reveal_strlit("francais"); }
    assert("hu"@[0] != "de"@[0]);
    assert("hu"@.len() != "deu"@.len()) by { reveal_strlit("deu"); }
    assert("hu"@.len() != "ger"@.len()) by { reveal_strlit("ger"); }
    assert("hu"@.len() != "german"@.len()) by { reveal_strlit("german"); }
    assert("hu"@.len() != "deutsch"@.len()) by { reveal_strlit("deutsch"); }
    assert("hu"@[0] != "it"@[0]);
    assert("hu"@.len() != "ita"@.len()) by { reveal_strlit("ita"); }
    assert("hu"@.len() != "italian"@.len()) by { reveal_strlit("italian"); }
    assert("hu"@.len() != "italiano"@.len()) by { reveal_strlit("italiano"); }
    assert("hu"@[0] != "ja"@[0]);
    assert("hu"@[0] != "jp"@[0]);
    assert("hu"@.len() != "jpn"@.len()) by { reveal_strlit("jpn"); }
    assert("hu"@.len() != "japanese"@.len()) by { reveal_strlit("japanese"); }
    assert("hu"@[0] != "ko"@[0]);
    assert("hu"@.len() != "kor"@.len()) by { reveal_strlit("kor"); }
    assert("hu"@.len() != "korean"@.len()) by { reveal_strlit("korean"); }
    assert("hu"@[0] != "zh"@[0]);
    assert("hu"@.len() != "zhcn"@.len()) by { reveal_strlit("zhcn"); }
    assert("hu"@.len() != "chinese"@.len()) by { reveal_strlit("chinese"); }
    assert("hu"@.len() != "mandarin"@.len()) by { reveal_strlit("mandarin"); }
    assert("hu"@.len() != "simplifiedchinese"@.len()) by { reveal_strlit("simplifiedchinese"); }
    assert("hu"@.len() != "zhtw"@.len()) by { reveal_strlit("zhtw"); }
    assert("hu"@.len() != "traditionalchinese"@.len()) by { reveal_strlit("traditionalchinese"); }
    assert("hu"@[0] != "ru"@[0]);
    assert("hu"@.len() != "rus"@.len()) by { reveal_strlit("rus"); }
    assert("hu"@.len() != "russian"@.len()) by { reveal_strlit("russian"); }
    assert("hu"@[0] != "ar"@[0]);
    assert("hu"@.len() != "ara"@.len()) by { reveal_strlit("ara"); }
    assert("hu"@.len() != "arabic"@.len()) by { reveal_strlit("arabic"); }
    assert("hu"@[0] != "nl"@[0]);
    assert("hu"@.len() != "nld"@.len()) by { reveal_strlit("nld"); }
    assert("hu"@.len() != "dutch"@.len()) by { reveal_strlit("dutch"); }
    assert("hu"@[0] != "sv"@[0]);
    assert("hu"@.len() != "swe"@.len()) by { reveal_strlit("swe"); }
    assert("hu"@.len() != "swedish"@.len()) by { reveal_strlit("swedish"); }
    assert("hu"@[0] != "pl"@[0]);
    assert("hu"@.len() != "pol"@.len()) by { reveal_strlit("pol"); }
    assert("hu"@.len() != "polish"@.len()) by { reveal_strlit("polish"); }
    assert("hu"@[0] != "tr"@[0]);
    assert("hu"@.len() != "tur"@.len()) by { reveal_strlit("tur"); }
    assert("hu"@.len() != "turkish"@.len()) by { reveal_strlit("turkish"); }
    assert("hu"@[1] != "hi"@[1]);
    assert("hu"@.len() != "hin"@.len()) by { reveal_strlit("hin"); }
    assert("hu"@.len() != "hindi"@.len()) by { reveal_strlit("hindi"); }
    assert("hu"@[0] != "el"@[0]);
    assert("hu"@.len() != "gre"@.len()) by { reveal_strlit("gre"); }
    assert("hu"@.len() != "greek"@.len()) by { reveal_strlit("greek"); }
    assert("hu"@[1] != "he"@[1]);
    assert("hu"@.len() != "heb"@.len()) by { reveal_strlit("heb"); }
    assert("hu"@.len() != "hebrew"@.len()) by { reveal_strlit("hebrew"); }
    assert("hu"@[0] != "iw"@[0]);
    assert("hu"@[0] != "cs"@[0]);
    assert("hu"@.len() != "cze"@.len()) by { reveal_strlit("cze"); }
    assert("hu"@.len() != "czech"@.len()) by { reveal_strlit("czech"); }
    assert("hu"@[0] != "da"@[0]);
    assert("hu"@.len() != "dan"@.len()) by { reveal_strlit("dan"); }
    assert("hu"@.len() != "danish"@.len()) by { reveal_strlit("danish"); }
    assert("hu"@[0] != "fi"@[0]);
    assert("hu"@.len() != "fin"@.len()) by { reveal_strlit("fin"); }
    assert("hu"@.len() != "finnish"@.len()) by { reveal_strlit("finnish"); }
    assert("hu"@[0] != "no"@[0]);
    assert("hu"@.len() != "nor"@.len()) by { reveal_strlit("nor"); }
    assert("hu"@.len() != "norwegian"@.len()) by { reveal_strlit("norwegian"); }
    assert("hu"@[0] != "uk"@[0]);
    assert("hu"@.len() != "ukr"@.len()) by { reveal_strlit("ukr"); }
    assert("hu"@.len() != "ukrainian"@.len()) by { reveal_strlit("ukrainian"); }
    assert("hu"@[0] != "vi"@[0]);
    assert("hu"@.len() != "vie"@.len()) by { reveal_strlit("vie"); }
    assert("hu"@.len() != "vietnamese"@.len()) by { reveal_strlit("vietnamese"); }
    assert("hu"@[0] != "th"@[0]);
    assert("hu"@.len() != "tha"@.len()) by { reveal_strlit("tha"); }
    assert("hu"@.len() != "thai"@.len()) by { reveal_strlit("thai"); }
    assert("hu"@[0] != "id"@[0]);
    assert("hu"@.len() != "ind"@.len()) by { reveal_strlit("ind"); }
    assert("hu"@.len() != "indonesian"@.len()) by { reveal_strlit("indonesian"); }
    assert("hu"@[0] != "ro"@[0]);
    assert("hu"@.len() != "ron"@.len()) by { reveal_strlit("ron"); }
    assert("hu"@.len() != "rum"@.len()) by { reveal_strlit("rum"); }
    assert("hu"@.len() != "romanian"@.len()) by { reveal_strlit("romanian"); }
    reveal_with_fuel(normalize, 3);
    assert(normalize("hu"@) =~= "hu"@);
}

/// Every supported code resolves to itself, so resolving twice gives the
/// same code as resolving once.
pub proof fn law_codes_resolve_to_themselves()
    ensures
        forall|i: int| 0 <= i < language_table().len() ==> canonical_of(#[trigger] language_table()[i].0) == Some(language_table()[i].0),
{
    lemma_fixed_auto();
    lemma_fixed_en();
    lemma_fixed_ptbr();
    lemma_fixed_ptpt();
    lemma_fixed_es();
    lemma_fixed_fr();
    lemma_fixed_de();
    lemma_fixed_it();
    lemma_fixed_ja();
    lemma_fixed_ko();
    lemma_fixed_zhcn();
    lemma_fixed_zhtw();
    lemma_fixed_ru();
    lemma_fixed_ar();
    lemma_fixed_nl();
    lemma_fixed_sv();
    lemma_fixed_pl();
    lemma_fixed_tr();
    lemma_fixed_hi();
    lemma_fixed_el();
    lemma_fixed_he();
    lemma_fixed_cs();
    lemma_fixed_da();
    lemma_fixed_fi();
    lemma_fixed_no();
    lemma_fixed_uk();
    lemma_fixed_vi();
    lemma_fixed_th();
    lemma_fixed_id();
    lemma_fixed_ro();
    lemma_fixed_hu();
    assert forall|i: int| 0 <= i < language_table().len() implies canonical_of(#[trigger] language_table()[i].0) == Some(language_table()[i].0) by {
        if i == 0 {
            assert(language_table()[i].0 == "auto"@);
        }
        if i == 1 {
            assert(language_table()[i].0 == "en"@);
        }
        if i == 2 {
            assert(language_table()[i].0 == "pt-BR"@);
        }
        if i == 3 {
            assert(language_table()[i].0 == "pt-PT"@);
        }
        if i == 4 {
            assert(language_table()[i].0 == "es"@);
        }
        if i == 5 {
            assert(language_table()[i].0 == "fr"@);
        }
        if i == 6 {
            assert(language_table()[i].0 == "de"@);
        }
        if i == 7 {
            assert(language_table()[i].0 == "it"@);
        }
        if i == 8 {
            assert(language_table()[i].0 == "ja"@);
        }
        if i == 9 {
            assert(language_table()[i].0 == "ko"@);
        }
        if i == 10 {
            assert(language_table()[i].0 == "zh-CN"@);
        }
        if i == 11 {
            assert(language_table()[i].0 == "zh-TW"@);
        }
        if i == 12 {
            assert(language_table()[i].0 == "ru"@);
        }
        if i == 13 {
            assert(language_table()[i].0 == "ar"@);
        }
        if i == 14 {
            assert(language_table()[i].0 == "nl"@);
        }
        if i == 15 {
            assert(language_table()[i].0 == "sv"@);
        }
        if i == 16 {
            assert(language_table()[i].0 == "pl"@);
        }
        if i == 17 {
            assert(language_table()[i].0 == "tr"@);
        }
        if i == 18 {
            assert(language_table()[i].0 == "hi"@);
        }
        if i == 19 {
            assert(language_table()[i].0 == "el"@);
        }
        if i == 20 {
            assert(language_table()[i].0 == "he"@);
        }
        if i == 21 {
            assert(language_table()[i].0 == "cs"@);
        }
        if i == 22 {
            assert(language_table()[i].0 == "da"@);
        }
        if i == 23 {
            assert(language_table()[i].0 == "fi"@);
        }
        if i == 24 {
            assert(language_table()[i].0 == "no"@);
        }
        if i == 25 {
            assert(language_table()[i].0 == "uk"@);
        }
        if i == 26 {
            assert(language_table()[i].0 == "vi"@);
        }
        if i == 27 {
            assert(language_table()[i].0 == "th"@);
        }
        if i == 28 {
            assert(language_table()[i].0 == "id"@);
        }
        if i == 29 {
            assert(language_table()[i].0 == "ro"@);
        }
        if i == 30 {
            assert(language_table()[i].0 == "hu"@);
        }
    }
}
/// Resolving is idempotent: whatever a language resolves to resolves to
/// itself again.
pub proof fn law_resolve_idempotent(x: Seq<char>)
    ensures
        canonical_of(x) matches Some(c) ==> canonical_of(c) == Some(c),
        resolve_source_of(x) matches Ok(c) ==> resolve_source_of(c) == Ok::<Seq<char>, ErrorView>(c),
        resolve_target_of(x) matches Ok(c) ==> resolve_target_of(c) == Ok::<Seq<char>, ErrorView>(c),
{
    law_codes_resolve_to_themselves();
    if let Some(c) = canonical_of(x) {
        if c == "auto"@ {
            assert(language_table()[0].0 == "auto"@);
        }
        if c == "en"@ {
            assert(language_table()[1].0 == "en"@);
        }
        if c == "pt-BR"@ {
            assert(language_table()[2].0 == "pt-BR"@);
        }
        if c == "pt-PT"@ {
            assert(language_table()[3].0 == "pt-PT"@);
        }
        if c == "es"@ {
            assert(language_table()[4].0 == "es"@);
        }
        if c == "fr"@ {
            assert(language_table()[5].0 == "fr"@);
        }
        if c == "de"@ {
            assert(language_table()[6].0 == "de"@);
        }
        if c == "it"@ {
            assert(language_table()[7].0 == "it"@);
        }
        if c == "ja"@ {
            assert(language_table()[8].0 == "ja"@);
        }
        if c == "ko"@ {
            assert(language_table()[9].0 == "ko"@);
        }
        if c == "zh-CN"@ {
            assert(language_table()[10].0 == "zh-CN"@);
        }
        if c == "zh-TW"@ {
            assert(language_table()[11].0 == "zh-TW"@);
        }
        if c == "ru"@ {
            assert(language_table()[12].0 == "ru"@);
        }
        if c == "ar"@ {
            assert(language_table()[13].0 == "ar"@);
        }
        if c == "nl"@ {
            assert(language_table()[14].0 == "nl"@);
        }
        if c == "sv"@ {
            assert(language_table()[15].0 == "sv"@);
        }
        if c == "pl"@ {
            assert(language_table()[16].0 == "pl"@);
        }
        if c == "tr"@ {
            assert(language_table()[17].0 == "tr"@);
        }
        if c == "hi"@ {
            assert(language_table()[18].0 == "hi"@);
        }
        if c == "el"@ {
            assert(language_table()[19].0 == "el"@);
        }
        if c == "he"@ {
            assert(language_table()[20].0 == "he"@);
        }
        if c == "cs"@ {
            assert(language_table()[21].0 == "cs"@);
        }
        if c == "da"@ {
            assert(language_table()[22].0 == "da"@);
        }
        if c == "fi"@ {
            assert(language_table()[23].0 == "fi"@);
        }
        if c == "no"@ {
            assert(language_table()[24].0 == "no"@);
        }
        if c == "uk"@ {
            assert(language_table()[25].0 == "uk"@);
        }
        if c == "vi"@ {
            assert(language_table()[26].0 == "vi"@);
        }
        if c == "th"@ {
            assert(language_table()[27].0 == "th"@);
        }
        if c == "id"@ {
            assert(language_table()[28].0 == "id"@);
        }
        if c == "ro"@ {
            assert(language_table()[29].0 == "ro"@);
        }
        if c == "hu"@ {
            assert(language_table()[30].0 == "hu"@);
        }
    }
}
proof fn lemma_name_detect()
    ensures
        canonical_of("detect"@) == Some("auto"@),
{
    reveal_strlit("detect");
    reveal_strlit("detect");
    reveal_strlit("auto");
    assert("detect"@.len() != "auto"@.len()) by { reveal_strlit("auto"); }
    reveal_with_fuel(normalize, 7);
    assert(normalize("detect"@) =~= "detect"@);
}

proof fn lemma_name_english()
    ensures
        canonical_of("English"@) == Some("en"@),
{
    reveal_strlit("English");
    reveal_strlit("english");
    reveal_strlit("en");
    assert("english"@.len() != "auto"@.len()) by { reveal_strlit("auto"); }
    assert("english"@.len() != "detect"@.len()) by { reveal_strlit("detect"); }
    assert("english"@.len() != "en"@.len()) by { reveal_strlit("en"); }
    assert("english"@.len() != "eng"@.len()) by { reveal_strlit("eng"); }
    reveal_with_fuel(normalize, 8);
    assert(normalize("English"@) =~= "english"@);
}

proof fn lemma_name_spanish()
    ensures
        canonical_of("Spanish"@) == Some("es"@),
{
    reveal_strlit("Spanish");
    reveal_strlit("spanish");
    reveal_strlit("es");
    assert("spanish"@.len() != "auto"@.len()) by { reveal_strlit("auto"); }
    assert("spanish"@.len() != "detect"@.len()) by { reveal_strlit("detect"); }
    assert("spanish"@.len() != "en"@.len()) by { reveal_strlit("en"); }
    assert("spanish"@.len() != "eng"@.len()) by { reveal_strlit("eng"); }
    assert("spanish"@[0] != "english"@[0]) by { reveal_strlit("english"); }
    assert("spanish"@.len() != "ptbr"@.len()) by { reveal_strlit("ptbr"); }
    assert("spanish"@.len() != "br"@.len()) by { reveal_strlit("br"); }
    assert("spanish"@.len() != "pt"@.len()) by { reveal_strlit("pt"); }
    assert("spanish"@.len() != "ptbra"@.len()) by { reveal_strlit("ptbra"); }
    assert("spanish"@.len() != "portugues"@.len()) by { reveal_strlit("portugues"); }
    assert("spanish"@.len() != "portuguese"@.len()) by { reveal_strlit("portuguese"); }
    assert("spanish"@.len() != "brazilian"@.len()) by { reveal_strlit("brazilian"); }
    assert("spanish"@.len() != "ptpt"@.len()) by { reveal_strlit("ptpt"); }
    assert("spanish"@.len() != "portugal"@.len()) by { reveal_strlit("portugal"); }
    assert("spanish"@.len() != "es"@.len()) by { reveal_strlit("es"); }
    assert("spanish"@.len() != "spa"@.len()) by { reveal_strlit("spa"); }
    reveal_with_fuel(normalize, 8);
    assert(normalize("Spanish"@) =~= "spanish"@);
}

proof fn lemma_name_french()
    ensures
        canonical_of("French"@) == Some("fr"@),
{
    reveal_strlit("French");
    reveal_strlit("french");
    reveal_strlit("fr");
    assert("french"@.len() != "auto"@.len()) by { reveal_strlit("auto"); }
    assert("french"@[0] != "detect"@[0]) by { reveal_strlit("detect"); }
    assert("french"@.len() != "en"@.len()) by { reveal_strlit("en"); }
    assert("french"@.len() != "eng"@.len()) by { reveal_strlit("eng"); }
    assert("french"@.len() != "english"@.len()) by { reveal_strlit("english"); }
    assert("french"@.len() != "ptbr"@.len()) by { reveal_strlit("ptbr"); }
    assert("french"@.len() != "br"@.len()) by { reveal_strlit("br"); }
    assert("french"@.len() != "pt"@.len()) by { reveal_strlit("pt"); }
    assert("french"@.len() != "ptbra"@.len()) by { reveal_strlit("ptbra"); }
    assert("french"@.len() != "portugues"@.len()) by { reveal_strlit("portugues"); }
    assert("french"@.len() != "portuguese"@.len()) by { reveal_strlit("portuguese"); }
    assert("french"@.len() != "brazilian"@.len()) by { reveal_strlit("brazilian"); }
    assert("french"@.len() != "ptpt"@.len()) by { reveal_strlit("ptpt"); }
    assert("french"@.len() != "portugal"@.len()) by { reveal_strlit("portugal"); }
    assert("french"@.len() != "es"@.len()) by { reveal_strlit("es"); }
    assert("french"@.len() != "spa"@.len()) by { reveal_strlit("spa"); }
    assert("french"@.len() != "spanish"@.len()) by { reveal_strlit("spanish"); }
    assert("french"@.len() != "espanol"@.len()) by { reveal_strlit("espanol"); }
    assert("french"@.len() != "castellano"@.len()) by { reveal_strlit("castellano"); }
    assert("french"@.len() != "fr"@.len()) by { reveal_strlit("fr"); }
    assert("french"@.len() != "fra"@.len()) by { reveal_strlit("fra"); }
    assert("french"@.len() != "fre"@.len()) by { reveal_strlit("fre"); }
    reveal_with_fuel(normalize, 7);
    assert(normalize("French"@) =~= "french"@);
}

proof fn lemma_name_german()
    ensures
        canonical_of("German"@) == Some("de"@),
{
    reveal_strlit("German");
    reveal_strlit("german");
    reveal_strlit("de");
    assert("german"@.len() != "auto"@.len()) by { reveal_strlit("auto"); }
    assert("german"@[0] != "detect"@[0]) by { reveal_strlit("detect"); }
    assert("german"@.len() != "en"@.len()) by { reveal_strlit("en"); }
    assert("german"@.len() != "eng"@.len()) by { reveal_strlit("eng"); }
    assert("german"@.len() != "english"@.len()) by { reveal_strlit("english"); }
    assert("german"@.len() != "ptbr"@.len()) by { reveal_strlit("ptbr"); }
    assert("german"@.len() != "br"@.len()) by { reveal_strlit("br"); }
    assert("german"@.len() != "pt"@.len()) by { reveal_strlit("pt"); }
    assert("german"@.len() != "ptbra"@.len()) by { reveal_strlit("ptbra"); }
    assert("german"@.len() != "portugues"@.len()) by { reveal_strlit("portugues"); }
    assert("german"@.len() != "portuguese"@.len()) by { reveal_strlit("portuguese"); }
    assert("german"@.len() != "brazilian"@.len()) by { reveal_strlit("brazilian"); }
    assert("german"@.len() != "ptpt"@.len()) by { reveal_strlit("ptpt"); }
    assert("german"@.len() != "portugal"@.len()) by { reveal_strlit("portugal"); }
    assert("german"@.len() != "es"@.len()) by { reveal_strlit("es"); }
    assert("german"@.len() != "spa"@.len()) by { reveal_strlit("spa"); }
    assert("german"@.len() != "spanish"@.len()) by { reveal_strlit("spanish"); }
    assert("german"@.len() != "espanol"@.len()) by { reveal_strlit("espanol"); }
    assert("german"@.len() != "castellano"@.len()) by { reveal_strlit("castellano"); }
    assert("german"@.len() != "fr"@.len()) by { reveal_strlit("fr"); }
    assert("german"@.len() != "fra"@.len()) by { reveal_strlit("fra"); }
    assert("german"@.len() != "fre"@.len()) by { reveal_strlit("fre"); }
    assert("german"@[0] != "french"@[0]) by { reveal_strlit("french"); }
    assert("german"@.len() != "francais"@.len()) by { reveal_strlit("francais"); }
    assert("german"@.len() != "de"@.len()) by { reveal_strlit("de"); }
    assert("german"@.len() != "deu"@.len()) by { reveal_strlit("deu"); }
    assert("german"@.len() != "ger"@.len()) by { reveal_strlit("ger"); }
    reveal_with_fuel(normalize, 7);
    assert(normalize("German"@) =~= "german"@);
}

proof fn lemma_name_italian()
    ensures
        canonical_of("Italian"@) == Some("it"@),
{
    reveal_strlit("Italian");
    reveal_strlit("italian");
    reveal_strlit("it");
    assert("italian"@.len() != "auto"@.len()) by { reveal_strlit("auto"); }
    assert("italian"@.len() != "detect"@.len()) by { reveal_strlit("detect"); }
    assert("italian"@.len() != "en"@.len()) by { reveal_strlit("en"); }
    assert("italian"@.len() != "eng"@.len()) by { reveal_strlit("eng"); }
    assert("italian"@[0] != "english"@[0]) by { reveal_strlit("english"); }
    assert("italian"@.len() != "ptbr"@.len()) by { reveal_strlit("ptbr"); }
    assert("italian"@.len() != "br"@.len()) by { reveal_strlit("br"); }
    assert("italian"@.len() != "pt"@.len()) by { reveal_strlit("pt"); }
    assert("italian"@.len() != "ptbra"@.len()) by { reveal_strlit("ptbra"); }
    assert("italian"@.len() != "portugues"@.len()) by { reveal_strlit("portugues"); }
    assert("italian"@.len() != "portuguese"@.len()) by { reveal_strlit("portuguese"); }
    assert("italian"@.len() != "brazilian"@.len()) by { reveal_strlit("brazilian"); }
    assert("italian"@.len() != "ptpt"@.len()) by { reveal_strlit("ptpt"); }
    assert("italian"@.len() != "portugal"@.len()) by { reveal_strlit("portugal"); }
    assert("italian"@.len() != "es"@.len()) by { reveal_strlit("es"); }
    assert("italian"@.len() != "spa"@.len()) by { reveal_strlit("spa"); }
    assert("italian"@[0] != "spanish"@[0]) by { reveal_strlit("spanish"); }
    assert("italian"@[0] != "espanol"@[0]) by { reveal_strlit("espanol"); }
    assert("italian"@.len() != "castellano"@.len()) by { reveal_strlit("castellano"); }
    assert("italian"@.len() != "fr"@.len()) by { reveal_strlit("fr"); }
    assert("italian"@.len() != "fra"@.len()) by { reveal_strlit("fra"); }
    assert("italian"@.len() != "fre"@.len()) by { reveal_strlit("fre"); }
    assert("italian"@.len() != "french"@.len()) by { reveal_strlit("french"); }
    assert("italian"@.len() != "francais"@.len()) by { reveal_strlit("francais"); }
    assert("italian"@.len() != "de"@.len()) by { reveal_strlit("de"); }
    assert("italian"@.len() != "deu"@.len()) by { reveal_strlit("deu"); }
    assert("italian"@.len() != "ger"@.len()) by { reveal_strlit("ger"); }
    assert("italian"@.len() != "german"@.len()) by { reveal_strlit("german"); }
    assert("italian"@[0] != "deutsch"@[0]) by { reveal_strlit("deutsch"); }
    assert("italian"@.len() != "it"@.len()) by { reveal_strlit("it"); }
    assert("italian"@.len() != "ita"@.len()) by { reveal_strlit("ita"); }
    reveal_with_fuel(normalize, 8);
    assert(normalize("Italian"@) =~= "italian"@);
}

proof fn lemma_name_japanese()
    ensures
        canonical_of("Japanese"@) == Some("ja"@),
{
    reveal_strlit("Japanese");
    reveal_strlit("japanese");
    reveal_strlit("ja");
    assert("japanese"@.len() != "auto"@.len()) by { reveal_strlit("auto"); }
    assert("japanese"@.len() != "detect"@.len()) by { reveal_strlit("detect"); }
    assert("japanese"@.len() != "en"@.len()) by { reveal_strlit("en"); }
    assert("japanese"@.len() != "eng"@.len()) by { reveal_strlit("eng"); }
    assert("japanese"@.len() != "english"@.len()) by { reveal_strlit("english"); }
    assert("japanese"@.len() != "ptbr"@.len()) by { reveal_strlit("ptbr"); }
    assert("japanese"@.len() != "br"@.len()) by { reveal_strlit("br"); }
    assert("japanese"@.len() != "pt"@.len()) by { reveal_strlit("pt"); }
    assert("japanese"@.len() != "ptbra"@.len()) by { reveal_strlit("ptbra"); }
    assert("japanese"@.len() != "portugues"@.len()) by { reveal_strlit("portugues"); }
    assert("japanese"@.len() != "portuguese"@.len()) by { reveal_strlit("portuguese"); }
    assert("japanese"@.len() != "brazilian"@.len()) by { reveal_strlit("brazilian"); }
    assert("japanese"@.len() != "ptpt"@.len()) by { reveal_strlit("ptpt"); }
    assert("japanese"@[0] != "portugal"@[0]) by { reveal_strlit("portugal"); }
    assert("japanese"@.len() != "es"@.len()) by { reveal_strlit("es"); }
    assert("japanese"@.len() != "spa"@.len()) by { reveal_strlit("spa"); }
    assert("japanese"@.len() != "spanish"@.len()) by { reveal_strlit("spanish"); }
    assert("japanese"@.len() != "espanol"@.len()) by { reveal_strlit("espanol"); }
    assert("japanese"@.len() != "castellano"@.len()) by { reveal_strlit("castellano"); }
    assert("japanese"@.len() != "fr"@.len()) by { reveal_strlit("fr"); }
    assert("japanese"@.len() != "fra"@.len()) by { reveal_strlit("fra"); }
    assert("japanese"@.len() != "fre"@.len()) by { reveal_strlit("fre"); }
    assert("japanese"@.len() != "french"@.len()) by { reveal_strlit("french"); }
    assert("japanese"@[0] != "francais"@[0]) by { reveal_strlit("francais"); }
    assert("japanese"@.len() != "de"@.len()) by { reveal_strlit("de"); }
    assert("japanese"@.len() != "deu"@.len()) by { reveal_strlit("deu"); }
    assert("japanese"@.len() != "ger"@.len()) by { reveal_strlit("ger"); }
    assert("japanese"@.len() != "german"@.len()) by { reveal_strlit("german"); }
    assert("japanese"@.len() != "deutsch"@.len()) by { reveal_strlit("deutsch"); }
    assert("japanese"@.len() != "it"@.len()) by { reveal_strlit("it"); }
    assert("japanese"@.len() != "ita"@.len()) by { reveal_strlit("ita"); }
    assert("japanese"@.len() != "italian"@.len()) by { reveal_strlit("italian"); }
    assert("japanese"@[0] != "italiano"@[0]) by { reveal_strlit("italiano"); }
    assert("japanese"@.len() != "ja"@.len()) by { reveal_strlit("ja"); }
    assert("japanese"@.len() != "jp"@.len()) by { reveal_strlit("jp"); }
    assert("japanese"@.len() != "jpn"@.len()) by { reveal_strlit("jpn"); }
    reveal_with_fuel(normalize, 9);
    assert(normalize("Japanese"@) =~= "japanese"@);
}

proof fn lemma_name_korean()
    ensures
        canonical_of("Korean"@) == Some("ko"@),
{
    reveal_strlit("Korean");
    reveal_strlit("korean");
    reveal_strlit("ko");
    assert("korean"@.len() != "auto"@.len()) by { reveal_strlit("auto"); }
    assert("korean"@[0] != "detect"@[0]) by { reveal_strlit("detect"); }
    assert("korean"@.len() != "en"@.len()) by { reveal_strlit("en"); }
    assert("korean"@.len() != "eng"@.len()) by { reveal_strlit("eng"); }
    assert("korean"@.len() != "english"@.len()) by { reveal_strlit("english"); }
    assert("korean"@.len() != "ptbr"@.len()) by { reveal_strlit("ptbr"); }
    assert("korean"@.len() != "br"@.len()) by { reveal_strlit("br"); }
    assert("korean"@.len() != "pt"@.len()) by { reveal_strlit("pt"); }
    assert("korean"@.len() != "ptbra"@.len()) by { reveal_strlit("ptbra"); }
    assert("korean"@.len() != "portugues"@.len()) by { reveal_strlit("portugues"); }
    assert("korean"@.len() != "portuguese"@.len()) by { reveal_strlit("portuguese"); }
    assert("korean"@.len() != "brazilian"@.len()) by { reveal_strlit("brazilian"); }
    assert("korean"@.len() != "ptpt"@.len()) by { reveal_strlit("ptpt"); }
    assert("korean"@.len() != "portugal"@.len()) by { reveal_strlit("portugal"); }
    assert("korean"@.len() != "es"@.len()) by { reveal_strlit("es"); }
    assert("korean"@.len() != "spa"@.len()) by { reveal_strlit("spa"); }
    assert("korean"@.len() != "spanish"@.len()) by { reveal_strlit("spanish"); }
    assert("korean"@.len() != "espanol"@.len()) by { reveal_strlit("espanol"); }
    assert("korean"@.len() != "castellano"@.len()) by { reveal_strlit("castellano"); }
    assert("korean"@.len() != "fr"@.len()) by { reveal_strlit("fr"); }
    assert("korean"@.len() != "fra"@.len()) by { reveal_strlit("fra"); }
    assert("korean"@.len() != "fre"@.len()) by { reveal_strlit("fre"); }
    assert("korean"@[0] != "french"@[0]) by { reveal_strlit("french"); }
    assert("korean"@.len() != "francais"@.len()) by { reveal_strlit("francais"); }
    assert("korean"@.len() != "de"@.len()) by { reveal_strlit("de"); }
    assert("korean"@.len() != "deu"@.len()) by { reveal_strlit("deu"); }
    assert("korean"@.len() != "ger"@.len()) by { reveal_strlit("ger"); }
    assert("korean"@[0] != "german"@[0]) by { reveal_strlit("german"); }
    assert("korean"@.len() != "deutsch"@.len()) by { reveal_strlit("deutsch"); }
    assert("korean"@.len() != "it"@.len()) by { reveal_strlit("it"); }
    assert("korean"@.len() != "ita"@.len()) by { reveal_strlit("ita"); }
    assert("korean"@.len() != "italian"@.len()) by { reveal_strlit("italian"); }
    assert("korean"@.len() != "italiano"@.len()) by { reveal_strlit("italiano"); }
    assert("korean"@.len() != "ja"@.len()) by { reveal_strlit("ja"); }
    assert("korean"@.len() != "jp"@.len()) by { reveal_strlit("jp"); }
    assert("korean"@.len() != "jpn"@.len()) by { reveal_strlit("jpn"); }
    assert("korean"@.len() != "japanese"@.len()) by { reveal_strlit("japanese"); }
    assert("korean"@.len() != "ko"@.len()) by { reveal_strlit("ko"); }
    assert("korean"@.len() != "kor"@.len()) by { reveal_strlit("kor"); }
    reveal_with_fuel(normalize, 7);
    assert(normalize("Korean"@) =~= "korean"@);
}

proof fn lemma_name_russian()
    ensures
        canonical_of("Russian"@) == Some("ru"@),
{
    reveal_strlit("Russian");
    reveal_strlit("russian");
    reveal_strlit("ru");
    assert("russian"@.len() != "auto"@.len()) by { reveal_strlit("auto"); }
    assert("russian"@.len() != "detect"@.len()) by { reveal_strlit("detect"); }
    assert("russian"@.len() != "en"@.len()) by { reveal_strlit("en"); }
    assert("russian"@.len() != "eng"@.len()) by { reveal_strlit("eng"); }
    assert("russian"@[0] != "english"@[0]) by { reveal_strlit("english"); }
    assert("russian"@.len() != "ptbr"@.len()) by { reveal_strlit("ptbr"); }
    assert("russian"@.len() != "br"@.len()) by { reveal_strlit("br"); }
    assert("russian"@.len() != "pt"@.len()) by { reveal_strlit("pt"); }
    assert("russian"@.len() != "ptbra"@.len()) by { reveal_strlit("ptbra"); }
    assert("russian"@.len() != "portugues"@.len()) by { reveal_strlit("portugues"); }
    assert("russian"@.len() != "portuguese"@.len()) by { reveal_strlit("portuguese"); }
    assert("russian"@.len() != "brazilian"@.len()) by { reveal_strlit("brazilian"); }
    assert("russian"@.len() != "ptpt"@.len()) by { reveal_strlit("ptpt"); }
    assert("russian"@.len() != "portugal"@.len()) by { reveal_strlit("portugal"); }
    assert("russian"@.len() != "es"@.len()) by { reveal_strlit("es"); }
    assert("russian"@.len() != "spa"@.len()) by { reveal_strlit("spa"); }
    assert("russian"@[0] != "spanish"@[0]) by { reveal_strlit("spanish"); }
    assert("russian"@[0] != "espanol"@[0]) by { reveal_strlit("espanol"); }
    assert("russian"@.len() != "castellano"@.len()) by { reveal_strlit("castellano"); }
    assert("russian"@.len() != "fr"@.len()) by { reveal_strlit("fr"); }
    assert("russian"@.len() != "fra"@.len()) by { reveal_strlit("fra"); }
    assert("russian"@.len() != "fre"@.len()) by { reveal_strlit("fre"); }
    assert("russian"@.len() != "french"@.len()) by { reveal_strlit("french"); }
    assert("russian"@.len() != "francais"@.len()) by { reveal_strlit("francais"); }
    assert("russian"@.len() != "de"@.len()) by { reveal_strlit("de"); }
    assert("russian"@.len() != "deu"@.len()) by { reveal_strlit("deu"); }
    assert("russian"@.len() != "ger"@.len()) by { reveal_strlit("ger"); }
    assert("russian"@.len() != "german"@.len()) by { reveal_strlit("german"); }
    assert("russian"@[0] != "deutsch"@[0]) by { reveal_strlit("deutsch"); }
    assert("russian"@.len() != "it"@.len()) by { reveal_strlit("it"); }
    assert("russian"@.len() != "ita"@.len()) by { reveal_strlit("ita"); }
    assert("russian"@[0] != "italian"@[0]) by { reveal_strlit("italian"); }
    assert("russian"@.len() != "italiano"@.len()) by { reveal_strlit("italiano"); }
    assert("russian"@.len() != "ja"@.len()) by { reveal_strlit("ja"); }
    assert("russian"@.len() != "jp"@.len()) by { reveal_strlit("jp"); }
    assert("russian"@.len() != "jpn"@.len()) by { reveal_strlit("jpn"); }
    assert("russian"@.len() != "japanese"@.len()) by { reveal_strlit("japanese"); }
    assert("russian"@.len() != "ko"@.len()) by { reveal_strlit("ko"); }
    assert("russian"@.len() != "kor"@.len()) by { reveal_strlit("kor"); }
    assert("russian"@.len() != "korean"@.len()) by { reveal_strlit("korean"); }
    assert("russian"@.len() != "zh"@.len()) by { reveal_strlit("zh"); }
    assert("russian"@.len() != "zhcn"@.len()) by { reveal_strlit("zhcn"); }
    assert("russian"@[0] != "chinese"@[0]) by { reveal_strlit("chinese"); }
    assert("russian"@.len() != "mandarin"@.len()) by { reveal_strlit("mandarin"); }
    assert("russian"@.len() != "simplifiedchinese"@.len()) by { reveal_strlit("simplifiedchinese"); }
    assert("russian"@.len() != "zhtw"@.len()) by { reveal_strlit("zhtw"); }
    assert("russian"@.len() != "traditionalchinese"@.len()) by { reveal_strlit("traditionalchinese"); }
    assert("russian"@.len() != "ru"@.len()) by { reveal_strlit("ru"); }
    assert("russian"@.len() != "rus"@.len()) by { reveal_strlit("rus"); }
    reveal_with_fuel(normalize, 8);
    assert(normalize("Russian"@) =~= "russian"@);
}

proof fn lemma_name_arabic()
    ensures
        canonical_of("Arabic"@) == Some("ar"@),
{
    reveal_strlit("Arabic");
    reveal_strlit("arabic");
    reveal_strlit("ar");
    assert("arabic"@.len() != "auto"@.len()) by { reveal_strlit("auto"); }
    assert("arabic"@[0] != "detect"@[0]) by { reveal_strlit("detect"); }
    assert("arabic"@.len() != "en"@.len()) by { reveal_strlit("en"); }
    assert("arabic"@.len() != "eng"@.len()) by { reveal_strlit("eng"); }
    assert("arabic"@.len() != "english"@.len()) by { reveal_strlit("english"); }
    assert("arabic"@.len() != "ptbr"@.len()) by { reveal_strlit("ptbr"); }
    assert("arabic"@.len() != "br"@.len()) by { reveal_strlit("br"); }
    assert("arabic"@.len() != "pt"@.len()) by { reveal_strlit("pt"); }
    assert("arabic"@.len() != "ptbra"@.len()) by { reveal_strlit("ptbra"); }
    assert("arabic"@.len() != "portugues"@.len()) by { reveal_strlit("portugues"); }
    assert("arabic"@.len() != "portuguese"@.len()) by { reveal_strlit("portuguese"); }
    assert("arabic"@.len() != "brazilian"@.len()) by { reveal_strlit("brazilian"); }
    assert("arabic"@.len() != "ptpt"@.len()) by { reveal_strlit("ptpt"); }
    assert("arabic"@.len() != "portugal"@.len()) by { reveal_strlit("portugal"); }
    assert("arabic"@.len() != "es"@.len()) by { reveal_strlit("es"); }
    assert("arabic"@.len() != "spa"@.len()) by { reveal_strlit("spa"); }
    assert("arabic"@.len() != "spanish"@.len()) by { reveal_strlit("spanish"); }
    assert("arabic"@.len() != "espanol"@.len()) by { reveal_strlit("espanol"); }
    assert("arabic"@.len() != "castellano"@.len()) by { reveal_strlit("castellano"); }
    assert("arabic"@.len() != "fr"@.len()) by { reveal_strlit("fr"); }
    assert("arabic"@.len() != "fra"@.len()) by { reveal_strlit("fra"); }
    assert("arabic"@.len() != "fre"@.len()) by { reveal_strlit("fre"); }
    assert("arabic"@[0] != "french"@[0]) by { reveal_strlit("french"); }
    assert("arabic"@.len() != "francais"@.len()) by { reveal_strlit("francais"); }
    assert("arabic"@.len() != "de"@.len()) by { reveal_strlit("de"); }
    assert("arabic"@.len() != "deu"@.len()) by { reveal_strlit("deu"); }
    assert("arabic"@.len() != "ger"@.len()) by { reveal_strlit("ger"); }
    assert("arabic"@[0] != "german"@[0]) by { reveal_strlit("german"); }
    assert("arabic"@.len() != "deutsch"@.len()) by { reveal_strlit("deutsch"); }
    assert("arabic"@.len() != "it"@.len()) by { reveal_strlit("it"); }
    assert("arabic"@.len() != "ita"@.len()) by { reveal_strlit("ita"); }
    assert("arabic"@.len() != "italian"@.len()) by { reveal_strlit("italian"); }
    assert("arabic"@.len() != "italiano"@.len()) by { reveal_strlit("italiano"); }
    assert("arabic"@.len() != "ja"@.len()) by { reveal_strlit("ja"); }
    assert("arabic"@.len() != "jp"@.len()) by { reveal_strlit("jp"); }
    assert("arabic"@.len() != "jpn"@.len()) by { reveal_strlit("jpn"); }
    assert("arabic"@.len() != "japanese"@.len()) by { reveal_strlit("japanese"); }
    assert("arabic"@.len() != "ko"@.len()) by { reveal_strlit("ko"); }
    assert("arabic"@.len() != "kor"@.len()) by { reveal_strlit("kor"); }
    assert("arabic"@[0] != "korean"@[0]) by { reveal_strlit("korean"); }
    assert("arabic"@.len() != "zh"@.len()) by { reveal_strlit("zh"); }
    assert("arabic"@.len() != "zhcn"@.len()) by { reveal_strlit("zhcn"); }
    assert("arabic"@.len() != "chinese"@.len()) by { reveal_strlit("chinese"); }
    assert("arabic"@.len() != "mandarin"@.len()) by { reveal_strlit("mandarin"); }
    assert("arabic"@.len() != "simplifiedchinese"@.len()) by { reveal_strlit("simplifiedchinese"); }
    assert("arabic"@.len() != "zhtw"@.len()) by { reveal_strlit("zhtw"); }
    assert("arabic"@.len() != "traditionalchinese"@.len()) by { reveal_strlit("traditionalchinese"); }
    assert("arabic"@.len() != "ru"@.len()) by { reveal_strlit("ru"); }
    assert("arabic"@.len() != "rus"@.len()) by { reveal_strlit("rus"); }
    assert("arabic"@.len() != "russian"@.len()) by { reveal_strlit("russian"); }
    assert("arabic"@.len() != "ar"@.len()) by { reveal_strlit("ar"); }
    assert("arabic"@.len() != "ara"@.len()) by { reveal_strlit("ara"); }
    reveal_with_fuel(normalize, 7);
    assert(normalize("Arabic"@) =~= "arabic"@);
}

proof fn lemma_name_dutch()
    ensures
        canonical_of("Dutch"@) == Some("nl"@),
{
    reveal_strlit("Dutch");
    reveal_strlit("dutch");
    reveal_strlit("nl");
    assert("dutch"@.len() != "auto"@.len()) by { reveal_strlit("auto"); }
    assert("dutch"@.len() != "detect"@.len()) by { reveal_strlit("detect"); }
    assert("dutch"@.len() != "en"@.len()) by { reveal_strlit("en"); }
    assert("dutch"@.len() != "eng"@.len()) by { reveal_strlit("eng"); }
    assert("dutch"@.len() != "english"@.len()) by { reveal_strlit("english"); }
    assert("dutch"@.len() != "ptbr"@.len()) by { reveal_strlit("ptbr"); }
    assert("dutch"@.len() != "br"@.len()) by { reveal_strlit("br"); }
    assert("dutch"@.len() != "pt"@.len()) by { reveal_strlit("pt"); }
    assert("dutch"@[0] != "ptbra"@[0]) by { reveal_strlit("ptbra"); }
    assert("dutch"@.len() != "portugues"@.len()) by { reveal_strlit("portugues"); }
    assert("dutch"@.len() != "portuguese"@.len()) by { reveal_strlit("portuguese"); }
    assert("dutch"@.len() != "brazilian"@.len()) by { reveal_strlit("brazilian"); }
    assert("dutch"@.len() != "ptpt"@.len()) by { reveal_strlit("ptpt"); }
    assert("dutch"@.len() != "portugal"@.len()) by { reveal_strlit("portugal"); }
    assert("dutch"@.len() != "es"@.len()) by { reveal_strlit("es"); }
    assert("dutch"@.len() != "spa"@.len()) by { reveal_strlit("spa"); }
    assert("dutch"@.len() != "spanish"@.len()) by { reveal_strlit("spanish"); }
    assert("dutch"@.len() != "espanol"@.len()) by { reveal_strlit("espanol"); }
    assert("dutch"@.len() != "castellano"@.len()) by { reveal_strlit("castellano"); }
    assert("dutch"@.len() != "fr"@.len()) by { reveal_strlit("fr"); }
    assert("dutch"@.len() != "fra"@.len()) by { reveal_strlit("fra"); }
    assert("dutch"@.len() != "fre"@.len()) by { reveal_strlit("fre"); }
    assert("dutch"@.len() != "french"@.len()) by { reveal_strlit("french"); }
    assert("dutch"@.len() != "francais"@.len()) by { reveal_strlit("francais"); }
    assert("dutch"@.len() != "de"@.len()) by { reveal_strlit("de"); }
    assert("dutch"@.len() != "deu"@.len()) by { reveal_strlit("deu"); }
    assert("dutch"@.len() != "ger"@.len()) by { reveal_strlit("ger"); }
    assert("dutch"@.len() != "german"@.len()) by { reveal_strlit("german"); }
    assert("dutch"@.len() != "deutsch"@.len()) by { reveal_strlit("deutsch"); }
    assert("dutch"@.len() != "it"@.len()) by { reveal_strlit("it"); }
    assert("dutch"@.len() != "ita"@.len()) by { reveal_strlit("ita"); }
    assert("dutch"@.len() != "italian"@.len()) by { reveal_strlit("italian"); }
    assert("dutch"@.len() != "italiano"@.len()) by { reveal_strlit("italiano"); }
    assert("dutch"@.len() != "ja"@.len()) by { reveal_strlit("ja"); }
    assert("dutch"@.len() != "jp"@.len()) by { reveal_strlit("jp"); }
    assert("dutch"@.len() != "jpn"@.len()) by { reveal_strlit("jpn"); }
    assert("dutch"@.len() != "japanese"@.len()) by { reveal_strlit("japanese"); }
    assert("dutch"@.len() != "ko"@.len()) by { reveal_strlit("ko"); }
    assert("dutch"@.len() != "kor"@.len()) by { reveal_strlit("kor"); }
    assert("dutch"@.len() != "korean"@.len()) by { reveal_strlit("korean"); }
    assert("dutch"@.len() != "zh"@.len()) by { reveal_strlit("zh"); }
    assert("dutch"@.len() != "zhcn"@.len()) by { reveal_strlit("zhcn"); }
    assert("dutch"@.len() != "chinese"@.len()) by { reveal_strlit("chinese"); }
    assert("dutch"@.len() != "mandarin"@.len()) by { reveal_strlit("mandarin"); }
    assert("dutch"@.len() != "simplifiedchinese"@.len()) by { reveal_strlit("simplifiedchinese"); }
    assert("dutch"@.len() != "zhtw"@.len()) by { reveal_strlit("zhtw"); }
    assert("dutch"@.len() != "traditionalchinese"@.len()) by { reveal_strlit("traditionalchinese"); }
    assert("dutch"@.len() != "ru"@.len()) by { reveal_strlit("ru"); }
    assert("dutch"@.len() != "rus"@.len()) by { reveal_strlit("rus"); }
    assert("dutch"@.len() != "russian"@.len()) by { reveal_strlit("russian"); }
    assert("dutch"@.len() != "ar"@.len()) by { reveal_strlit("ar"); }
    assert("dutch"@.len() != "ara"@.len()) by { reveal_strlit("ara"); }
    assert("dutch"@.len() != "arabic"@.len()) by { reveal_strlit("arabic"); }
    assert("dutch"@.len() != "nl"@.len()) by { reveal_strlit("nl"); }
    assert("dutch"@.len() != "nld"@.len()) by { reveal_strlit("nld"); }
    reveal_with_fuel(normalize, 6);
    assert(normalize("Dutch"@) =~= "dutch"@);
}

proof fn lemma_name_swedish()
    ensures
        canonical_of("Swedish"@) == Some("sv"@),
{
    reveal_strlit("Swedish");
    reveal_strlit("swedish");
    reveal_strlit("sv");
    assert("swedish"@.len() != "auto"@.len()) by { reveal_strlit("auto"); }
    assert("swedish"@.len() != "detect"@.len()) by { reveal_strlit("detect"); }
    assert("swedish"@.len() != "en"@.len()) by { reveal_strlit("en"); }
    assert("swedish"@.len() != "eng"@.len()) by { reveal_strlit("eng"); }
    assert("swedish"@[0] != "english"@[0]) by { reveal_strlit("english"); }
    assert("swedish"@.len() != "ptbr"@.len()) by { reveal_strlit("ptbr"); }
    assert("swedish"@.len() != "br"@.len()) by { reveal_strlit("br"); }
    assert("swedish"@.len() != "pt"@.len()) by { reveal_strlit("pt"); }
    assert("swedish"@.len() != "ptbra"@.len()) by { reveal_strlit("ptbra"); }
    assert("swedish"@.len() != "portugues"@.len()) by { reveal_strlit("portugues"); }
    assert("swedish"@.len() != "portuguese"@.len()) by { reveal_strlit("portuguese"); }
    assert("swedish"@.len() != "brazilian"@.len()) by { reveal_strlit("brazilian"); }
    assert("swedish"@.len() != "ptpt"@.len()) by { reveal_strlit("ptpt"); }
    assert("swedish"@.len() != "portugal"@.len()) by { reveal_strlit("portugal"); }
    assert("swedish"@.len() != "es"@.len()) by { reveal_strlit("es"); }
    assert("swedish"@.len() != "spa"@.len()) by { reveal_strlit("spa"); }
    assert("swedish"@[1] != "spanish"@[1]) by { reveal_strlit("spanish"); }
    assert("swedish"@[0] != "espanol"@[0]) by { reveal_strlit("espanol"); }
    assert("swedish"@.len() != "castellano"@.len()) by { reveal_strlit("castellano"); }
    assert("swedish"@.len() != "fr"@.len()) by { reveal_strlit("fr"); }
    assert("swedish"@.len() != "fra"@.len()) by { reveal_strlit("fra"); }
    assert("swedish"@.len() != "fre"@.len()) by { reveal_strlit("fre"); }
    assert("swedish"@.len() != "french"@.len()) by { reveal_strlit("french"); }
    assert("swedish"@.len() != "francais"@.len()) by { reveal_strlit("francais"); }
    assert("swedish"@.len() != "de"@.len()) by { reveal_strlit("de"); }
    assert("swedish"@.len() != "deu"@.len()) by { reveal_strlit("deu"); }
    assert("swedish"@.len() != "ger"@.len()) by { reveal_strlit("ger"); }
    assert("swedish"@.len() != "german"@.len()) by { reveal_strlit("german"); }
    assert("swedish"@[0] != "deutsch"@[0]) by { reveal_strlit("deutsch"); }
    assert("swedish"@.len() != "it"@.len()) by { reveal_strlit("it"); }
    assert("swedish"@.len() != "ita"@.len()) by { reveal_strlit("ita"); }
    assert("swedish"@[0] != "italian"@[0]) by { reveal_strlit("italian"); }
    assert("swedish"@.len() != "italiano"@.len()) by { reveal_strlit("italiano"); }
    assert("swedish"@.len() != "ja"@.len()) by { reveal_strlit("ja"); }
    assert("swedish"@.len() != "jp"@.len()) by { reveal_strlit("jp"); }
    assert("swedish"@.len() != "jpn"@.len()) by { reveal_strlit("jpn"); }
    assert("swedish"@.len() != "japanese"@.len()) by { reveal_strlit("japanese"); }
    assert("swedish"@.len() != "ko"@.len()) by { reveal_strlit("ko"); }
    assert("swedish"@.len() != "kor"@.len()) by { reveal_strlit("kor"); }
    assert("swedish"@.len() != "korean"@.len()) by { reveal_strlit("korean"); }
    assert("swedish"@.len() != "zh"@.len()) by { reveal_strlit("zh"); }
    assert("swedish"@.len() != "zhcn"@.len()) by { reveal_strlit("zhcn"); }
    assert("swedish"@[0] != "chinese"@[0]) by { reveal_strlit("chinese"); }
    assert("swedish"@.len() != "mandarin"@.len()) by { reveal_strlit("mandarin"); }
    assert("swedish"@.len() != "simplifiedchinese"@.len()) by { reveal_strlit("simplifiedchinese"); }
    assert("swedish"@.len() != "zhtw"@.len()) by { reveal_strlit("zhtw"); }
    assert("swedish"@.len() != "traditionalchinese"@.len()) by { reveal_strlit("traditionalchinese"); }
    assert("swedish"@.len() != "ru"@.len()) by { reveal_strlit("ru"); }
    assert("swedish"@.len() != "rus"@.len()) by { reveal_strlit("rus"); }
    assert("swedish"@[0] != "russian"@[0]) by { reveal_strlit("russian"); }
    assert("swedish"@.len() != "ar"@.len()) by { reveal_strlit("ar"); }
    assert("swedish"@.len() != "ara"@.len()) by { reveal_strlit("ara"); }
    assert("swedish"@.len() != "arabic"@.len()) by { reveal_strlit("arabic"); }
    assert("swedish"@.len() != "nl"@.len()) by { reveal_strlit("nl"); }
    assert("swedish"@.len() != "nld"@.len()) by { reveal_strlit("nld"); }
    assert("swedish"@.len() != "dutch"@.len()) by { reveal_strlit("dutch"); }
    assert("swedish"@.len() != "sv"@.len()) by { reveal_strlit("sv"); }
    assert("swedish"@.len() != "swe"@.len()) by { reveal_strlit("swe"); }
    reveal_with_fuel(normalize, 8);
    assert(normalize("Swedish"@) =~= "swedish"@);
}

proof fn lemma_name_polish()
    ensures
        canonical_of("Polish"@) == Some("pl"@),
{
    reveal_strlit("Polish");
    reveal_strlit("polish");
    reveal_strlit("pl");
    assert("polish"@.len() != "auto"@.len()) by { reveal_strlit("auto"); }
    assert("polish"@[0] != "detect"@[0]) by { reveal_strlit("detect"); }
    assert("polish"@.len() != "en"@.len()) by { reveal_strlit("en"); }
    assert("polish"@.len() != "eng"@.len()) by { reveal_strlit("eng"); }
    assert("polish"@.len() != "english"@.len()) by { reveal_strlit("english"); }
    assert("polish"@.len() != "ptbr"@.len()) by { reveal_strlit("ptbr"); }
    assert("polish"@.len() != "br"@.len()) by { reveal_strlit("br"); }
    assert("polish"@.len() != "pt"@.len()) by { reveal_strlit("pt"); }
    assert("polish"@.len() != "ptbra"@.len()) by { reveal_strlit("ptbra"); }
    assert("polish"@.len() != "portugues"@.len()) by { reveal_strlit("portugues"); }
    assert("polish"@.len() != "portuguese"@.len()) by { reveal_strlit("portuguese"); }
    assert("polish"@.len() != "brazilian"@.len()) by { reveal_strlit("brazilian"); }
    assert("polish"@.len() != "ptpt"@.len()) by { reveal_strlit("ptpt"); }
    assert("polish"@.len() != "portugal"@.len()) by { reveal_strlit("portugal"); }
    assert("polish"@.len() != "es"@.len()) by { reveal_strlit("es"); }
    assert("polish"@.len() != "spa"@.len()) by { reveal_strlit("spa"); }
    assert("polish"@.len() != "spanish"@.len()) by { reveal_strlit("spanish"); }
    assert("polish"@.len() != "espanol"@.len()) by { reveal_strlit("espanol"); }
    assert("polish"@.len() != "castellano"@.len()) by { reveal_strlit("castellano"); }
    assert("polish"@.len() != "fr"@.len()) by { reveal_strlit("fr"); }
    assert("polish"@.len() != "fra"@.len()) by { reveal_strlit("fra"); }
    assert("polish"@.len() != "fre"@.len()) by { reveal_strlit("fre"); }
    assert("polish"@[0] != "french"@[0]) by { reveal_strlit("french"); }
    assert("polish"@.len() != "francais"@.len()) by { reveal_strlit("francais"); }
    assert("polish"@.len() != "de"@.len()) by { reveal_strlit("de"); }
    assert("polish"@.len() != "deu"@.len()) by { reveal_strlit("deu"); }
    assert("polish"@.len() != "ger"@.len()) by { reveal_strlit("ger"); }
    assert("polish"@[0] != "german"@[0]) by { reveal_strlit("german"); }
    assert("polish"@.len() != "deutsch"@.len()) by { reveal_strlit("deutsch"); }
    assert("polish"@.len() != "it"@.len()) by { reveal_strlit("it"); }
    assert("polish"@.len() != "ita"@.len()) by { reveal_strlit("ita"); }
    assert("polish"@.len() != "italian"@.len()) by { reveal_strlit("italian"); }
    assert("polish"@.len() != "italiano"@.len()) by { reveal_strlit("italiano"); }
    assert("polish"@.len() != "ja"@.len()) by { reveal_strlit("ja"); }
    assert("polish"@.len() != "jp"@.len()) by { reveal_strlit("jp"); }
    assert("polish"@.len() != "jpn"@.len()) by { reveal_strlit("jpn"); }
    assert("polish"@.len() != "japanese"@.len()) by { reveal_strlit("japanese"); }
    assert("polish"@.len() != "ko"@.len()) by { reveal_strlit("ko"); }
    assert("polish"@.len() != "kor"@.len()) by { reveal_strlit("kor"); }
    assert("polish"@[0] != "korean"@[0]) by { reveal_strlit("korean"); }
    assert("polish"@.len() != "zh"@.len()) by { reveal_strlit("zh"); }
    assert("polish"@.len() != "zhcn"@.len()) by { reveal_strlit("zhcn"); }
    assert("polish"@.len() != "chinese"@.len()) by { reveal_strlit("chinese"); }
    assert("polish"@.len() != "mandarin"@.len()) by { reveal_strlit("mandarin"); }
    assert("polish"@.len() != "simplifiedchinese"@.len()) by { reveal_strlit("simplifiedchinese"); }
    assert("polish"@.len() != "zhtw"@.len()) by { reveal_strlit("zhtw"); }
    assert("polish"@.len() != "traditionalchinese"@.len()) by { reveal_strlit("traditionalchinese"); }
    assert("polish"@.len() != "ru"@.len()) by { reveal_strlit("ru"); }
    assert("polish"@.len() != "rus"@.len()) by { reveal_strlit("rus"); }
    assert("polish"@.len() != "russian"@.len()) by { reveal_strlit("russian"); }
    assert("polish"@.len() != "ar"@.len()) by { reveal_strlit("ar"); }
    assert("polish"@.len() != "ara"@.len()) by { reveal_strlit("ara"); }
    assert("polish"@[0] != "arabic"@[0]) by { reveal_strlit("arabic"); }
    assert("polish"@.len() != "nl"@.len()) by { reveal_strlit("nl"); }
    assert("polish"@.len() != "nld"@.len()) by { reveal_strlit("nld"); }
    assert("polish"@.len() != "dutch"@.len()) by { reveal_strlit("dutch"); }
    assert("polish"@.len() != "sv"@.len()) by { reveal_strlit("sv"); }
    assert("polish"@.len() != "swe"@.len()) by { reveal_strlit("swe"); }
    assert("polish"@.len() != "swedish"@.len()) by { reveal_strlit("swedish"); }
    assert("polish"@.len() != "pl"@.len()) by { reveal_strlit("pl"); }
    assert("polish"@.len() != "pol"@.len()) by { reveal_strlit("pol"); }
    reveal_with_fuel(normalize, 7);
    assert(normalize("Polish"@) =~= "polish"@);
}

proof fn lemma_name_turkish()
    ensures
        canonical_of("Turkish"@) == Some("tr"@),
{
    reveal_strlit("Turkish");
    reveal_strlit("turkish");
    reveal_strlit("tr");
    assert("turkish"@.len() != "auto"@.len()) by { reveal_strlit("auto"); }
    assert("turkish"@.len() != "detect"@.len()) by { reveal_strlit("detect"); }
    assert("turkish"@.len() != "en"@.len()) by { reveal_strlit("en"); }
    assert("turkish"@.len() != "eng"@.len()) by { reveal_strlit("eng"); }
    assert("turkish"@[0] != "english"@[0]) by { reveal_strlit("english"); }
    assert("turkish"@.len() != "ptbr"@.len()) by { reveal_strlit("ptbr"); }
    assert("turkish"@.len() != "br"@.len()) by { reveal_strlit("br"); }
    assert("turkish"@.len() != "pt"@.len()) by { reveal_strlit("pt"); }
    assert("turkish"@.len() != "ptbra"@.len()) by { reveal_strlit("ptbra"); }
    assert("turkish"@.len() != "portugues"@.len()) by { reveal_strlit("portugues"); }
    assert("turkish"@.len() != "portuguese"@.len()) by { reveal_strlit("portuguese"); }
    assert("turkish"@.len() != "brazilian"@.len()) by { reveal_strlit("brazilian"); }
    assert("turkish"@.len() != "ptpt"@.len()) by { reveal_strlit("ptpt"); }
    assert("turkish"@.len() != "portugal"@.len()) by { reveal_strlit("portugal"); }
    assert("turkish"@.len() != "es"@.len()) by { reveal_strlit("es"); }
    assert("turkish"@.len() != "spa"@.len()) by { reveal_strlit("spa"); }
    assert("turkish"@[0] != "spanish"@[0]) by { reveal_strlit("spanish"); }
    assert("turkish"@[0] != "espanol"@[0]) by { reveal_strlit("espanol"); }
    assert("turkish"@.len() != "castellano"@.len()) by { reveal_strlit("castellano"); }
    assert("turkish"@.len() != "fr"@.len()) by { reveal_strlit("fr"); }
    assert("turkish"@.len() != "fra"@.len()) by { reveal_strlit("fra"); }
    assert("turkish"@.len() != "fre"@.len()) by { reveal_strlit("fre"); }
    assert("turkish"@.len() != "french"@.len()) by { reveal_strlit("french"); }
    assert("turkish"@.len() != "francais"@.len()) by { reveal_strlit("francais"); }
    assert("turkish"@.len() != "de"@.len()) by { reveal_strlit("de"); }
    assert("turkish"@.len() != "deu"@.len()) by { reveal_strlit("deu"); }
    assert("turkish"@.len() != "ger"@.len()) by { reveal_strlit("ger"); }
    assert("turkish"@.len() != "german"@.len()) by { reveal_strlit("german"); }
    assert("turkish"@[0] != "deutsch"@[0]) by { reveal_strlit("deutsch"); }
    assert("turkish"@.len() != "it"@.len()) by { reveal_strlit("it"); }
    assert("turkish"@.len() != "ita"@.len()) by { reveal_strlit("ita"); }
    assert("turkish"@[0] != "italian"@[0]) by { reveal_strlit("italian"); }
    assert("turkish"@.len() != "italiano"@.len()) by { reveal_strlit("italiano"); }
    assert("turkish"@.len() != "ja"@.len()) by { reveal_strlit("ja"); }
    assert("turkish"@.len() != "jp"@.len()) by { reveal_strlit("jp"); }
    assert("turkish"@.len() != "jpn"@.len()) by { reveal_strlit("jpn"); }
    assert("turkish"@.len() != "japanese"@.len()) by { reveal_strlit("japanese"); }
    assert("turkish"@.len() != "ko"@.len()) by { reveal_strlit("ko"); }
    assert("turkish"@.len() != "kor"@.len()) by { reveal_strlit("kor"); }
    assert("turkish"@.len() != "korean"@.len()) by { reveal_strlit("korean"); }
    assert("turkish"@.len() != "zh"@.len()) by { reveal_strlit("zh"); }
    assert("turkish"@.len() != "zhcn"@.len()) by { reveal_strlit("zhcn"); }
    assert("turkish"@[0] != "chinese"@[0]) by { reveal_strlit("chinese"); }
    assert("turkish"@.len() != "mandarin"@.len()) by { reveal_strlit("mandarin"); }
    assert("turkish"@.len() != "simplifiedchinese"@.len()) by { reveal_strlit("simplifiedchinese"); }
    assert("turkish"@.len() != "zhtw"@.len()) by { reveal_strlit("zhtw"); }
    assert("turkish"@.len() != "traditionalchinese"@.len()) by { reveal_strlit("traditionalchinese"); }
    assert("turkish"@.len() != "ru"@.len()) by { reveal_strlit("ru"); }
    assert("turkish"@.len() != "rus"@.len()) by { reveal_strlit("rus"); }
    assert("turkish"@[0] != "russian"@[0]) by { reveal_strlit("russian"); }
    assert("turkish"@.len() != "ar"@.len()) by { reveal_strlit("ar"); }
    assert("turkish"@.len() != "ara"@.len()) by { reveal_strlit("ara"); }
    assert("turkish"@.len() != "arabic"@.len()) by { reveal_strlit("arabic"); }
    assert("turkish"@.len() != "nl"@.len()) by { reveal_strlit("nl"); }
    assert("turkish"@.len() != "nld"@.len()) by { reveal_strlit("nld"); }
    assert("turkish"@.len() != "dutch"@.len()) by { reveal_strlit("dutch"); }
    assert("turkish"@.len() != "sv"@.len()) by { reveal_strlit("sv"); }
    assert("turkish"@.len() != "swe"@.len()) by { reveal_strlit("swe"); }
    assert("turkish"@[0] != "swedish"@[0]) by { reveal_strlit("swedish"); }
    assert("turkish"@.len() != "pl"@.len()) by { reveal_strlit("pl"); }
    assert("turkish"@.len() != "pol"@.len()) by { reveal_strlit("pol"); }
    assert("turkish"@.len() != "polish"@.len()) by { reveal_strlit("polish"); }
    assert("turkish"@.len() != "tr"@.len()) by { reveal_strlit("tr"); }
    assert("turkish"@.len() != "tur"@.len()) by { reveal_strlit("tur"); }
    reveal_with_fuel(normalize, 8);
    assert(normalize("Turkish"@) =~= "turkish"@);
}

proof fn lemma_name_hindi()
    ensures
        canonical_of("Hindi"@) == Some("hi"@),
{
    reveal_strlit("Hindi");
    reveal_strlit("hindi");
    reveal_strlit("hi");
    assert("hindi"@.len() != "auto"@.len()) by { reveal_strlit("auto"); }
    assert("hindi"@.len() != "detect"@.len()) by { reveal_strlit("detect"); }
    assert("hindi"@.len() != "en"@.len()) by { reveal_strlit("en"); }
    assert("hindi"@.len() != "eng"@.len()) by { reveal_strlit("eng"); }
    assert("hindi"@.len() != "english"@.len()) by { reveal_strlit("english"); }
    assert("hindi"@.len() != "ptbr"@.len()) by { reveal_strlit("ptbr"); }
    assert("hindi"@.len() != "br"@.len()) by { reveal_strlit("br"); }
    assert("hindi"@.len() != "pt"@.len()) by { reveal_strlit("pt"); }
    assert("hindi"@[0] != "ptbra"@[0]) by { reveal_strlit("ptbra"); }
    assert("hindi"@.len() != "portugues"@.len()) by { reveal_strlit("portugues"); }
    assert("hindi"@.len() != "portuguese"@.len()) by { reveal_strlit("portuguese"); }
    assert("hindi"@.len() != "brazilian"@.len()) by { reveal_strlit("brazilian"); }
    assert("hindi"@.len() != "ptpt"@.len()) by { reveal_strlit("ptpt"); }
    assert("hindi"@.len() != "portugal"@.len()) by { reveal_strlit("portugal"); }
    assert("hindi"@.len() != "es"@.len()) by { reveal_strlit("es"); }
    assert("hindi"@.len() != "spa"@.len()) by { reveal_strlit("spa"); }
    assert("hindi"@.len() != "spanish"@.len()) by { reveal_strlit("spanish"); }
    assert("hindi"@.len() != "espanol"@.len()) by { reveal_strlit("espanol"); }
    assert("hindi"@.len() != "castellano"@.len()) by { reveal_strlit("castellano"); }
    assert("hindi"@.len() != "fr"@.len()) by { reveal_strlit("fr"); }
    assert("hindi"@.len() != "fra"@.len()) by { reveal_strlit("fra"); }
    assert("hindi"@.len() != "fre"@.len()) by { reveal_strlit("fre"); }
    assert("hindi"@.len() != "french"@.len()) by { reveal_strlit("french"); }
    assert("hindi"@.len() != "francais"@.len()) by { reveal_strlit("francais"); }
    assert("hindi"@.len() != "de"@.len()) by { reveal_strlit("de"); }
    assert("hindi"@.len() != "deu"@.len()) by { reveal_strlit("deu"); }
    assert("hindi"@.len() != "ger"@.len()) by { reveal_strlit("ger"); }
    assert("hindi"@.len() != "german"@.len()) by { reveal_strlit("german"); }
    assert("hindi"@.len() != "deutsch"@.len()) by { reveal_strlit("deutsch"); }
    assert("hindi"@.len() != "it"@.len()) by { reveal_strlit("it"); }
    assert("hindi"@.len() != "ita"@.len()) by { reveal_strlit("ita"); }
    assert("hindi"@.len() != "italian"@.len()) by { reveal_strlit("italian"); }
    assert("hindi"@.len() != "italiano"@.len()) by { reveal_strlit("italiano"); }
    assert("hindi"@.len() != "ja"@.len()) by { reveal_strlit("ja"); }
    assert("hindi"@.len() != "jp"@.len()) by { reveal_strlit("jp"); }
    assert("hindi"@.len() != "jpn"@.len()) by { reveal_strlit("jpn"); }
    assert("hindi"@.len() != "japanese"@.len()) by { reveal_strlit("japanese"); }
    assert("hindi"@.len() != "ko"@.len()) by { reveal_strlit("ko"); }
    assert("hindi"@.len() != "kor"@.len()) by { reveal_strlit("kor"); }
    assert("hindi"@.len() != "korean"@.len()) by { reveal_strlit("korean"); }
    assert("hindi"@.len() != "zh"@.len()) by { reveal_strlit("zh"); }
    assert("hindi"@.len() != "zhcn"@.len()) by { reveal_strlit("zhcn"); }
    assert("hindi"@.len() != "chinese"@.len()) by { reveal_strlit("chinese"); }
    assert("hindi"@.len() != "mandarin"@.len()) by { reveal_strlit("mandarin"); }
    assert("hindi"@.len() != "simplifiedchinese"@.len()) by { reveal_strlit("simplifiedchinese"); }
    assert("hindi"@.len() != "zhtw"@.len()) by { reveal_strlit("zhtw"); }
    assert("hindi"@.len() != "traditionalchinese"@.len()) by { reveal_strlit("traditionalchinese"); }
    assert("hindi"@.len() != "ru"@.len()) by { reveal_strlit("ru"); }
    assert("hindi"@.len() != "rus"@.len()) by { reveal_strlit("rus"); }
    assert("hindi"@.len() != "russian"@.len()) by { reveal_strlit("russian"); }
    assert("hindi"@.len() != "ar"@.len()) by { reveal_strlit("ar"); }
    assert("hindi"@.len() != "ara"@.len()) by { reveal_strlit("ara"); }
    assert("hindi"@.len() != "arabic"@.len()) by { reveal_strlit("arabic"); }
    assert("hindi"@.len() != "nl"@.len()) by { reveal_strlit("nl"); }
    assert("hindi"@.len() != "nld"@.len()) by { reveal_strlit("nld"); }
    assert("hindi"@[0] != "dutch"@[0]) by { reveal_strlit("dutch"); }
    assert("hindi"@.len() != "sv"@.len()) by { reveal_strlit("sv"); }
    assert("hindi"@.len() != "swe"@.len()) by { reveal_strlit("swe"); }
    assert("hindi"@.len() != "swedish"@.len()) by { reveal_strlit("swedish"); }
    assert("hindi"@.len() != "pl"@.len()) by { reveal_strlit("pl"); }
    assert("hindi"@.len() != "pol"@.len()) by { reveal_strlit("pol"); }
    assert("hindi"@.len() != "polish"@.len()) by { reveal_strlit("polish"); }
    assert("hindi"@.len() != "tr"@.len()) by { reveal_strlit("tr"); }
    assert("hindi"@.len() != "tur"@.len()) by { reveal_strlit("tur"); }
    assert("hindi"@.len() != "turkish"@.len()) by { reveal_strlit("turkish"); }
    assert("hindi"@.len() != "hi"@.len()) by { reveal_strlit("hi"); }
    assert("hindi"@.len() != "hin"@.len()) by { reveal_strlit("hin"); }
    reveal_with_fuel(normalize, 6);
    assert(normalize("Hindi"@) =~= "hindi"@);
}

proof fn lemma_name_greek()
    ensures
        canonical_of("Greek"@) == Some("el"@),
{
    reveal_strlit("Greek");
    reveal_strlit("greek");
    reveal_strlit("el");
    assert("greek"@.len() != "auto"@.len()) by { reveal_strlit("auto"); }
    assert("greek"@.len() != "detect"@.len()) by { reveal_strlit("detect"); }
    assert("greek"@.len() != "en"@.len()) by { reveal_strlit("en"); }
    assert("greek"@.len() != "eng"@.len()) by { reveal_strlit("eng"); }
    assert("greek"@.len() != "english"@.len()) by { reveal_strlit("english"); }
    assert("greek"@.len() != "ptbr"@.len()) by { reveal_strlit("ptbr"); }
    assert("greek"@.len() != "br"@.len()) by { reveal_strlit("br"); }
    assert("greek"@.len() != "pt"@.len()) by { reveal_strlit("pt"); }
    assert("greek"@[0] != "ptbra"@[0]) by { reveal_strlit("ptbra"); }
    assert("greek"@.len() != "portugues"@.len()) by { reveal_strlit("portugues"); }
    assert("greek"@.len() != "portuguese"@.len()) by { reveal_strlit("portuguese"); }
    assert("greek"@.len() != "brazilian"@.len()) by { reveal_strlit("brazilian"); }
    assert("greek"@.len() != "ptpt"@.len()) by { reveal_strlit("ptpt"); }
    assert("greek"@.len() != "portugal"@.len()) by { reveal_strlit("portugal"); }
    assert("greek"@.len() != "es"@.len()) by { reveal_strlit("es"); }
    assert("greek"@.len() != "spa"@.len()) by { reveal_strlit("spa"); }
    assert("greek"@.len() != "spanish"@.len()) by { reveal_strlit("spanish"); }
    assert("greek"@.len() != "espanol"@.len()) by { reveal_strlit("espanol"); }
    assert("greek"@.len() != "castellano"@.len()) by { reveal_strlit("castellano"); }
    assert("greek"@.len() != "fr"@.len()) by { reveal_strlit("fr"); }
    assert("greek"@.len() != "fra"@.len()) by { reveal_strlit("fra"); }
    assert("greek"@.len() != "fre"@.len()) by { reveal_strlit("fre"); }
    assert("greek"@.len() != "french"@.len()) by { reveal_strlit("french"); }
    assert("greek"@.len() != "francais"@.len()) by { reveal_strlit("francais"); }
    assert("greek"@.len() != "de"@.len()) by { reveal_strlit("de"); }
    assert("greek"@.len() != "deu"@.len()) by { reveal_strlit("deu"); }
    assert("greek"@.len() != "ger"@.len()) by { reveal_strlit("ger"); }
    assert("greek"@.len() != "german"@.len()) by { reveal_strlit("german"); }
    assert("greek"@.len() != "deutsch"@.len()) by { reveal_strlit("deutsch"); }
    assert("greek"@.len() != "it"@.len()) by { reveal_strlit("it"); }
    assert("greek"@.len() != "ita"@.len()) by { reveal_strlit("ita"); }
    assert("greek"@.len() != "italian"@.len()) by { reveal_strlit("italian"); }
    assert("greek"@.len() != "italiano"@.len()) by { reveal_strlit("italiano"); }
    assert("greek"@.len() != "ja"@.len()) by { reveal_strlit("ja"); }
    assert("greek"@.len() != "jp"@.len()) by { reveal_strlit("jp"); }
    assert("greek"@.len() != "jpn"@.len()) by { reveal_strlit("jpn"); }
    assert("greek"@.len() != "japanese"@.len()) by { reveal_strlit("japanese"); }
    assert("greek"@.len() != "ko"@.len()) by { reveal_strlit("ko"); }
    assert("greek"@.len() != "kor"@.len()) by { reveal_strlit("kor"); }
    assert("greek"@.len() != "korean"@.len()) by { reveal_strlit("korean"); }
    assert("greek"@.len() != "zh"@.len()) by { reveal_strlit("zh"); }
    assert("greek"@.len() != "zhcn"@.len()) by { reveal_strlit("zhcn"); }
    assert("greek"@.len() != "chinese"@.len()) by { reveal_strlit("chinese"); }
    assert("greek"@.len() != "mandarin"@.len()) by { reveal_strlit("mandarin"); }
    assert("greek"@.len() != "simplifiedchinese"@.len()) by { reveal_strlit("simplifiedchinese"); }
    assert("greek"@.len() != "zhtw"@.len()) by { reveal_strlit("zhtw"); }
    assert("greek"@.len() != "traditionalchinese"@.len()) by { reveal_strlit("traditionalchinese"); }
    assert("greek"@.len() != "ru"@.len()) by { reveal_strlit("ru"); }
    assert("greek"@.len() != "rus"@.len()) by { reveal_strlit("rus"); }
    assert("greek"@.len() != "russian"@.len()) by { reveal_strlit("russian"); }
    assert("greek"@.len() != "ar"@.len()) by { reveal_strlit("ar"); }
    assert("greek"@.len() != "ara"@.len()) by { reveal_strlit("ara"); }
    assert("greek"@.len() != "arabic"@.len()) by { reveal_strlit("arabic"); }
    assert("greek"@.len() != "nl"@.len()) by { reveal_strlit("nl"); }
    assert("greek"@.len() != "nld"@.len()) by { reveal_strlit("nld"); }
    assert("greek"@[0] != "dutch"@[0]) by { reveal_strlit("dutch"); }
    assert("greek"@.len() != "sv"@.len()) by { reveal_strlit("sv"); }
    assert("greek"@.len() != "swe"@.len()) by { reveal_strlit("swe"); }
    assert("greek"@.len() != "swedish"@.len()) by { reveal_strlit("swedish"); }
    assert("greek"@.len() != "pl"@.len()) by { reveal_strlit("pl"); }
    assert("greek"@.len() != "pol"@.len()) by { reveal_strlit("pol"); }
    assert("greek"@.len() != "polish"@.len()) by { reveal_strlit("polish"); }
    assert("greek"@.len() != "tr"@.len()) by { reveal_strlit("tr"); }
    assert("greek"@.len() != "tur"@.len()) by { reveal_strlit("tur"); }
    assert("greek"@.len() != "turkish"@.len()) by { reveal_strlit("turkish"); }
    assert("greek"@.len() != "hi"@.len()) by { reveal_strlit("hi"); }
    assert("greek"@.len() != "hin"@.len()) by { reveal_strlit("hin"); }
    assert("greek"@[0] != "hindi"@[0]) by { reveal_strlit("hindi"); }
    assert("greek"@.len() != "el"@.len()) by { reveal_strlit("el"); }
    assert("greek"@.len() != "gre"@.len()) by { reveal_strlit("gre"); }
    reveal_with_fuel(normalize, 6);
    assert(normalize("Greek"@) =~= "greek"@);
}

proof fn lemma_name_hebrew()
    ensures
        canonical_of("Hebrew"@) == Some("he"@),
{
    reveal_strlit("Hebrew");
    reveal_strlit("hebrew");
    reveal_strlit("he");
    assert("hebrew"@.len() != "auto"@.len()) by { reveal_strlit("auto"); }
    assert("hebrew"@[0] != "detect"@[0]) by { reveal_strlit("detect"); }
    assert("hebrew"@.len() != "en"@.len()) by { reveal_strlit("en"); }
    assert("hebrew"@.len() != "eng"@.len()) by { reveal_strlit("eng"); }
    assert("hebrew"@.len() != "english"@.len()) by { reveal_strlit("english"); }
    assert("hebrew"@.len() != "ptbr"@.len()) by { reveal_strlit("ptbr"); }
    assert("hebrew"@.len() != "br"@.len()) by { reveal_strlit("br"); }
    assert("hebrew"@.len() != "pt"@.len()) by { reveal_strlit("pt"); }
    assert("hebrew"@.len() != "ptbra"@.len()) by { reveal_strlit("ptbra"); }
    assert("hebrew"@.len() != "portugues"@.len()) by { reveal_strlit("portugues"); }
    assert("hebrew"@.len() != "portuguese"@.len()) by { reveal_strlit("portuguese"); }
    assert("hebrew"@.len() != "brazilian"@.len()) by { reveal_strlit("brazilian"); }
    assert("hebrew"@.len() != "ptpt"@.len()) by { reveal_strlit("ptpt"); }
    assert("hebrew"@.len() != "portugal"@.len()) by { reveal_strlit("portugal"); }
    assert("hebrew"@.len() != "es"@.len()) by { reveal_strlit("es"); }
    assert("hebrew"@.len() != "spa"@.len()) by { reveal_strlit("spa"); }
    assert("hebrew"@.len() != "spanish"@.len()) by { reveal_strlit("spanish"); }
    assert("hebrew"@.len() != "espanol"@.len()) by { reveal_strlit("espanol"); }
    assert("hebrew"@.len() != "castellano"@.len()) by { reveal_strlit("castellano"); }
    assert("hebrew"@.len() != "fr"@.len()) by { reveal_strlit("fr"); }
    assert("hebrew"@.len() != "fra"@.len()) by { reveal_strlit("fra"); }
    assert("hebrew"@.len() != "fre"@.len()) by { reveal_strlit("fre"); }
    assert("hebrew"@[0] != "french"@[0]) by { reveal_strlit("french"); }
    assert("hebrew"@.len() != "francais"@.len()) by { reveal_strlit("francais"); }
    assert("hebrew"@.len() != "de"@.len()) by { reveal_strlit("de"); }
    assert("hebrew"@.len() != "deu"@.len()) by { reveal_strlit("deu"); }
    assert("hebrew"@.len() != "ger"@.len()) by { reveal_strlit("ger"); }
    assert("hebrew"@[0] != "german"@[0]) by { reveal_strlit("german"); }
    assert("hebrew"@.len() != "deutsch"@.len()) by { reveal_strlit("deutsch"); }
    assert("hebrew"@.len() != "it"@.len()) by { reveal_strlit("it"); }
    assert("hebrew"@.len() != "ita"@.len()) by { reveal_strlit("ita"); }
    assert("hebrew"@.len() != "italian"@.len()) by { reveal_strlit("italian"); }
    assert("hebrew"@.len() != "italiano"@.len()) by { reveal_strlit("italiano"); }
    assert("hebrew"@.len() != "ja"@.len()) by { reveal_strlit("ja"); }
    assert("hebrew"@.len() != "jp"@.len()) by { reveal_strlit("jp"); }
    assert("hebrew"@.len() != "jpn"@.len()) by { reveal_strlit("jpn"); }
    assert("hebrew"@.len() != "japanese"@.len()) by { reveal_strlit("japanese"); }
    assert("hebrew"@.len() != "ko"@.len()) by { reveal_strlit("ko"); }
    assert("hebrew"@.len() != "kor"@.len()) by { reveal_strlit("kor"); }
    assert("hebrew"@[0] != "korean"@[0]) by { reveal_strlit("korean"); }
    assert("hebrew"@.len() != "zh"@.len()) by { reveal_strlit("zh"); }
    assert("hebrew"@.len() != "zhcn"@.len()) by { reveal_strlit("zhcn"); }
    assert("hebrew"@.len() != "chinese"@.len()) by { reveal_strlit("chinese"); }
    assert("hebrew"@.len() != "mandarin"@.len()) by { reveal_strlit("mandarin"); }
    assert("hebrew"@.len() != "simplifiedchinese"@.len()) by { reveal_strlit("simplifiedchinese"); }
    assert("hebrew"@.len() != "zhtw"@.len()) by { reveal_strlit("zhtw"); }
    assert("hebrew"@.len() != "traditionalchinese"@.len()) by { reveal_strlit("traditionalchinese"); }
    assert("hebrew"@.len() != "ru"@.len()) by { reveal_strlit("ru"); }
    assert("hebrew"@.len() != "rus"@.len()) by { reveal_strlit("rus"); }
    assert("hebrew"@.len() != "russian"@.len()) by { reveal_strlit("russian"); }
    assert("hebrew"@.len() != "ar"@.len()) by { reveal_strlit("ar"); }
    assert("hebrew"@.len() != "ara"@.len()) by { reveal_strlit("ara"); }
    assert("hebrew"@[0] != "arabic"@[0]) by { reveal_strlit("arabic"); }
    assert("hebrew"@.len() != "nl"@.len()) by { reveal_strlit("nl"); }
    assert("hebrew"@.len() != "nld"@.len()) by { reveal_strlit("nld"); }
    assert("hebrew"@.len() != "dutch"@.len()) by { reveal_strlit("dutch"); }
    assert("hebrew"@.len() != "sv"@.len()) by { reveal_strlit("sv"); }
    assert("hebrew"@.len() != "swe"@.len()) by { reveal_strlit("swe"); }
    assert("hebrew"@.len() != "swedish"@.len()) by { reveal_strlit("swedish"); }
    assert("hebrew"@.len() != "pl"@.len()) by { reveal_strlit("pl"); }
    assert("hebrew"@.len() != "pol"@.len()) by { reveal_strlit("pol"); }
    assert("hebrew"@[0] != "polish"@[0]) by { reveal_strlit("polish"); }
    assert("hebrew"@.len() != "tr"@.len()) by { reveal_strlit("tr"); }
    assert("hebrew"@.len() != "tur"@.len()) by { reveal_strlit("tur"); }
    assert("hebrew"@.len() != "turkish"@.len()) by { reveal_strlit("turkish"); }
    assert("hebrew"@.len() != "hi"@.len()) by { reveal_strlit("hi"); }
    assert("hebrew"@.len() != "hin"@.len()) by { reveal_strlit("hin"); }
    assert("hebrew"@.len() != "hindi"@.len()) by { reveal_strlit("hindi"); }
    assert("hebrew"@.len() != "el"@.len()) by { reveal_strlit("el"); }
    assert("hebrew"@.len() != "gre"@.len()) by { reveal_strlit("gre"); }
    assert("hebrew"@.len() != "greek"@.len()) by { reveal_strlit("greek"); }
    assert("hebrew"@.len() != "he"@.len()) by { reveal_strlit("he"); }
    assert("hebrew"@.len() != "heb"@.len()) by { reveal_strlit("heb"); }
    reveal_with_fuel(normalize, 7);
    assert(normalize("Hebrew"@) =~= "hebrew"@);
}

proof fn lemma_name_czech()
    ensures
        canonical_of("Czech"@) == Some("cs"@),
{
    reveal_strlit("Czech");
    reveal_strlit("czech");
    reveal_strlit("cs");
    assert("czech"@.len() != "auto"@.len()) by { reveal_strlit("auto"); }
    assert("czech"@.len() != "detect"@.len()) by { reveal_strlit("detect"); }
    assert("czech"@.len() != "en"@.len()) by { reveal_strlit("en"); }
    assert("czech"@.len() != "eng"@.len()) by { reveal_strlit("eng"); }
    assert("czech"@.len() != "english"@.len()) by { reveal_strlit("english"); }
    assert("czech"@.len() != "ptbr"@.len()) by { reveal_strlit("ptbr"); }
    assert("czech"@.len() != "br"@.len()) by { reveal_strlit("br"); }
    assert("czech"@.len() != "pt"@.len()) by { reveal_strlit("pt"); }
    assert("czech"@[0] != "ptbra"@[0]) by { reveal_strlit("ptbra"); }
    assert("czech"@.len() != "portugues"@.len()) by { reveal_strlit("portugues"); }
    assert("czech"@.len() != "portuguese"@.len()) by { reveal_strlit("portuguese"); }
    assert("czech"@.len() != "brazilian"@.len()) by { reveal_strlit("brazilian"); }
    assert("czech"@.len() != "ptpt"@.len()) by { reveal_strlit("ptpt"); }
    assert("czech"@.len() != "portugal"@.len()) by { reveal_strlit("portugal"); }
    assert("czech"@.len() != "es"@.len()) by { reveal_strlit("es"); }
    assert("czech"@.len() != "spa"@.len()) by { reveal_strlit("spa"); }
    assert("czech"@.len() != "spanish"@.len()) by { reveal_strlit("spanish"); }
    assert("czech"@.len() != "espanol"@.len()) by { reveal_strlit("espanol"); }
    assert("czech"@.len() != "castellano"@.len()) by { reveal_strlit("castellano"); }
    assert("czech"@.len() != "fr"@.len()) by { reveal_strlit("fr"); }
    assert("czech"@.len() != "fra"@.len()) by { reveal_strlit("fra"); }
    assert("czech"@.len() != "fre"@.len()) by { reveal_strlit("fre"); }
    assert("czech"@.len() != "french"@.len()) by { reveal_strlit("french"); }
    assert("czech"@.len() != "francais"@.len()) by { reveal_strlit("francais"); }
    assert("czech"@.len() != "de"@.len()) by { reveal_strlit("de"); }
    assert("czech"@.len() != "deu"@.len()) by { reveal_strlit("deu"); }
    assert("czech"@.len() != "ger"@.len()) by { reveal_strlit("ger"); }
    assert("czech"@.len() != "german"@.len()) by { reveal_strlit("german"); }
    assert("czech"@.len() != "deutsch"@.len()) by { reveal_strlit("deutsch"); }
    assert("czech"@.len() != "it"@.len()) by { reveal_strlit("it"); }
    assert("czech"@.len() != "ita"@.len()) by { reveal_strlit("ita"); }
    assert("czech"@.len() != "italian"@.len()) by { reveal_strlit("italian"); }
    assert("czech"@.len() != "italiano"@.len()) by { reveal_strlit("italiano"); }
    assert("czech"@.len() != "ja"@.len()) by { reveal_strlit("ja"); }
    assert("czech"@.len() != "jp"@.len()) by { reveal_strlit("jp"); }
    assert("czech"@.len() != "jpn"@.len()) by { reveal_strlit("jpn"); }
    assert("czech"@.len() != "japanese"@.len()) by { reveal_strlit("japanese"); }
    assert("czech"@.len() != "ko"@.len()) by { reveal_strlit("ko"); }
    assert("czech"@.len() != "kor"@.len()) by { reveal_strlit("kor"); }
    assert("czech"@.len() != "korean"@.len()) by { reveal_strlit("korean"); }
    assert("czech"@.len() != "zh"@.len()) by { reveal_strlit("zh"); }
    assert("czech"@.len() != "zhcn"@.len()) by { reveal_strlit("zhcn"); }
    assert("czech"@.len() != "chinese"@.len()) by { reveal_strlit("chinese"); }
    assert("czech"@.len() != "mandarin"@.len()) by { reveal_strlit("mandarin"); }
    assert("czech"@.len() != "simplifiedchinese"@.len()) by { reveal_strlit("simplifiedchinese"); }
    assert("czech"@.len() != "zhtw"@.len()) by { reveal_strlit("zhtw"); }
    assert("czech"@.len() != "traditionalchinese"@.len()) by { reveal_strlit("traditionalchinese"); }
    assert("czech"@.len() != "ru"@.len()) by { reveal_strlit("ru"); }
    assert("czech"@.len() != "rus"@.len()) by { reveal_strlit("rus"); }
    assert("czech"@.len() != "russian"@.len()) by { reveal_strlit("russian"); }
    assert("czech"@.len() != "ar"@.len()) by { reveal_strlit("ar"); }
    assert("czech"@.len() != "ara"@.len()) by { reveal_strlit("ara"); }
    assert("czech"@.len() != "arabic"@.len()) by { reveal_strlit("arabic"); }
    assert("czech"@.len() != "nl"@.len()) by { reveal_strlit("nl"); }
    assert("czech"@.len() != "nld"@.len()) by { reveal_strlit("nld"); }
    assert("czech"@[0] != "dutch"@[0]) by { reveal_strlit("dutch"); }
    assert("czech"@.len() != "sv"@.len()) by { reveal_strlit("sv"); }
    assert("czech"@.len() != "swe"@.len()) by { reveal_strlit("swe"); }
    assert("czech"@.len() != "swedish"@.len()) by { reveal_strlit("swedish"); }
    assert("czech"@.len() != "pl"@.len()) by { reveal_strlit("pl"); }
    assert("czech"@.len() != "pol"@.len()) by { reveal_strlit("pol"); }
    assert("czech"@.len() != "polish"@.len()) by { reveal_strlit("polish"); }
    assert("czech"@.len() != "tr"@.len()) by { reveal_strlit("tr"); }
    assert("czech"@.len() != "tur"@.len()) by { reveal_strlit("tur"); }
    assert("czech"@.len() != "turkish"@.len()) by { reveal_strlit("turkish"); }
    assert("czech"@.len() != "hi"@.len()) by { reveal_strlit("hi"); }
    assert("czech"@.len() != "hin"@.len()) by { reveal_strlit("hin"); }
    assert("czech"@[0] != "hindi"@[0]) by { reveal_strlit("hindi"); }
    assert("czech"@.len() != "el"@.len()) by { reveal_strlit("el"); }
    assert("czech"@.len() != "gre"@.len()) by { reveal_strlit("gre"); }
    assert("czech"@[0] != "greek"@[0]) by { reveal_strlit("greek"); }
    assert("czech"@.len() != "he"@.len()) by { reveal_strlit("he"); }
    assert("czech"@.len() != "heb"@.len()) by { reveal_strlit("heb"); }
    assert("czech"@.len() != "hebrew"@.len()) by { reveal_strlit("hebrew"); }
    assert("czech"@.len() != "iw"@.len()) by { reveal_strlit("iw"); }
    assert("czech"@.len() != "cs"@.len()) by { reveal_strlit("cs"); }
    assert("czech"@.len() != "cze"@.len()) by { reveal_strlit("cze"); }
    reveal_with_fuel(normalize, 6);
    assert(normalize("Czech"@) =~= "czech"@);
}

proof fn lemma_name_danish()
    ensures
        canonical_of("Danish"@) == Some("da"@),
{
    reveal_strlit("Danish");
    reveal_strlit("danish");
    reveal_strlit("da");
    assert("danish"@.len() != "auto"@.len()) by { reveal_strlit("auto"); }
    assert("danish"@[1] != "detect"@[1]) by { reveal_strlit("detect"); }
    assert("danish"@.len() != "en"@.len()) by { reveal_strlit("en"); }
    assert("danish"@.len() != "eng"@.len()) by { reveal_strlit("eng"); }
    assert("danish"@.len() != "english"@.len()) by { reveal_strlit("english"); }
    assert("danish"@.len() != "ptbr"@.len()) by { reveal_strlit("ptbr"); }
    assert("danish"@.len() != "br"@.len()) by { reveal_strlit("br"); }
    assert("danish"@.len() != "pt"@.len()) by { reveal_strlit("pt"); }
    assert("danish"@.len() != "ptbra"@.len()) by { reveal_strlit("ptbra"); }
    assert("danish"@.len() != "portugues"@.len()) by { reveal_strlit("portugues"); }
    assert("danish"@.len() != "portuguese"@.len()) by { reveal_strlit("portuguese"); }
    assert("danish"@.len() != "brazilian"@.len()) by { reveal_strlit("brazilian"); }
    assert("danish"@.len() != "ptpt"@.len()) by { reveal_strlit("ptpt"); }
    assert("danish"@.len() != "portugal"@.len()) by { reveal_strlit("portugal"); }
    assert("danish"@.len() != "es"@.len()) by { reveal_strlit("es"); }
    assert("danish"@.len() != "spa"@.len()) by { reveal_strlit("spa"); }
    assert("danish"@.len() != "spanish"@.len()) by { reveal_strlit("spanish"); }
    assert("danish"@.len() != "espanol"@.len()) by { reveal_strlit("espanol"); }
    assert("danish"@.len() != "castellano"@.len()) by { reveal_strlit("castellano"); }
    assert("danish"@.len() != "fr"@.len()) by { reveal_strlit("fr"); }
    assert("danish"@.len() != "fra"@.len()) by { reveal_strlit("fra"); }
    assert("danish"@.len() != "fre"@.len()) by { reveal_strlit("fre"); }
    assert("danish"@[0] != "french"@[0]) by { reveal_strlit("french"); }
    assert("danish"@.len() != "francais"@.len()) by { reveal_strlit("francais"); }
    assert("danish"@.len() != "de"@.len()) by { reveal_strlit("de"); }
    assert("danish"@.len() != "deu"@.len()) by { reveal_strlit("deu"); }
    assert("danish"@.len() != "ger"@.len()) by { reveal_strlit("ger"); }
    assert("danish"@[0] != "german"@[0]) by { reveal_strlit("german"); }
    assert("danish"@.len() != "deutsch"@.len()) by { reveal_strlit("deutsch"); }
    assert("danish"@.len() != "it"@.len()) by { reveal_strlit("it"); }
    assert("danish"@.len() != "ita"@.len()) by { reveal_strlit("ita"); }
    assert("danish"@.len() != "italian"@.len()) by { reveal_strlit("italian"); }
    assert("danish"@.len() != "italiano"@.len()) by { reveal_strlit("italiano"); }
    assert("danish"@.len() != "ja"@.len()) by { reveal_strlit("ja"); }
    assert("danish"@.len() != "jp"@.len()) by { reveal_strlit("jp"); }
    assert("danish"@.len() != "jpn"@.len()) by { reveal_strlit("jpn"); }
    assert("danish"@.len() != "japanese"@.len()) by { reveal_strlit("japanese"); }
    assert("danish"@.len() != "ko"@.len()) by { reveal_strlit("ko"); }
    assert("danish"@.len() != "kor"@.len()) by { reveal_strlit("kor"); }
    assert("danish"@[0] != "korean"@[0]) by { reveal_strlit("korean"); }
    assert("danish"@.len() != "zh"@.len()) by { reveal_strlit("zh"); }
    assert("danish"@.len() != "zhcn"@.len()) by { reveal_strlit("zhcn"); }
    assert("danish"@.len() != "chinese"@.len()) by { reveal_strlit("chinese"); }
    assert("danish"@.len() != "mandarin"@.len()) by { reveal_strlit("mandarin"); }
    assert("danish"@.len() != "simplifiedchinese"@.len()) by { reveal_strlit("simplifiedchinese"); }
    assert("danish"@.len() != "zhtw"@.len()) by { reveal_strlit("zhtw"); }
    assert("danish"@.len() != "traditionalchinese"@.len()) by { reveal_strlit("traditionalchinese"); }
    assert("danish"@.len() != "ru"@.len()) by { reveal_strlit("ru"); }
    assert("danish"@.len() != "rus"@.len()) by { reveal_strlit("rus"); }
    assert("danish"@.len() != "russian"@.len()) by { reveal_strlit("russian"); }
    assert("danish"@.len() != "ar"@.len()) by { reveal_strlit("ar"); }
    assert("danish"@.len() != "ara"@.len()) by { reveal_strlit("ara"); }
    assert("danish"@[0] != "arabic"@[0]) by { reveal_strlit("arabic"); }
    assert("danish"@.len() != "nl"@.len()) by { reveal_strlit("nl"); }
    assert("danish"@.len() != "nld"@.len()) by { reveal_strlit("nld"); }
    assert("danish"@.len() != "dutch"@.len()) by { reveal_strlit("dutch"); }
    assert("danish"@.len() != "sv"@.len()) by { reveal_strlit("sv"); }
    assert("danish"@.len() != "swe"@.len()) by { reveal_strlit("swe"); }
    assert("danish"@.len() != "swedish"@.len()) by { reveal_strlit("swedish"); }
    assert("danish"@.len() != "pl"@.len()) by { reveal_strlit("pl"); }
    assert("danish"@.len() != "pol"@.len()) by { reveal_strlit("pol"); }
    assert("danish"@[0] != "polish"@[0]) by { reveal_strlit("polish"); }
    assert("danish"@.len() != "tr"@.len()) by { reveal_strlit("tr"); }
    assert("danish"@.len() != "tur"@.len()) by { reveal_strlit("tur"); }
    assert("danish"@.len() != "turkish"@.len()) by { reveal_strlit("turkish"); }
    assert("danish"@.len() != "hi"@.len()) by { reveal_strlit("hi"); }
    assert("danish"@.len() != "hin"@.len()) by { reveal_strlit("hin"); }
    assert("danish"@.len() != "hindi"@.len()) by { reveal_strlit("hindi"); }
    assert("danish"@.len() != "el"@.len()) by { reveal_strlit("el"); }
    assert("danish"@.len() != "gre"@.len()) by { reveal_strlit("gre"); }
    assert("danish"@.len() != "greek"@.len()) by { reveal_strlit("greek"); }
    assert("danish"@.len() != "he"@.len()) by { reveal_strlit("he"); }
    assert("danish"@.len() != "heb"@.len()) by { reveal_strlit("heb"); }
    assert("danish"@[0] != "hebrew"@[0]) by { reveal_strlit("hebrew"); }
    assert("danish"@.len() != "iw"@.len()) by { reveal_strlit("iw"); }
    assert("danish"@.len() != "cs"@.len()) by { reveal_strlit("cs"); }
    assert("danish"@.len() != "cze"@.len()) by { reveal_strlit("cze"); }
    assert("danish"@.len() != "czech"@.len()) by { reveal_strlit("czech"); }
    assert("danish"@.len() != "da"@.len()) by { reveal_strlit("da"); }
    assert("danish"@.len() != "dan"@.len()) by { reveal_strlit("dan"); }
    reveal_with_fuel(normalize, 7);
    assert(normalize("Danish"@) =~= "danish"@);
}

proof fn lemma_name_finnish()
    ensures
        canonical_of("Finnish"@) == Some("fi"@),
{
    reveal_strlit("Finnish");
    reveal_strlit("finnish");
    reveal_strlit("fi");
    assert("finnish"@.len() != "auto"@.len()) by { reveal_strlit("auto"); }
    assert("finnish"@.len() != "detect"@.len()) by { reveal_strlit("detect"); }
    assert("finnish"@.len() != "en"@.len()) by { reveal_strlit("en"); }
    assert("finnish"@.len() != "eng"@.len()) by { reveal_strlit("eng"); }
    assert("finnish"@[0] != "english"@[0]) by { reveal_strlit("english"); }
    assert("finnish"@.len() != "ptbr"@.len()) by { reveal_strlit("ptbr"); }
    assert("finnish"@.len() != "br"@.len()) by { reveal_strlit("br"); }
    assert("finnish"@.len() != "pt"@.len()) by { reveal_strlit("pt"); }
    assert("finnish"@.len() != "ptbra"@.len()) by { reveal_strlit("ptbra"); }
    assert("finnish"@.len() != "portugues"@.len()) by { reveal_strlit("portugues"); }
    assert("finnish"@.len() != "portuguese"@.len()) by { reveal_strlit("portuguese"); }
    assert("finnish"@.len() != "brazilian"@.len()) by { reveal_strlit("brazilian"); }
    assert("finnish"@.len() != "ptpt"@.len()) by { reveal_strlit("ptpt"); }
    assert("finnish"@.len() != "portugal"@.len()) by { reveal_strlit("portugal"); }
    assert("finnish"@.len() != "es"@.len()) by { reveal_strlit("es"); }
    assert("finnish"@.len() != "spa"@.len()) by { reveal_strlit("spa"); }
    assert("finnish"@[0] != "spanish"@[0]) by { reveal_strlit("spanish"); }
    assert("finnish"@[0] != "espanol"@[0]) by { reveal_strlit("espanol"); }
    assert("finnish"@.len() != "castellano"@.len()) by { reveal_strlit("castellano"); }
    assert("finnish"@.len() != "fr"@.len()) by { reveal_strlit("fr"); }
    assert("finnish"@.len() != "fra"@.len()) by { reveal_strlit("fra"); }
    assert("finnish"@.len() != "fre"@.len()) by { reveal_strlit("fre"); }
    assert("finnish"@.len() != "french"@.len()) by { reveal_strlit("french"); }
    assert("finnish"@.len() != "francais"@.len()) by { reveal_strlit("francais"); }
    assert("finnish"@.len() != "de"@.len()) by { reveal_strlit("de"); }
    assert("finnish"@.len() != "deu"@.len()) by { reveal_strlit("deu"); }
    assert("finnish"@.len() != "ger"@.len()) by { reveal_strlit("ger"); }
    assert("finnish"@.len() != "german"@.len()) by { reveal_strlit("german"); }
    assert("finnish"@[0] != "deutsch"@[0]) by { reveal_strlit("deutsch"); }
    assert("finnish"@.len() != "it"@.len()) by { reveal_strlit("it"); }
    assert("finnish"@.len() != "ita"@.len()) by { reveal_strlit("ita"); }
    assert("finnish"@[0] != "italian"@[0]) by { reveal_strlit("italian"); }
    assert("finnish"@.len() != "italiano"@.len()) by { reveal_strlit("italiano"); }
    assert("finnish"@.len() != "ja"@.len()) by { reveal_strlit("ja"); }
    assert("finnish"@.len() != "jp"@.len()) by { reveal_strlit("jp"); }
    assert("finnish"@.len() != "jpn"@.len()) by { reveal_strlit("jpn"); }
    assert("finnish"@.len() != "japanese"@.len()) by { reveal_strlit("japanese"); }
    assert("finnish"@.len() != "ko"@.len()) by { reveal_strlit("ko"); }
    assert("finnish"@.len() != "kor"@.len()) by { reveal_strlit("kor"); }
    assert("finnish"@.len() != "korean"@.len()) by { reveal_strlit("korean"); }
    assert("finnish"@.len() != "zh"@.len()) by { reveal_strlit("zh"); }
    assert("finnish"@.len() != "zhcn"@.len()) by { reveal_strlit("zhcn"); }
    assert("finnish"@[0] != "chinese"@[0]) by { reveal_strlit("chinese"); }
    assert("finnish"@.len() != "mandarin"@.len()) by { reveal_strlit("mandarin"); }
    assert("finnish"@.len() != "simplifiedchinese"@.len()) by { reveal_strlit("simplifiedchinese"); }
    assert("finnish"@.len() != "zhtw"@.len()) by { reveal_strlit("zhtw"); }
    assert("finnish"@.len() != "traditionalchinese"@.len()) by { reveal_strlit("traditionalchinese"); }
    assert("finnish"@.len() != "ru"@.len()) by { reveal_strlit("ru"); }
    assert("finnish"@.len() != "rus"@.len()) by { reveal_strlit("rus"); }
    assert("finnish"@[0] != "russian"@[0]) by { reveal_strlit("russian"); }
    assert("finnish"@.len() != "ar"@.len()) by { reveal_strlit("ar"); }
    assert("finnish"@.len() != "ara"@.len()) by { reveal_strlit("ara"); }
    assert("finnish"@.len() != "arabic"@.len()) by { reveal_strlit("arabic"); }
    assert("finnish"@.len() != "nl"@.len()) by { reveal_strlit("nl"); }
    assert("finnish"@.len() != "nld"@.len()) by { reveal_strlit("nld"); }
    assert("finnish"@.len() != "dutch"@.len()) by { reveal_strlit("dutch"); }
    assert("finnish"@.len() != "sv"@.len()) by { reveal_strlit("sv"); }
    assert("finnish"@.len() != "swe"@.len()) by { reveal_strlit("swe"); }
    assert("finnish"@[0] != "swedish"@[0]) by { reveal_strlit("swedish"); }
    assert("finnish"@.len() != "pl"@.len()) by { reveal_strlit("pl"); }
    assert("finnish"@.len() != "pol"@.len()) by { reveal_strlit("pol"); }
    assert("finnish"@.len() != "polish"@.len()) by { reveal_strlit("polish"); }
    assert("finnish"@.len() != "tr"@.len()) by { reveal_strlit("tr"); }
    assert("finnish"@.len() != "tur"@.len()) by { reveal_strlit("tur"); }
    assert("finnish"@[0] != "turkish"@[0]) by { reveal_strlit("turkish"); }
    assert("finnish"@.len() != "hi"@.len()) by { reveal_strlit("hi"); }
    assert("finnish"@.len() != "hin"@.len()) by { reveal_strlit("hin"); }
    assert("finnish"@.len() != "hindi"@.len()) by { reveal_strlit("hindi"); }
    assert("finnish"@.len() != "el"@.len()) by { reveal_strlit("el"); }
    assert("finnish"@.len() != "gre"@.len()) by { reveal_strlit("gre"); }
    assert("finnish"@.len() != "greek"@.len()) by { reveal_strlit("greek"); }
    assert("finnish"@.len() != "he"@.len()) by { reveal_strlit("he"); }
    assert("finnish"@.len() != "heb"@.len()) by { reveal_strlit("heb"); }
    assert("finnish"@.len() != "hebrew"@.len()) by { reveal_strlit("hebrew"); }
    assert("finnish"@.len() != "iw"@.len()) by { reveal_strlit("iw"); }
    assert("finnish"@.len() != "cs"@.len()) by { reveal_strlit("cs"); }
    assert("finnish"@.len() != "cze"@.len()) by { reveal_strlit("cze"); }
    assert("finnish"@.len() != "czech"@.len()) by { reveal_strlit("czech"); }
    assert("finnish"@.len() != "da"@.len()) by { reveal_strlit("da"); }
    assert("finnish"@.len() != "dan"@.len()) by { reveal_strlit("dan"); }
    assert("finnish"@.len() != "danish"@.len()) by { reveal_strlit("danish"); }
    assert("finnish"@.len() != "fi"@.len()) by { reveal_strlit("fi"); }
    assert("finnish"@.len() != "fin"@.len()) by { reveal_strlit("fin"); }
    reveal_with_fuel(normalize, 8);
    assert(normalize("Finnish"@) =~= "finnish"@);
}

proof fn lemma_name_norwegian()
    ensures
        canonical_of("Norwegian"@) == Some("no"@),
{
    reveal_strlit("Norwegian");
    reveal_strlit("norwegian");
    reveal_strlit("no");
    assert("norwegian"@.len() != "auto"@.len()) by { reveal_strlit("auto"); }
    assert("norwegian"@.len() != "detect"@.len()) by { reveal_strlit("detect"); }
    assert("norwegian"@.len() != "en"@.len()) by { reveal_strlit("en"); }
    assert("norwegian"@.len() != "eng"@.len()) by { reveal_strlit("eng"); }
    assert("norwegian"@.len() != "english"@.len()) by { reveal_strlit("english"); }
    assert("norwegian"@.len() != "ptbr"@.len()) by { reveal_strlit("ptbr"); }
    assert("norwegian"@.len() != "br"@.len()) by { reveal_strlit("br"); }
    assert("norwegian"@.len() != "pt"@.len()) by { reveal_strlit("pt"); }
    assert("norwegian"@.len() != "ptbra"@.len()) by { reveal_strlit("ptbra"); }
    assert("norwegian"@[0] != "portugues"@[0]) by { reveal_strlit("portugues"); }
    assert("norwegian"@.len() != "portuguese"@.len()) by { reveal_strlit("portuguese"); }
    assert("norwegian"@[0] != "brazilian"@[0]) by { reveal_strlit("brazilian"); }
    assert("norwegian"@.len() != "ptpt"@.len()) by { reveal_strlit("ptpt"); }
    assert("norwegian"@.len() != "portugal"@.len()) by { reveal_strlit("portugal"); }
    assert("norwegian"@.len() != "es"@.len()) by { reveal_strlit("es"); }
    assert("norwegian"@.len() != "spa"@.len()) by { reveal_strlit("spa"); }
    assert("norwegian"@.len() != "spanish"@.len()) by { reveal_strlit("spanish"); }
    assert("norwegian"@.len() != "espanol"@.len()) by { reveal_strlit("espanol"); }
    assert("norwegian"@.len() != "castellano"@.len()) by { reveal_strlit("castellano"); }
    assert("norwegian"@.len() != "fr"@.len()) by { reveal_strlit("fr"); }
    assert("norwegian"@.len() != "fra"@.len()) by { reveal_strlit("fra"); }
    assert("norwegian"@.len() != "fre"@.len()) by { reveal_strlit("fre"); }
    assert("norwegian"@.len() != "french"@.len()) by { reveal_strlit("french"); }
    assert("norwegian"@.len() != "francais"@.len()) by { reveal_strlit("francais"); }
    assert("norwegian"@.len() != "de"@.len()) by { reveal_strlit("de"); }
    assert("norwegian"@.len() != "deu"@.len()) by { reveal_strlit("deu"); }
    assert("norwegian"@.len() != "ger"@.len()) by { reveal_strlit("ger"); }
    assert("norwegian"@.len() != "german"@.len()) by { reveal_strlit("german"); }
    assert("norwegian"@.len() != "deutsch"@.len()) by { reveal_strlit("deutsch"); }
    assert("norwegian"@.len() != "it"@.len()) by { reveal_strlit("it"); }
    assert("norwegian"@.len() != "ita"@.len()) by { reveal_strlit("ita"); }
    assert("norwegian"@.len() != "italian"@.len()) by { reveal_strlit("italian"); }
    assert("norwegian"@.len() != "italiano"@.len()) by { reveal_strlit("italiano"); }
    assert("norwegian"@.len() != "ja"@.len()) by { reveal_strlit("ja"); }
    assert("norwegian"@.len() != "jp"@.len()) by { reveal_strlit("jp"); }
    assert("norwegian"@.len() != "jpn"@.len()) by { reveal_strlit("jpn"); }
    assert("norwegian"@.len() != "japanese"@.len()) by { reveal_strlit("japanese"); }
    assert("norwegian"@.len() != "ko"@.len()) by { reveal_strlit("ko"); }
    assert("norwegian"@.len() != "kor"@.len()) by { reveal_strlit("kor"); }
    assert("norwegian"@.len() != "korean"@.len()) by { reveal_strlit("korean"); }
    assert("norwegian"@.len() != "zh"@.len()) by { reveal_strlit("zh"); }
    assert("norwegian"@.len() != "zhcn"@.len()) by { reveal_strlit("zhcn"); }
    assert("norwegian"@.len() != "chinese"@.len()) by { reveal_strlit("chinese"); }
    assert("norwegian"@.len() != "mandarin"@.len()) by { reveal_strlit("mandarin"); }
    assert("norwegian"@.len() != "simplifiedchinese"@.len()) by { reveal_strlit("simplifiedchinese"); }
    assert("norwegian"@.len() != "zhtw"@.len()) by { reveal_strlit("zhtw"); }
    assert("norwegian"@.len() != "traditionalchinese"@.len()) by { reveal_strlit("traditionalchinese"); }
    assert("norwegian"@.len() != "ru"@.len()) by { reveal_strlit("ru"); }
    assert("norwegian"@.len() != "rus"@.len()) by { reveal_strlit("rus"); }
    assert("norwegian"@.len() != "russian"@.len()) by { reveal_strlit("russian"); }
    assert("norwegian"@.len() != "ar"@.len()) by { reveal_strlit("ar"); }
    assert("norwegian"@.len() != "ara"@.len()) by { reveal_strlit("ara"); }
    assert("norwegian"@.len() != "arabic"@.len()) by { reveal_strlit("arabic"); }
    assert("norwegian"@.len() != "nl"@.len()) by { reveal_strlit("nl"); }
    assert("norwegian"@.len() != "nld"@.len()) by { reveal_strlit("nld"); }
    assert("norwegian"@.len() != "dutch"@.len()) by { reveal_strlit("dutch"); }
    assert("norwegian"@.len() != "sv"@.len()) by { reveal_strlit("sv"); }
    assert("norwegian"@.len() != "swe"@.len()) by { reveal_strlit("swe"); }
    assert("norwegian"@.len() != "swedish"@.len()) by { reveal_strlit("swedish"); }
    assert("norwegian"@.len() != "pl"@.len()) by { reveal_strlit("pl"); }
    assert("norwegian"@.len() != "pol"@.len()) by { reveal_strlit("pol"); }
    assert("norwegian"@.len() != "polish"@.len()) by { reveal_strlit("polish"); }
    assert("norwegian"@.len() != "tr"@.len()) by { reveal_strlit("tr"); }
    assert("norwegian"@.len() != "tur"@.len()) by { reveal_strlit("tur"); }
    assert("norwegian"@.len() != "turkish"@.len()) by { reveal_strlit("turkish"); }
    assert("norwegian"@.len() != "hi"@.len()) by { reveal_strlit("hi"); }
    assert("norwegian"@.len() != "hin"@.len()) by { reveal_strlit("hin"); }
    assert("norwegian"@.len() != "hindi"@.len()) by { reveal_strlit("hindi"); }
    assert("norwegian"@.len() != "el"@.len()) by { reveal_strlit("el"); }
    assert("norwegian"@.len() != "gre"@.len()) by { reveal_strlit("gre"); }
    assert("norwegian"@.len() != "greek"@.len()) by { reveal_strlit("greek"); }
    assert("norwegian"@.len() != "he"@.len()) by { reveal_strlit("he"); }
    assert("norwegian"@.len() != "heb"@.len()) by { reveal_strlit("heb"); }
    assert("norwegian"@.len() != "hebrew"@.len()) by { reveal_strlit("hebrew"); }
    assert("norwegian"@.len() != "iw"@.len()) by { reveal_strlit("iw"); }
    assert("norwegian"@.len() != "cs"@.len()) by { reveal_strlit("cs"); }
    assert("norwegian"@.len() != "cze"@.len()) by { reveal_strlit("cze"); }
    assert("norwegian"@.len() != "czech"@.len()) by { reveal_strlit("czech"); }
    assert("norwegian"@.len() != "da"@.len()) by { reveal_strlit("da"); }
    assert("norwegian"@.len() != "dan"@.len()) by { reveal_strlit("dan"); }
    assert("norwegian"@.len() != "danish"@.len()) by { reveal_strlit("danish"); }
    assert("norwegian"@.len() != "fi"@.len()) by { reveal_strlit("fi"); }
    assert("norwegian"@.len() != "fin"@.len()) by { reveal_strlit("fin"); }
    assert("norwegian"@.len() != "finnish"@.len()) by { reveal_strlit("finnish"); }
    assert("norwegian"@.len() != "no"@.len()) by { reveal_strlit("no"); }
    assert("norwegian"@.len() != "nor"@.len()) by { reveal_strlit("nor"); }
    reveal_with_fuel(normalize, 10);
    assert(normalize("Norwegian"@) =~= "norwegian"@);
}

proof fn lemma_name_ukrainian()
    ensures
        canonical_of("Ukrainian"@) == Some("uk"@),
{
    reveal_strlit("Ukrainian");
    reveal_strlit("ukrainian");
    reveal_strlit("uk");
    assert("ukrainian"@.len() != "auto"@.len()) by { reveal_strlit("auto"); }
    assert("ukrainian"@.len() != "detect"@.len()) by { reveal_strlit("detect"); }
    assert("ukrainian"@.len() != "en"@.len()) by { reveal_strlit("en"); }
    assert("ukrainian"@.len() != "eng"@.len()) by { reveal_strlit("eng"); }
    assert("ukrainian"@.len() != "english"@.len()) by { reveal_strlit("english"); }
    assert("ukrainian"@.len() != "ptbr"@.len()) by { reveal_strlit("ptbr"); }
    assert("ukrainian"@.len() != "br"@.len()) by { reveal_strlit("br"); }
    assert("ukrainian"@.len() != "pt"@.len()) by { reveal_strlit("pt"); }
    assert("ukrainian"@.len() != "ptbra"@.len()) by { reveal_strlit("ptbra"); }
    assert("ukrainian"@[0] != "portugues"@[0]) by { reveal_strlit("portugues"); }
    assert("ukrainian"@.len() != "portuguese"@.len()) by { reveal_strlit("portuguese"); }
    assert("ukrainian"@[0] != "brazilian"@[0]) by { reveal_strlit("brazilian"); }
    assert("ukrainian"@.len() != "ptpt"@.len()) by { reveal_strlit("ptpt"); }
    assert("ukrainian"@.len() != "portugal"@.len()) by { reveal_strlit("portugal"); }
    assert("ukrainian"@.len() != "es"@.len()) by { reveal_strlit("es"); }
    assert("ukrainian"@.len() != "spa"@.len()) by { reveal_strlit("spa"); }
    assert("ukrainian"@.len() != "spanish"@.len()) by { reveal_strlit("spanish"); }
    assert("ukrainian"@.len() != "espanol"@.len()) by { reveal_strlit("espanol"); }
    assert("ukrainian"@.len() != "castellano"@.len()) by { reveal_strlit("castellano"); }
    assert("ukrainian"@.len() != "fr"@.len()) by { reveal_strlit("fr"); }
    assert("ukrainian"@.len() != "fra"@.len()) by { reveal_strlit("fra"); }
    assert("ukrainian"@.len() != "fre"@.len()) by { reveal_strlit("fre"); }
    assert("ukrainian"@.len() != "french"@.len()) by { reveal_strlit("french"); }
    assert("ukrainian"@.len() != "francais"@.len()) by { reveal_strlit("francais"); }
    assert("ukrainian"@.len() != "de"@.len()) by { reveal_strlit("de"); }
    assert("ukrainian"@.len() != "deu"@.len()) by { reveal_strlit("deu"); }
    assert("ukrainian"@.len() != "ger"@.len()) by { reveal_strlit("ger"); }
    assert("ukrainian"@.len() != "german"@.len()) by { reveal_strlit("german"); }
    assert("ukrainian"@.len() != "deutsch"@.len()) by { reveal_strlit("deutsch"); }
    assert("ukrainian"@.len() != "it"@.len()) by { reveal_strlit("it"); }
    assert("ukrainian"@.len() != "ita"@.len()) by { reveal_strlit("ita"); }
    assert("ukrainian"@.len() != "italian"@.len()) by { reveal_strlit("italian"); }
    assert("ukrainian"@.len() != "italiano"@.len()) by { reveal_strlit("italiano"); }
    assert("ukrainian"@.len() != "ja"@.len()) by { reveal_strlit("ja"); }
    assert("ukrainian"@.len() != "jp"@.len()) by { reveal_strlit("jp"); }
    assert("ukrainian"@.len() != "jpn"@.len()) by { reveal_strlit("jpn"); }
    assert("ukrainian"@.len() != "japanese"@.len()) by { reveal_strlit("japanese"); }
    assert("ukrainian"@.len() != "ko"@.len()) by { reveal_strlit("ko"); }
    assert("ukrainian"@.len() != "kor"@.len()) by { reveal_strlit("kor"); }
    assert("ukrainian"@.len() != "korean"@.len()) by { reveal_strlit("korean"); }
    assert("ukrainian"@.len() != "zh"@.len()) by { reveal_strlit("zh"); }
    assert("ukrainian"@.len() != "zhcn"@.len()) by { reveal_strlit("zhcn"); }
    assert("ukrainian"@.len() != "chinese"@.len()) by { reveal_strlit("chinese"); }
    assert("ukrainian"@.len() != "mandarin"@.len()) by { reveal_strlit("mandarin"); }
    assert("ukrainian"@.len() != "simplifiedchinese"@.len()) by { reveal_strlit("simplifiedchinese"); }
    assert("ukrainian"@.len() != "zhtw"@.len()) by { reveal_strlit("zhtw"); }
    assert("ukrainian"@.len() != "traditionalchinese"@.len()) by { reveal_strlit("traditionalchinese"); }
    assert("ukrainian"@.len() != "ru"@.len()) by { reveal_strlit("ru"); }
    assert("ukrainian"@.len() != "rus"@.len()) by { reveal_strlit("rus"); }
    assert("ukrainian"@.len() != "russian"@.len()) by { reveal_strlit("russian"); }
    assert("ukrainian"@.len() != "ar"@.len()) by { reveal_strlit("ar"); }
    assert("ukrainian"@.len() != "ara"@.len()) by { reveal_strlit("ara"); }
    assert("ukrainian"@.len() != "arabic"@.len()) by { reveal_strlit("arabic"); }
    assert("ukrainian"@.len() != "nl"@.len()) by { reveal_strlit("nl"); }
    assert("ukrainian"@.len() != "nld"@.len()) by { reveal_strlit("nld"); }
    assert("ukrainian"@.len() != "dutch"@.len()) by { reveal_strlit("dutch"); }
    assert("ukrainian"@.len() != "sv"@.len()) by { reveal_strlit("sv"); }
    assert("ukrainian"@.len() != "swe"@.len()) by { reveal_strlit("swe"); }
    assert("ukrainian"@.len() != "swedish"@.len()) by { reveal_strlit("swedish"); }
    assert("ukrainian"@.len() != "pl"@.len()) by { reveal_strlit("pl"); }
    assert("ukrainian"@.len() != "pol"@.len()) by { reveal_strlit("pol"); }
    assert("ukrainian"@.len() != "polish"@.len()) by { reveal_strlit("polish"); }
    assert("ukrainian"@.len() != "tr"@.len()) by { reveal_strlit("tr"); }
    assert("ukrainian"@.len() != "tur"@.len()) by { reveal_strlit("tur"); }
    assert("ukrainian"@.len() != "turkish"@.len()) by { reveal_strlit("turkish"); }
    assert("ukrainian"@.len() != "hi"@.len()) by { reveal_strlit("hi"); }
    assert("ukrainian"@.len() != "hin"@.len()) by { reveal_strlit("hin"); }
    assert("ukrainian"@.len() != "hindi"@.len()) by { reveal_strlit("hindi"); }
    assert("ukrainian"@.len() != "el"@.len()) by { reveal_strlit("el"); }
    assert("ukrainian"@.len() != "gre"@.len()) by { reveal_strlit("gre"); }
    assert("ukrainian"@.len() != "greek"@.len()) by { reveal_strlit("greek"); }
    assert("ukrainian"@.len() != "he"@.len()) by { reveal_strlit("he"); }
    assert("ukrainian"@.len() != "heb"@.len()) by { reveal_strlit("heb"); }
    assert("ukrainian"@.len() != "hebrew"@.len()) by { reveal_strlit("hebrew"); }
    assert("ukrainian"@.len() != "iw"@.len()) by { reveal_strlit("iw"); }
    assert("ukrainian"@.len() != "cs"@.len()) by { reveal_strlit("cs"); }
    assert("ukrainian"@.len() != "cze"@.len()) by { reveal_strlit("cze"); }
    assert("ukrainian"@.len() != "czech"@.len()) by { reveal_strlit("czech"); }
    assert("ukrainian"@.len() != "da"@.len()) by { reveal_strlit("da"); }
    assert("ukrainian"@.len() != "dan"@.len()) by { reveal_strlit("dan"); }
    assert("ukrainian"@.len() != "danish"@.len()) by { reveal_strlit("danish"); }
    assert("ukrainian"@.len() != "fi"@.len()) by { reveal_strlit("fi"); }
    assert("ukrainian"@.len() != "fin"@.len()) by { reveal_strlit("fin"); }
    assert("ukrainian"@.len() != "finnish"@.len()) by { reveal_strlit("finnish"); }
    assert("ukrainian"@.len() != "no"@.len()) by { reveal_strlit("no"); }
    assert("ukrainian"@.len() != "nor"@.len()) by { reveal_strlit("nor"); }
    assert("ukrainian"@[0] != "norwegian"@[0]) by { reveal_strlit("norwegian"); }
    assert("ukrainian"@.len() != "uk"@.len()) by { reveal_strlit("uk"); }
    assert("ukrainian"@.len() != "ukr"@.len()) by { reveal_strlit("ukr"); }
    reveal_with_fuel(normalize, 10);
    assert(normalize("Ukrainian"@) =~= "ukrainian"@);
}

proof fn lemma_name_vietnamese()
    ensures
        canonical_of("Vietnamese"@) == Some("vi"@),
{
    reveal_strlit("Vietnamese");
    reveal_strlit("vietnamese");
    reveal_strlit("vi");
    assert("vietnamese"@.len() != "auto"@.len()) by { reveal_strlit("auto"); }
    assert("vietnamese"@.len() != "detect"@.len()) by { reveal_strlit("detect"); }
    assert("vietnamese"@.len() != "en"@.len()) by { reveal_strlit("en"); }
    assert("vietnamese"@.len() != "eng"@.len()) by { reveal_strlit("eng"); }
    assert("vietnamese"@.len() != "english"@.len()) by { reveal_strlit("english"); }
    assert("vietnamese"@.len() != "ptbr"@.len()) by { reveal_strlit("ptbr"); }
    assert("vietnamese"@.len() != "br"@.len()) by { reveal_strlit("br"); }
    assert("vietnamese"@.len() != "pt"@.len()) by { reveal_strlit("pt"); }
    assert("vietnamese"@.len() != "ptbra"@.len()) by { reveal_strlit("ptbra"); }
    assert("vietnamese"@.len() != "portugues"@.len()) by { reveal_strlit("portugues"); }
    assert("vietnamese"@[0] != "portuguese"@[0]) by { reveal_strlit("portuguese"); }
    assert("vietnamese"@.len() != "brazilian"@.len()) by { reveal_strlit("brazilian"); }
    assert("vietnamese"@.len() != "ptpt"@.len()) by { reveal_strlit("ptpt"); }
    assert("vietnamese"@.len() != "portugal"@.len()) by { reveal_strlit("portugal"); }
    assert("vietnamese"@.len() != "es"@.len()) by { reveal_strlit("es"); }
    assert("vietnamese"@.len() != "spa"@.len()) by { reveal_strlit("spa"); }
    assert("vietnamese"@.len() != "spanish"@.len()) by { reveal_strlit("spanish"); }
    assert("vietnamese"@.len() != "espanol"@.len()) by { reveal_strlit("espanol"); }
    assert("vietnamese"@[0] != "castellano"@[0]) by { reveal_strlit("castellano"); }
    assert("vietnamese"@.len() != "fr"@.len()) by { reveal_strlit("fr"); }
    assert("vietnamese"@.len() != "fra"@.len()) by { reveal_strlit("fra"); }
    assert("vietnamese"@.len() != "fre"@.len()) by { reveal_strlit("fre"); }
    assert("vietnamese"@.len() != "french"@.len()) by { reveal_strlit("french"); }
    assert("vietnamese"@.len() != "francais"@.len()) by { reveal_strlit("francais"); }
    assert("vietnamese"@.len() != "de"@.len()) by { reveal_strlit("de"); }
    assert("vietnamese"@.len() != "deu"@.len()) by { reveal_strlit("deu"); }
    assert("vietnamese"@.len() != "ger"@.len()) by { reveal_strlit("ger"); }
    assert("vietnamese"@.len() != "german"@.len()) by { reveal_strlit("german"); }
    assert("vietnamese"@.len() != "deutsch"@.len()) by { reveal_strlit("deutsch"); }
    assert("vietnamese"@.len() != "it"@.len()) by { reveal_strlit("it"); }
    assert("vietnamese"@.len() != "ita"@.len()) by { reveal_strlit("ita"); }
    assert("vietnamese"@.len() != "italian"@.len()) by { reveal_strlit("italian"); }
    assert("vietnamese"@.len() != "italiano"@.len()) by { reveal_strlit("italiano"); }
    assert("vietnamese"@.len() != "ja"@.len()) by { reveal_strlit("ja"); }
    assert("vietnamese"@.len() != "jp"@.len()) by { reveal_strlit("jp"); }
    assert("vietnamese"@.len() != "jpn"@.len()) by { reveal_strlit("jpn"); }
    assert("vietnamese"@.len() != "japanese"@.len()) by { reveal_strlit("japanese"); }
    assert("vietnamese"@.len() != "ko"@.len()) by { reveal_strlit("ko"); }
    assert("vietnamese"@.len() != "kor"@.len()) by { reveal_strlit("kor"); }
    assert("vietnamese"@.len() != "korean"@.len()) by { reveal_strlit("korean"); }
    assert("vietnamese"@.len() != "zh"@.len()) by { reveal_strlit("zh"); }
    assert("vietnamese"@.len() != "zhcn"@.len()) by { reveal_strlit("zhcn"); }
    assert("vietnamese"@.len() != "chinese"@.len()) by { reveal_strlit("chinese"); }
    assert("vietnamese"@.len() != "mandarin"@.len()) by { reveal_strlit("mandarin"); }
    assert("vietnamese"@.len() != "simplifiedchinese"@.len()) by { reveal_strlit("simplifiedchinese"); }
    assert("vietnamese"@.len() != "zhtw"@.len()) by { reveal_strlit("zhtw"); }
    assert("vietnamese"@.len() != "traditionalchinese"@.len()) by { reveal_strlit("traditionalchinese"); }
    assert("vietnamese"@.len() != "ru"@.len()) by { reveal_strlit("ru"); }
    assert("vietnamese"@.len() != "rus"@.len()) by { reveal_strlit("rus"); }
    assert("vietnamese"@.len() != "russian"@.len()) by { reveal_strlit("russian"); }
    assert("vietnamese"@.len() != "ar"@.len()) by { reveal_strlit("ar"); }
    assert("vietnamese"@.len() != "ara"@.len()) by { reveal_strlit("ara"); }
    assert("vietnamese"@.len() != "arabic"@.len()) by { reveal_strlit("arabic"); }
    assert("vietnamese"@.len() != "nl"@.len()) by { reveal_strlit("nl"); }
    assert("vietnamese"@.len() != "nld"@.len()) by { reveal_strlit("nld"); }
    assert("vietnamese"@.len() != "dutch"@.len()) by { reveal_strlit("dutch"); }
    assert("vietnamese"@.len() != "sv"@.len()) by { reveal_strlit("sv"); }
    assert("vietnamese"@.len() != "swe"@.len()) by { reveal_strlit("swe"); }
    assert("vietnamese"@.len() != "swedish"@.len()) by { reveal_strlit("swedish"); }
    assert("vietnamese"@.len() != "pl"@.len()) by { reveal_strlit("pl"); }
    assert("vietnamese"@.len() != "pol"@.len()) by { reveal_strlit("pol"); }
    assert("vietnamese"@.len() != "polish"@.len()) by { reveal_strlit("polish"); }
    assert("vietnamese"@.len() != "tr"@.len()) by { reveal_strlit("tr"); }
    assert("vietnamese"@.len() != "tur"@.len()) by { reveal_strlit("tur"); }
    assert("vietnamese"@.len() != "turkish"@.len()) by { reveal_strlit("turkish"); }
    assert("vietnamese"@.len() != "hi"@.len()) by { reveal_strlit("hi"); }
    assert("vietnamese"@.len() != "hin"@.len()) by { reveal_strlit("hin"); }
    assert("vietnamese"@.len() != "hindi"@.len()) by { reveal_strlit("hindi"); }
    assert("vietnamese"@.len() != "el"@.len()) by { reveal_strlit("el"); }
    assert("vietnamese"@.len() != "gre"@.len()) by { reveal_strlit("gre"); }
    assert("vietnamese"@.len() != "greek"@.len()) by { reveal_strlit("greek"); }
    assert("vietnamese"@.len() != "he"@.len()) by { reveal_strlit("he"); }
    assert("vietnamese"@.len() != "heb"@.len()) by { reveal_strlit("heb"); }
    assert("vietnamese"@.len() != "hebrew"@.len()) by { reveal_strlit("hebrew"); }
    assert("vietnamese"@.len() != "iw"@.len()) by { reveal_strlit("iw"); }
    assert("vietnamese"@.len() != "cs"@.len()) by { reveal_strlit("cs"); }
    assert("vietnamese"@.len() != "cze"@.len()) by { reveal_strlit("cze"); }
    assert("vietnamese"@.len() != "czech"@.len()) by { reveal_strlit("czech"); }
    assert("vietnamese"@.len() != "da"@.len()) by { reveal_strlit("da"); }
    assert("vietnamese"@.len() != "dan"@.len()) by { reveal_strlit("dan"); }
    assert("vietnamese"@.len() != "danish"@.len()) by { reveal_strlit("danish"); }
    assert("vietnamese"@.len() != "fi"@.len()) by { reveal_strlit("fi"); }
    assert("vietnamese"@.len() != "fin"@.len()) by { reveal_strlit("fin"); }
    assert("vietnamese"@.len() != "finnish"@.len()) by { reveal_strlit("finnish"); }
    assert("vietnamese"@.len() != "no"@.len()) by { reveal_strlit("no"); }
    assert("vietnamese"@.len() != "nor"@.len()) by { reveal_strlit("nor"); }
    assert("vietnamese"@.len() != "norwegian"@.len()) by { reveal_strlit("norwegian"); }
    assert("vietnamese"@.len() != "uk"@.len()) by { reveal_strlit("uk"); }
    assert("vietnamese"@.len() != "ukr"@.len()) by { reveal_strlit("ukr"); }
    assert("vietnamese"@.len() != "ukrainian"@.len()) by { reveal_strlit("ukrainian"); }
    assert("vietnamese"@.len() != "vi"@.len()) by { reveal_strlit("vi"); }
    assert("vietnamese"@.len() != "vie"@.len()) by { reveal_strlit("vie"); }
    reveal_with_fuel(normalize, 11);
    assert(normalize("Vietnamese"@) =~= "vietnamese"@);
}

proof fn lemma_name_thai()
    ensures
        canonical_of("Thai"@) == Some("th"@),
{
    reveal_strlit("Thai");
    reveal_strlit("thai");
    reveal_strlit("th");
    assert("thai"@[0] != "auto"@[0]) by { reveal_strlit("auto"); }
    assert("thai"@.len() != "detect"@.len()) by { reveal_strlit("detect"); }
    assert("thai"@.len() != "en"@.len()) by { reveal_strlit("en"); }
    assert("thai"@.len() != "eng"@.len()) by { reveal_strlit("eng"); }
    assert("thai"@.len() != "english"@.len()) by { reveal_strlit("english"); }
    assert("thai"@[0] != "ptbr"@[0]) by { reveal_strlit("ptbr"); }
    assert("thai"@.len() != "br"@.len()) by { reveal_strlit("br"); }
    assert("thai"@.len() != "pt"@.len()) by { reveal_strlit("pt"); }
    assert("thai"@.len() != "ptbra"@.len()) by { reveal_strlit("ptbra"); }
    assert("thai"@.len() != "portugues"@.len()) by { reveal_strlit("portugues"); }
    assert("thai"@.len() != "portuguese"@.len()) by { reveal_strlit("portuguese"); }
    assert("thai"@.len() != "brazilian"@.len()) by { reveal_strlit("brazilian"); }
    assert("thai"@[0] != "ptpt"@[0]) by { reveal_strlit("ptpt"); }
    assert("thai"@.len() != "portugal"@.len()) by { reveal_strlit("portugal"); }
    assert("thai"@.len() != "es"@.len()) by { reveal_strlit("es"); }
    assert("thai"@.len() != "spa"@.len()) by { reveal_strlit("spa"); }
    assert("thai"@.len() != "spanish"@.len()) by { reveal_strlit("spanish"); }
    assert("thai"@.len() != "espanol"@.len()) by { reveal_strlit("espanol"); }
    assert("thai"@.len() != "castellano"@.len()) by { reveal_strlit("castellano"); }
    assert("thai"@.len() != "fr"@.len()) by { reveal_strlit("fr"); }
    assert("thai"@.len() != "fra"@.len()) by { reveal_strlit("fra"); }
    assert("thai"@.len() != "fre"@.len()) by { reveal_strlit("fre"); }
    assert("thai"@.len() != "french"@.len()) by { reveal_strlit("french"); }
    assert("thai"@.len() != "francais"@.len()) by { reveal_strlit("francais"); }
    assert("thai"@.len() != "de"@.len()) by { reveal_strlit("de"); }
    assert("thai"@.len() != "deu"@.len()) by { reveal_strlit("deu"); }
    assert("thai"@.len() != "ger"@.len()) by { reveal_strlit("ger"); }
    assert("thai"@.len() != "german"@.len()) by { reveal_strlit("german"); }
    assert("thai"@.len() != "deutsch"@.len()) by { reveal_strlit("deutsch"); }
    assert("thai"@.len() != "it"@.len()) by { reveal_strlit("it"); }
    assert("thai"@.len() != "ita"@.len()) by { reveal_strlit("ita"); }
    assert("thai"@.len() != "italian"@.len()) by { reveal_strlit("italian"); }
    assert("thai"@.len() != "italiano"@.len()) by { reveal_strlit("italiano"); }
    assert("thai"@.len() != "ja"@.len()) by { reveal_strlit("ja"); }
    assert("thai"@.len() != "jp"@.len()) by { reveal_strlit("jp"); }
    assert("thai"@.len() != "jpn"@.len()) by { reveal_strlit("jpn"); }
    assert("thai"@.len() != "japanese"@.len()) by { reveal_strlit("japanese"); }
    assert("thai"@.len() != "ko"@.len()) by { reveal_strlit("ko"); }
    assert("thai"@.len() != "kor"@.len()) by { reveal_strlit("kor"); }
    assert("thai"@.len() != "korean"@.len()) by { reveal_strlit("korean"); }
    assert("thai"@.len() != "zh"@.len()) by { reveal_strlit("zh"); }
    assert("thai"@[0] != "zhcn"@[0]) by { reveal_strlit("zhcn"); }
    assert("thai"@.len() != "chinese"@.len()) by { reveal_strlit("chinese"); }
    assert("thai"@.len() != "mandarin"@.len()) by { reveal_strlit("mandarin"); }
    assert("thai"@.len() != "simplifiedchinese"@.len()) by { reveal_strlit("simplifiedchinese"); }
    assert("thai"@[0] != "zhtw"@[0]) by { reveal_strlit("zhtw"); }
    assert("thai"@.len() != "traditionalchinese"@.len()) by { reveal_strlit("traditionalchinese"); }
    assert("thai"@.len() != "ru"@.len()) by { reveal_strlit("ru"); }
    assert("thai"@.len() != "rus"@.len()) by { reveal_strlit("rus"); }
    assert("thai"@.len() != "russian"@.len()) by { reveal_strlit("russian"); }
    assert("thai"@.len() != "ar"@.len()) by { reveal_strlit("ar"); }
    assert("thai"@.len() != "ara"@.len()) by { reveal_strlit("ara"); }
    assert("thai"@.len() != "arabic"@.len()) by { reveal_strlit("arabic"); }
    assert("thai"@.len() != "nl"@.len()) by { reveal_strlit("nl"); }
    assert("thai"@.len() != "nld"@.len()) by { reveal_strlit("nld"); }
    assert("thai"@.len() != "dutch"@.len()) by { reveal_strlit("dutch"); }
    assert("thai"@.len() != "sv"@.len()) by { reveal_strlit("sv"); }
    assert("thai"@.len() != "swe"@.len()) by { reveal_strlit("swe"); }
    assert("thai"@.len() != "swedish"@.len()) by { reveal_strlit("swedish"); }
    assert("thai"@.len() != "pl"@.len()) by { reveal_strlit("pl"); }
    assert("thai"@.len() != "pol"@.len()) by { reveal_strlit("pol"); }
    assert("thai"@.len() != "polish"@.len()) by { reveal_strlit("polish"); }
    assert("thai"@.len() != "tr"@.len()) by { reveal_strlit("tr"); }
    assert("thai"@.len() != "tur"@.len()) by { reveal_strlit("tur"); }
    assert("thai"@.len() != "turkish"@.len()) by { reveal_strlit("turkish"); }
    assert("thai"@.len() != "hi"@.len()) by { reveal_strlit("hi"); }
    assert("thai"@.len() != "hin"@.len()) by { reveal_strlit("hin"); }
    assert("thai"@.len() != "hindi"@.len()) by { reveal_strlit("hindi"); }
    assert("thai"@.len() != "el"@.len()) by { reveal_strlit("el"); }
    assert("thai"@.len() != "gre"@.len()) by { reveal_strlit("gre"); }
    assert("thai"@.len() != "greek"@.len()) by { reveal_strlit("greek"); }
    assert("thai"@.len() != "he"@.len()) by { reveal_strlit("he"); }
    assert("thai"@.len() != "heb"@.len()) by { reveal_strlit("heb"); }
    assert("thai"@.len() != "hebrew"@.len()) by { reveal_strlit("hebrew"); }
    assert("thai"@.len() != "iw"@.len()) by { reveal_strlit("iw"); }
    assert("thai"@.len() != "cs"@.len()) by { reveal_strlit("cs"); }
    assert("thai"@.len() != "cze"@.len()) by { reveal_strlit("cze"); }
    assert("thai"@.len() != "czech"@.len()) by { reveal_strlit("czech"); }
    assert("thai"@.len() != "da"@.len()) by { reveal_strlit("da"); }
    assert("thai"@.len() != "dan"@.len()) by { reveal_strlit("dan"); }
    assert("thai"@.len() != "danish"@.len()) by { reveal_strlit("danish"); }
    assert("thai"@.len() != "fi"@.len()) by { reveal_strlit("fi"); }
    assert("thai"@.len() != "fin"@.len()) by { reveal_strlit("fin"); }
    assert("thai"@.len() != "finnish"@.len()) by { reveal_strlit("finnish"); }
    assert("thai"@.len() != "no"@.len()) by { reveal_strlit("no"); }
    assert("thai"@.len() != "nor"@.len()) by { reveal_strlit("nor"); }
    assert("thai"@.len() != "norwegian"@.len()) by { reveal_strlit("norwegian"); }
    assert("thai"@.len() != "uk"@.len()) by { reveal_strlit("uk"); }
    assert("thai"@.len() != "ukr"@.len()) by { reveal_strlit("ukr"); }
    assert("thai"@.len() != "ukrainian"@.len()) by { reveal_strlit("ukrainian"); }
    assert("thai"@.len() != "vi"@.len()) by { reveal_strlit("vi"); }
    assert("thai"@.len() != "vie"@.len()) by { reveal_strlit("vie"); }
    assert("thai"@.len() != "vietnamese"@.len()) by { reveal_strlit("vietnamese"); }
    assert("thai"@.len() != "th"@.len()) by { reveal_strlit("th"); }
    assert("thai"@.len() != "tha"@.len()) by { reveal_strlit("tha"); }
    reveal_with_fuel(normalize, 5);
    assert(normalize("Thai"@) =~= "thai"@);
}

proof fn lemma_name_indonesian()
    ensures
        canonical_of("Indonesian"@) == Some("id"@),
{
    reveal_strlit("Indonesian");
    reveal_strlit("indonesian");
    reveal_strlit("id");
    assert("indonesian"@.len() != "auto"@.len()) by { reveal_strlit("auto"); }
    assert("indonesian"@.len() != "detect"@.len()) by { reveal_strlit("detect"); }
    assert("indonesian"@.len() != "en"@.len()) by { reveal_strlit("en"); }
    assert("indonesian"@.len() != "eng"@.len()) by { reveal_strlit("eng"); }
    assert("indonesian"@.len() != "english"@.len()) by { reveal_strlit("english"); }
    assert("indonesian"@.len() != "ptbr"@.len()) by { reveal_strlit("ptbr"); }
    assert("indonesian"@.len() != "br"@.len()) by { reveal_strlit("br"); }
    assert("indonesian"@.len() != "pt"@.len()) by { reveal_strlit("pt"); }
    assert("indonesian"@.len() != "ptbra"@.len()) by { reveal_strlit("ptbra"); }
    assert("indonesian"@.len() != "portugues"@.len()) by { reveal_strlit("portugues"); }
    assert("indonesian"@[0] != "portuguese"@[0]) by { reveal_strlit("portuguese"); }
    assert("indonesian"@.len() != "brazilian"@.len()) by { reveal_strlit("brazilian"); }
    assert("indonesian"@.len() != "ptpt"@.len()) by { reveal_strlit("ptpt"); }
    assert("indonesian"@.len() != "portugal"@.len()) by { reveal_strlit("portugal"); }
    assert("indonesian"@.len() != "es"@.len()) by { reveal_strlit("es"); }
    assert("indonesian"@.len() != "spa"@.len()) by { reveal_strlit("spa"); }
    assert("indonesian"@.len() != "spanish"@.len()) by { reveal_strlit("spanish"); }
    assert("indonesian"@.len() != "espanol"@.len()) by { reveal_strlit("espanol"); }
    assert("indonesian"@[0] != "castellano"@[0]) by { reveal_strlit("castellano"); }
    assert("indonesian"@.len() != "fr"@.len()) by { reveal_strlit("fr"); }
    assert("indonesian"@.len() != "fra"@.len()) by { reveal_strlit("fra"); }
    assert("indonesian"@.len() != "fre"@.len()) by { reveal_strlit("fre"); }
    assert("indonesian"@.len() != "french"@.len()) by { reveal_strlit("french"); }
    assert("indonesian"@.len() != "francais"@.len()) by { reveal_strlit("francais"); }
    assert("indonesian"@.len() != "de"@.len()) by { reveal_strlit("de"); }
    assert("indonesian"@.len() != "deu"@.len()) by { reveal_strlit("deu"); }
    assert("indonesian"@.len() != "ger"@.len()) by { reveal_strlit("ger"); }
    assert("indonesian"@.len() != "german"@.len()) by { reveal_strlit("german"); }
    assert("indonesian"@.len() != "deutsch"@.len()) by { reveal_strlit("deutsch"); }
    assert("indonesian"@.len() != "it"@.len()) by { reveal_strlit("it"); }
    assert("indonesian"@.len() != "ita"@.len()) by { reveal_strlit("ita"); }
    assert("indonesian"@.len() != "italian"@.len()) by { reveal_strlit("italian"); }
    assert("indonesian"@.len() != "italiano"@.len()) by { reveal_strlit("italiano"); }
    assert("indonesian"@.len() != "ja"@.len()) by { reveal_strlit("ja"); }
    assert("indonesian"@.len() != "jp"@.len()) by { reveal_strlit("jp"); }
    assert("indonesian"@.len() != "jpn"@.len()) by { reveal_strlit("jpn"); }
    assert("indonesian"@.len() != "japanese"@.len()) by { reveal_strlit("japanese"); }
    assert("indonesian"@.len() != "ko"@.len()) by { reveal_strlit("ko"); }
    assert("indonesian"@.len() != "kor"@.len()) by { reveal_strlit("kor"); }
    assert("indonesian"@.len() != "korean"@.len()) by { reveal_strlit("korean"); }
    assert("indonesian"@.len() != "zh"@.len()) by { reveal_strlit("zh"); }
    assert("indonesian"@.len() != "zhcn"@.len()) by { reveal_strlit("zhcn"); }
    assert("indonesian"@.len() != "chinese"@.len()) by { reveal_strlit("chinese"); }
    assert("indonesian"@.len() != "mandarin"@.len()) by { reveal_strlit("mandarin"); }
    assert("indonesian"@.len() != "simplifiedchinese"@.len()) by { reveal_strlit("simplifiedchinese"); }
    assert("indonesian"@.len() != "zhtw"@.len()) by { reveal_strlit("zhtw"); }
    assert("indonesian"@.len() != "traditionalchinese"@.len()) by { reveal_strlit("traditionalchinese"); }
    assert("indonesian"@.len() != "ru"@.len()) by { reveal_strlit("ru"); }
    assert("indonesian"@.len() != "rus"@.len()) by { reveal_strlit("rus"); }
    assert("indonesian"@.len() != "russian"@.len()) by { reveal_strlit("russian"); }
    assert("indonesian"@.len() != "ar"@.len()) by { reveal_strlit("ar"); }
    assert("indonesian"@.len() != "ara"@.len()) by { reveal_strlit("ara"); }
    assert("indonesian"@.len() != "arabic"@.len()) by { reveal_strlit("arabic"); }
    assert("indonesian"@.len() != "nl"@.len()) by { reveal_strlit("nl"); }
    assert("indonesian"@.len() != "nld"@.len()) by { reveal_strlit("nld"); }
    assert("indonesian"@.len() != "dutch"@.len()) by { reveal_strlit("dutch"); }
    assert("indonesian"@.len() != "sv"@.len()) by { reveal_strlit("sv"); }
    assert("indonesian"@.len() != "swe"@.len()) by { reveal_strlit("swe"); }
    assert("indonesian"@.len() != "swedish"@.len()) by { reveal_strlit("swedish"); }
    assert("indonesian"@.len() != "pl"@.len()) by { reveal_strlit("pl"); }
    assert("indonesian"@.len() != "pol"@.len()) by { reveal_strlit("pol"); }
    assert("indonesian"@.len() != "polish"@.len()) by { reveal_strlit("polish"); }
    assert("indonesian"@.len() != "tr"@.len()) by { reveal_strlit("tr"); }
    assert("indonesian"@.len() != "tur"@.len()) by { reveal_strlit("tur"); }
    assert("indonesian"@.len() != "turkish"@.len()) by { reveal_strlit("turkish"); }
    assert("indonesian"@.len() != "hi"@.len()) by { reveal_strlit("hi"); }
    assert("indonesian"@.len() != "hin"@.len()) by { reveal_strlit("hin"); }
    assert("indonesian"@.len() != "hindi"@.len()) by { reveal_strlit("hindi"); }
    assert("indonesian"@.len() != "el"@.len()) by { reveal_strlit("el"); }
    assert("indonesian"@.len() != "gre"@.len()) by { reveal_strlit("gre"); }
    assert("indonesian"@.len() != "greek"@.len()) by { reveal_strlit("greek"); }
    assert("indonesian"@.len() != "he"@.len()) by { reveal_strlit("he"); }
    assert("indonesian"@.len() != "heb"@.len()) by { reveal_strlit("heb"); }
    assert("indonesian"@.len() != "hebrew"@.len()) by { reveal_strlit("hebrew"); }
    assert("indonesian"@.len() != "iw"@.len()) by { reveal_strlit("iw"); }
    assert("indonesian"@.len() != "cs"@.len()) by { reveal_strlit("cs"); }
    assert("indonesian"@.len() != "cze"@.len()) by { reveal_strlit("cze"); }
    assert("indonesian"@.len() != "czech"@.len()) by { reveal_strlit("czech"); }
    assert("indonesian"@.len() != "da"@.len()) by { reveal_strlit("da"); }
    assert("indonesian"@.len() != "dan"@.len()) by { reveal_strlit("dan"); }
    assert("indonesian"@.len() != "danish"@.len()) by { reveal_strlit("danish"); }
    assert("indonesian"@.len() != "fi"@.len()) by { reveal_strlit("fi"); }
    assert("indonesian"@.len() != "fin"@.len()) by { reveal_strlit("fin"); }
    assert("indonesian"@.len() != "finnish"@.len()) by { reveal_strlit("finnish"); }
    assert("indonesian"@.len() != "no"@.len()) by { reveal_strlit("no"); }
    assert("indonesian"@.len() != "nor"@.len()) by { reveal_strlit("nor"); }
    assert("indonesian"@.len() != "norwegian"@.len()) by { reveal_strlit("norwegian"); }
    assert("indonesian"@.len() != "uk"@.len()) by { reveal_strlit("uk"); }
    assert("indonesian"@.len() != "ukr"@.len()) by { reveal_strlit("ukr"); }
    assert("indonesian"@.len() != "ukrainian"@.len()) by { reveal_strlit("ukrainian"); }
    assert("indonesian"@.len() != "vi"@.len()) by { reveal_strlit("vi"); }
    assert("indonesian"@.len() != "vie"@.len()) by { reveal_strlit("vie"); }
    assert("indonesian"@[0] != "vietnamese"@[0]) by { reveal_strlit("vietnamese"); }
    assert("indonesian"@.len() != "th"@.len()) by { reveal_strlit("th"); }
    assert("indonesian"@.len() != "tha"@.len()) by { reveal_strlit("tha"); }
    assert("indonesian"@.len() != "thai"@.len()) by { reveal_strlit("thai"); }
    assert("indonesian"@.len() != "id"@.len()) by { reveal_strlit("id"); }
    assert("indonesian"@.len() != "ind"@.len()) by { reveal_strlit("ind"); }
    reveal_with_fuel(normalize, 11);
    assert(normalize("Indonesian"@) =~= "indonesian"@);
}

proof fn lemma_name_romanian()
    ensures
        canonical_of("Romanian"@) == Some("ro"@),
{
    reveal_strlit("Romanian");
    reveal_strlit("romanian");
    reveal_strlit("ro");
    assert("romanian"@.len() != "auto"@.len()) by { reveal_strlit("auto"); }
    assert("romanian"@.len() != "detect"@.len()) by { reveal_strlit("detect"); }
    assert("romanian"@.len() != "en"@.len()) by { reveal_strlit("en"); }
    assert("romanian"@.len() != "eng"@.len()) by { reveal_strlit("eng"); }
    assert("romanian"@.len() != "english"@.len()) by { reveal_strlit("english"); }
    assert("romanian"@.len() != "ptbr"@.len()) by { reveal_strlit("ptbr"); }
    assert("romanian"@.len() != "br"@.len()) by { reveal_strlit("br"); }
    assert("romanian"@.len() != "pt"@.len()) by { reveal_strlit("pt"); }
    assert("romanian"@.len() != "ptbra"@.len()) by { reveal_strlit("ptbra"); }
    assert("romanian"@.len() != "portugues"@.len()) by { reveal_strlit("portugues"); }
    assert("romanian"@.len() != "portuguese"@.len()) by { reveal_strlit("portuguese"); }
    assert("romanian"@.len() != "brazilian"@.len()) by { reveal_strlit("brazilian"); }
    assert("romanian"@.len() != "ptpt"@.len()) by { reveal_strlit("ptpt"); }
    assert("romanian"@[0] != "portugal"@[0]) by { reveal_strlit("portugal"); }
    assert("romanian"@.len() != "es"@.len()) by { reveal_strlit("es"); }
    assert("romanian"@.len() != "spa"@.len()) by { reveal_strlit("spa"); }
    assert("romanian"@.len() != "spanish"@.len()) by { reveal_strlit("spanish"); }
    assert("romanian"@.len() != "espanol"@.len()) by { reveal_strlit("espanol"); }
    assert("romanian"@.len() != "castellano"@.len()) by { reveal_strlit("castellano"); }
    assert("romanian"@.len() != "fr"@.len()) by { reveal_strlit("fr"); }
    assert("romanian"@.len() != "fra"@.len()) by { reveal_strlit("fra"); }
    assert("romanian"@.len() != "fre"@.len()) by { reveal_strlit("fre"); }
    assert("romanian"@.len() != "french"@.len()) by { reveal_strlit("french"); }
    assert("romanian"@[0] != "francais"@[0]) by { reveal_strlit("francais"); }
    assert("romanian"@.len() != "de"@.len()) by { reveal_strlit("de"); }
    assert("romanian"@.len() != "deu"@.len()) by { reveal_strlit("deu"); }
    assert("romanian"@.len() != "ger"@.len()) by { reveal_strlit("ger"); }
    assert("romanian"@.len() != "german"@.len()) by { reveal_strlit("german"); }
    assert("romanian"@.len() != "deutsch"@.len()) by { reveal_strlit("deutsch"); }
    assert("romanian"@.len() != "it"@.len()) by { reveal_strlit("it"); }
    assert("romanian"@.len() != "ita"@.len()) by { reveal_strlit("ita"); }
    assert("romanian"@.len() != "italian"@.len()) by { reveal_strlit("italian"); }
    assert("romanian"@[0] != "italiano"@[0]) by { reveal_strlit("italiano"); }
    assert("romanian"@.len() != "ja"@.len()) by { reveal_strlit("ja"); }
    assert("romanian"@.len() != "jp"@.len()) by { reveal_strlit("jp"); }
    assert("romanian"@.len() != "jpn"@.len()) by { reveal_strlit("jpn"); }
    assert("romanian"@[0] != "japanese"@[0]) by { reveal_strlit("japanese"); }
    assert("romanian"@.len() != "ko"@.len()) by { reveal_strlit("ko"); }
    assert("romanian"@.len() != "kor"@.len()) by { reveal_strlit("kor"); }
    assert("romanian"@.len() != "korean"@.len()) by { reveal_strlit("korean"); }
    assert("romanian"@.len() != "zh"@.len()) by { reveal_strlit("zh"); }
    assert("romanian"@.len() != "zhcn"@.len()) by { reveal_strlit("zhcn"); }
    assert("romanian"@.len() != "chinese"@.len()) by { reveal_strlit("chinese"); }
    assert("romanian"@[0] != "mandarin"@[0]) by { reveal_strlit("mandarin"); }
    assert("romanian"@.len() != "simplifiedchinese"@.len()) by { reveal_strlit("simplifiedchinese"); }
    assert("romanian"@.len() != "zhtw"@.len()) by { reveal_strlit("zhtw"); }
    assert("romanian"@.len() != "traditionalchinese"@.len()) by { reveal_strlit("traditionalchinese"); }
    assert("romanian"@.len() != "ru"@.len()) by { reveal_strlit("ru"); }
    assert("romanian"@.len() != "rus"@.len()) by { reveal_strlit("rus"); }
    assert("romanian"@.len() != "russian"@.len()) by { reveal_strlit("russian"); }
    assert("romanian"@.len() != "ar"@.len()) by { reveal_strlit("ar"); }
    assert("romanian"@.len() != "ara"@.len()) by { reveal_strlit("ara"); }
    assert("romanian"@.len() != "arabic"@.len()) by { reveal_strlit("arabic"); }
    assert("romanian"@.len() != "nl"@.len()) by { reveal_strlit("nl"); }
    assert("romanian"@.len() != "nld"@.len()) by { reveal_strlit("nld"); }
    assert("romanian"@.len() != "dutch"@.len()) by { reveal_strlit("dutch"); }
    assert("romanian"@.len() != "sv"@.len()) by { reveal_strlit("sv"); }
    assert("romanian"@.len() != "swe"@.len()) by { reveal_strlit("swe"); }
    assert("romanian"@.len() != "swedish"@.len()) by { reveal_strlit("swedish"); }
    assert("romanian"@.len() != "pl"@.len()) by { reveal_strlit("pl"); }
    assert("romanian"@.len() != "pol"@.len()) by { reveal_strlit("pol"); }
    assert("romanian"@.len() != "polish"@.len()) by { reveal_strlit("polish"); }
    assert("romanian"@.len() != "tr"@.len()) by { reveal_strlit("tr"); }
    assert("romanian"@.len() != "tur"@.len()) by { reveal_strlit("tur"); }
    assert("romanian"@.len() != "turkish"@.len()) by { reveal_strlit("turkish"); }
    assert("romanian"@.len() != "hi"@.len()) by { reveal_strlit("hi"); }
    assert("romanian"@.len() != "hin"@.len()) by { reveal_strlit("hin"); }
    assert("romanian"@.len() != "hindi"@.len()) by { reveal_strlit("hindi"); }
    assert("romanian"@.len() != "el"@.len()) by { reveal_strlit("el"); }
    assert("romanian"@.len() != "gre"@.len()) by { reveal_strlit("gre"); }
    assert("romanian"@.len() != "greek"@.len()) by { reveal_strlit("greek"); }
    assert("romanian"@.len() != "he"@.len()) by { reveal_strlit("he"); }
    assert("romanian"@.len() != "heb"@.len()) by { reveal_strlit("heb"); }
    assert("romanian"@.len() != "hebrew"@.len()) by { reveal_strlit("hebrew"); }
    assert("romanian"@.len() != "iw"@.len()) by { reveal_strlit("iw"); }
    assert("romanian"@.len() != "cs"@.len()) by { reveal_strlit("cs"); }
    assert("romanian"@.len() != "cze"@.len()) by { reveal_strlit("cze"); }
    assert("romanian"@.len() != "czech"@.len()) by { reveal_strlit("czech"); }
    assert("romanian"@.len() != "da"@.len()) by { reveal_strlit("da"); }
    assert("romanian"@.len() != "dan"@.len()) by { reveal_strlit("dan"); }
    assert("romanian"@.len() != "danish"@.len()) by { reveal_strlit("danish"); }
    assert("romanian"@.len() != "fi"@.len()) by { reveal_strlit("fi"); }
    assert("romanian"@.len() != "fin"@.len()) by { reveal_strlit("fin"); }
    assert("romanian"@.len() != "finnish"@.len()) by { reveal_strlit("finnish"); }
    assert("romanian"@.len() != "no"@.len()) by { reveal_strlit("no"); }
    assert("romanian"@.len() != "nor"@.len()) by { reveal_strlit("nor"); }
    assert("romanian"@.len() != "norwegian"@.len()) by { reveal_strlit("norwegian"); }
    assert("romanian"@.len() != "uk"@.len()) by { reveal_strlit("uk"); }
    assert("romanian"@.len() != "ukr"@.len()) by { reveal_strlit("ukr"); }
    assert("romanian"@.len() != "ukrainian"@.len()) by { reveal_strlit("ukrainian"); }
    assert("romanian"@.len() != "vi"@.len()) by { reveal_strlit("vi"); }
    assert("romanian"@.len() != "vie"@.len()) by { reveal_strlit("vie"); }
    assert("romanian"@.len() != "vietnamese"@.len()) by { reveal_strlit("vietnamese"); }
    assert("romanian"@.len() != "th"@.len()) by { reveal_strlit("th"); }
    assert("romanian"@.len() != "tha"@.len()) by { reveal_strlit("tha"); }
    assert("romanian"@.len() != "thai"@.len()) by { reveal_strlit("thai"); }
    assert("romanian"@.len() != "id"@.len()) by { reveal_strlit("id"); }
    assert("romanian"@.len() != "ind"@.len()) by { reveal_strlit("ind"); }
    assert("romanian"@.len() != "indonesian"@.len()) by { reveal_strlit("indonesian"); }
    assert("romanian"@.len() != "ro"@.len()) by { reveal_strlit("ro"); }
    assert("romanian"@.len() != "ron"@.len()) by { reveal_strlit("ron"); }
    assert("romanian"@.len() != "rum"@.len()) by { reveal_strlit("rum"); }
    reveal_with_fuel(normalize, 9);
    assert(normalize("Romanian"@) =~= "romanian"@);
}

proof fn lemma_name_hungarian()
    ensures
        canonical_of("Hungarian"@) == Some("hu"@),
{
    reveal_strlit("Hungarian");
    reveal_strlit("hungarian");
    reveal_strlit("hu");
    assert("hungarian"@.len() != "auto"@.len()) by { reveal_strlit("auto"); }
    assert("hungarian"@.len() != "detect"@.len()) by { reveal_strlit("detect"); }
    assert("hungarian"@.len() != "en"@.len()) by { reveal_strlit("en"); }
    assert("hungarian"@.len() != "eng"@.len()) by { reveal_strlit("eng"); }
    assert("hungarian"@.len() != "english"@.len()) by { reveal_strlit("english"); }
    assert("hungarian"@.len() != "ptbr"@.len()) by { reveal_strlit("ptbr"); }
    assert("hungarian"@.len() != "br"@.len()) by { reveal_strlit("br"); }
    assert("hungarian"@.len() != "pt"@.len()) by { reveal_strlit("pt"); }
    assert("hungarian"@.len() != "ptbra"@.len()) by { reveal_strlit("ptbra"); }
    assert("hungarian"@[0] != "portugues"@[0]) by { reveal_strlit("portugues"); }
    assert("hungarian"@.len() != "portuguese"@.len()) by { reveal_strlit("portuguese"); }
    assert("hungarian"@[0] != "brazilian"@[0]) by { reveal_strlit("brazilian"); }
    assert("hungarian"@.len() != "ptpt"@.len()) by { reveal_strlit("ptpt"); }
    assert("hungarian"@.len() != "portugal"@.len()) by { reveal_strlit("portugal"); }
    assert("hungarian"@.len() != "es"@.len()) by { reveal_strlit("es"); }
    assert("hungarian"@.len() != "spa"@.len()) by { reveal_strlit("spa"); }
    assert("hungarian"@.len() != "spanish"@.len()) by { reveal_strlit("spanish"); }
    assert("hungarian"@.len() != "espanol"@.len()) by { reveal_strlit("espanol"); }
    assert("hungarian"@.len() != "castellano"@.len()) by { reveal_strlit("castellano"); }
    assert("hungarian"@.len() != "fr"@.len()) by { reveal_strlit("fr"); }
    assert("hungarian"@.len() != "fra"@.len()) by { reveal_strlit("fra"); }
    assert("hungarian"@.len() != "fre"@.len()) by { reveal_strlit("fre"); }
    assert("hungarian"@.len() != "french"@.len()) by { reveal_strlit("french"); }
    assert("hungarian"@.len() != "francais"@.len()) by { reveal_strlit("francais"); }
    assert("hungarian"@.len() != "de"@.len()) by { reveal_strlit("de"); }
    assert("hungarian"@.len() != "deu"@.len()) by { reveal_strlit("deu"); }
    assert("hungarian"@.len() != "ger"@.len()) by { reveal_strlit("ger"); }
    assert("hungarian"@.len() != "german"@.len()) by { reveal_strlit("german"); }
    assert("hungarian"@.len() != "deutsch"@.len()) by { reveal_strlit("deutsch"); }
    assert("hungarian"@.len() != "it"@.len()) by { reveal_strlit("it"); }
    assert("hungarian"@.len() != "ita"@.len()) by { reveal_strlit("ita"); }
    assert("hungarian"@.len() != "italian"@.len()) by { reveal_strlit("italian"); }
    assert("hungarian"@.len() != "italiano"@.len()) by { reveal_strlit("italiano"); }
    assert("hungarian"@.len() != "ja"@.len()) by { reveal_strlit("ja"); }
    assert("hungarian"@.len() != "jp"@.len()) by { reveal_strlit("jp"); }
    assert("hungarian"@.len() != "jpn"@.len()) by { reveal_strlit("jpn"); }
    assert("hungarian"@.len() != "japanese"@.len()) by { reveal_strlit("japanese"); }
    assert("hungarian"@.len() != "ko"@.len()) by { reveal_strlit("ko"); }
    assert("hungarian"@.len() != "kor"@.len()) by { reveal_strlit("kor"); }
    assert("hungarian"@.len() != "korean"@.len()) by { reveal_strlit("korean"); }
    assert("hungarian"@.len() != "zh"@.len()) by { reveal_strlit("zh"); }
    assert("hungarian"@.len() != "zhcn"@.len()) by { reveal_strlit("zhcn"); }
    assert("hungarian"@.len() != "chinese"@.len()) by { reveal_strlit("chinese"); }
    assert("hungarian"@.len() != "mandarin"@.len()) by { reveal_strlit("mandarin"); }
    assert("hungarian"@.len() != "simplifiedchinese"@.len()) by { reveal_strlit("simplifiedchinese"); }
    assert("hungarian"@.len() != "zhtw"@.len()) by { reveal_strlit("zhtw"); }
    assert("hungarian"@.len() != "traditionalchinese"@.len()) by { reveal_strlit("traditionalchinese"); }
    assert("hungarian"@.len() != "ru"@.len()) by { reveal_strlit("ru"); }
    assert("hungarian"@.len() != "rus"@.len()) by { reveal_strlit("rus"); }
    assert("hungarian"@.len() != "russian"@.len()) by { reveal_strlit("russian"); }
    assert("hungarian"@.len() != "ar"@.len()) by { reveal_strlit("ar"); }
    assert("hungarian"@.len() != "ara"@.len()) by { reveal_strlit("ara"); }
    assert("hungarian"@.len() != "arabic"@.len()) by { reveal_strlit("arabic"); }
    assert("hungarian"@.len() != "nl"@.len()) by { reveal_strlit("nl"); }
    assert("hungarian"@.len() != "nld"@.len()) by { reveal_strlit("nld"); }
    assert("hungarian"@.len() != "dutch"@.len()) by { reveal_strlit("dutch"); }
    assert("hungarian"@.len() != "sv"@.len()) by { reveal_strlit("sv"); }
    assert("hungarian"@.len() != "swe"@.len()) by { reveal_strlit("swe"); }
    assert("hungarian"@.len() != "swedish"@.len()) by { reveal_strlit("swedish"); }
    assert("hungarian"@.len() != "pl"@.len()) by { reveal_strlit("pl"); }
    assert("hungarian"@.len() != "pol"@.len()) by { reveal_strlit("pol"); }
    assert("hungarian"@.len() != "polish"@.len()) by { reveal_strlit("polish"); }
    assert("hungarian"@.len() != "tr"@.len()) by { reveal_strlit("tr"); }
    assert("hungarian"@.len() != "tur"@.len()) by { reveal_strlit("tur"); }
    assert("hungarian"@.len() != "turkish"@.len()) by { reveal_strlit("turkish"); }
    assert("hungarian"@.len() != "hi"@.len()) by { reveal_strlit("hi"); }
    assert("hungarian"@.len() != "hin"@.len()) by { reveal_strlit("hin"); }
    assert("hungarian"@.len() != "hindi"@.len()) by { reveal_strlit("hindi"); }
    assert("hungarian"@.len() != "el"@.len()) by { reveal_strlit("el"); }
    assert("hungarian"@.len() != "gre"@.len()) by { reveal_strlit("gre"); }
    assert("hungarian"@.len() != "greek"@.len()) by { reveal_strlit("greek"); }
    assert("hungarian"@.len() != "he"@.len()) by { reveal_strlit("he"); }
    assert("hungarian"@.len() != "heb"@.len()) by { reveal_strlit("heb"); }
    assert("hungarian"@.len() != "hebrew"@.len()) by { reveal_strlit("hebrew"); }
    assert("hungarian"@.len() != "iw"@.len()) by { reveal_strlit("iw"); }
    assert("hungarian"@.len() != "cs"@.len()) by { reveal_strlit("cs"); }
    assert("hungarian"@.len() != "cze"@.len()) by { reveal_strlit("cze"); }
    assert("hungarian"@.len() != "czech"@.len()) by { reveal_strlit("czech"); }
    assert("hungarian"@.len() != "da"@.len()) by { reveal_strlit("da"); }
    assert("hungarian"@.len() != "dan"@.len()) by { reveal_strlit("dan"); }
    assert("hungarian"@.len() != "danish"@.len()) by { reveal_strlit("danish"); }
    assert("hungarian"@.len() != "fi"@.len()) by { reveal_strlit("fi"); }
    assert("hungarian"@.len() != "fin"@.len()) by { reveal_strlit("fin"); }
    assert("hungarian"@.len() != "finnish"@.len()) by { reveal_strlit("finnish"); }
    assert("hungarian"@.len() != "no"@.len()) by { reveal_strlit("no"); }
    assert("hungarian"@.len() != "nor"@.len()) by { reveal_strlit("nor"); }
    assert("hungarian"@[0] != "norwegian"@[0]) by { reveal_strlit("norwegian"); }
    assert("hungarian"@.len() != "uk"@.len()) by { reveal_strlit("uk"); }
    assert("hungarian"@.len() != "ukr"@.len()) by { reveal_strlit("ukr"); }
    assert("hungarian"@[0] != "ukrainian"@[0]) by { reveal_strlit("ukrainian"); }
    assert("hungarian"@.len() != "vi"@.len()) by { reveal_strlit("vi"); }
    assert("hungarian"@.len() != "vie"@.len()) by { reveal_strlit("vie"); }
    assert("hungarian"@.len() != "vietnamese"@.len()) by { reveal_strlit("vietnamese"); }
    assert("hungarian"@.len() != "th"@.len()) by { reveal_strlit("th"); }
    assert("hungarian"@.len() != "tha"@.len()) by { reveal_strlit("tha"); }
    assert("hungarian"@.len() != "thai"@.len()) by { reveal_strlit("thai"); }
    assert("hungarian"@.len() != "id"@.len()) by { reveal_strlit("id"); }
    assert("hungarian"@.len() != "ind"@.len()) by { reveal_strlit("ind"); }
    assert("hungarian"@.len() != "indonesian"@.len()) by { reveal_strlit("indonesian"); }
    assert("hungarian"@.len() != "ro"@.len()) by { reveal_strlit("ro"); }
    assert("hungarian"@.len() != "ron"@.len()) by { reveal_strlit("ron"); }
    assert("hungarian"@.len() != "rum"@.len()) by { reveal_strlit("rum"); }
    assert("hungarian"@.len() != "romanian"@.len()) by { reveal_strlit("romanian"); }
    assert("hungarian"@.len() != "hu"@.len()) by { reveal_strlit("hu"); }
    assert("hungarian"@.len() != "hun"@.len()) by { reveal_strlit("hun"); }
    reveal_with_fuel(normalize, 10);
    assert(normalize("Hungarian"@) =~= "hungarian"@);
}

/// The English name of every listed language that is one word (ASCII
/// letters only) resolves back to that language's code: `German` to `de`,
/// `Dutch` to `nl`, and so on.
pub proof fn law_names_resolve_to_their_codes(i: int)
    requires
        0 <= i < language_table().len(),
        forall|j: int|
            0 <= j < language_table()[i].1.len() ==> is_key_char(#[trigger] language_table()[i].1[j]),
    ensures
        canonical_of(language_table()[i].1) == Some(language_table()[i].0),
{
        if i == 0 {
            lemma_name_detect();
            assert(language_table()[i] == ("auto"@, "detect"@));
        }
        if i == 1 {
            lemma_name_english();
            assert(language_table()[i] == ("en"@, "English"@));
        }
        if i == 2 {
            reveal_strlit("Portuguese (Brazil)");
            assert(language_table()[i].1 == "Portuguese (Brazil)"@);
            assert(!is_key_char(language_table()[i].1[10]));
        }
        if i == 3 {
            reveal_strlit("Portuguese (Portugal)");
            assert(language_table()[i].1 == "Portuguese (Portugal)"@);
            assert(!is_key_char(language_table()[i].1[10]));
        }
        if i == 4 {
            lemma_name_spanish();
            assert(language_table()[i] == ("es"@, "Spanish"@));
        }
        if i == 5 {
            lemma_name_french();
            assert(language_table()[i] == ("fr"@, "French"@));
        }
        if i == 6 {
            lemma_name_german();
            assert(language_table()[i] == ("de"@, "German"@));
        }
        if i == 7 {
            lemma_name_italian();
            assert(language_table()[i] == ("it"@, "Italian"@));
        }
        if i == 8 {
            lemma_name_japanese();
            assert(language_table()[i] == ("ja"@, "Japanese"@));
        }
        if i == 9 {
            lemma_name_korean();
            assert(language_table()[i] == ("ko"@, "Korean"@));
        }
        if i == 10 {
            reveal_strlit("Chinese (Simplified)");
            assert(language_table()[i].1 == "Chinese (Simplified)"@);
            assert(!is_key_char(language_table()[i].1[7]));
        }
        if i == 11 {
            reveal_strlit("Chinese (Traditional)");
            assert(language_table()[i].1 == "Chinese (Traditional)"@);
            assert(!is_key_char(language_table()[i].1[7]));
        }
        if i == 12 {
            lemma_name_russian();
            assert(language_table()[i] == ("ru"@, "Russian"@));
        }
        if i == 13 {
            lemma_name_arabic();
            assert(language_table()[i] == ("ar"@, "Arabic"@));
        }
        if i == 14 {
            lemma_name_dutch();
            assert(language_table()[i] == ("nl"@, "Dutch"@));
        }
        if i == 15 {
            lemma_name_swedish();
            assert(language_table()[i] == ("sv"@, "Swedish"@));
        }
        if i == 16 {
            lemma_name_polish();
            assert(language_table()[i] == ("pl"@, "Polish"@));
        }
        if i == 17 {
            lemma_name_turkish();
            assert(language_table()[i] == ("tr"@, "Turkish"@));
        }
        if i == 18 {
            lemma_name_hindi();
            assert(language_table()[i] == ("hi"@, "Hindi"@));
        }
        if i == 19 {
            lemma_name_greek();
            assert(language_table()[i] == ("el"@, "Greek"@));
        }
        if i == 20 {
            lemma_name_hebrew();
            assert(language_table()[i] == ("he"@, "Hebrew"@));
        }
        if i == 21 {
            lemma_name_czech();
            assert(language_table()[i] == ("cs"@, "Czech"@));
        }
        if i == 22 {
            lemma_name_danish();
            assert(language_table()[i] == ("da"@, "Danish"@));
        }
        if i == 23 {
            lemma_name_finnish();
            assert(language_table()[i] == ("fi"@, "Finnish"@));
        }
        if i == 24 {
            lemma_name_norwegian();
            assert(language_table()[i] == ("no"@, "Norwegian"@));
        }
        if i == 25 {
            lemma_name_ukrainian();
            assert(language_table()[i] == ("uk"@, "Ukrainian"@));
        }
        if i == 26 {
            lemma_name_vietnamese();
            assert(language_table()[i] == ("vi"@, "Vietnamese"@));
        }
        if i == 27 {
            lemma_name_thai();
            assert(language_table()[i] == ("th"@, "Thai"@));
        }
        if i == 28 {
            lemma_name_indonesian();
            assert(language_table()[i] == ("id"@, "Indonesian"@));
        }
        if i == 29 {
            lemma_name_romanian();
            assert(language_table()[i] == ("ro"@, "Romanian"@));
        }
        if i == 30 {
            lemma_name_hungarian();
            assert(language_table()[i] == ("hu"@, "Hungarian"@));
        }
}

} // verus!
