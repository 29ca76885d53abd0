//! The help screen and the list of supported languages.

use vstd::prelude::*;
use crate::color::{paint, paint_of, BOLD, CYAN, DIM, GREEN, ITALIC, MAGENTA, YELLOW};
use crate::lang::language_table;
use crate::lang;
use crate::text::{concat, lacks, lemma_lacks_concat, owned, push_char};

verus! {

pub const TRANSLATE_NOTE: &'static str =
    "languages are named params: order is free and the source language is optional";

pub const ALIAS_NOTE: &'static str =
    "aliases and any capitalization work: pt, br, ptbr, pt-BR all mean Portuguese (Brazil)";

/// The views of a list of string pairs.
pub open spec fn pairs_view(v: Seq<(&str, &str)>) -> Seq<(Seq<char>, Seq<char>)> {
    v.map_values(|p: (&str, &str)| (p.0@, p.1@))
}

/// `s` padded with spaces on the right to `width` characters.
pub open spec fn pad_of(s: Seq<char>, width: nat) -> Seq<char> {
    if s.len() >= width {
        s
    } else {
        s + Seq::new((width - s.len()) as nat, |i: int| ' ')
    }
}

/// One command with its description, the command padded to a column.
pub open spec fn row_of(color: bool, cmd: Seq<char>, desc: Seq<char>, width: nat) -> Seq<char> {
    "  "@ + paint_of(color, CYAN@, pad_of(cmd, width)) + paint_of(color, DIM@, desc) + "\n"@
}

/// Rows for each entry, in order.
pub open spec fn rows_of(color: bool, entries: Seq<(Seq<char>, Seq<char>)>, width: nat) -> Seq<char>
    decreases entries.len(),
{
    if entries.len() == 0 {
        Seq::empty()
    } else {
        rows_of(color, entries.drop_last(), width) + row_of(
            color,
            entries.last().0,
            entries.last().1,
            width,
        )
    }
}

/// One example: the command, an arrow, and what it prints.
pub open spec fn example_row_of(color: bool, cmd: Seq<char>, result: Seq<char>) -> Seq<char> {
    "  "@ + paint_of(color, CYAN@, pad_of(cmd, 32)) + paint_of(color, GREEN@, "->"@) + " "@
        + paint_of(color, DIM@, result) + "\n"@
}

/// Example rows, in order.
pub open spec fn example_rows_of(color: bool, entries: Seq<(Seq<char>, Seq<char>)>) -> Seq<char>
    decreases entries.len(),
{
    if entries.len() == 0 {
        Seq::empty()
    } else {
        example_rows_of(color, entries.drop_last()) + example_row_of(
            color,
            entries.last().0,
            entries.last().1,
        )
    }
}

/// One language: its code padded to seven columns, then its name.
pub open spec fn language_row_of(color: bool, code: Seq<char>, name: Seq<char>) -> Seq<char> {
    "  "@ + paint_of(color, CYAN@, pad_of(code, 7)) + "  "@ + name + "\n"@
}

/// Language rows, in order.
pub open spec fn language_rows_of(color: bool, entries: Seq<(Seq<char>, Seq<char>)>) -> Seq<char>
    decreases entries.len(),
{
    if entries.len() == 0 {
        Seq::empty()
    } else {
        language_rows_of(color, entries.drop_last()) + language_row_of(
            color,
            entries.last().0,
            entries.last().1,
        )
    }
}

/// The list of supported languages.
pub open spec fn languages_of(color: bool) -> Seq<char> {
    paint_of(color, BOLD@, "SUPPORTED LANGUAGES"@) + "\n"@ + language_rows_of(color, language_table())
        + "\n"@ + paint_of(color, DIM@, ALIAS_NOTE@) + "\n"@
}

/// Pads with spaces on the right to `width` characters.
pub fn pad(s: &str, width: usize) -> (r: String)
    ensures
        r@ == pad_of(s@, width as nat),
{
    let n = s.unicode_len();
    let mut out = owned(s);
    if n >= width {
        return out;
    }
    let mut k: usize = n;
    while k < width
        invariant
            n == s@.len(),
            n <= k <= width,
            out@ == s@ + Seq::new((k - n) as nat, |i: int| ' '),
        decreases width - k,
    {
        push_char(&mut out, ' ');
        k = k + 1;
        assert(out@ =~= s@ + Seq::new((k - n) as nat, |i: int| ' '));
    }
    out
}

fn row(color: bool, cmd: &str, desc: &str, width: usize) -> (r: String)
    ensures
        r@ == row_of(color, cmd@, desc@, width as nat),
{
    let mut o = owned("  ");
    o.append(paint(color, CYAN, pad(cmd, width).as_str()).as_str());
    o.append(paint(color, DIM, desc).as_str());
    o.append("\n");
    o
}

fn rows(color: bool, entries: &Vec<(&'static str, &'static str)>, width: usize) -> (r: String)
    ensures
        r@ == rows_of(color, pairs_view(entries@), width as nat),
{
    let ghost ev = pairs_view(entries@);
    let mut o = String::new();
    let n = entries.len();
    let mut i: usize = 0;
    while i < n
        invariant
            n == entries@.len(),
            ev == pairs_view(entries@),
            i <= n,
            o@ == rows_of(color, ev.take(i as int), width as nat),
        decreases n - i,
    {
        assert(ev.take(i + 1).drop_last() =~= ev.take(i as int));
        let (c, d) = entries[i];
        o.append(row(color, c, d, width).as_str());
        i = i + 1;
    }
    assert(ev.take(n as int) =~= ev);
    o
}

fn example_rows(color: bool, entries: &Vec<(&'static str, &'static str)>) -> (r: String)
    ensures
        r@ == example_rows_of(color, pairs_view(entries@)),
{
    let ghost ev = pairs_view(entries@);
    let mut o = String::new();
    let n = entries.len();
    let mut i: usize = 0;
    while i < n
        invariant
            n == entries@.len(),
            ev == pairs_view(entries@),
            i <= n,
            o@ == example_rows_of(color, ev.take(i as int)),
        decreases n - i,
    {
        assert(ev.take(i + 1).drop_last() =~= ev.take(i as int));
        let (c, res) = entries[i];
        o.append("  ");
        o.append(paint(color, CYAN, pad(c, 32).as_str()).as_str());
        o.append(paint(color, GREEN, "->").as_str());
        o.append(" ");
        o.append(paint(color, DIM, res).as_str());
        o.append("\n");
        i = i + 1;
    }
    assert(ev.take(n as int) =~= ev);
    o
}

/// The list of supported languages.
pub fn languages(color: bool) -> (r: String)
    ensures
        r@ == languages_of(color),
{
    let table = lang::languages();
    let ghost ev = pairs_view(table@);
    assert(ev =~= language_table());
    let mut o = paint(color, BOLD, "SUPPORTED LANGUAGES");
    o.append("\n");
    let n = table.len();
    let mut i: usize = 0;
    let ghost start = o@;
    while i < n
        invariant
            n == table@.len(),
            ev == pairs_view(table@),
            i <= n,
            o@ == start + language_rows_of(color, ev.take(i as int)),
        decreases n - i,
    {
        assert(ev.take(i + 1).drop_last() =~= ev.take(i as int));
        let (c, name) = table[i];
        o.append("  ");
        o.append(paint(color, CYAN, pad(c, 7).as_str()).as_str());
        o.append("  ");
        o.append(name);
        o.append("\n");
        i = i + 1;
    }
    assert(ev.take(n as int) =~= ev);
    o.append("\n");
    o.append(paint(color, DIM, ALIAS_NOTE).as_str());
    o.append("\n");
    o
}

/// The entries of the TRANSLATE section.
pub open spec fn entries_translate() -> Seq<(Seq<char>, Seq<char>)> {
    seq![
        ("tt <text>"@, "translate with your default profile"@),
        ("tt tl=<lang> <text>"@, "set the target, auto-detect the source language"@),
        ("tt sl=<lang> tl=<lang> <text>"@, "set both languages explicitly"@),
        ("tt p=<profile> <text>"@, "translate using a saved profile"@),
        ("tt f=<file> ..."@, "translate the contents of a file"@),
        ("... | tt ..."@, "translate piped stdin when given no text"@),
    ]
}

fn entries_translate_exec() -> (r: Vec<(&'static str, &'static str)>)
    ensures
        pairs_view(r@) == entries_translate(),
{
    let mut v: Vec<(&'static str, &'static str)> = Vec::new();
    v.push(("tt <text>", "translate with your default profile"));
    v.push(("tt tl=<lang> <text>", "set the target, auto-detect the source language"));
    v.push(("tt sl=<lang> tl=<lang> <text>", "set both languages explicitly"));
    v.push(("tt p=<profile> <text>", "translate using a saved profile"));
    v.push(("tt f=<file> ...", "translate the contents of a file"));
    v.push(("... | tt ...", "translate piped stdin when given no text"));
    assert(pairs_view(v@) =~= entries_translate());
    v
}

/// The entries of the FLAGS section.
pub open spec fn entries_flags() -> Seq<(Seq<char>, Seq<char>)> {
    seq![
        ("-q, --quiet"@, "only the primary translation"@),
        ("-s, --synonyms"@, "only the synonyms and back translations"@),
        ("-v, --verbose"@, "a labeled breakdown: languages, original, result"@),
        ("-j, --json"@, "the full result as one JSON line, for scripts"@),
        ("--no-cache"@, "skip the on-disk cache for this call"@),
        ("-h, --help"@, "show this help"@),
    ]
}

fn entries_flags_exec() -> (r: Vec<(&'static str, &'static str)>)
    ensures
        pairs_view(r@) == entries_flags(),
{
    let mut v: Vec<(&'static str, &'static str)> = Vec::new();
    v.push(("-q, --quiet", "only the primary translation"));
    v.push(("-s, --synonyms", "only the synonyms and back translations"));
    v.push(("-v, --verbose", "a labeled breakdown: languages, original, result"));
    v.push(("-j, --json", "the full result as one JSON line, for scripts"));
    v.push(("--no-cache", "skip the on-disk cache for this call"));
    v.push(("-h, --help", "show this help"));
    assert(pairs_view(v@) =~= entries_flags());
    v
}

/// The entries of the DEFAULTS section.
pub open spec fn entries_defaults() -> Seq<(Seq<char>, Seq<char>)> {
    seq![
        ("tt default"@, "show the default languages"@),
        ("tt default sl=<lang> tl=<lang>"@, "set the defaults"@),
    ]
}

fn entries_defaults_exec() -> (r: Vec<(&'static str, &'static str)>)
    ensures
        pairs_view(r@) == entries_defaults(),
{
    let mut v: Vec<(&'static str, &'static str)> = Vec::new();
    v.push(("tt default", "show the default languages"));
    v.push(("tt default sl=<lang> tl=<lang>", "set the defaults"));
    assert(pairs_view(v@) =~= entries_defaults());
    v
}

/// The entries of the PROFILES section.
pub open spec fn entries_profiles() -> Seq<(Seq<char>, Seq<char>)> {
    seq![
        ("tt profile add <name> sl=<l> tl=<l>"@, "create a profile"@),
        ("tt profile list"@, "list profiles"@),
        ("tt profile patch <name> [sl=] [tl=] [name=]"@, "change a profile"@),
        ("tt profile delete <name>"@, "remove a profile"@),
    ]
}

fn entries_profiles_exec() -> (r: Vec<(&'static str, &'static str)>)
    ensures
        pairs_view(r@) == entries_profiles(),
{
    let mut v: Vec<(&'static str, &'static str)> = Vec::new();
    v.push(("tt profile add <name> sl=<l> tl=<l>", "create a profile"));
    v.push(("tt profile list", "list profiles"));
    v.push(("tt profile patch <name> [sl=] [tl=] [name=]", "change a profile"));
    v.push(("tt profile delete <name>", "remove a profile"));
    assert(pairs_view(v@) =~= entries_profiles());
    v
}

/// The entries of the LANGUAGES section.
pub open spec fn entries_languages() -> Seq<(Seq<char>, Seq<char>)> {
    seq![
        ("tt languages"@, "list supported language codes"@),
    ]
}

fn entries_languages_exec() -> (r: Vec<(&'static str, &'static str)>)
    ensures
        pairs_view(r@) == entries_languages(),
{
    let mut v: Vec<(&'static str, &'static str)> = Vec::new();
    v.push(("tt languages", "list supported language codes"));
    assert(pairs_view(v@) =~= entries_languages());
    v
}

/// The entries of the CACHE section.
pub open spec fn entries_cache() -> Seq<(Seq<char>, Seq<char>)> {
    seq![
        ("tt cache"@, "show cached entries, size and path"@),
        ("tt cache clear"@, "delete every cached translation"@),
    ]
}

fn entries_cache_exec() -> (r: Vec<(&'static str, &'static str)>)
    ensures
        pairs_view(r@) == entries_cache(),
{
    let mut v: Vec<(&'static str, &'static str)> = Vec::new();
    v.push(("tt cache", "show cached entries, size and path"));
    v.push(("tt cache clear", "delete every cached translation"));
    assert(pairs_view(v@) =~= entries_cache());
    v
}

/// The entries of the UPDATE section.
pub open spec fn entries_update() -> Seq<(Seq<char>, Seq<char>)> {
    seq![
        ("tt update"@, "install the latest release"@),
    ]
}

fn entries_update_exec() -> (r: Vec<(&'static str, &'static str)>)
    ensures
        pairs_view(r@) == entries_update(),
{
    let mut v: Vec<(&'static str, &'static str)> = Vec::new();
    v.push(("tt update", "install the latest release"));
    assert(pairs_view(v@) =~= entries_update());
    v
}

/// The example commands and what they print.
pub open spec fn examples() -> Seq<(Seq<char>, Seq<char>)> {
    seq![
        ("tt \"bom dia\""@, "good morning"@),
        ("tt tl=es \"good morning\""@, "buenos días"@),
        ("tt sl=de tl=en \"danke\""@, "thank you"@),
    ]
}

fn examples_exec() -> (r: Vec<(&'static str, &'static str)>)
    ensures
        pairs_view(r@) == examples(),
{
    let mut v: Vec<(&'static str, &'static str)> = Vec::new();
    v.push(("tt \"bom dia\"", "good morning"));
    v.push(("tt tl=es \"good morning\"", "buenos días"));
    v.push(("tt sl=de tl=en \"danke\"", "thank you"));
    assert(pairs_view(v@) =~= examples());
    v
}

/// The whole help text.
pub open spec fn help_of(color: bool) -> Seq<char> {
    paint_of(color, BOLD@, "tt"@) + "  "@ + paint_of(color, DIM@, "command-line text translator"@) + "\n\n"@
        + paint_of(color, YELLOW@, "TRANSLATE"@) + "\n"@
        + "  "@ + paint_of(color, ITALIC@ + MAGENTA@, TRANSLATE_NOTE@) + "\n"@
        + rows_of(color, entries_translate(), 32) + "\n"@
        + paint_of(color, YELLOW@, "FLAGS"@) + "\n"@
        + rows_of(color, entries_flags(), 32) + "\n"@
        + paint_of(color, YELLOW@, "DEFAULTS"@) + "\n"@
        + rows_of(color, entries_defaults(), 32) + "\n"@
        + paint_of(color, YELLOW@, "PROFILES"@) + "\n"@
        + rows_of(color, entries_profiles(), 44) + "\n"@
        + paint_of(color, YELLOW@, "LANGUAGES"@) + "\n"@
        + rows_of(color, entries_languages(), 32) + "\n"@
        + paint_of(color, YELLOW@, "CACHE"@) + "\n"@
        + rows_of(color, entries_cache(), 32) + "\n"@
        + paint_of(color, YELLOW@, "UPDATE"@) + "\n"@
        + rows_of(color, entries_update(), 32) + "\n"@
        + paint_of(color, YELLOW@, "EXAMPLES"@) + "\n"@
        + example_rows_of(color, examples())
}

/// The help screen.
pub fn help(color: bool) -> (r: String)
    ensures
        r@ == help_of(color),
{
    let mut o = paint(color, BOLD, "tt");
    o.append("  ");
    o.append(paint(color, DIM, "command-line text translator").as_str());
    o.append("\n\n");
    o.append(paint(color, YELLOW, "TRANSLATE").as_str());
    o.append("\n");
    o.append("  ");
    o.append(paint(color, concat(ITALIC, MAGENTA).as_str(), TRANSLATE_NOTE).as_str());
    o.append("\n");
    o.append(rows(color, &entries_translate_exec(), 32).as_str());
    o.append("\n");
    o.append(paint(color, YELLOW, "FLAGS").as_str());
    o.append("\n");
    o.append(rows(color, &entries_flags_exec(), 32).as_str());
    o.append("\n");
    o.append(paint(color, YELLOW, "DEFAULTS").as_str());
    o.append("\n");
    o.append(rows(color, &entries_defaults_exec(), 32).as_str());
    o.append("\n");
    o.append(paint(color, YELLOW, "PROFILES").as_str());
    o.append("\n");
    o.append(rows(color, &entries_profiles_exec(), 44).as_str());
    o.append("\n");
    o.append(paint(color, YELLOW, "LANGUAGES").as_str());
    o.append("\n");
    o.append(rows(color, &entries_languages_exec(), 32).as_str());
    o.append("\n");
    o.append(paint(color, YELLOW, "CACHE").as_str());
    o.append("\n");
    o.append(rows(color, &entries_cache_exec(), 32).as_str());
    o.append("\n");
    o.append(paint(color, YELLOW, "UPDATE").as_str());
    o.append("\n");
    o.append(rows(color, &entries_update_exec(), 32).as_str());
    o.append("\n");
    o.append(paint(color, YELLOW, "EXAMPLES").as_str());
    o.append("\n");
    o.append(example_rows(color, &examples_exec()).as_str());
    o
}

/// Every text of a table of entries is free of the escape character.
pub open spec fn plain_entries(e: Seq<(Seq<char>, Seq<char>)>) -> bool {
    forall|i: int| 0 <= i < e.len() ==> lacks(#[trigger] e[i].0, '\x1b') && lacks(e[i].1, '\x1b')
}

proof fn lemma_entries_translate_plain()
    ensures
        plain_entries(entries_translate()),
{
    reveal_strlit("... | tt ...");
    reveal_strlit("set both languages explicitly");
    reveal_strlit("set the target, auto-detect the source language");
    reveal_strlit("translate piped stdin when given no text");
    reveal_strlit("translate the contents of a file");
    reveal_strlit("translate using a saved profile");
    reveal_strlit("translate with your default profile");
    reveal_strlit("tt <text>");
    reveal_strlit("tt f=<file> ...");
    reveal_strlit("tt p=<profile> <text>");
    reveal_strlit("tt sl=<lang> tl=<lang> <text>");
    reveal_strlit("tt tl=<lang> <text>");
}

proof fn lemma_entries_flags_plain()
    ensures
        plain_entries(entries_flags()),
{
    reveal_strlit("--no-cache");
    reveal_strlit("-h, --help");
    reveal_strlit("-j, --json");
    reveal_strlit("-q, --quiet");
    reveal_strlit("-s, --synonyms");
    reveal_strlit("-v, --verbose");
    reveal_strlit("a labeled breakdown: languages, original, result");
    reveal_strlit("only the primary translation");
    reveal_strlit("only the synonyms and back translations");
    reveal_strlit("show this help");
    reveal_strlit("skip the on-disk cache for this call");
    reveal_strlit("the full result as one JSON line, for scripts");
}

proof fn lemma_entries_defaults_plain()
    ensures
        plain_entries(entries_defaults()),
{
    reveal_strlit("set the defaults");
    reveal_strlit("show the default languages");
    reveal_strlit("tt default");
    reveal_strlit("tt default sl=<lang> tl=<lang>");
}

proof fn lemma_entries_profiles_plain()
    ensures
        plain_entries(entries_profiles()),
{
    reveal_strlit("change a profile");
    reveal_strlit("create a profile");
    reveal_strlit("list profiles");
    reveal_strlit("remove a profile");
    reveal_strlit("tt profile add <name> sl=<l> tl=<l>");
    reveal_strlit("tt profile delete <name>");
    reveal_strlit("tt profile list");
    reveal_strlit("tt profile patch <name> [sl=] [tl=] [name=]");
}

proof fn lemma_entries_languages_plain()
    ensures
        plain_entries(entries_languages()),
{
    reveal_strlit("list supported language codes");
    reveal_strlit("tt languages");
}

proof fn lemma_entries_cache_plain()
    ensures
        plain_entries(entries_cache()),
{
    reveal_strlit("delete every cached translation");
    reveal_strlit("show cached entries, size and path");
    reveal_strlit("tt cache");
    reveal_strlit("tt cache clear");
}

proof fn lemma_entries_update_plain()
    ensures
        plain_entries(entries_update()),
{
    reveal_strlit("install the latest release");
    reveal_strlit("tt update");
}

proof fn lemma_examples_plain()
    ensures
        plain_entries(examples()),
{
    reveal_strlit("buenos días");
    reveal_strlit("good morning");
    reveal_strlit("thank you");
    reveal_strlit("tt \"bom dia\"");
    reveal_strlit("tt sl=de tl=en \"danke\"");
    reveal_strlit("tt tl=es \"good morning\"");
}

proof fn lemma_language_table_plain()
    ensures
        plain_entries(language_table()),
{
    reveal_strlit("Arabic");
    reveal_strlit("Chinese (Simplified)");
    reveal_strlit("Chinese (Traditional)");
    reveal_strlit("Czech");
    reveal_strlit("Danish");
    reveal_strlit("Dutch");
    reveal_strlit("English");
    reveal_strlit("Finnish");
    reveal_strlit("French");
    reveal_strlit("German");
    reveal_strlit("Greek");
    reveal_strlit("Hebrew");
    reveal_strlit("Hindi");
    reveal_strlit("Hungarian");
    reveal_strlit("Indonesian");
    reveal_strlit("Italian");
    reveal_strlit("Japanese");
    reveal_strlit("Korean");
    reveal_strlit("Norwegian");
    reveal_strlit("Polish");
    reveal_strlit("Portuguese (Brazil)");
    reveal_strlit("Portuguese (Portugal)");
    reveal_strlit("Romanian");
    reveal_strlit("Russian");
    reveal_strlit("Spanish");
    reveal_strlit("Swedish");
    reveal_strlit("Thai");
    reveal_strlit("Turkish");
    reveal_strlit("Ukrainian");
    reveal_strlit("Vietnamese");
    reveal_strlit("ar");
    reveal_strlit("auto");
    reveal_strlit("cs");
    reveal_strlit("da");
    reveal_strlit("de");
    reveal_strlit("detect");
    reveal_strlit("el");
    reveal_strlit("en");
    reveal_strlit("es");
    reveal_strlit("fi");
    reveal_strlit("fr");
    reveal_strlit("he");
    reveal_strlit("hi");
    reveal_strlit("hu");
    reveal_strlit("id");
    reveal_strlit("it");
    reveal_strlit("ja");
    reveal_strlit("ko");
    reveal_strlit("nl");
    reveal_strlit("no");
    reveal_strlit("pl");
    reveal_strlit("pt-BR");
    reveal_strlit("pt-PT");
    reveal_strlit("ro");
    reveal_strlit("ru");
    reveal_strlit("sv");
    reveal_strlit("th");
    reveal_strlit("tr");
    reveal_strlit("uk");
    reveal_strlit("vi");
    reveal_strlit("zh-CN");
    reveal_strlit("zh-TW");
}

/// Padding with spaces adds no other character.
pub proof fn lemma_pad_lacks(s: Seq<char>, width: nat, c: char)
    requires
        lacks(s, c),
        c != ' ',
    ensures
        lacks(pad_of(s, width), c),
{
    if s.len() < width {
        let sp = Seq::new((width - s.len()) as nat, |i: int| ' ');
        lemma_lacks_concat(s, sp, c);
    }
}

proof fn lemma_rows_plain(entries: Seq<(Seq<char>, Seq<char>)>, width: nat)
    requires
        plain_entries(entries),
    ensures
        lacks(rows_of(false, entries, width), '\x1b'),
    decreases entries.len(),
{
    reveal_strlit("  ");
    reveal_strlit("\n");
    let esc = '\x1b';
    if entries.len() > 0 {
        let p = entries.drop_last();
        assert(plain_entries(p)) by {
            assert forall|i: int| 0 <= i < p.len() implies lacks(#[trigger] p[i].0, esc) && lacks(
                p[i].1,
                esc,
            ) by {
                assert(p[i] == entries[i]);
            }
        }
        lemma_rows_plain(p, width);
        let e = entries.last();
        assert(entries[entries.len() - 1] == e);
        lemma_pad_lacks(e.0, width, esc);
        lemma_lacks_concat("  "@, pad_of(e.0, width), esc);
        lemma_lacks_concat("  "@ + pad_of(e.0, width), e.1, esc);
        lemma_lacks_concat("  "@ + pad_of(e.0, width) + e.1, "\n"@, esc);
        lemma_lacks_concat(rows_of(false, p, width), row_of(false, e.0, e.1, width), esc);
    }
}

proof fn lemma_example_rows_plain(entries: Seq<(Seq<char>, Seq<char>)>)
    requires
        plain_entries(entries),
    ensures
        lacks(example_rows_of(false, entries), '\x1b'),
    decreases entries.len(),
{
    reveal_strlit("  ");
    reveal_strlit("\n");
    reveal_strlit("->");
    reveal_strlit(" ");
    let esc = '\x1b';
    if entries.len() > 0 {
        let p = entries.drop_last();
        assert(plain_entries(p)) by {
            assert forall|i: int| 0 <= i < p.len() implies lacks(#[trigger] p[i].0, esc) && lacks(
                p[i].1,
                esc,
            ) by {
                assert(p[i] == entries[i]);
            }
        }
        lemma_example_rows_plain(p);
        let e = entries.last();
        assert(entries[entries.len() - 1] == e);
        lemma_pad_lacks(e.0, 32, esc);
        let a = "  "@ + pad_of(e.0, 32);
        lemma_lacks_concat("  "@, pad_of(e.0, 32), esc);
        lemma_lacks_concat(a, "->"@, esc);
        lemma_lacks_concat(a + "->"@, " "@, esc);
        lemma_lacks_concat(a + "->"@ + " "@, e.1, esc);
        lemma_lacks_concat(a + "->"@ + " "@ + e.1, "\n"@, esc);
        lemma_lacks_concat(example_rows_of(false, p), example_row_of(false, e.0, e.1), esc);
    }
}

proof fn lemma_language_rows_plain(entries: Seq<(Seq<char>, Seq<char>)>)
    requires
        plain_entries(entries),
    ensures
        lacks(language_rows_of(false, entries), '\x1b'),
    decreases entries.len(),
{
    reveal_strlit("  ");
    reveal_strlit("\n");
    let esc = '\x1b';
    if entries.len() > 0 {
        let p = entries.drop_last();
        assert(plain_entries(p)) by {
            assert forall|i: int| 0 <= i < p.len() implies lacks(#[trigger] p[i].0, esc) && lacks(
                p[i].1,
                esc,
            ) by {
                assert(p[i] == entries[i]);
            }
        }
        lemma_language_rows_plain(p);
        let e = entries.last();
        assert(entries[entries.len() - 1] == e);
        lemma_pad_lacks(e.0, 7, esc);
        let a = "  "@ + pad_of(e.0, 7);
        lemma_lacks_concat("  "@, pad_of(e.0, 7), esc);
        lemma_lacks_concat(a, "  "@, esc);
        lemma_lacks_concat(a + "  "@, e.1, esc);
        lemma_lacks_concat(a + "  "@ + e.1, "\n"@, esc);
        lemma_lacks_concat(language_rows_of(false, p), language_row_of(false, e.0, e.1), esc);
    }
}

/// Without color the help screen and the list of languages are plain
/// text: no escape character anywhere.
pub proof fn law_plain_help_has_no_escape()
    ensures
        lacks(help_of(false), '\x1b'),
        lacks(languages_of(false), '\x1b'),
{
    let esc = '\x1b';
    reveal_strlit("tt");
    reveal_strlit("  ");
    reveal_strlit("command-line text translator");
    reveal_strlit("\n\n");
    reveal_strlit("TRANSLATE");
    reveal_strlit("\n");
    reveal_strlit("FLAGS");
    reveal_strlit("DEFAULTS");
    reveal_strlit("PROFILES");
    reveal_strlit("LANGUAGES");
    reveal_strlit("CACHE");
    reveal_strlit("UPDATE");
    reveal_strlit("EXAMPLES");
    reveal_strlit("languages are named params: order is free and the source language is optional");
    reveal_strlit("SUPPORTED LANGUAGES");
    reveal_strlit("aliases and any capitalization work: pt, br, ptbr, pt-BR all mean Portuguese (Brazil)");
    lemma_entries_translate_plain();
    lemma_entries_flags_plain();
    lemma_entries_defaults_plain();
    lemma_entries_profiles_plain();
    lemma_entries_languages_plain();
    lemma_entries_cache_plain();
    lemma_entries_update_plain();
    lemma_examples_plain();
    lemma_language_table_plain();
    lemma_rows_plain(entries_translate(), 32);
    lemma_rows_plain(entries_flags(), 32);
    lemma_rows_plain(entries_defaults(), 32);
    lemma_rows_plain(entries_profiles(), 44);
    lemma_rows_plain(entries_languages(), 32);
    lemma_rows_plain(entries_cache(), 32);
    lemma_rows_plain(entries_update(), 32);
    lemma_example_rows_plain(examples());
    lemma_language_rows_plain(language_table());
    let h0 = "tt"@;
    lemma_lacks_concat(h0, "  "@, esc);
    let h1 = h0 + "  "@;
    lemma_lacks_concat(h1, "command-line text translator"@, esc);
    let h2 = h1 + "command-line text translator"@;
    lemma_lacks_concat(h2, "\n\n"@, esc);
    let h3 = h2 + "\n\n"@;
    lemma_lacks_concat(h3, "TRANSLATE"@, esc);
    let h4 = h3 + "TRANSLATE"@;
    lemma_lacks_concat(h4, "\n"@, esc);
    let h5 = h4 + "\n"@;
    lemma_lacks_concat(h5, "  "@, esc);
    let h6 = h5 + "  "@;
    lemma_lacks_concat(h6, TRANSLATE_NOTE@, esc);
    let h7 = h6 + TRANSLATE_NOTE@;
    lemma_lacks_concat(h7, "\n"@, esc);
    let h8 = h7 + "\n"@;
    lemma_lacks_concat(h8, rows_of(false, entries_translate(), 32), esc);
    let h9 = h8 + rows_of(false, entries_translate(), 32);
    lemma_lacks_concat(h9, "\n"@, esc);
    let h10 = h9 + "\n"@;
    lemma_lacks_concat(h10, "FLAGS"@, esc);
    let h11 = h10 + "FLAGS"@;
    lemma_lacks_concat(h11, "\n"@, esc);
    let h12 = h11 + "\n"@;
    lemma_lacks_concat(h12, rows_of(false, entries_flags(), 32), esc);
    let h13 = h12 + rows_of(false, entries_flags(), 32);
    lemma_lacks_concat(h13, "\n"@, esc);
    let h14 = h13 + "\n"@;
    lemma_lacks_concat(h14, "DEFAULTS"@, esc);
    let h15 = h14 + "DEFAULTS"@;
    lemma_lacks_concat(h15, "\n"@, esc);
    let h16 = h15 + "\n"@;
    lemma_lacks_concat(h16, rows_of(false, entries_defaults(), 32), esc);
    let h17 = h16 + rows_of(false, entries_defaults(), 32);
    lemma_lacks_concat(h17, "\n"@, esc);
    let h18 = h17 + "\n"@;
    lemma_lacks_concat(h18, "PROFILES"@, esc);
    let h19 = h18 + "PROFILES"@;
    lemma_lacks_concat(h19, "\n"@, esc);
    let h20 = h19 + "\n"@;
    lemma_lacks_concat(h20, rows_of(false, entries_profiles(), 44), esc);
    let h21 = h20 + rows_of(false, entries_profiles(), 44);
    lemma_lacks_concat(h21, "\n"@, esc);
    let h22 = h21 + "\n"@;
    lemma_lacks_concat(h22, "LANGUAGES"@, esc);
    let h23 = h22 + "LANGUAGES"@;
    lemma_lacks_concat(h23, "\n"@, esc);
    let h24 = h23 + "\n"@;
    lemma_lacks_concat(h24, rows_of(false, entries_languages(), 32), esc);
    let h25 = h24 + rows_of(false, entries_languages(), 32);
    lemma_lacks_concat(h25, "\n"@, esc);
    let h26 = h25 + "\n"@;
    lemma_lacks_concat(h26, "CACHE"@, esc);
    let h27 = h26 + "CACHE"@;
    lemma_lacks_concat(h27, "\n"@, esc);
    let h28 = h27 + "\n"@;
    lemma_lacks_concat(h28, rows_of(false, entries_cache(), 32), esc);
    let h29 = h28 + rows_of(false, entries_cache(), 32);
    lemma_lacks_concat(h29, "\n"@, esc);
    let h30 = h29 + "\n"@;
    lemma_lacks_concat(h30, "UPDATE"@, esc);
    let h31 = h30 + "UPDATE"@;
    lemma_lacks_concat(h31, "\n"@, esc);
    let h32 = h31 + "\n"@;
    lemma_lacks_concat(h32, rows_of(false, entries_update(), 32), esc);
    let h33 = h32 + rows_of(false, entries_update(), 32);
    lemma_lacks_concat(h33, "\n"@, esc);
    let h34 = h33 + "\n"@;
    lemma_lacks_concat(h34, "EXAMPLES"@, esc);
    let h35 = h34 + "EXAMPLES"@;
    lemma_lacks_concat(h35, "\n"@, esc);
    let h36 = h35 + "\n"@;
    lemma_lacks_concat(h36, example_rows_of(false, examples()), esc);
    let h37 = h36 + example_rows_of(false, examples());
    assert(help_of(false) == h37);
    let l0 = "SUPPORTED LANGUAGES"@ + "\n"@;
    lemma_lacks_concat("SUPPORTED LANGUAGES"@, "\n"@, esc);
    lemma_lacks_concat(l0, language_rows_of(false, language_table()), esc);
    let l1 = l0 + language_rows_of(false, language_table());
    lemma_lacks_concat(l1, "\n"@, esc);
    lemma_lacks_concat(l1 + "\n"@, ALIAS_NOTE@, esc);
    lemma_lacks_concat(l1 + "\n"@ + ALIAS_NOTE@, "\n"@, esc);
}

} // verus!
