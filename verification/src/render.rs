//! Turning a translation into text: the plain and colored layouts, the
//! machine-readable line, and the footer with the browser link.

use vstd::prelude::*;
use crate::color::{hyperlink, hyperlink_of, paint, paint_of, BOLD, CYAN, DIM, GREEN, YELLOW};
use crate::engine::{strings_view, Synonym, SynonymView, Translation, TranslationView};
use crate::json::{json_body_of, json_char_of, json_string_of, lower_hex, quote};
use crate::lang::{display_name, display_name_of, lemma_display_name_lacks_escape};
use crate::text::{join, join_strings, lacks, lemma_join_lacks, lemma_lacks_concat, opt_string, owned, push_char, str_eq};

verus! {

/// Which parts of a translation to print.
#[derive(Debug, Clone, Copy, PartialEq, Eq, Structural)]
pub enum Filter {
    Full,
    Quiet,
    Synonyms,
    Verbose,
    Json,
}

/// What was asked, to label the output.
pub struct Meta<'a> {
    pub sl: &'a str,
    pub tl: &'a str,
    pub text: &'a str,
    pub engine: &'a str,
    pub cached: bool,
}

pub const NO_SYNONYMS: &'static str = "no synonyms for this translation";

/// One synonym: the word, then its back translations when there are any.
pub open spec fn synonym_line_of(s: SynonymView, color: bool) -> Seq<char> {
    if s.back.len() == 0 {
        paint_of(color, CYAN@, s.word)
    } else {
        paint_of(color, CYAN@, s.word) + "  "@ + paint_of(color, DIM@, join(s.back, ", "@))
    }
}

/// All synonyms, one per line.
pub open spec fn synonyms_block_of(syns: Seq<SynonymView>, color: bool) -> Seq<char> {
    join(syns.map_values(|s: SynonymView| synonym_line_of(s, color)), "\n"@)
}

/// The synonyms block, or a note that there is none.
pub open spec fn synonyms_or_note(syns: Seq<SynonymView>, color: bool) -> Seq<char> {
    if synonyms_block_of(syns, color).len() == 0 {
        paint_of(color, DIM@, NO_SYNONYMS@)
    } else {
        synonyms_block_of(syns, color)
    }
}

/// A line without its carriage return, when it ends with one.
pub open spec fn strip_cr(l: Seq<char>) -> Seq<char> {
    if l.len() > 0 && l.last() == '\r' {
        l.drop_last()
    } else {
        l
    }
}

/// Complete lines so far and the line being read.
pub open spec fn line_fold(s: Seq<char>) -> (Seq<Seq<char>>, Seq<char>)
    decreases s.len(),
{
    if s.len() == 0 {
        (Seq::empty(), Seq::empty())
    } else {
        let (done, cur) = line_fold(s.drop_last());
        if s.last() == '\n' {
            (done.push(strip_cr(cur)), Seq::empty())
        } else {
            (done, cur.push(s.last()))
        }
    }
}

/// The lines of a text (`str::lines`): split at `\n`, a `\r` before it
/// dropped, no empty line after a final line break.
pub open spec fn lines_of(s: Seq<char>) -> Seq<Seq<char>> {
    let (done, cur) = line_fold(s);
    if cur.len() == 0 {
        done
    } else {
        done.push(cur)
    }
}

/// Every line of a text indented by two spaces.
pub open spec fn indent_of(s: Seq<char>) -> Seq<char> {
    join(lines_of(s).map_values(|l: Seq<char>| "  "@ + l), "\n"@)
}

/// The detected-language line of the default layout.
pub open spec fn detected_line_of(t: TranslationView, color: bool, sl: Seq<char>) -> Seq<char> {
    if sl == "auto"@ && t.detected_source is Some {
        paint_of(color, DIM@, "detected: "@ + display_name_of(t.detected_source->0)) + "\n"@
    } else {
        Seq::empty()
    }
}

/// The spelling-hint line of the default layout.
pub open spec fn correction_line_of(t: TranslationView, color: bool) -> Seq<char> {
    match t.correction {
        Some(c) => paint_of(color, DIM@, "did you mean: "@ + c) + "\n"@,
        None => Seq::empty(),
    }
}

/// The synonyms after a blank line, when there are any.
pub open spec fn synonyms_tail_of(t: TranslationView, color: bool) -> Seq<char> {
    if synonyms_block_of(t.synonyms, color).len() == 0 {
        Seq::empty()
    } else {
        "\n\n"@ + synonyms_block_of(t.synonyms, color)
    }
}

/// The default layout: detected language and spelling hint when there are
/// any, the translation in bold, its transliteration, then the synonyms.
pub open spec fn full_of(t: TranslationView, color: bool, sl: Seq<char>) -> Seq<char> {
    detected_line_of(t, color, sl) + correction_line_of(t, color) + verbose_translated_of(t, color)
        + synonyms_tail_of(t, color)
}

/// The source language shown by the verbose layout.
pub open spec fn verbose_source(t: TranslationView, sl: Seq<char>) -> Seq<char> {
    if sl == "auto"@ {
        match t.detected_source {
            Some(d) => d,
            None => "auto"@,
        }
    } else {
        sl
    }
}

/// The source label of the verbose layout.
pub open spec fn source_label_of(t: TranslationView, sl: Seq<char>) -> Seq<char> {
    if sl == "auto"@ {
        display_name_of(verbose_source(t, sl)) + " (detected)"@
    } else {
        display_name_of(verbose_source(t, sl))
    }
}

/// The first line of the verbose layout.
pub open spec fn verbose_header_of(
    t: TranslationView,
    color: bool,
    sl: Seq<char>,
    tl: Seq<char>,
    cached: bool,
) -> Seq<char> {
    paint_of(color, DIM@, "translating"@) + " "@ + paint_of(color, CYAN@, source_label_of(t, sl))
        + " "@ + paint_of(color, GREEN@, "->"@) + " "@ + paint_of(color, CYAN@, display_name_of(tl))
        + (if cached {
        " "@ + paint_of(color, DIM@, "(cached)"@)
    } else {
        Seq::empty()
    }) + "\n\n"@
}

/// The input text with its transliteration and spelling hint.
pub open spec fn verbose_input_of(t: TranslationView, color: bool, text: Seq<char>) -> Seq<char> {
    text + (match t.source_translit {
        Some(tr) => "\n"@ + paint_of(color, DIM@, tr),
        None => Seq::empty(),
    }) + (match t.correction {
        Some(c) => "\n"@ + paint_of(color, DIM@, "did you mean: "@ + c),
        None => Seq::empty(),
    })
}

/// The translation with its transliteration.
pub open spec fn verbose_translated_of(t: TranslationView, color: bool) -> Seq<char> {
    paint_of(color, BOLD@, t.primary) + (match t.target_translit {
        Some(tr) => "\n"@ + paint_of(color, DIM@, tr),
        None => Seq::empty(),
    })
}

/// A section label with its parenthesized note.
pub open spec fn section_of(color: bool, label: Seq<char>, note: Seq<char>) -> Seq<char> {
    paint_of(color, YELLOW@, label) + " "@ + paint_of(color, DIM@, "("@ + note + ")"@)
}

/// The verbose layout: a header naming the languages, then the input,
/// the translation and the synonyms, each under a label.
pub open spec fn verbose_of(
    t: TranslationView,
    color: bool,
    sl: Seq<char>,
    tl: Seq<char>,
    text: Seq<char>,
    cached: bool,
) -> Seq<char> {
    verbose_header_of(t, color, sl, tl, cached) + section_of(
        color,
        "ORIGINAL"@,
        source_label_of(t, sl),
    ) + "\n"@ + indent_of(verbose_input_of(t, color, text)) + "\n\n"@ + section_of(
        color,
        "TRANSLATION"@,
        display_name_of(tl),
    ) + "\n"@ + indent_of(verbose_translated_of(t, color)) + "\n"@ + "\n"@ + paint_of(
        color,
        YELLOW@,
        "SYNONYMS"@,
    ) + "\n"@ + indent_of(synonyms_or_note(t.synonyms, color))
}

/// A JSON string, or `null`.
pub open spec fn json_opt_of(o: Option<Seq<char>>) -> Seq<char> {
    match o {
        Some(s) => json_string_of(s),
        None => "null"@,
    }
}

/// One synonym as a JSON object.
pub open spec fn json_synonym_of(s: SynonymView) -> Seq<char> {
    "{\"word\":"@ + json_string_of(s.word) + ",\"back\":["@ + join(
        s.back.map_values(|b: Seq<char>| json_string_of(b)),
        ","@,
    ) + "]}"@
}

/// The whole result as one JSON object.
pub open spec fn json_of(
    t: TranslationView,
    sl: Seq<char>,
    tl: Seq<char>,
    text: Seq<char>,
    engine: Seq<char>,
    cached: bool,
) -> Seq<char> {
    "{\"sl\":"@ + json_string_of(sl) + ",\"tl\":"@ + json_string_of(tl) + ",\"detected\":"@
        + json_opt_of(t.detected_source) + ",\"text\":"@ + json_string_of(text) + ",\"primary\":"@
        + json_string_of(t.primary) + ",\"correction\":"@ + json_opt_of(t.correction)
        + ",\"synonyms\":["@ + join(t.synonyms.map_values(|s: SynonymView| json_synonym_of(s)), ","@)
        + "],\"engine\":"@ + json_string_of(engine) + ",\"cached\":"@ + (if cached {
        "true"@
    } else {
        "false"@
    }) + "}"@
}

/// The text for a filter.
pub open spec fn render_of(
    t: TranslationView,
    filter: Filter,
    color: bool,
    sl: Seq<char>,
    tl: Seq<char>,
    text: Seq<char>,
    engine: Seq<char>,
    cached: bool,
) -> Seq<char> {
    match filter {
        Filter::Quiet => t.primary,
        Filter::Synonyms => synonyms_or_note(t.synonyms, color),
        Filter::Full => full_of(t, color, sl),
        Filter::Verbose => verbose_of(t, color, sl, tl, text, cached),
        Filter::Json => json_of(t, sl, tl, text, engine, cached),
    }
}

fn synonym_line(s: &Synonym, color: bool) -> (r: String)
    ensures
        r@ == synonym_line_of(s@, color),
{
    if s.back.len() == 0 {
        paint(color, CYAN, s.word.as_str())
    } else {
        let mut r = paint(color, CYAN, s.word.as_str());
        r.append("  ");
        let back = join_strings(&s.back, ", ");
        r.append(paint(color, DIM, back.as_str()).as_str());
        r
    }
}

fn synonyms_block(syns: &Vec<Synonym>, color: bool) -> (r: String)
    ensures
        r@ == synonyms_block_of(syns@.map_values(|s: Synonym| s@), color),
{
    let ghost sv = syns@.map_values(|s: Synonym| s@);
    let ghost lv = sv.map_values(|s: SynonymView| synonym_line_of(s, color));
    let mut out = String::new();
    let n = syns.len();
    let mut i: usize = 0;
    while i < n
        invariant
            n == syns@.len(),
            sv == syns@.map_values(|s: Synonym| s@),
            lv == sv.map_values(|s: SynonymView| synonym_line_of(s, color)),
            i <= n,
            out@ == join(lv.take(i as int), "\n"@),
        decreases n - i,
    {
        assert(lv.take(i + 1).drop_last() =~= lv.take(i as int));
        if i > 0 {
            out.append("\n");
        } else {
            assert(lv.take(1) =~= seq![lv[0]]);
        }
        let line = synonym_line(&syns[i], color);
        out.append(line.as_str());
        i = i + 1;
    }
    assert(lv.take(n as int) =~= lv);
    out
}

fn synonyms_or_note_exec(syns: &Vec<Synonym>, color: bool) -> (r: String)
    ensures
        r@ == synonyms_or_note(syns@.map_values(|s: Synonym| s@), color),
{
    let block = synonyms_block(syns, color);
    if block.unicode_len() == 0 {
        paint(color, DIM, NO_SYNONYMS)
    } else {
        block
    }
}

fn strip_cr_exec(l: String) -> (r: String)
    ensures
        r@ == strip_cr(l@),
{
    let n = l.as_str().unicode_len();
    if n > 0 && l.as_str().get_char(n - 1) == '\r' {
        let t = owned(l.as_str().substring_char(0, n - 1));
        assert(l@.subrange(0, n - 1) =~= l@.drop_last());
        t
    } else {
        l
    }
}

/// The lines of a text, as `str::lines` gives them.
pub fn split_lines(s: &str) -> (r: Vec<String>)
    ensures
        strings_view(r@) == lines_of(s@),
{
    let n = s.unicode_len();
    let mut done: Vec<String> = Vec::new();
    let mut cur = String::new();
    let mut i: usize = 0;
    assert(s@.take(0) =~= Seq::<char>::empty());
    assert(strings_view(done@) =~= Seq::<Seq<char>>::empty());
    while i < n
        invariant
            n == s@.len(),
            i <= n,
            line_fold(s@.take(i as int)) == (strings_view(done@), cur@),
        decreases n - i,
    {
        let c = s.get_char(i);
        assert(s@.take(i + 1).drop_last() =~= s@.take(i as int));
        assert(s@.take(i + 1).last() == c);
        if c == '\n' {
            let mut line = String::new();
            std::mem::swap(&mut line, &mut cur);
            let stripped = strip_cr_exec(line);
            let ghost before = strings_view(done@);
            done.push(stripped);
            assert(strings_view(done@) =~= before.push(stripped@));
        } else {
            push_char(&mut cur, c);
        }
        i = i + 1;
    }
    assert(s@.take(n as int) =~= s@);
    if cur.as_str().unicode_len() > 0 {
        let ghost before = strings_view(done@);
        done.push(cur);
        assert(strings_view(done@) =~= before.push(cur@));
    }
    done
}

fn indent(s: &str) -> (r: String)
    ensures
        r@ == indent_of(s@),
{
    let lines = split_lines(s);
    let ghost lv = lines_of(s@).map_values(|l: Seq<char>| "  "@ + l);
    let mut out = String::new();
    let n = lines.len();
    let mut i: usize = 0;
    while i < n
        invariant
            n == lines@.len(),
            strings_view(lines@) == lines_of(s@),
            lv == lines_of(s@).map_values(|l: Seq<char>| "  "@ + l),
            i <= n,
            out@ == join(lv.take(i as int), "\n"@),
        decreases n - i,
    {
        assert(lv.take(i + 1).drop_last() =~= lv.take(i as int));
        assert(lines_of(s@)[i as int] == lines@[i as int]@);
        if i > 0 {
            out.append("\n");
        } else {
            assert(lv.take(1) =~= seq![lv[0]]);
        }
        out.append("  ");
        out.append(lines[i].as_str());
        i = i + 1;
    }
    assert(lv.take(n as int) =~= lv);
    out
}

fn detected_line(t: &Translation, color: bool, sl: &str) -> (r: String)
    ensures
        r@ == detected_line_of(t@, color, sl@),
{
    let mut out = String::new();
    if str_eq(sl, "auto") {
        if let Some(code) = &t.detected_source {
            let mut d = owned("detected: ");
            d.append(display_name(code.as_str()).as_str());
            out.append(paint(color, DIM, d.as_str()).as_str());
            out.append("\n");
        }
    }
    out
}

fn correction_line(t: &Translation, color: bool) -> (r: String)
    ensures
        r@ == correction_line_of(t@, color),
{
    let mut out = String::new();
    if let Some(c) = &t.correction {
        let mut d = owned("did you mean: ");
        d.append(c.as_str());
        out.append(paint(color, DIM, d.as_str()).as_str());
        out.append("\n");
    }
    out
}

fn full(t: &Translation, color: bool, sl: &str) -> (r: String)
    ensures
        r@ == full_of(t@, color, sl@),
{
    let mut out = detected_line(t, color, sl);
    out.append(correction_line(t, color).as_str());
    out.append(verbose_translated(t, color).as_str());
    let block = synonyms_block(&t.synonyms, color);
    if block.unicode_len() > 0 {
        out.append("\n\n");
        out.append(block.as_str());
    }
    out
}

fn source_label(t: &Translation, sl: &str) -> (r: String)
    ensures
        r@ == source_label_of(t@, sl@),
{
    let auto = str_eq(sl, "auto");
    let source: &str = if auto {
        match &t.detected_source {
            Some(d) => d.as_str(),
            None => "auto",
        }
    } else {
        sl
    };
    let mut label = display_name(source);
    if auto {
        label.append(" (detected)");
    }
    label
}

fn verbose_header(t: &Translation, color: bool, meta: &Meta) -> (r: String)
    ensures
        r@ == verbose_header_of(t@, color, meta.sl@, meta.tl@, meta.cached),
{
    let label = source_label(t, meta.sl);
    let target_name = display_name(meta.tl);
    let mut out = paint(color, DIM, "translating");
    out.append(" ");
    out.append(paint(color, CYAN, label.as_str()).as_str());
    out.append(" ");
    out.append(paint(color, GREEN, "->").as_str());
    out.append(" ");
    out.append(paint(color, CYAN, target_name.as_str()).as_str());
    if meta.cached {
        out.append(" ");
        out.append(paint(color, DIM, "(cached)").as_str());
    }
    out.append("\n\n");
    out
}

fn verbose_input(t: &Translation, color: bool, text: &str) -> (r: String)
    ensures
        r@ == verbose_input_of(t@, color, text@),
{
    let mut input = owned(text);
    if let Some(tr) = &t.source_translit {
        input.append("\n");
        input.append(paint(color, DIM, tr.as_str()).as_str());
    }
    let ghost mid = input@;
    if let Some(c) = &t.correction {
        input.append("\n");
        let mut d = owned("did you mean: ");
        d.append(c.as_str());
        input.append(paint(color, DIM, d.as_str()).as_str());
    }
    input
}

fn verbose_translated(t: &Translation, color: bool) -> (r: String)
    ensures
        r@ == verbose_translated_of(t@, color),
{
    let mut translated = paint(color, BOLD, t.primary.as_str());
    if let Some(tr) = &t.target_translit {
        translated.append("\n");
        translated.append(paint(color, DIM, tr.as_str()).as_str());
    }
    translated
}

fn section(color: bool, label: &str, note: &str) -> (r: String)
    ensures
        r@ == section_of(color, label@, note@),
{
    let mut sec = paint(color, YELLOW, label);
    sec.append(" ");
    let mut lab = owned("(");
    lab.append(note);
    lab.append(")");
    sec.append(paint(color, DIM, lab.as_str()).as_str());
    sec
}

fn verbose(t: &Translation, color: bool, meta: &Meta) -> (r: String)
    ensures
        r@ == verbose_of(t@, color, meta.sl@, meta.tl@, meta.text@, meta.cached),
{
    let label = source_label(t, meta.sl);
    let target_name = display_name(meta.tl);
    let mut out = verbose_header(t, color, meta);
    out.append(section(color, "ORIGINAL", label.as_str()).as_str());
    out.append("\n");
    out.append(indent(verbose_input(t, color, meta.text).as_str()).as_str());
    out.append("\n\n");
    out.append(section(color, "TRANSLATION", target_name.as_str()).as_str());
    out.append("\n");
    out.append(indent(verbose_translated(t, color).as_str()).as_str());
    out.append("\n");
    out.append("\n");
    out.append(paint(color, YELLOW, "SYNONYMS").as_str());
    out.append("\n");
    let syn = synonyms_or_note_exec(&t.synonyms, color);
    out.append(indent(syn.as_str()).as_str());
    out
}

fn json_opt(o: &Option<String>) -> (r: String)
    ensures
        r@ == json_opt_of(opt_string(*o)),
{
    match o {
        Some(s) => quote(s.as_str()),
        None => owned("null"),
    }
}

fn json_synonym(s: &Synonym) -> (r: String)
    ensures
        r@ == json_synonym_of(s@),
{
    let ghost bv = strings_view(s.back@).map_values(|b: Seq<char>| json_string_of(b));
    let mut out = owned("{\"word\":");
    out.append(quote(s.word.as_str()).as_str());
    out.append(",\"back\":[");
    let mut items = String::new();
    let n = s.back.len();
    let mut i: usize = 0;
    while i < n
        invariant
            n == s.back@.len(),
            bv == strings_view(s.back@).map_values(|b: Seq<char>| json_string_of(b)),
            i <= n,
            items@ == join(bv.take(i as int), ","@),
        decreases n - i,
    {
        assert(bv.take(i + 1).drop_last() =~= bv.take(i as int));
        if i > 0 {
            items.append(",");
        } else {
            assert(bv.take(1) =~= seq![bv[0]]);
        }
        items.append(quote(s.back[i].as_str()).as_str());
        i = i + 1;
    }
    assert(bv.take(n as int) =~= bv);
    out.append(items.as_str());
    out.append("]}");
    out
}

fn json_line(t: &Translation, meta: &Meta) -> (r: String)
    ensures
        r@ == json_of(t@, meta.sl@, meta.tl@, meta.text@, meta.engine@, meta.cached),
{
    let ghost sv = t@.synonyms.map_values(|s: SynonymView| json_synonym_of(s));
    let mut syns = String::new();
    let n = t.synonyms.len();
    let mut i: usize = 0;
    while i < n
        invariant
            n == t.synonyms@.len(),
            sv == t@.synonyms.map_values(|s: SynonymView| json_synonym_of(s)),
            i <= n,
            syns@ == join(sv.take(i as int), ","@),
        decreases n - i,
    {
        assert(sv.take(i + 1).drop_last() =~= sv.take(i as int));
        if i > 0 {
            syns.append(",");
        } else {
            assert(sv.take(1) =~= seq![sv[0]]);
        }
        syns.append(json_synonym(&t.synonyms[i]).as_str());
        i = i + 1;
    }
    assert(sv.take(n as int) =~= sv);
    let mut out = owned("{\"sl\":");
    out.append(quote(meta.sl).as_str());
    out.append(",\"tl\":");
    out.append(quote(meta.tl).as_str());
    out.append(",\"detected\":");
    out.append(json_opt(&t.detected_source).as_str());
    out.append(",\"text\":");
    out.append(quote(meta.text).as_str());
    out.append(",\"primary\":");
    out.append(quote(t.primary.as_str()).as_str());
    out.append(",\"correction\":");
    out.append(json_opt(&t.correction).as_str());
    out.append(",\"synonyms\":[");
    out.append(syns.as_str());
    out.append("],\"engine\":");
    out.append(quote(meta.engine).as_str());
    out.append(",\"cached\":");
    if meta.cached {
        out.append("true");
    } else {
        out.append("false");
    }
    out.append("}");
    out
}

/// The text shown for a translation under a filter.
pub fn render(translation: &Translation, filter: Filter, color: bool, meta: &Meta) -> (r: String)
    ensures
        r@ == render_of(
            translation@,
            filter,
            color,
            meta.sl@,
            meta.tl@,
            meta.text@,
            meta.engine@,
            meta.cached,
        ),
{
    match filter {
        Filter::Quiet => translation.primary.clone(),
        Filter::Synonyms => synonyms_or_note_exec(&translation.synonyms, color),
        Filter::Full => full(translation, color, meta.sl),
        Filter::Verbose => verbose(translation, color, meta),
        Filter::Json => json_line(translation, meta),
    }
}

/// The reminder printed when both languages came from the default profile.
pub open spec fn default_hint_of(sl: Seq<char>, tl: Seq<char>) -> Seq<char> {
    "sl="@ + sl + " and tl="@ + tl
        + " come from the default profile; change them with `tt default sl=<lang> tl=<lang>`"@
}

pub fn default_hint(sl: &str, tl: &str) -> (r: String)
    ensures
        r@ == default_hint_of(sl@, tl@),
{
    let mut r = owned("sl=");
    r.append(sl);
    r.append(" and tl=");
    r.append(tl);
    r.append(" come from the default profile; change them with `tt default sl=<lang> tl=<lang>`");
    r
}

/// The lines under the result on a terminal: an optional hint, then the link.
pub open spec fn footer_of(color: bool, hint: Option<Seq<char>>, url: Seq<char>) -> Seq<char> {
    "\n"@ + (match hint {
        Some(h) => paint_of(color, DIM@, h) + "\n"@,
        None => Seq::empty(),
    }) + hyperlink_of(color, url, url)
}

pub fn footer(color: bool, hint: Option<&str>, url: &str) -> (r: String)
    ensures
        r@ == footer_of(
            color,
            match hint {
                Some(h) => Some(h@),
                None => None,
            },
            url@,
        ),
{
    let mut out = owned("\n");
    if let Some(h) = hint {
        out.append(paint(color, DIM, h).as_str());
        out.append("\n");
    }
    out.append(hyperlink(color, url, url).as_str());
    out
}

proof fn lemma_json_string_lacks(s: Seq<char>, c: char)
    requires
        (c as u32) < 32,
    ensures
        lacks(json_body_of(s), c),
        lacks(json_string_of(s), c),
    decreases s.len(),
{
    if s.len() > 0 {
        lemma_json_string_lacks(s.drop_last(), c);
        let x = s.last();
        assert(lacks(json_char_of(x), c)) by {
            if (x as u32) < 32 && x != '\u{8}' && x != '\t' && x != '\n' && x != '\u{c}' && x
                != '\r' {
                let e = json_char_of(x);
                assert((lower_hex((x as u32) / 16) as u32) >= 48);
                assert((lower_hex((x as u32) % 16) as u32) >= 48);
                assert(e[4] == lower_hex((x as u32) / 16));
                assert(e[5] == lower_hex((x as u32) % 16));
            }
        }
        lemma_lacks_concat(json_body_of(s.drop_last()), json_char_of(x), c);
    }
    lemma_lacks_concat(seq!['"'], json_body_of(s), c);
    lemma_lacks_concat(seq!['"'] + json_body_of(s), seq!['"'], c);
}

/// The JSON layout holds no control character of its own: those inside the
/// texts are escaped.
proof fn lemma_json_lacks(
    t: TranslationView,
    sl: Seq<char>,
    tl: Seq<char>,
    text: Seq<char>,
    engine: Seq<char>,
    cached: bool,
    c: char,
)
    requires
        (c as u32) < 32,
    ensures
        lacks(json_of(t, sl, tl, text, engine, cached), c),
{
    reveal_strlit("{\"sl\":");
    reveal_strlit(",\"tl\":");
    reveal_strlit(",\"detected\":");
    reveal_strlit(",\"text\":");
    reveal_strlit(",\"primary\":");
    reveal_strlit(",\"correction\":");
    reveal_strlit(",\"synonyms\":[");
    reveal_strlit("],\"engine\":");
    reveal_strlit(",\"cached\":");
    reveal_strlit("true");
    reveal_strlit("false");
    reveal_strlit("}");
    reveal_strlit("null");
    reveal_strlit("{\"word\":");
    reveal_strlit(",\"back\":[");
    reveal_strlit("]}");
    reveal_strlit(",");
    let nl = c;
    lemma_json_string_lacks(sl, c);
    lemma_json_string_lacks(tl, c);
    lemma_json_string_lacks(text, c);
    lemma_json_string_lacks(engine, c);
    lemma_json_string_lacks(t.primary, c);
    if let Some(d) = t.detected_source {
        lemma_json_string_lacks(d, c);
    }
    if let Some(k) = t.correction {
        lemma_json_string_lacks(k, c);
    }
    let syns = t.synonyms.map_values(|s: SynonymView| json_synonym_of(s));
    assert forall|i: int| 0 <= i < syns.len() implies lacks(#[trigger] syns[i], nl) by {
        let s = t.synonyms[i];
        let bs = s.back.map_values(|b: Seq<char>| json_string_of(b));
        assert forall|j: int| 0 <= j < bs.len() implies lacks(#[trigger] bs[j], nl) by {
            lemma_json_string_lacks(s.back[j], c);
        }
        lemma_join_lacks(bs, ","@, nl);
        lemma_json_string_lacks(s.word, c);
        lemma_lacks_concat("{\"word\":"@, json_string_of(s.word), nl);
        lemma_lacks_concat("{\"word\":"@ + json_string_of(s.word), ",\"back\":["@, nl);
        lemma_lacks_concat("{\"word\":"@ + json_string_of(s.word) + ",\"back\":["@, join(bs, ","@), nl);
        lemma_lacks_concat(
            "{\"word\":"@ + json_string_of(s.word) + ",\"back\":["@ + join(bs, ","@),
            "]}"@,
            nl,
        );
    }
    lemma_join_lacks(syns, ","@, nl);
    let p0 = "{\"sl\":"@ + json_string_of(sl);
    lemma_lacks_concat("{\"sl\":"@, json_string_of(sl), nl);
    let p1 = p0 + ",\"tl\":"@;
    lemma_lacks_concat(p0, ",\"tl\":"@, nl);
    let p2 = p1 + json_string_of(tl);
    lemma_lacks_concat(p1, json_string_of(tl), nl);
    let p3 = p2 + ",\"detected\":"@;
    lemma_lacks_concat(p2, ",\"detected\":"@, nl);
    let p4 = p3 + json_opt_of(t.detected_source);
    lemma_lacks_concat(p3, json_opt_of(t.detected_source), nl);
    let p5 = p4 + ",\"text\":"@;
    lemma_lacks_concat(p4, ",\"text\":"@, nl);
    let p6 = p5 + json_string_of(text);
    lemma_lacks_concat(p5, json_string_of(text), nl);
    let p7 = p6 + ",\"primary\":"@;
    lemma_lacks_concat(p6, ",\"primary\":"@, nl);
    let p8 = p7 + json_string_of(t.primary);
    lemma_lacks_concat(p7, json_string_of(t.primary), nl);
    let p9 = p8 + ",\"correction\":"@;
    lemma_lacks_concat(p8, ",\"correction\":"@, nl);
    let p10 = p9 + json_opt_of(t.correction);
    lemma_lacks_concat(p9, json_opt_of(t.correction), nl);
    let p11 = p10 + ",\"synonyms\":["@;
    lemma_lacks_concat(p10, ",\"synonyms\":["@, nl);
    let p12 = p11 + join(syns, ","@);
    lemma_lacks_concat(p11, join(syns, ","@), nl);
    let p13 = p12 + "],\"engine\":"@;
    lemma_lacks_concat(p12, "],\"engine\":"@, nl);
    let p14 = p13 + json_string_of(engine);
    lemma_lacks_concat(p13, json_string_of(engine), nl);
    let p15 = p14 + ",\"cached\":"@;
    lemma_lacks_concat(p14, ",\"cached\":"@, nl);
    let b = if cached {
        "true"@
    } else {
        "false"@
    };
    let p16 = p15 + b;
    lemma_lacks_concat(p15, b, nl);
    lemma_lacks_concat(p16, "}"@, nl);
}

/// The JSON layout is always a single line, whatever the texts hold:
/// line breaks inside them are escaped.
pub proof fn law_json_is_one_line(
    t: TranslationView,
    sl: Seq<char>,
    tl: Seq<char>,
    text: Seq<char>,
    engine: Seq<char>,
    cached: bool,
)
    ensures
        lacks(json_of(t, sl, tl, text, engine, cached), '\n'),
{
    lemma_json_lacks(t, sl, tl, text, engine, cached, '\n');
}

/// Every text of a synonym is free of the escape character.
pub open spec fn plain_synonym(s: SynonymView) -> bool {
    &&& lacks(s.word, '\x1b')
    &&& forall|j: int| 0 <= j < s.back.len() ==> lacks(#[trigger] s.back[j], '\x1b')
}

/// Every text of a translation is free of the escape character.
pub open spec fn plain_translation(t: TranslationView) -> bool {
    &&& lacks(t.primary, '\x1b')
    &&& (t.detected_source matches Some(d) ==> lacks(d, '\x1b'))
    &&& (t.correction matches Some(k) ==> lacks(k, '\x1b'))
    &&& (t.source_translit matches Some(k) ==> lacks(k, '\x1b'))
    &&& (t.target_translit matches Some(k) ==> lacks(k, '\x1b'))
    &&& forall|i: int| 0 <= i < t.synonyms.len() ==> plain_synonym(#[trigger] t.synonyms[i])
}

proof fn lemma_line_fold_lacks(s: Seq<char>, c: char)
    requires
        lacks(s, c),
    ensures
        forall|k: int| 0 <= k < line_fold(s).0.len() ==> lacks(#[trigger] line_fold(s).0[k], c),
        lacks(line_fold(s).1, c),
    decreases s.len(),
{
    if s.len() > 0 {
        let p = s.drop_last();
        assert(lacks(p, c)) by {
            assert forall|i: int| 0 <= i < p.len() implies #[trigger] p[i] != c by {
                assert(p[i] == s[i]);
            }
        }
        lemma_line_fold_lacks(p, c);
        let (done, cur) = line_fold(p);
        assert(s[s.len() - 1] != c);
        if s.last() == '\n' {
            let l = strip_cr(cur);
            assert(lacks(l, c)) by {
                assert forall|i: int| 0 <= i < l.len() implies #[trigger] l[i] != c by {
                    assert(l[i] == cur[i]);
                }
            }
            assert forall|k: int| 0 <= k < done.push(l).len() implies lacks(
                #[trigger] done.push(l)[k],
                c,
            ) by {
                if k < done.len() {
                    assert(done.push(l)[k] == done[k]);
                }
            }
        } else {
            let n = cur.push(s.last());
            assert forall|i: int| 0 <= i < n.len() implies #[trigger] n[i] != c by {
                if i < cur.len() {
                    assert(n[i] == cur[i]);
                }
            }
        }
    }
}

proof fn lemma_indent_lacks_escape(s: Seq<char>)
    requires
        lacks(s, '\x1b'),
    ensures
        lacks(indent_of(s), '\x1b'),
{
    reveal_strlit("  ");
    reveal_strlit("\n");
    let esc = '\x1b';
    lemma_line_fold_lacks(s, esc);
    let (done, cur) = line_fold(s);
    let lines = lines_of(s);
    assert forall|k: int| 0 <= k < lines.len() implies lacks(#[trigger] lines[k], esc) by {
        if k < done.len() {
            assert(lines[k] == done[k]);
        }
    }
    let ind = lines.map_values(|l: Seq<char>| "  "@ + l);
    assert forall|k: int| 0 <= k < ind.len() implies lacks(#[trigger] ind[k], esc) by {
        lemma_lacks_concat("  "@, lines[k], esc);
    }
    lemma_join_lacks(ind, "\n"@, esc);
}

proof fn lemma_synonyms_lack_escape(syns: Seq<SynonymView>)
    requires
        forall|i: int| 0 <= i < syns.len() ==> plain_synonym(#[trigger] syns[i]),
    ensures
        lacks(synonyms_block_of(syns, false), '\x1b'),
        lacks(synonyms_or_note(syns, false), '\x1b'),
{
    reveal_strlit("  ");
    reveal_strlit(", ");
    reveal_strlit("\n");
    reveal_strlit("no synonyms for this translation");
    let esc = '\x1b';
    let lines = syns.map_values(|s: SynonymView| synonym_line_of(s, false));
    assert forall|i: int| 0 <= i < lines.len() implies lacks(#[trigger] lines[i], esc) by {
        let s = syns[i];
        assert(plain_synonym(s));
        lemma_join_lacks(s.back, ", "@, esc);
        lemma_lacks_concat(s.word, "  "@, esc);
        lemma_lacks_concat(s.word + "  "@, join(s.back, ", "@), esc);
    }
    lemma_join_lacks(lines, "\n"@, esc);
}

/// Without color the layouts hold no escape character but those in the
/// texts they show: output meant for a pipe is plain.
pub proof fn law_plain_output_has_no_escape(
    t: TranslationView,
    filter: Filter,
    sl: Seq<char>,
    tl: Seq<char>,
    text: Seq<char>,
    engine: Seq<char>,
    cached: bool,
)
    requires
        plain_translation(t),
        lacks(sl, '\x1b'),
        lacks(tl, '\x1b'),
        lacks(text, '\x1b'),
    ensures
        lacks(render_of(t, filter, false, sl, tl, text, engine, cached), '\x1b'),
{
    let esc = '\x1b';
    reveal_strlit("\n");
    reveal_strlit("\n\n");
    reveal_strlit(" ");
    reveal_strlit("detected: ");
    reveal_strlit("did you mean: ");
    reveal_strlit("translating");
    reveal_strlit("->");
    reveal_strlit("(cached)");
    reveal_strlit(" (detected)");
    reveal_strlit("auto");
    reveal_strlit("ORIGINAL");
    reveal_strlit("TRANSLATION");
    reveal_strlit("SYNONYMS");
    reveal_strlit("(");
    reveal_strlit(")");
    lemma_synonyms_lack_escape(t.synonyms);
    match filter {
        Filter::Json => {
            lemma_json_lacks(t, sl, tl, text, engine, cached, esc);
        },
        Filter::Quiet => {},
        Filter::Synonyms => {},
        Filter::Full => {
            let d = detected_line_of(t, false, sl);
            if sl == "auto"@ && t.detected_source is Some {
                let code = t.detected_source->0;
                lemma_display_name_lacks_escape(code);
                lemma_lacks_concat("detected: "@, display_name_of(code), esc);
                lemma_lacks_concat("detected: "@ + display_name_of(code), "\n"@, esc);
            }
            let k = correction_line_of(t, false);
            if let Some(x) = t.correction {
                lemma_lacks_concat("did you mean: "@, x, esc);
                lemma_lacks_concat("did you mean: "@ + x, "\n"@, esc);
            }
            let v = verbose_translated_of(t, false);
            if let Some(x) = t.target_translit {
                lemma_lacks_concat("\n"@, x, esc);
                lemma_lacks_concat(t.primary, "\n"@ + x, esc);
            }
            let y = synonyms_tail_of(t, false);
            lemma_lacks_concat("\n\n"@, synonyms_block_of(t.synonyms, false), esc);
            lemma_lacks_concat(d, k, esc);
            lemma_lacks_concat(d + k, v, esc);
            lemma_lacks_concat(d + k + v, y, esc);
        },
        Filter::Verbose => {
            lemma_verbose_lacks_escape(t, sl, tl, text, cached);
        },
    }
}

proof fn lemma_verbose_lacks_escape(
    t: TranslationView,
    sl: Seq<char>,
    tl: Seq<char>,
    text: Seq<char>,
    cached: bool,
)
    requires
        plain_translation(t),
        lacks(sl, '\x1b'),
        lacks(tl, '\x1b'),
        lacks(text, '\x1b'),
    ensures
        lacks(verbose_of(t, false, sl, tl, text, cached), '\x1b'),
{
    let esc = '\x1b';
    reveal_strlit("\n");
    reveal_strlit("\n\n");
    reveal_strlit(" ");
    reveal_strlit("did you mean: ");
    reveal_strlit("translating");
    reveal_strlit("->");
    reveal_strlit("(cached)");
    reveal_strlit(" (detected)");
    reveal_strlit("auto");
    reveal_strlit("ORIGINAL");
    reveal_strlit("TRANSLATION");
    reveal_strlit("SYNONYMS");
    reveal_strlit("(");
    reveal_strlit(")");
    lemma_synonyms_lack_escape(t.synonyms);
    let src = verbose_source(t, sl);
    assert(lacks(src, esc));
    lemma_display_name_lacks_escape(src);
    lemma_display_name_lacks_escape(tl);
    let label = source_label_of(t, sl);
    lemma_lacks_concat(display_name_of(src), " (detected)"@, esc);
    assert(lacks(label, esc));
    let tn = display_name_of(tl);
    let tail = if cached {
        " "@ + "(cached)"@
    } else {
        Seq::empty()
    };
    lemma_lacks_concat(" "@, "(cached)"@, esc);
    let h0 = "translating"@ + " "@;
    lemma_lacks_concat("translating"@, " "@, esc);
    lemma_lacks_concat(h0, label, esc);
    lemma_lacks_concat(h0 + label, " "@, esc);
    lemma_lacks_concat(h0 + label + " "@, "->"@, esc);
    lemma_lacks_concat(h0 + label + " "@ + "->"@, " "@, esc);
    lemma_lacks_concat(h0 + label + " "@ + "->"@ + " "@, tn, esc);
    lemma_lacks_concat(h0 + label + " "@ + "->"@ + " "@ + tn, tail, esc);
    lemma_lacks_concat(h0 + label + " "@ + "->"@ + " "@ + tn + tail, "\n\n"@, esc);
    let header = verbose_header_of(t, false, sl, tl, cached);
    assert(header == h0 + label + " "@ + "->"@ + " "@ + tn + tail + "\n\n"@);
    let input = verbose_input_of(t, false, text);
    let st = match t.source_translit {
        Some(tr) => "\n"@ + tr,
        None => Seq::<char>::empty(),
    };
    let co = match t.correction {
        Some(c) => "\n"@ + ("did you mean: "@ + c),
        None => Seq::<char>::empty(),
    };
    if let Some(tr) = t.source_translit {
        lemma_lacks_concat("\n"@, tr, esc);
    }
    if let Some(c) = t.correction {
        lemma_lacks_concat("did you mean: "@, c, esc);
        lemma_lacks_concat("\n"@, "did you mean: "@ + c, esc);
    }
    lemma_lacks_concat(text, st, esc);
    lemma_lacks_concat(text + st, co, esc);
    assert(input == text + st + co);
    lemma_indent_lacks_escape(input);
    let translated = verbose_translated_of(t, false);
    if let Some(tr) = t.target_translit {
        lemma_lacks_concat("\n"@, tr, esc);
        lemma_lacks_concat(t.primary, "\n"@ + tr, esc);
    }
    lemma_indent_lacks_escape(translated);
    lemma_indent_lacks_escape(synonyms_or_note(t.synonyms, false));
    let s1 = section_of(false, "ORIGINAL"@, label);
    lemma_lacks_concat("("@, label, esc);
    lemma_lacks_concat("("@ + label, ")"@, esc);
    lemma_lacks_concat("ORIGINAL"@, " "@, esc);
    lemma_lacks_concat("ORIGINAL"@ + " "@, "("@ + label + ")"@, esc);
    let s2 = section_of(false, "TRANSLATION"@, tn);
    lemma_lacks_concat("("@, tn, esc);
    lemma_lacks_concat("("@ + tn, ")"@, esc);
    lemma_lacks_concat("TRANSLATION"@, " "@, esc);
    lemma_lacks_concat("TRANSLATION"@ + " "@, "("@ + tn + ")"@, esc);
    let a1 = header + s1;
    lemma_lacks_concat(header, s1, esc);
    let a2 = a1 + "\n"@;
    lemma_lacks_concat(a1, "\n"@, esc);
    let a3 = a2 + indent_of(input);
    lemma_lacks_concat(a2, indent_of(input), esc);
    let a4 = a3 + "\n\n"@;
    lemma_lacks_concat(a3, "\n\n"@, esc);
    let a5 = a4 + s2;
    lemma_lacks_concat(a4, s2, esc);
    let a6 = a5 + "\n"@;
    lemma_lacks_concat(a5, "\n"@, esc);
    let a7 = a6 + indent_of(translated);
    lemma_lacks_concat(a6, indent_of(translated), esc);
    let a8 = a7 + "\n"@;
    lemma_lacks_concat(a7, "\n"@, esc);
    let a9 = a8 + "\n"@;
    lemma_lacks_concat(a8, "\n"@, esc);
    let a10 = a9 + "SYNONYMS"@;
    lemma_lacks_concat(a9, "SYNONYMS"@, esc);
    let a11 = a10 + "\n"@;
    lemma_lacks_concat(a10, "\n"@, esc);
    lemma_lacks_concat(a11, indent_of(synonyms_or_note(t.synonyms, false)), esc);
}

proof fn lemma_prefix_kept(y: Seq<char>, h: Seq<char>, w: Seq<char>)
    requires
        h.len() <= y.len(),
        y.take(h.len() as int) == h,
    ensures
        h.len() <= (y + w).len(),
        (y + w).take(h.len() as int) == h,
{
    assert((y + w).take(h.len() as int) =~= y.take(h.len() as int));
}

/// The verbose layout opens with the header and then the ORIGINAL section:
/// the input, indented, followed by the source transliteration when there is
/// one and the spelling hint when there is one, and nothing else; the
/// target's transliteration comes only later, under TRANSLATION.
pub proof fn law_verbose_original_section(
    t: TranslationView,
    color: bool,
    sl: Seq<char>,
    tl: Seq<char>,
    text: Seq<char>,
    cached: bool,
)
    ensures
        ({
            let shown = text + (match t.source_translit {
                Some(tr) => "\n"@ + paint_of(color, DIM@, tr),
                None => Seq::empty(),
            }) + (match t.correction {
                Some(c) => "\n"@ + paint_of(color, DIM@, "did you mean: "@ + c),
                None => Seq::empty(),
            });
            let head = verbose_header_of(t, color, sl, tl, cached) + section_of(
                color,
                "ORIGINAL"@,
                source_label_of(t, sl),
            ) + "\n"@ + indent_of(shown) + "\n\n"@;
            verbose_of(t, color, sl, tl, text, cached).take(head.len() as int) == head
        }),
{
    let shown = text + (match t.source_translit {
        Some(tr) => "\n"@ + paint_of(color, DIM@, tr),
        None => Seq::empty(),
    }) + (match t.correction {
        Some(c) => "\n"@ + paint_of(color, DIM@, "did you mean: "@ + c),
        None => Seq::empty(),
    });
    let head = verbose_header_of(t, color, sl, tl, cached) + section_of(
        color,
        "ORIGINAL"@,
        source_label_of(t, sl),
    ) + "\n"@ + indent_of(shown) + "\n\n"@;
    assert(verbose_input_of(t, color, text) == shown);
    let p1 = section_of(color, "TRANSLATION"@, display_name_of(tl));
    let p3 = indent_of(verbose_translated_of(t, color));
    let p6 = paint_of(color, YELLOW@, "SYNONYMS"@);
    let p8 = indent_of(synonyms_or_note(t.synonyms, color));
    let x1 = head + p1;
    assert(head.take(head.len() as int) =~= head);
    lemma_prefix_kept(head, head, p1);
    let x2 = x1 + "\n"@;
    lemma_prefix_kept(x1, head, "\n"@);
    let x3 = x2 + p3;
    lemma_prefix_kept(x2, head, p3);
    let x4 = x3 + "\n"@;
    lemma_prefix_kept(x3, head, "\n"@);
    let x5 = x4 + "\n"@;
    lemma_prefix_kept(x4, head, "\n"@);
    let x6 = x5 + p6;
    lemma_prefix_kept(x5, head, p6);
    let x7 = x6 + "\n"@;
    lemma_prefix_kept(x6, head, "\n"@);
    let x8 = x7 + p8;
    lemma_prefix_kept(x7, head, p8);
    assert(verbose_of(t, color, sl, tl, text, cached) == x8);
}

} // verus!
