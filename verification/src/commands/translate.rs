//! The decisions of the translate command: when the cache is used, and
//! what goes to standard output and standard error.

use vstd::prelude::*;
use crate::browser::{translate_url, translate_url_of};
use crate::color::paint_of;
use crate::engine::{identity_of, identity_translation, SynonymView, Translation};
use crate::error::Error;
use crate::lang::{is_identity, is_identity_spec};
use crate::render::{
    default_hint, default_hint_of, footer, footer_of, full_of, law_plain_output_has_no_escape,
    plain_translation, render, render_of, synonym_line_of, synonyms_block_of, Filter, Meta,
};
use crate::text::{lacks, lemma_lacks_concat};

verus! {

/// Whether the cache is consulted and filled: not when asked not to, and
/// never for the identity translation, which needs no backend.
pub fn uses_cache(no_cache: bool, sl: &str, tl: &str) -> (r: bool)
    ensures
        r == (!no_cache && !is_identity_spec(sl@, tl@)),
{
    !no_cache && !is_identity(sl, tl)
}

/// Nothing was named on the command line: no profile, no language, no
/// file, only the text. The default-profile hint is shown then.
pub fn all_default(profile: bool, sl: bool, tl: bool, text: bool, file: bool) -> (b: bool)
    ensures
        b == (!profile && !sl && !tl && text && !file),
{
    !profile && !sl && !tl && text && !file
}

/// What the translate command does next.
pub enum Next {
    /// Show this translation; the flag says whether it came from the cache.
    Answer(Translation, bool),
    /// Look the query up in the cache.
    Lookup,
    /// Ask the backend.
    Ask,
}

/// The first decision once the languages and the input are known: the same
/// language on both sides is answered with the input itself, with no
/// request; otherwise the cache is looked up unless it is switched off.
pub fn first_step(sl: &str, tl: &str, input: &str, no_cache: bool) -> (n: Next)
    ensures
        is_identity_spec(sl@, tl@) ==> (n matches Next::Answer(t, cached) && t@ == identity_of(
            input@,
            sl@,
        ) && !cached),
        !is_identity_spec(sl@, tl@) ==> (n is Lookup) == !no_cache && (n is Ask) == no_cache,
{
    if is_identity(sl, tl) {
        Next::Answer(identity_translation(input, sl), false)
    } else if no_cache {
        Next::Ask
    } else {
        Next::Lookup
    }
}

/// After a cache lookup: a hit is shown, marked as cached; a miss asks the
/// backend.
pub fn after_lookup(hit: Option<Translation>) -> (n: Next)
    ensures
        match hit {
            Some(t) => n == Next::Answer(t, true),
            None => n is Ask,
        },
{
    match hit {
        Some(t) => Next::Answer(t, true),
        None => Next::Ask,
    }
}

/// Whether the backend's answer is stored: only a translation, and only
/// when the cache is in use.
pub fn stores(result: &Result<Translation, Error>, use_cache: bool) -> (b: bool)
    ensures
        b == (use_cache && result is Ok),
{
    use_cache && result.is_ok()
}

/// What the command prints: the rendered translation on standard output,
/// and, on a terminal and for the layouts meant for people, a footer with
/// the browser link on standard error (with the default-profile hint when
/// nothing was named and the layout is the default one).
pub open spec fn report_of(
    t: crate::engine::TranslationView,
    filter: Filter,
    out_tty: bool,
    err_tty: bool,
    sl: Seq<char>,
    tl: Seq<char>,
    text: Seq<char>,
    engine: Seq<char>,
    cached: bool,
    all_default: bool,
) -> (Seq<char>, Option<Seq<char>>) {
    let out = render_of(t, filter, out_tty, sl, tl, text, engine, cached) + "\n"@;
    let err = if out_tty && filter != Filter::Quiet && filter != Filter::Json {
        let hint = if all_default && filter == Filter::Full {
            Some(default_hint_of(sl, tl))
        } else {
            None
        };
        Some(footer_of(err_tty, hint, translate_url_of(sl, tl, text)) + "\n"@)
    } else {
        None
    };
    (out, err)
}

pub fn report(
    translation: &Translation,
    filter: Filter,
    out_tty: bool,
    err_tty: bool,
    meta: &Meta,
    all_default: bool,
) -> (r: (String, Option<String>))
    ensures
        ({
            let (out, err) = report_of(
                translation@,
                filter,
                out_tty,
                err_tty,
                meta.sl@,
                meta.tl@,
                meta.text@,
                meta.engine@,
                meta.cached,
                all_default,
            );
            &&& r.0@ == out
            &&& match r.1 {
                Some(e) => err == Some(e@),
                None => err is None,
            }
        }),
{
    let mut out = render(translation, filter, out_tty, meta);
    out.append("\n");
    let show_footer = out_tty && match filter {
        Filter::Quiet => false,
        Filter::Json => false,
        _ => true,
    };
    if show_footer {
        let url = translate_url(meta.sl, meta.tl, meta.text);
        let hint_text = default_hint(meta.sl, meta.tl);
        let full = match filter {
            Filter::Full => true,
            _ => false,
        };
        let hint: Option<&str> = if all_default && full {
            Some(hint_text.as_str())
        } else {
            None
        };
        let mut err = footer(err_tty, hint, url.as_str());
        err.append("\n");
        (out, Some(err))
    } else {
        (out, None)
    }
}

/// With `-q` standard output is the translation alone, on a line of its
/// own, and nothing goes to standard error.
pub proof fn law_quiet_prints_only_the_primary(
    t: crate::engine::TranslationView,
    out_tty: bool,
    err_tty: bool,
    sl: Seq<char>,
    tl: Seq<char>,
    text: Seq<char>,
    engine: Seq<char>,
    cached: bool,
    all_default: bool,
)
    ensures
        report_of(t, Filter::Quiet, out_tty, err_tty, sl, tl, text, engine, cached, all_default)
            == (t.primary + "\n"@, None::<Seq<char>>),
{
}

/// When source and target are the same language the input comes back
/// unchanged: alone with `-q`, and in the default layout when piped.
pub proof fn law_identity_echoes_the_input(
    input: Seq<char>,
    filter: Filter,
    out_tty: bool,
    err_tty: bool,
    sl: Seq<char>,
    tl: Seq<char>,
    text: Seq<char>,
    engine: Seq<char>,
    cached: bool,
    all_default: bool,
)
    requires
        is_identity_spec(sl, tl),
        filter == Filter::Quiet || (filter == Filter::Full && !out_tty),
    ensures
        report_of(identity_of(input, sl), filter, out_tty, err_tty, sl, tl, text, engine, cached, all_default).0
            == input + "\n"@,
{
    let t = identity_of(input, sl);
    let lines = t.synonyms.map_values(|s: SynonymView| synonym_line_of(s, out_tty));
    assert(lines =~= Seq::<Seq<char>>::empty());
    assert(synonyms_block_of(t.synonyms, out_tty) =~= Seq::<char>::empty());
    assert(full_of(t, false, sl) =~= input);
}

/// Piped output is plain: no footer on standard error, and no escape
/// character on standard output but those in the texts shown.
pub proof fn law_piped_output_is_plain(
    t: crate::engine::TranslationView,
    filter: Filter,
    err_tty: bool,
    sl: Seq<char>,
    tl: Seq<char>,
    text: Seq<char>,
    engine: Seq<char>,
    cached: bool,
    all_default: bool,
)
    requires
        plain_translation(t),
        lacks(sl, '\x1b'),
        lacks(tl, '\x1b'),
        lacks(text, '\x1b'),
    ensures
        report_of(t, filter, false, err_tty, sl, tl, text, engine, cached, all_default).1 is None,
        lacks(
            report_of(t, filter, false, err_tty, sl, tl, text, engine, cached, all_default).0,
            '\x1b',
        ),
{
    reveal_strlit("\n");
    law_plain_output_has_no_escape(t, filter, sl, tl, text, engine, cached);
    lemma_lacks_concat(render_of(t, filter, false, sl, tl, text, engine, cached), "\n"@, '\x1b');
}

} // verus!
