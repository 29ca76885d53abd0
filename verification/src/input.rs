//! Where the text to translate comes from, and how it is cleaned up.

use vstd::prelude::*;
use crate::error::{Error, ErrorView};
use crate::text::{opt_string, owned, str_eq};

verus! {

/// Where to read the text from.
#[derive(Debug, PartialEq, Eq)]
pub enum Source {
    Text(String),
    File(String),
    Stdin,
}

/// A source as the specifications see it.
pub enum SourceView {
    Text(Seq<char>),
    File(Seq<char>),
    Stdin,
}

impl View for Source {
    type V = SourceView;

    open spec fn view(&self) -> SourceView {
        match self {
            Source::Text(t) => SourceView::Text(t@),
            Source::File(p) => SourceView::File(p@),
            Source::Stdin => SourceView::Stdin,
        }
    }
}

/// A file wins; `-` or no text on a pipe means stdin; no text on a terminal
/// is an error.
pub open spec fn resolve_of(text: Option<Seq<char>>, file: Option<Seq<char>>, stdin_is_tty: bool) -> Result<
    SourceView,
    ErrorView,
> {
    match file {
        Some(path) => Ok(SourceView::File(path)),
        None => match text {
            Some(t) => if t == "-"@ {
                Ok(SourceView::Stdin)
            } else {
                Ok(SourceView::Text(t))
            },
            None => if stdin_is_tty {
                Err(ErrorView::BadArgs("no text to translate"@))
            } else {
                Ok(SourceView::Stdin)
            },
        },
    }
}

pub fn resolve(text: Option<String>, file: Option<String>, stdin_is_tty: bool) -> (r: Result<
    Source,
    Error,
>)
    ensures
        match r {
            Ok(s) => resolve_of(opt_string(text), opt_string(file), stdin_is_tty) == Ok::<
                SourceView,
                ErrorView,
            >(s@),
            Err(e) => resolve_of(opt_string(text), opt_string(file), stdin_is_tty) == Err::<
                SourceView,
                ErrorView,
            >(e@),
        },
{
    if let Some(path) = file {
        return Ok(Source::File(path));
    }
    match text {
        Some(t) => {
            if str_eq(t.as_str(), "-") {
                Ok(Source::Stdin)
            } else {
                Ok(Source::Text(t))
            }
        },
        None => {
            if stdin_is_tty {
                Err(Error::BadArgs(owned("no text to translate")))
            } else {
                Ok(Source::Stdin)
            }
        },
    }
}

/// A file named with `f=` wins over everything else, whatever the terminal.
pub proof fn law_file_wins(text: Option<Seq<char>>, path: Seq<char>, tty: bool)
    ensures
        resolve_of(text, Some(path), tty) == Ok::<SourceView, ErrorView>(SourceView::File(path)),
{
}

/// Characters with the Unicode `White_Space` property.
pub open spec fn is_white_space(c: char) -> bool {
    ('\u{9}' <= c <= '\u{d}') || c == ' ' || c == '\u{85}' || c == '\u{a0}' || c == '\u{1680}'
        || ('\u{2000}' <= c <= '\u{200a}') || c == '\u{2028}' || c == '\u{2029}' || c == '\u{202f}'
        || c == '\u{205f}' || c == '\u{3000}'
}

fn white_space(c: char) -> (r: bool)
    ensures
        r == is_white_space(c),
{
    ('\u{9}' <= c && c <= '\u{d}') || c == ' ' || c == '\u{85}' || c == '\u{a0}' || c == '\u{1680}'
        || ('\u{2000}' <= c && c <= '\u{200a}') || c == '\u{2028}' || c == '\u{2029}' || c
        == '\u{202f}' || c == '\u{205f}' || c == '\u{3000}'
}

/// `s` without leading and trailing white space: the part from the first
/// to the last other character.
pub open spec fn trimmed(s: Seq<char>, start: int, end: int) -> bool {
    &&& 0 <= start <= end <= s.len()
    &&& forall|i: int| 0 <= i < start ==> is_white_space(#[trigger] s[i])
    &&& forall|i: int| end <= i < s.len() ==> is_white_space(#[trigger] s[i])
    &&& start < end ==> !is_white_space(s[start]) && !is_white_space(s[end - 1])
}

/// The text a reader provided, trimmed; nothing left is an error.
pub fn finish_input(raw: &str) -> (r: Result<String, Error>)
    ensures
        match r {
            Ok(t) => exists|a: int, b: int| trimmed(raw@, a, b) && a < b && t@ == raw@.subrange(a, b),
            Err(e) => e@ == ErrorView::BadArgs("no text to translate"@)
                && forall|i: int| 0 <= i < raw@.len() ==> is_white_space(#[trigger] raw@[i]),
        },
{
    let n = raw.unicode_len();
    let mut a: usize = 0;
    while a < n && white_space(raw.get_char(a))
        invariant
            n == raw@.len(),
            a <= n,
            forall|i: int| 0 <= i < a ==> is_white_space(#[trigger] raw@[i]),
        decreases n - a,
    {
        a = a + 1;
    }
    if a == n {
        return Err(Error::BadArgs(owned("no text to translate")));
    }
    let mut b: usize = n;
    while b > a && white_space(raw.get_char(b - 1))
        invariant
            n == raw@.len(),
            a < n,
            !is_white_space(raw@[a as int]),
            a <= b <= n,
            forall|i: int| b <= i < n ==> is_white_space(#[trigger] raw@[i]),
        decreases b,
    {
        b = b - 1;
    }
    let t = owned(raw.substring_char(a, b));
    assert(trimmed(raw@, a as int, b as int));
    Ok(t)
}

} // verus!
