//! Translations, queries, and the interface a translation backend offers.

use vstd::prelude::*;
use crate::error::Error;
use crate::text::opt_string;

verus! {

/// A word offered as an alternative, with its translations back.
#[derive(Debug, Clone, PartialEq, Eq)]
pub struct Synonym {
    pub word: String,
    pub back: Vec<String>,
}

/// What a backend returns for a query.
#[derive(Debug, Clone, PartialEq, Eq)]
pub struct Translation {
    pub primary: String,
    pub detected_source: Option<String>,
    pub synonyms: Vec<Synonym>,
    pub correction: Option<String>,
    pub source_translit: Option<String>,
    pub target_translit: Option<String>,
}

/// A synonym as the specifications see it.
pub struct SynonymView {
    pub word: Seq<char>,
    pub back: Seq<Seq<char>>,
}

/// A translation as the specifications see it.
pub struct TranslationView {
    pub primary: Seq<char>,
    pub detected_source: Option<Seq<char>>,
    pub synonyms: Seq<SynonymView>,
    pub correction: Option<Seq<char>>,
    pub source_translit: Option<Seq<char>>,
    pub target_translit: Option<Seq<char>>,
}

/// The views of a list of strings.
pub open spec fn strings_view(v: Seq<String>) -> Seq<Seq<char>> {
    v.map_values(|s: String| s@)
}

impl View for Synonym {
    type V = SynonymView;

    open spec fn view(&self) -> SynonymView {
        SynonymView { word: self.word@, back: strings_view(self.back@) }
    }
}

/// The views of a list of synonyms.
pub open spec fn synonyms_view(v: Seq<Synonym>) -> Seq<SynonymView> {
    v.map_values(|s: Synonym| s@)
}

impl View for Translation {
    type V = TranslationView;

    open spec fn view(&self) -> TranslationView {
        TranslationView {
            primary: self.primary@,
            detected_source: opt_string(self.detected_source),
            synonyms: synonyms_view(self.synonyms@),
            correction: opt_string(self.correction),
            source_translit: opt_string(self.source_translit),
            target_translit: opt_string(self.target_translit),
        }
    }
}

impl Default for Translation {
    fn default() -> (t: Translation)
        ensures
            t@.primary == Seq::<char>::empty(),
            t@.detected_source is None,
            t@.synonyms == Seq::<SynonymView>::empty(),
            t@.correction is None,
            t@.source_translit is None,
            t@.target_translit is None,
    {
        let t = Translation {
            primary: String::new(),
            detected_source: None,
            synonyms: Vec::new(),
            correction: None,
            source_translit: None,
            target_translit: None,
        };
        assert(t@.synonyms =~= Seq::<SynonymView>::empty());
        t
    }
}

/// Source language, target language and text of one request.
pub struct Query<'a> {
    pub sl: &'a str,
    pub tl: &'a str,
    pub text: &'a str,
}

/// Where a backend reports progress, one line at a time.
pub trait LogSink {
    fn line(&mut self, text: &str);
}

/// A translation backend.
pub trait Engine {
    fn name(&self) -> &'static str;

    fn translate(&self, query: Query, log: &mut dyn LogSink) -> Result<Translation, Error>;
}

/// What the translate command shows when source and target are the same
/// real language: the input itself, with the source as detected language.
pub open spec fn identity_of(input: Seq<char>, sl: Seq<char>) -> TranslationView {
    TranslationView {
        primary: input,
        detected_source: Some(sl),
        synonyms: Seq::empty(),
        correction: None,
        source_translit: None,
        target_translit: None,
    }
}

/// Builds the identity translation of an input.
pub fn identity_translation(input: &str, sl: &str) -> (t: Translation)
    ensures
        t@ == identity_of(input@, sl@),
{
    let mut t = Translation::default();
    t.primary = String::from_str(input);
    t.detected_source = Some(String::from_str(sl));
    t
}

} // verus!
