//! Command-line parsing: subcommands, named parameters (`sl=`, `tl=`,
//! `p=`, `f=`), output flags and free text.

use vstd::prelude::*;
use crate::error::{Error, ErrorView};
use crate::render::Filter;
use crate::text::{concat, index_of, join, join_strings, lemma_index_of, opt_string, owned, str_eq};

verus! {

/// What to translate and how to show it.
#[derive(Debug, PartialEq, Eq)]
pub struct Translate {
    pub profile: Option<String>,
    pub sl: Option<String>,
    pub tl: Option<String>,
    pub text: Option<String>,
    pub file: Option<String>,
    pub filter: Filter,
    pub no_cache: bool,
}

/// A parsed command line.
#[allow(inconsistent_fields)]
#[derive(Debug, PartialEq, Eq)]
pub enum Command {
    Translate(Translate),
    DefaultShow,
    DefaultSet { sl: Option<String>, tl: Option<String> },
    ProfileAdd { name: String, sl: String, tl: String },
    ProfileList,
    Languages,
    Update,
    ProfileDelete { name: String },
    ProfilePatch {
        name: String,
        sl: Option<String>,
        tl: Option<String>,
        new_name: Option<String>,
    },
    Help,
    CacheStats,
    CacheClear,
}

/// A translate request as the specifications see it.
pub struct TranslateView {
    pub profile: Option<Seq<char>>,
    pub sl: Option<Seq<char>>,
    pub tl: Option<Seq<char>>,
    pub text: Option<Seq<char>>,
    pub file: Option<Seq<char>>,
    pub filter: Filter,
    pub no_cache: bool,
}

/// A command as the specifications see it.
#[allow(inconsistent_fields)]
pub enum CommandView {
    Translate(TranslateView),
    DefaultShow,
    DefaultSet { sl: Option<Seq<char>>, tl: Option<Seq<char>> },
    ProfileAdd { name: Seq<char>, sl: Seq<char>, tl: Seq<char> },
    ProfileList,
    Languages,
    Update,
    ProfileDelete { name: Seq<char> },
    ProfilePatch {
        name: Seq<char>,
        sl: Option<Seq<char>>,
        tl: Option<Seq<char>>,
        new_name: Option<Seq<char>>,
    },
    Help,
    CacheStats,
    CacheClear,
}

impl View for Translate {
    type V = TranslateView;

    open spec fn view(&self) -> TranslateView {
        TranslateView {
            profile: opt_string(self.profile),
            sl: opt_string(self.sl),
            tl: opt_string(self.tl),
            text: opt_string(self.text),
            file: opt_string(self.file),
            filter: self.filter,
            no_cache: self.no_cache,
        }
    }
}

impl View for Command {
    type V = CommandView;

    open spec fn view(&self) -> CommandView {
        match self {
            Command::Translate(t) => CommandView::Translate(t@),
            Command::DefaultShow => CommandView::DefaultShow,
            Command::DefaultSet { sl, tl } => CommandView::DefaultSet {
                sl: opt_string(*sl),
                tl: opt_string(*tl),
            },
            Command::ProfileAdd { name, sl, tl } => CommandView::ProfileAdd {
                name: name@,
                sl: sl@,
                tl: tl@,
            },
            Command::ProfileList => CommandView::ProfileList,
            Command::Languages => CommandView::Languages,
            Command::Update => CommandView::Update,
            Command::ProfileDelete { name } => CommandView::ProfileDelete { name: name@ },
            Command::ProfilePatch { name, sl, tl, new_name } => CommandView::ProfilePatch {
                name: name@,
                sl: opt_string(*sl),
                tl: opt_string(*tl),
                new_name: opt_string(*new_name),
            },
            Command::Help => CommandView::Help,
            Command::CacheStats => CommandView::CacheStats,
            Command::CacheClear => CommandView::CacheClear,
        }
    }
}

/// A `key=value` token split at its first `=`.
pub open spec fn split_kv_of(t: Seq<char>) -> Option<(Seq<char>, Seq<char>)> {
    let i = index_of(t, '=');
    if i < 0 {
        None
    } else {
        Some((t.take(i), t.skip(i + 1)))
    }
}

fn split_kv(token: &str) -> (r: Option<(&str, &str)>)
    ensures
        match r {
            Some((k, v)) => split_kv_of(token@) == Some((k@, v@)),
            None => split_kv_of(token@) is None,
        },
{
    let n = token.unicode_len();
    let mut i: usize = 0;
    while i < n
        invariant
            n == token@.len(),
            i <= n,
            forall|j: int| 0 <= j < i ==> token@[j] != '=',
        decreases n - i,
    {
        if token.get_char(i) == '=' {
            proof {
                lemma_index_of(token@, '=', i as int);
            }
            return Some((token.substring_char(0, i), token.substring_char(i + 1, n)));
        }
        i = i + 1;
    }
    proof {
        lemma_index_of(token@, '=', i as int);
    }
    None
}

/// The views of a list of arguments.
pub open spec fn arg_views(a: Seq<String>) -> Seq<Seq<char>> {
    a.map_values(|s: String| s@)
}

/// The languages `tt default ...` sets, or the first bad token.
pub open spec fn default_fold(rest: Seq<Seq<char>>) -> Result<
    (Option<Seq<char>>, Option<Seq<char>>),
    ErrorView,
>
    decreases rest.len(),
{
    if rest.len() == 0 {
        Ok((None, None))
    } else {
        match default_fold(rest.drop_last()) {
            Err(e) => Err(e),
            Ok((sl, tl)) => {
                let t = rest.last();
                match split_kv_of(t) {
                    Some((k, v)) => if k == "sl"@ {
                        Ok((Some(v), tl))
                    } else if k == "tl"@ {
                        Ok((sl, Some(v)))
                    } else {
                        Err(ErrorView::BadArgs("unexpected argument to 'default': "@ + t))
                    },
                    None => Err(ErrorView::BadArgs("unexpected argument to 'default': "@ + t)),
                }
            },
        }
    }
}

/// `tt default ...`: show the default without values, else set it.
pub open spec fn parse_default_of(rest: Seq<Seq<char>>) -> Result<CommandView, ErrorView> {
    match default_fold(rest) {
        Err(e) => Err(e),
        Ok((sl, tl)) => if sl is None && tl is None {
            Ok(CommandView::DefaultShow)
        } else {
            Ok(CommandView::DefaultSet { sl, tl })
        },
    }
}

/// Name and languages gathered by `tt profile add ...`, or the first problem.
pub open spec fn add_fold(rest: Seq<Seq<char>>) -> Result<
    (Option<Seq<char>>, Option<Seq<char>>, Option<Seq<char>>),
    ErrorView,
>
    decreases rest.len(),
{
    if rest.len() == 0 {
        Ok((None, None, None))
    } else {
        match add_fold(rest.drop_last()) {
            Err(e) => Err(e),
            Ok((name, sl, tl)) => {
                let t = rest.last();
                match split_kv_of(t) {
                    Some((k, v)) => if k == "sl"@ {
                        Ok((name, Some(v), tl))
                    } else if k == "tl"@ {
                        Ok((name, sl, Some(v)))
                    } else {
                        Err(ErrorView::BadArgs("unexpected key: "@ + k + "="@))
                    },
                    None => if name is Some {
                        Err(ErrorView::BadArgs("multiple profile names given"@))
                    } else {
                        Ok((Some(t), sl, tl))
                    },
                }
            },
        }
    }
}

/// `tt profile add <name> sl=<l> tl=<l>`.
pub open spec fn parse_add_of(rest: Seq<Seq<char>>) -> Result<CommandView, ErrorView> {
    match add_fold(rest) {
        Err(e) => Err(e),
        Ok((name, sl, tl)) => match name {
            None => Err(ErrorView::BadArgs("'profile add' requires a name"@)),
            Some(n) => match sl {
                None => Err(ErrorView::BadArgs("'profile add' requires sl="@)),
                Some(s) => match tl {
                    None => Err(ErrorView::BadArgs("'profile add' requires tl="@)),
                    Some(t) => Ok(CommandView::ProfileAdd { name: n, sl: s, tl: t }),
                },
            },
        },
    }
}

/// Name, languages and new name gathered by `tt profile patch ...`.
pub open spec fn patch_fold(rest: Seq<Seq<char>>) -> Result<
    (Option<Seq<char>>, Option<Seq<char>>, Option<Seq<char>>, Option<Seq<char>>),
    ErrorView,
>
    decreases rest.len(),
{
    if rest.len() == 0 {
        Ok((None, None, None, None))
    } else {
        match patch_fold(rest.drop_last()) {
            Err(e) => Err(e),
            Ok((name, sl, tl, nn)) => {
                let t = rest.last();
                match split_kv_of(t) {
                    Some((k, v)) => if k == "sl"@ {
                        Ok((name, Some(v), tl, nn))
                    } else if k == "tl"@ {
                        Ok((name, sl, Some(v), nn))
                    } else if k == "name"@ {
                        Ok((name, sl, tl, Some(v)))
                    } else {
                        Err(ErrorView::BadArgs("unexpected key: "@ + k + "="@))
                    },
                    None => if name is Some {
                        Err(ErrorView::BadArgs("multiple profile names given"@))
                    } else {
                        Ok((Some(t), sl, tl, nn))
                    },
                }
            },
        }
    }
}

/// `tt profile patch <name> [sl=] [tl=] [name=]`.
pub open spec fn parse_patch_of(rest: Seq<Seq<char>>) -> Result<CommandView, ErrorView> {
    match patch_fold(rest) {
        Err(e) => Err(e),
        Ok((name, sl, tl, nn)) => match name {
            None => Err(ErrorView::BadArgs("'profile patch' requires a name"@)),
            Some(n) => if sl is None && tl is None && nn is None {
                Err(ErrorView::BadArgs("'profile patch' requires at least one of sl=, tl=, name="@))
            } else {
                Ok(CommandView::ProfilePatch { name: n, sl, tl, new_name: nn })
            },
        },
    }
}

/// `tt profile <subcommand> ...`.
pub open spec fn parse_profile_of(rest: Seq<Seq<char>>) -> Result<CommandView, ErrorView> {
    if rest.len() == 0 {
        Err(ErrorView::BadArgs("profile requires a subcommand: add|list|delete|patch"@))
    } else {
        let a = rest[0];
        let tail = rest.skip(1);
        if a == "list"@ || a == "ls"@ {
            if tail.len() > 0 {
                Err(ErrorView::BadArgs("'profile list' takes no arguments"@))
            } else {
                Ok(CommandView::ProfileList)
            }
        } else if a == "add"@ {
            parse_add_of(tail)
        } else if a == "delete"@ || a == "rm"@ {
            if tail.len() == 0 {
                Err(ErrorView::BadArgs("'profile delete' requires a name"@))
            } else if tail.len() > 1 {
                Err(ErrorView::BadArgs("too many arguments to 'profile delete'"@))
            } else {
                Ok(CommandView::ProfileDelete { name: tail[0] })
            }
        } else if a == "patch"@ {
            parse_patch_of(tail)
        } else {
            Err(ErrorView::BadArgs("unknown profile subcommand: "@ + a))
        }
    }
}

/// `tt cache [clear]`.
pub open spec fn parse_cache_of(rest: Seq<Seq<char>>) -> Result<CommandView, ErrorView> {
    if rest.len() == 0 {
        Ok(CommandView::CacheStats)
    } else if rest[0] == "clear"@ {
        if rest.len() > 1 {
            Err(ErrorView::BadArgs("'cache clear' takes no arguments"@))
        } else {
            Ok(CommandView::CacheClear)
        }
    } else {
        Err(ErrorView::BadArgs("unknown cache subcommand: "@ + rest[0]))
    }
}

/// What a translate command line has gathered so far.
#[verifier::ext_equal]
pub struct TState {
    pub profile: Option<Seq<char>>,
    pub sl: Option<Seq<char>>,
    pub tl: Option<Seq<char>>,
    pub file: Option<Seq<char>>,
    pub quiet: bool,
    pub synonyms: bool,
    pub verbose: bool,
    pub json: bool,
    pub no_cache: bool,
    pub parts: Seq<Seq<char>>,
}

/// Nothing gathered yet.
pub open spec fn tstate_init() -> TState {
    TState {
        profile: None,
        sl: None,
        tl: None,
        file: None,
        quiet: false,
        synonyms: false,
        verbose: false,
        json: false,
        no_cache: false,
        parts: Seq::empty(),
    }
}

/// One token of a translate command line.
pub open spec fn tstep(st: TState, t: Seq<char>) -> TState {
    if t == "--quiet"@ || t == "-q"@ {
        TState { quiet: true, ..st }
    } else if t == "--synonyms"@ || t == "-s"@ {
        TState { synonyms: true, ..st }
    } else if t == "--verbose"@ || t == "-v"@ {
        TState { verbose: true, ..st }
    } else if t == "--json"@ || t == "-j"@ {
        TState { json: true, ..st }
    } else if t == "--no-cache"@ {
        TState { no_cache: true, ..st }
    } else {
        match split_kv_of(t) {
            Some((k, v)) => if k == "sl"@ {
                TState { sl: Some(v), ..st }
            } else if k == "tl"@ {
                TState { tl: Some(v), ..st }
            } else if k == "p"@ {
                TState { profile: Some(v), ..st }
            } else if k == "f"@ {
                TState { file: Some(v), ..st }
            } else {
                TState { parts: st.parts.push(t), ..st }
            },
            None => TState { parts: st.parts.push(t), ..st },
        }
    }
}

/// The tokens taken one after another from a starting state.
pub open spec fn tfold(st: TState, s: Seq<Seq<char>>) -> TState
    decreases s.len(),
{
    if s.len() == 0 {
        st
    } else {
        tstep(tfold(st, s.drop_last()), s.last())
    }
}

/// How many of the output flags are set.
pub open spec fn filter_count(st: TState) -> int {
    (if st.quiet { 1int } else { 0 }) + (if st.synonyms { 1int } else { 0 }) + (if st.verbose {
        1int
    } else {
        0
    }) + (if st.json { 1int } else { 0 })
}

/// The output filter a set of flags selects.
pub open spec fn filter_of(st: TState) -> Filter {
    if st.quiet {
        Filter::Quiet
    } else if st.synonyms {
        Filter::Synonyms
    } else if st.verbose {
        Filter::Verbose
    } else if st.json {
        Filter::Json
    } else {
        Filter::Full
    }
}

/// `tt [sl=] [tl=] [p=] [f=] [flags] <text>`.
pub open spec fn parse_translate_of(args: Seq<Seq<char>>) -> Result<CommandView, ErrorView> {
    let st = tfold(tstate_init(), args);
    if filter_count(st) > 1 {
        Err(ErrorView::BadArgs("--quiet, --synonyms, --verbose and --json are mutually exclusive"@))
    } else {
        let text = if st.parts.len() == 0 {
            None
        } else {
            Some(join(st.parts, " "@))
        };
        if st.file is Some && text is Some {
            Err(ErrorView::BadArgs("cannot combine f= with inline text; use one"@))
        } else {
            Ok(
                CommandView::Translate(
                    TranslateView {
                        profile: st.profile,
                        sl: st.sl,
                        tl: st.tl,
                        text,
                        file: st.file,
                        filter: filter_of(st),
                        no_cache: st.no_cache,
                    },
                ),
            )
        }
    }
}

/// A whole command line.
pub open spec fn parse_of(args: Seq<Seq<char>>) -> Result<CommandView, ErrorView> {
    if args.len() == 0 {
        Ok(CommandView::Help)
    } else {
        let a = args[0];
        if a == "help"@ || a == "-h"@ || a == "--help"@ {
            Ok(CommandView::Help)
        } else if a == "languages"@ || a == "langs"@ {
            if args.len() > 1 {
                Err(ErrorView::BadArgs("'languages' takes no arguments"@))
            } else {
                Ok(CommandView::Languages)
            }
        } else if a == "update"@ {
            if args.len() > 1 {
                Err(ErrorView::BadArgs("'update' takes no arguments"@))
            } else {
                Ok(CommandView::Update)
            }
        } else if a == "default"@ {
            parse_default_of(args.skip(1))
        } else if a == "profile"@ {
            parse_profile_of(args.skip(1))
        } else if a == "cache"@ {
            parse_cache_of(args.skip(1))
        } else {
            parse_translate_of(args)
        }
    }
}

proof fn lemma_default_err(s: Seq<Seq<char>>, i: int)
    requires
        0 <= i <= s.len(),
        default_fold(s.take(i)) is Err,
    ensures
        default_fold(s) == default_fold(s.take(i)),
    decreases s.len() - i,
{
    if i < s.len() {
        assert(s.take(i + 1).drop_last() =~= s.take(i));
        lemma_default_err(s, i + 1);
    } else {
        assert(s.take(i) =~= s);
    }
}

proof fn lemma_add_err(s: Seq<Seq<char>>, i: int)
    requires
        0 <= i <= s.len(),
        add_fold(s.take(i)) is Err,
    ensures
        add_fold(s) == add_fold(s.take(i)),
    decreases s.len() - i,
{
    if i < s.len() {
        assert(s.take(i + 1).drop_last() =~= s.take(i));
        lemma_add_err(s, i + 1);
    } else {
        assert(s.take(i) =~= s);
    }
}

proof fn lemma_patch_err(s: Seq<Seq<char>>, i: int)
    requires
        0 <= i <= s.len(),
        patch_fold(s.take(i)) is Err,
    ensures
        patch_fold(s) == patch_fold(s.take(i)),
    decreases s.len() - i,
{
    if i < s.len() {
        assert(s.take(i + 1).drop_last() =~= s.take(i));
        lemma_patch_err(s, i + 1);
    } else {
        assert(s.take(i) =~= s);
    }
}

fn opt_owned(o: Option<&str>) -> (r: Option<String>)
    ensures
        opt_string(r) == match o {
            Some(s) => Some(s@),
            None => None::<Seq<char>>,
        },
{
    match o {
        Some(s) => Some(owned(s)),
        None => None,
    }
}

fn parse_default(args: &[String], from: usize) -> (r: Result<Command, Error>)
    requires
        from <= args@.len(),
    ensures
        command_result(r) == parse_default_of(arg_views(args@).skip(from as int)),
{
    let ghost rest = arg_views(args@).skip(from as int);
    let mut sl: Option<String> = None;
    let mut tl: Option<String> = None;
    let n = args.len();
    let mut i: usize = from;
    while i < n
        invariant
            n == args@.len(),
            from <= i <= n,
            rest == arg_views(args@).skip(from as int),
            default_fold(rest.take(i - from)) == Ok::<
                (Option<Seq<char>>, Option<Seq<char>>),
                ErrorView,
            >((opt_string(sl), opt_string(tl))),
        decreases n - i,
    {
        let token = args[i].as_str();
        let ghost pre = rest.take(i - from);
        let ghost cur = rest.take(i - from + 1);
        assert(cur.drop_last() =~= pre);
        assert(cur.last() == token@);
        match split_kv(token) {
            Some((k, v)) => {
                if str_eq(k, "sl") {
                    sl = Some(owned(v));
                } else if str_eq(k, "tl") {
                    tl = Some(owned(v));
                } else {
                    proof {
                        lemma_default_err(rest, i - from + 1);
                    }
                    return Err(Error::BadArgs(concat("unexpected argument to 'default': ", token)));
                }
            },
            None => {
                proof {
                    lemma_default_err(rest, i - from + 1);
                }
                return Err(Error::BadArgs(concat("unexpected argument to 'default': ", token)));
            },
        }
        i = i + 1;
    }
    assert(rest.take(n - from) =~= rest);
    if sl.is_none() && tl.is_none() {
        Ok(Command::DefaultShow)
    } else {
        Ok(Command::DefaultSet { sl, tl })
    }
}

fn parse_add(args: &[String], from: usize) -> (r: Result<Command, Error>)
    requires
        from <= args@.len(),
    ensures
        command_result(r) == parse_add_of(arg_views(args@).skip(from as int)),
{
    let ghost rest = arg_views(args@).skip(from as int);
    let mut name: Option<String> = None;
    let mut sl: Option<String> = None;
    let mut tl: Option<String> = None;
    let n = args.len();
    let mut i: usize = from;
    while i < n
        invariant
            n == args@.len(),
            from <= i <= n,
            rest == arg_views(args@).skip(from as int),
            add_fold(rest.take(i - from)) == Ok::<
                (Option<Seq<char>>, Option<Seq<char>>, Option<Seq<char>>),
                ErrorView,
            >((opt_string(name), opt_string(sl), opt_string(tl))),
        decreases n - i,
    {
        let token = args[i].as_str();
        let ghost pre = rest.take(i - from);
        let ghost cur = rest.take(i - from + 1);
        assert(cur.drop_last() =~= pre);
        assert(cur.last() == token@);
        match split_kv(token) {
            Some((k, v)) => {
                if str_eq(k, "sl") {
                    sl = Some(owned(v));
                } else if str_eq(k, "tl") {
                    tl = Some(owned(v));
                } else {
                    proof {
                        lemma_add_err(rest, i - from + 1);
                    }
                    let mut m = concat("unexpected key: ", k);
                    m.append("=");
                    return Err(Error::BadArgs(m));
                }
            },
            None => {
                if name.is_some() {
                    proof {
                        lemma_add_err(rest, i - from + 1);
                    }
                    return Err(Error::BadArgs(owned("multiple profile names given")));
                }
                name = Some(owned(token));
            },
        }
        i = i + 1;
    }
    assert(rest.take(n - from) =~= rest);
    match name {
        None => Err(Error::BadArgs(owned("'profile add' requires a name"))),
        Some(nm) => match sl {
            None => Err(Error::BadArgs(owned("'profile add' requires sl="))),
            Some(s) => match tl {
                None => Err(Error::BadArgs(owned("'profile add' requires tl="))),
                Some(t) => Ok(Command::ProfileAdd { name: nm, sl: s, tl: t }),
            },
        },
    }
}

fn parse_patch(args: &[String], from: usize) -> (r: Result<Command, Error>)
    requires
        from <= args@.len(),
    ensures
        command_result(r) == parse_patch_of(arg_views(args@).skip(from as int)),
{
    let ghost rest = arg_views(args@).skip(from as int);
    let mut name: Option<String> = None;
    let mut sl: Option<String> = None;
    let mut tl: Option<String> = None;
    let mut nn: Option<String> = None;
    let n = args.len();
    let mut i: usize = from;
    while i < n
        invariant
            n == args@.len(),
            from <= i <= n,
            rest == arg_views(args@).skip(from as int),
            patch_fold(rest.take(i - from)) == Ok::<
                (Option<Seq<char>>, Option<Seq<char>>, Option<Seq<char>>, Option<Seq<char>>),
                ErrorView,
            >((opt_string(name), opt_string(sl), opt_string(tl), opt_string(nn))),
        decreases n - i,
    {
        let token = args[i].as_str();
        let ghost pre = rest.take(i - from);
        let ghost cur = rest.take(i - from + 1);
        assert(cur.drop_last() =~= pre);
        assert(cur.last() == token@);
        match split_kv(token) {
            Some((k, v)) => {
                if str_eq(k, "sl") {
                    sl = Some(owned(v));
                } else if str_eq(k, "tl") {
                    tl = Some(owned(v));
                } else if str_eq(k, "name") {
                    nn = Some(owned(v));
                } else {
                    proof {
                        lemma_patch_err(rest, i - from + 1);
                    }
                    let mut m = concat("unexpected key: ", k);
                    m.append("=");
                    return Err(Error::BadArgs(m));
                }
            },
            None => {
                if name.is_some() {
                    proof {
                        lemma_patch_err(rest, i - from + 1);
                    }
                    return Err(Error::BadArgs(owned("multiple profile names given")));
                }
                name = Some(owned(token));
            },
        }
        i = i + 1;
    }
    assert(rest.take(n - from) =~= rest);
    match name {
        None => Err(Error::BadArgs(owned("'profile patch' requires a name"))),
        Some(nm) => {
            if sl.is_none() && tl.is_none() && nn.is_none() {
                Err(
                    Error::BadArgs(
                        owned("'profile patch' requires at least one of sl=, tl=, name="),
                    ),
                )
            } else {
                Ok(Command::ProfilePatch { name: nm, sl, tl, new_name: nn })
            }
        },
    }
}

fn parse_profile(args: &[String], from: usize) -> (r: Result<Command, Error>)
    requires
        from <= args@.len(),
    ensures
        command_result(r) == parse_profile_of(arg_views(args@).skip(from as int)),
{
    let ghost rest = arg_views(args@).skip(from as int);
    let n = args.len();
    if from >= n {
        return Err(
            Error::BadArgs(owned("profile requires a subcommand: add|list|delete|patch")),
        );
    }
    let a = args[from].as_str();
    assert(rest[0] == a@);
    assert(rest.skip(1) =~= arg_views(args@).skip(from + 1));
    if str_eq(a, "list") || str_eq(a, "ls") {
        if n > from + 1 {
            return Err(Error::BadArgs(owned("'profile list' takes no arguments")));
        }
        Ok(Command::ProfileList)
    } else if str_eq(a, "add") {
        parse_add(args, from + 1)
    } else if str_eq(a, "delete") || str_eq(a, "rm") {
        if n == from + 1 {
            return Err(Error::BadArgs(owned("'profile delete' requires a name")));
        }
        if n > from + 2 {
            return Err(Error::BadArgs(owned("too many arguments to 'profile delete'")));
        }
        assert(rest.skip(1)[0] == args@[from + 1]@);
        Ok(Command::ProfileDelete { name: args[from + 1].clone() })
    } else if str_eq(a, "patch") {
        parse_patch(args, from + 1)
    } else {
        Err(Error::BadArgs(concat("unknown profile subcommand: ", a)))
    }
}

fn parse_cache(args: &[String], from: usize) -> (r: Result<Command, Error>)
    requires
        from <= args@.len(),
    ensures
        command_result(r) == parse_cache_of(arg_views(args@).skip(from as int)),
{
    let ghost rest = arg_views(args@).skip(from as int);
    let n = args.len();
    if from >= n {
        return Ok(Command::CacheStats);
    }
    let a = args[from].as_str();
    assert(rest[0] == a@);
    if str_eq(a, "clear") {
        if n > from + 1 {
            return Err(Error::BadArgs(owned("'cache clear' takes no arguments")));
        }
        Ok(Command::CacheClear)
    } else {
        Err(Error::BadArgs(concat("unknown cache subcommand: ", a)))
    }
}

fn parse_translate(args: &[String]) -> (r: Result<Command, Error>)
    ensures
        command_result(r) == parse_translate_of(arg_views(args@)),
{
    let ghost av = arg_views(args@);
    let mut profile: Option<String> = None;
    let mut sl: Option<String> = None;
    let mut tl: Option<String> = None;
    let mut file: Option<String> = None;
    let mut quiet = false;
    let mut synonyms = false;
    let mut verbose = false;
    let mut json = false;
    let mut no_cache = false;
    let mut parts: Vec<String> = Vec::new();
    let n = args.len();
    let mut i: usize = 0;
    assert(av.take(0) =~= Seq::<Seq<char>>::empty());
    assert(parts@.map_values(|s: String| s@) =~= Seq::<Seq<char>>::empty());
    while i < n
        invariant
            n == args@.len(),
            i <= n,
            av == arg_views(args@),
            tfold(tstate_init(), av.take(i as int)) == (TState {
                profile: opt_string(profile),
                sl: opt_string(sl),
                tl: opt_string(tl),
                file: opt_string(file),
                quiet,
                synonyms,
                verbose,
                json,
                no_cache,
                parts: parts@.map_values(|s: String| s@),
            }),
        decreases n - i,
    {
        let token = args[i].as_str();
        assert(av.take(i + 1).drop_last() =~= av.take(i as int));
        assert(av.take(i + 1).last() == token@);
        let ghost before = parts@.map_values(|s: String| s@);
        if str_eq(token, "--quiet") || str_eq(token, "-q") {
            quiet = true;
        } else if str_eq(token, "--synonyms") || str_eq(token, "-s") {
            synonyms = true;
        } else if str_eq(token, "--verbose") || str_eq(token, "-v") {
            verbose = true;
        } else if str_eq(token, "--json") || str_eq(token, "-j") {
            json = true;
        } else if str_eq(token, "--no-cache") {
            no_cache = true;
        } else {
            match split_kv(token) {
                Some((k, v)) => {
                    if str_eq(k, "sl") {
                        sl = Some(owned(v));
                    } else if str_eq(k, "tl") {
                        tl = Some(owned(v));
                    } else if str_eq(k, "p") {
                        profile = Some(owned(v));
                    } else if str_eq(k, "f") {
                        file = Some(owned(v));
                    } else {
                        parts.push(owned(token));
                        assert(parts@.map_values(|s: String| s@) =~= before.push(token@));
                    }
                },
                None => {
                    parts.push(owned(token));
                    assert(parts@.map_values(|s: String| s@) =~= before.push(token@));
                },
            }
        }
        i = i + 1;
    }
    assert(av.take(n as int) =~= av);
    let count: u8 = (if quiet { 1u8 } else { 0 }) + (if synonyms { 1u8 } else { 0 }) + (if verbose {
        1u8
    } else {
        0
    }) + (if json { 1u8 } else { 0 });
    if count > 1 {
        return Err(
            Error::BadArgs(
                owned("--quiet, --synonyms, --verbose and --json are mutually exclusive"),
            ),
        );
    }
    let text = if parts.len() == 0 {
        None
    } else {
        Some(join_strings(&parts, " "))
    };
    if file.is_some() && text.is_some() {
        return Err(Error::BadArgs(owned("cannot combine f= with inline text; use one")));
    }
    let filter = if quiet {
        Filter::Quiet
    } else if synonyms {
        Filter::Synonyms
    } else if verbose {
        Filter::Verbose
    } else if json {
        Filter::Json
    } else {
        Filter::Full
    };
    Ok(Command::Translate(Translate { profile, sl, tl, text, file, filter, no_cache }))
}

/// Parses the arguments that follow the program name.
pub fn parse(args: &[String]) -> (r: Result<Command, Error>)
    ensures
        command_result(r) == parse_of(arg_views(args@)),
{
    let ghost av = arg_views(args@);
    let n = args.len();
    if n == 0 {
        return Ok(Command::Help);
    }
    let a = args[0].as_str();
    assert(av[0] == a@);
    if str_eq(a, "help") || str_eq(a, "-h") || str_eq(a, "--help") {
        Ok(Command::Help)
    } else if str_eq(a, "languages") || str_eq(a, "langs") {
        if n > 1 {
            return Err(Error::BadArgs(owned("'languages' takes no arguments")));
        }
        Ok(Command::Languages)
    } else if str_eq(a, "update") {
        if n > 1 {
            return Err(Error::BadArgs(owned("'update' takes no arguments")));
        }
        Ok(Command::Update)
    } else if str_eq(a, "default") {
        parse_default(args, 1)
    } else if str_eq(a, "profile") {
        parse_profile(args, 1)
    } else if str_eq(a, "cache") {
        parse_cache(args, 1)
    } else {
        parse_translate(args)
    }
}

/// What a token sets on a translate command line: 1 to 5 for the flags,
/// 6 to 9 for `sl=`, `tl=`, `p=` and `f=`, 0 for a word of the text.
pub open spec fn token_kind(t: Seq<char>) -> int {
    if t == "--quiet"@ || t == "-q"@ {
        1
    } else if t == "--synonyms"@ || t == "-s"@ {
        2
    } else if t == "--verbose"@ || t == "-v"@ {
        3
    } else if t == "--json"@ || t == "-j"@ {
        4
    } else if t == "--no-cache"@ {
        5
    } else {
        match split_kv_of(t) {
            Some((k, v)) => if k == "sl"@ {
                6
            } else if k == "tl"@ {
                7
            } else if k == "p"@ {
                8
            } else if k == "f"@ {
                9
            } else {
                0
            },
            None => 0,
        }
    }
}

/// Two tokens that can trade places: both set something, and not the same
/// parameter to possibly different values.
pub open spec fn swappable(a: Seq<char>, b: Seq<char>) -> bool {
    &&& token_kind(a) != 0
    &&& token_kind(b) != 0
    &&& (token_kind(a) != token_kind(b) || token_kind(a) <= 5 || a == b)
}

proof fn lemma_tstep_commute(st: TState, a: Seq<char>, b: Seq<char>)
    requires
        swappable(a, b),
    ensures
        tstep(tstep(st, a), b) =~= tstep(tstep(st, b), a),
{
}

proof fn lemma_tfold_append(st: TState, x: Seq<Seq<char>>, y: Seq<Seq<char>>)
    ensures
        tfold(st, x + y) == tfold(tfold(st, x), y),
    decreases y.len(),
{
    if y.len() == 0 {
        assert(x + y =~= x);
    } else {
        assert((x + y).drop_last() =~= x + y.drop_last());
        lemma_tfold_append(st, x, y.drop_last());
    }
}

proof fn lemma_tfold_pair(st: TState, a: Seq<char>, b: Seq<char>)
    ensures
        tfold(st, seq![a, b]) == tstep(tstep(st, a), b),
{
    assert(seq![a, b].drop_last() =~= seq![a]);
    assert(seq![a].drop_last() =~= Seq::<Seq<char>>::empty());
    assert(tfold(st, Seq::<Seq<char>>::empty()) == st);
    assert(tfold(st, seq![a]) == tstep(tfold(st, Seq::<Seq<char>>::empty()), a));
    assert(tfold(st, seq![a, b]) == tstep(tfold(st, seq![a]), b));
}

/// Named parameters and flags can come in any order: swapping two
/// neighbouring ones changes nothing, unless both set the same parameter
/// to different values (then the later one wins).
pub proof fn law_params_order_free(p: Seq<Seq<char>>, a: Seq<char>, b: Seq<char>, s: Seq<Seq<char>>)
    requires
        swappable(a, b),
    ensures
        parse_translate_of(p + seq![a, b] + s) == parse_translate_of(p + seq![b, a] + s),
{
    let st = tfold(tstate_init(), p);
    lemma_tfold_append(tstate_init(), p + seq![a, b], s);
    lemma_tfold_append(tstate_init(), p + seq![b, a], s);
    lemma_tfold_append(tstate_init(), p, seq![a, b]);
    lemma_tfold_append(tstate_init(), p, seq![b, a]);
    lemma_tfold_pair(st, a, b);
    lemma_tfold_pair(st, b, a);
    lemma_tstep_commute(st, a, b);
    assert(tfold(tstate_init(), p + seq![a, b] + s) == tfold(tstate_init(), p + seq![b, a] + s));
}

/// The words that select a subcommand when they come first.
pub open spec fn is_command_word(t: Seq<char>) -> bool {
    t == "help"@ || t == "-h"@ || t == "--help"@ || t == "languages"@ || t == "langs"@ || t == "update"@ || t == "default"@ || t == "profile"@ || t == "cache"@
}

proof fn lemma_word_help()
    ensures
        token_kind("help"@) == 0,
{
    reveal_strlit("help");
    assert("help"@.len() != "--quiet"@.len()) by { reveal_strlit("--quiet"); }
    assert("help"@.len() != "-q"@.len()) by { reveal_strlit("-q"); }
    assert("help"@.len() != "--synonyms"@.len()) by { reveal_strlit("--synonyms"); }
    assert("help"@.len() != "-s"@.len()) by { reveal_strlit("-s"); }
    assert("help"@.len() != "--verbose"@.len()) by { reveal_strlit("--verbose"); }
    assert("help"@.len() != "-v"@.len()) by { reveal_strlit("-v"); }
    assert("help"@.len() != "--json"@.len()) by { reveal_strlit("--json"); }
    assert("help"@.len() != "-j"@.len()) by { reveal_strlit("-j"); }
    assert("help"@.len() != "--no-cache"@.len()) by { reveal_strlit("--no-cache"); }
    reveal_with_fuel(index_of, 5);
    assert(index_of("help"@, '=') < 0);
}

proof fn lemma_word_dash_h()
    ensures
        token_kind("-h"@) == 0,
{
    reveal_strlit("-h");
    assert("-h"@.len() != "--quiet"@.len()) by { reveal_strlit("--quiet"); }
    assert("-h"@[1] != "-q"@[1]) by { reveal_strlit("-q"); }
    assert("-h"@.len() != "--synonyms"@.len()) by { reveal_strlit("--synonyms"); }
    assert("-h"@[1] != "-s"@[1]) by { reveal_strlit("-s"); }
    assert("-h"@.len() != "--verbose"@.len()) by { reveal_strlit("--verbose"); }
    assert("-h"@[1] != "-v"@[1]) by { reveal_strlit("-v"); }
    assert("-h"@.len() != "--json"@.len()) by { reveal_strlit("--json"); }
    assert("-h"@[1] != "-j"@[1]) by { reveal_strlit("-j"); }
    assert("-h"@.len() != "--no-cache"@.len()) by { reveal_strlit("--no-cache"); }
    reveal_with_fuel(index_of, 3);
    assert(index_of("-h"@, '=') < 0);
}

proof fn lemma_word_dash_dash_help()
    ensures
        token_kind("--help"@) == 0,
{
    reveal_strlit("--help");
    assert("--help"@.len() != "--quiet"@.len()) by { reveal_strlit("--quiet"); }
    assert("--help"@.len() != "-q"@.len()) by { reveal_strlit("-q"); }
    assert("--help"@.len() != "--synonyms"@.len()) by { reveal_strlit("--synonyms"); }
    assert("--help"@.len() != "-s"@.len()) by { reveal_strlit("-s"); }
    assert("--help"@.len() != "--verbose"@.len()) by { reveal_strlit("--verbose"); }
    assert("--help"@.len() != "-v"@.len()) by { reveal_strlit("-v"); }
    assert("--help"@[2] != "--json"@[2]) by { reveal_strlit("--json"); }
    assert("--help"@.len() != "-j"@.len()) by { reveal_strlit("-j"); }
    assert("--help"@.len() != "--no-cache"@.len()) by { reveal_strlit("--no-cache"); }
    reveal_with_fuel(index_of, 7);
    assert(index_of("--help"@, '=') < 0);
}

proof fn lemma_word_languages()
    ensures
        token_kind("languages"@) == 0,
{
    reveal_strlit("languages");
    assert("languages"@.len() != "--quiet"@.len()) by { reveal_strlit("--quiet"); }
    assert("languages"@.len() != "-q"@.len()) by { reveal_strlit("-q"); }
    assert("languages"@.len() != "--synonyms"@.len()) by { reveal_strlit("--synonyms"); }
    assert("languages"@.len() != "-s"@.len()) by { reveal_strlit("-s"); }
    assert("languages"@[0] != "--verbose"@[0]) by { reveal_strlit("--verbose"); }
    assert("languages"@.len() != "-v"@.len()) by { reveal_strlit("-v"); }
    assert("languages"@.len() != "--json"@.len()) by { reveal_strlit("--json"); }
    assert("languages"@.len() != "-j"@.len()) by { reveal_strlit("-j"); }
    assert("languages"@.len() != "--no-cache"@.len()) by { reveal_strlit("--no-cache"); }
    reveal_with_fuel(index_of, 10);
    assert(index_of("languages"@, '=') < 0);
}

proof fn lemma_word_langs()
    ensures
        token_kind("langs"@) == 0,
{
    reveal_strlit("langs");
    assert("langs"@.len() != "--quiet"@.len()) by { reveal_strlit("--quiet"); }
    assert("langs"@.len() != "-q"@.len()) by { reveal_strlit("-q"); }
    assert("langs"@.len() != "--synonyms"@.len()) by { reveal_strlit("--synonyms"); }
    assert("langs"@.len() != "-s"@.len()) by { reveal_strlit("-s"); }
    assert("langs"@.len() != "--verbose"@.len()) by { reveal_strlit("--verbose"); }
    assert("langs"@.len() != "-v"@.len()) by { reveal_strlit("-v"); }
    assert("langs"@.len() != "--json"@.len()) by { reveal_strlit("--json"); }
    assert("langs"@.len() != "-j"@.len()) by { reveal_strlit("-j"); }
    assert("langs"@.len() != "--no-cache"@.len()) by { reveal_strlit("--no-cache"); }
    reveal_with_fuel(index_of, 6);
    assert(index_of("langs"@, '=') < 0);
}

proof fn lemma_word_update()
    ensures
        token_kind("update"@) == 0,
{
    reveal_strlit("update");
    assert("update"@.len() != "--quiet"@.len()) by { reveal_strlit("--quiet"); }
    assert("update"@.len() != "-q"@.len()) by { reveal_strlit("-q"); }
    assert("update"@.len() != "--synonyms"@.len()) by { reveal_strlit("--synonyms"); }
    assert("update"@.len() != "-s"@.len()) by { reveal_strlit("-s"); }
    assert("update"@.len() != "--verbose"@.len()) by { reveal_strlit("--verbose"); }
    assert("update"@.len() != "-v"@.len()) by { reveal_strlit("-v"); }
    assert("update"@[0] != "--json"@[0]) by { reveal_strlit("--json"); }
    assert("update"@.len() != "-j"@.len()) by { reveal_strlit("-j"); }
    assert("update"@.len() != "--no-cache"@.len()) by { reveal_strlit("--no-cache"); }
    reveal_with_fuel(index_of, 7);
    assert(index_of("update"@, '=') < 0);
}

proof fn lemma_word_default()
    ensures
        token_kind("default"@) == 0,
{
    reveal_strlit("default");
    assert("default"@[0] != "--quiet"@[0]) by { reveal_strlit("--quiet"); }
    assert("default"@.len() != "-q"@.len()) by { reveal_strlit("-q"); }
    assert("default"@.len() != "--synonyms"@.len()) by { reveal_strlit("--synonyms"); }
    assert("default"@.len() != "-s"@.len()) by { reveal_strlit("-s"); }
    assert("default"@.len() != "--verbose"@.len()) by { reveal_strlit("--verbose"); }
    assert("default"@.len() != "-v"@.len()) by { reveal_strlit("-v"); }
    assert("default"@.len() != "--json"@.len()) by { reveal_strlit("--json"); }
    assert("default"@.len() != "-j"@.len()) by { reveal_strlit("-j"); }
    assert("default"@.len() != "--no-cache"@.len()) by { reveal_strlit("--no-cache"); }
    reveal_with_fuel(index_of, 8);
    assert(index_of("default"@, '=') < 0);
}

proof fn lemma_word_profile()
    ensures
        token_kind("profile"@) == 0,
{
    reveal_strlit("profile");
    assert("profile"@[0] != "--quiet"@[0]) by { reveal_strlit("--quiet"); }
    assert("profile"@.len() != "-q"@.len()) by { reveal_strlit("-q"); }
    assert("profile"@.len() != "--synonyms"@.len()) by { reveal_strlit("--synonyms"); }
    assert("profile"@.len() != "-s"@.len()) by { reveal_strlit("-s"); }
    assert("profile"@.len() != "--verbose"@.len()) by { reveal_strlit("--verbose"); }
    assert("profile"@.len() != "-v"@.len()) by { reveal_strlit("-v"); }
    assert("profile"@.len() != "--json"@.len()) by { reveal_strlit("--json"); }
    assert("profile"@.len() != "-j"@.len()) by { reveal_strlit("-j"); }
    assert("profile"@.len() != "--no-cache"@.len()) by { reveal_strlit("--no-cache"); }
    reveal_with_fuel(index_of, 8);
    assert(index_of("profile"@, '=') < 0);
}

proof fn lemma_word_cache()
    ensures
        token_kind("cache"@) == 0,
{
    reveal_strlit("cache");
    assert("cache"@.len() != "--quiet"@.len()) by { reveal_strlit("--quiet"); }
    assert("cache"@.len() != "-q"@.len()) by { reveal_strlit("-q"); }
    assert("cache"@.len() != "--synonyms"@.len()) by { reveal_strlit("--synonyms"); }
    assert("cache"@.len() != "-s"@.len()) by { reveal_strlit("-s"); }
    assert("cache"@.len() != "--verbose"@.len()) by { reveal_strlit("--verbose"); }
    assert("cache"@.len() != "-v"@.len()) by { reveal_strlit("-v"); }
    assert("cache"@.len() != "--json"@.len()) by { reveal_strlit("--json"); }
    assert("cache"@.len() != "-j"@.len()) by { reveal_strlit("-j"); }
    assert("cache"@.len() != "--no-cache"@.len()) by { reveal_strlit("--no-cache"); }
    reveal_with_fuel(index_of, 6);
    assert(index_of("cache"@, '=') < 0);
}

proof fn lemma_setting_is_not_a_command(t: Seq<char>)
    requires
        token_kind(t) != 0,
    ensures
        !is_command_word(t),
{
    lemma_word_help();
    lemma_word_dash_h();
    lemma_word_dash_dash_help();
    lemma_word_languages();
    lemma_word_langs();
    lemma_word_update();
    lemma_word_default();
    lemma_word_profile();
    lemma_word_cache();
}

/// A command line that does not start with a subcommand is a translate
/// request, and in it named parameters and flags can come in any order:
/// swapping two neighbouring ones changes nothing, unless both set the same
/// parameter to different values.
pub proof fn law_command_line_order_free(
    p: Seq<Seq<char>>,
    a: Seq<char>,
    b: Seq<char>,
    s: Seq<Seq<char>>,
)
    requires
        swappable(a, b),
        p.len() == 0 || !is_command_word(p[0]),
    ensures
        parse_of(p + seq![a, b] + s) == parse_of(p + seq![b, a] + s),
{
    let x = p + seq![a, b] + s;
    let y = p + seq![b, a] + s;
    lemma_setting_is_not_a_command(a);
    lemma_setting_is_not_a_command(b);
    if p.len() == 0 {
        assert(x[0] == a);
        assert(y[0] == b);
    } else {
        assert(x[0] == p[0]);
        assert(y[0] == p[0]);
    }
    law_params_order_free(p, a, b, s);
}

/// Whether the output flag of kind `k` (1 to 4) is set.
pub open spec fn flag_set(st: TState, k: int) -> bool {
    if k == 1 {
        st.quiet
    } else if k == 2 {
        st.synonyms
    } else if k == 3 {
        st.verbose
    } else {
        st.json
    }
}

proof fn lemma_tfold_keeps_flag(st: TState, s: Seq<Seq<char>>, k: int)
    requires
        flag_set(st, k),
    ensures
        flag_set(tfold(st, s), k),
    decreases s.len(),
{
    if s.len() > 0 {
        lemma_tfold_keeps_flag(st, s.drop_last(), k);
    }
}

proof fn lemma_tfold_sets_flag(s: Seq<Seq<char>>, i: int)
    requires
        0 <= i < s.len(),
        1 <= token_kind(s[i]) <= 4,
    ensures
        flag_set(tfold(tstate_init(), s), token_kind(s[i])),
{
    let k = token_kind(s[i]);
    let head = s.take(i + 1);
    lemma_tfold_append(tstate_init(), head, s.skip(i + 1));
    assert(head + s.skip(i + 1) =~= s);
    assert(head.drop_last() =~= s.take(i));
    assert(head.last() == s[i]);
    assert(flag_set(tfold(tstate_init(), head), k));
    lemma_tfold_keeps_flag(tfold(tstate_init(), head), s.skip(i + 1), k);
}

/// The output flags exclude each other: a translate command line holding
/// two different ones is refused, wherever they stand.
pub proof fn law_output_flags_exclusive(args: Seq<Seq<char>>, i: int, j: int)
    requires
        args.len() > 0,
        !is_command_word(args[0]),
        0 <= i < args.len(),
        0 <= j < args.len(),
        1 <= token_kind(args[i]) <= 4,
        1 <= token_kind(args[j]) <= 4,
        token_kind(args[i]) != token_kind(args[j]),
    ensures
        parse_of(args) == Err::<CommandView, ErrorView>(
            ErrorView::BadArgs("--quiet, --synonyms, --verbose and --json are mutually exclusive"@),
        ),
{
    lemma_tfold_sets_flag(args, i);
    lemma_tfold_sets_flag(args, j);
    let st = tfold(tstate_init(), args);
    assert(filter_count(st) > 1);
}

/// The tokens of one kind (see `token_kind`), in their order.
pub open spec fn of_kind(s: Seq<Seq<char>>, k: int) -> Seq<Seq<char>>
    decreases s.len(),
{
    if s.len() == 0 {
        Seq::empty()
    } else if token_kind(s.last()) == k {
        of_kind(s.drop_last(), k).push(s.last())
    } else {
        of_kind(s.drop_last(), k)
    }
}

/// Whether a token of the kind occurs.
pub open spec fn has_kind(s: Seq<Seq<char>>, k: int) -> bool {
    exists|i: int| 0 <= i < s.len() && token_kind(#[trigger] s[i]) == k
}

/// The value of the last `key=value` token of a list, if there is one.
pub open spec fn last_value(f: Seq<Seq<char>>) -> Option<Seq<char>> {
    if f.len() == 0 {
        None
    } else {
        match split_kv_of(f.last()) {
            Some((_, v)) => Some(v),
            None => None,
        }
    }
}

/// What a translate command line gathers, read off its tokens: the last
/// value of each parameter, which flags occur, and the words in order.
pub open spec fn summary_of(s: Seq<Seq<char>>) -> TState {
    TState {
        profile: last_value(of_kind(s, 8)),
        sl: last_value(of_kind(s, 6)),
        tl: last_value(of_kind(s, 7)),
        file: last_value(of_kind(s, 9)),
        quiet: has_kind(s, 1),
        synonyms: has_kind(s, 2),
        verbose: has_kind(s, 3),
        json: has_kind(s, 4),
        no_cache: has_kind(s, 5),
        parts: of_kind(s, 0),
    }
}

proof fn lemma_has_kind_push(s: Seq<Seq<char>>, k: int)
    requires
        s.len() > 0,
    ensures
        has_kind(s, k) == (has_kind(s.drop_last(), k) || token_kind(s.last()) == k),
{
    let p = s.drop_last();
    if has_kind(s, k) {
        let i = choose|i: int| 0 <= i < s.len() && token_kind(#[trigger] s[i]) == k;
        if i < p.len() {
            assert(p[i] == s[i]);
        }
    }
    if has_kind(p, k) {
        let i = choose|i: int| 0 <= i < p.len() && token_kind(#[trigger] p[i]) == k;
        assert(s[i] == p[i]);
    }
    if token_kind(s.last()) == k {
        assert(s[s.len() - 1] == s.last());
    }
}

proof fn lemma_tfold_summary(s: Seq<Seq<char>>)
    ensures
        tfold(tstate_init(), s) == summary_of(s),
    decreases s.len(),
{
    if s.len() == 0 {
        assert(!has_kind(s, 1) && !has_kind(s, 2) && !has_kind(s, 3) && !has_kind(s, 4) && !has_kind(s, 5));
        assert(tfold(tstate_init(), s) =~= summary_of(s));
    } else {
        let p = s.drop_last();
        lemma_tfold_summary(p);
        lemma_has_kind_push(s, 1);
        lemma_has_kind_push(s, 2);
        lemma_has_kind_push(s, 3);
        lemma_has_kind_push(s, 4);
        lemma_has_kind_push(s, 5);
        assert(tfold(tstate_init(), s) =~= summary_of(s));
    }
}

/// A translate command line can be rearranged freely as long as the words
/// of the text keep their order and so do the tokens of each parameter
/// (`sl=`, `tl=`, `p=`, `f=`), and the same flags occur: any reordering of
/// this kind, and any pair of lines that agree in these, parse the same.
pub proof fn law_rearranged_command_line(a1: Seq<Seq<char>>, a2: Seq<Seq<char>>)
    requires
        a1.len() > 0,
        a2.len() > 0,
        !is_command_word(a1[0]),
        !is_command_word(a2[0]),
        forall|k: int| 1 <= k <= 5 ==> has_kind(a1, k) == has_kind(a2, k),
        forall|k: int| k == 0 || 6 <= k <= 9 ==> #[trigger] of_kind(a1, k) == of_kind(a2, k),
    ensures
        parse_of(a1) == parse_of(a2),
{
    lemma_tfold_summary(a1);
    lemma_tfold_summary(a2);
    assert(of_kind(a1, 0) == of_kind(a2, 0));
    assert(of_kind(a1, 6) == of_kind(a2, 6));
    assert(of_kind(a1, 7) == of_kind(a2, 7));
    assert(of_kind(a1, 8) == of_kind(a2, 8));
    assert(of_kind(a1, 9) == of_kind(a2, 9));
    assert(has_kind(a1, 1) == has_kind(a2, 1));
    assert(has_kind(a1, 2) == has_kind(a2, 2));
    assert(has_kind(a1, 3) == has_kind(a2, 3));
    assert(has_kind(a1, 4) == has_kind(a2, 4));
    assert(has_kind(a1, 5) == has_kind(a2, 5));
    assert(summary_of(a1) == summary_of(a2));
}

proof fn lemma_default_fold_sets(rest: Seq<Seq<char>>)
    ensures
        default_fold(rest) matches Ok((sl, tl)) ==> (rest.len() > 0 <==> (sl is Some || tl is Some)),
    decreases rest.len(),
{
    if rest.len() > 0 {
        lemma_default_fold_sets(rest.drop_last());
    }
}

proof fn lemma_split_setting(key: Seq<char>, v: Seq<char>)
    requires
        key.len() == 2,
        key[0] != '=',
        key[1] != '=',
    ensures
        split_kv_of(key + "="@ + v) == Some((key, v)),
{
    reveal_strlit("=");
    let t = key + "="@ + v;
    assert(t[0] == key[0] && t[1] == key[1] && t[2] == '=');
    lemma_index_of(t, '=', 2);
    assert(t.take(2) =~= key);
    assert(t.skip(3) =~= v);
}

proof fn lemma_default_is_the_command(rest: Seq<Seq<char>>)
    ensures
        parse_of(seq!["default"@] + rest) == parse_default_of(rest),
{
    let a = seq!["default"@] + rest;
    assert(a[0] == "default"@);
    assert(a.skip(1) =~= rest);
    reveal_strlit("default");
    assert("default"@.len() != "help"@.len()) by { reveal_strlit("help"); }
    assert("default"@.len() != "-h"@.len()) by { reveal_strlit("-h"); }
    assert("default"@.len() != "--help"@.len()) by { reveal_strlit("--help"); }
    assert("default"@.len() != "languages"@.len()) by { reveal_strlit("languages"); }
    assert("default"@.len() != "langs"@.len()) by { reveal_strlit("langs"); }
    assert("default"@.len() != "update"@.len()) by { reveal_strlit("update"); }
}

/// `tt default` only shows the default when it is given no setting; with
/// settings it sets the default, and what it sets is exactly what was given:
/// `tt default tl=X` sets the target alone and `tt default sl=X` the source
/// alone.
pub proof fn law_default_sets_what_is_given(rest: Seq<Seq<char>>, v: Seq<char>)
    ensures
        parse_of(seq!["default"@] + rest) matches Ok(CommandView::DefaultShow) ==> rest.len() == 0,
        parse_of(seq!["default"@]) == Ok::<CommandView, ErrorView>(CommandView::DefaultShow),
        parse_of(seq!["default"@, "tl="@ + v]) == Ok::<CommandView, ErrorView>(
            CommandView::DefaultSet { sl: None, tl: Some(v) },
        ),
        parse_of(seq!["default"@, "sl="@ + v]) == Ok::<CommandView, ErrorView>(
            CommandView::DefaultSet { sl: Some(v), tl: None },
        ),
{
    reveal_strlit("tl=");
    reveal_strlit("sl=");
    reveal_strlit("tl");
    reveal_strlit("sl");
    lemma_default_is_the_command(rest);
    lemma_default_fold_sets(rest);
    let e = Seq::<Seq<char>>::empty();
    lemma_default_is_the_command(e);
    assert(seq!["default"@] + e =~= seq!["default"@]);
    let t = "tl="@ + v;
    let u = "sl="@ + v;
    assert("tl="@ =~= "tl"@ + "="@) by { reveal_strlit("="); }
    assert("sl="@ =~= "sl"@ + "="@) by { reveal_strlit("="); }
    lemma_split_setting("tl"@, v);
    lemma_split_setting("sl"@, v);
    lemma_default_is_the_command(seq![t]);
    lemma_default_is_the_command(seq![u]);
    assert(seq!["default"@] + seq![t] =~= seq!["default"@, t]);
    assert(seq!["default"@] + seq![u] =~= seq!["default"@, u]);
    assert(seq![t].drop_last() =~= e);
    assert(seq![u].drop_last() =~= e);
    assert("tl"@ != "sl"@);
}

/// The view of a parse outcome.
pub open spec fn command_result(r: Result<Command, Error>) -> Result<CommandView, ErrorView> {
    match r {
        Ok(c) => Ok(c@),
        Err(e) => Err(e@),
    }
}

} // verus!
