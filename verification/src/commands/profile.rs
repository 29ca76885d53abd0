//! What the default and profile commands print.

use vstd::prelude::*;
use vstd::utf8::encode_utf8;
use crate::color::{paint, paint_of, BOLD, DIM, GREEN};
use crate::commands::help::{lemma_pad_lacks, pad, pad_of};
use crate::config::{patch_of, Config, Listing, ProfileMap, DEFAULT_PROFILE};
use crate::lang::{resolve_source_of, resolve_target_of};
use crate::profile::ProfileView;
use crate::text::{concat, lacks, lemma_lacks_concat, owned, str_eq};

verus! {

/// The languages of a profile, as `default` shows them.
pub open spec fn languages_line_of(p: ProfileView) -> Seq<char> {
    "sl="@ + p.sl + " tl="@ + p.tl
}

/// The line `tt default` prints, when there is a default profile.
pub fn default_show_line(config: &Config) -> (r: Option<String>)
    ensures
        match r {
            Some(l) => config.profiles@.contains_key("default"@) && l@ == languages_line_of(
                config.profiles@["default"@],
            ),
            None => !config.profiles@.contains_key("default"@),
        },
{
    match config.profiles.get(DEFAULT_PROFILE) {
        Some(p) => {
            let mut l = concat("sl=", p.sl.as_str());
            l.append(" tl=");
            l.append(p.tl.as_str());
            Some(l)
        },
        None => None,
    }
}

/// The line `tt default sl=.. tl=..` prints after saving.
pub fn default_set_line(config: &Config) -> (r: Option<String>)
    ensures
        match r {
            Some(l) => config.profiles@.contains_key("default"@) && l@ == "default set: "@
                + languages_line_of(config.profiles@["default"@]),
            None => !config.profiles@.contains_key("default"@),
        },
{
    match default_show_line(config) {
        Some(l) => Some(concat("default set: ", l.as_str())),
        None => None,
    }
}

/// The confirmation for a profile command.
pub fn done_line(what: &str, name: &str) -> (r: String)
    ensures
        r@ == "profile "@ + what@ + ": "@ + name@,
{
    let mut l = concat("profile ", what);
    l.append(": ");
    l.append(name);
    l
}

/// The widest name, counted in UTF-8 bytes.
pub open spec fn name_width(l: Listing) -> nat
    decreases l.len(),
{
    if l.len() == 0 {
        0
    } else {
        let w = encode_utf8(l.last().0).len();
        let rest = name_width(l.drop_last());
        if w > rest {
            w
        } else {
            rest
        }
    }
}

/// One line of `tt profile list`.
pub open spec fn list_line_of(color: bool, name: Seq<char>, p: ProfileView, width: nat) -> Seq<char> {
    "  "@ + paint_of(color, BOLD@, pad_of(name, width)) + "  "@ + paint_of(color, DIM@, "sl="@)
        + paint_of(color, GREEN@, p.sl) + "  "@ + paint_of(color, DIM@, "tl="@) + paint_of(
        color,
        GREEN@,
        p.tl,
    ) + (if name == "default"@ {
        paint_of(color, DIM@, "  (used when no p= is given)"@)
    } else {
        Seq::empty()
    }) + "\n"@
}

/// Lines for the listed profiles, in order.
pub open spec fn list_lines_of(color: bool, l: Listing, width: nat) -> Seq<char>
    decreases l.len(),
{
    if l.len() == 0 {
        Seq::empty()
    } else {
        list_lines_of(color, l.drop_last(), width) + list_line_of(
            color,
            l.last().0,
            l.last().1,
            width,
        )
    }
}

fn list_line(color: bool, name: &str, sl: &String, tl: &String, width: usize) -> (r: String)
    ensures
        r@ == list_line_of(color, name@, ProfileView { sl: sl@, tl: tl@ }, width as nat),
{
    let mut out = owned("  ");
    out.append(paint(color, BOLD, pad(name, width).as_str()).as_str());
    out.append("  ");
    out.append(paint(color, DIM, "sl=").as_str());
    out.append(paint(color, GREEN, sl.as_str()).as_str());
    out.append("  ");
    out.append(paint(color, DIM, "tl=").as_str());
    out.append(paint(color, GREEN, tl.as_str()).as_str());
    if str_eq(name, DEFAULT_PROFILE) {
        out.append(paint(color, DIM, "  (used when no p= is given)").as_str());
    }
    out.append("\n");
    out
}

/// Every profile in name order, names padded to the widest one.
pub fn list_text(config: &Config, color: bool) -> (r: String)
    ensures
        r@ == list_lines_of(
            color,
            config.profiles.listing(),
            name_width(config.profiles.listing()),
        ),
{
    let ghost l = config.profiles.listing();
    let n = config.profiles.len();
    let mut width: usize = 0;
    let mut i: usize = 0;
    assert(l.take(0) =~= Seq::<(Seq<char>, ProfileView)>::empty());
    while i < n
        invariant
            n == l.len(),
            l == config.profiles.listing(),
            i <= n,
            width == name_width(l.take(i as int)),
        decreases n - i,
    {
        let (name, _) = config.profiles.entry(i);
        assert(l.take(i + 1).drop_last() =~= l.take(i as int));
        assert(l.take(i + 1).last() == l[i as int]);
        let w = name.as_bytes().len();
        assert(w == encode_utf8(l[i as int].0).len());
        if w > width {
            width = w;
        }
        i = i + 1;
    }
    assert(l.take(n as int) =~= l);
    let mut out = String::new();
    let mut k: usize = 0;
    while k < n
        invariant
            n == l.len(),
            l == config.profiles.listing(),
            k <= n,
            width == name_width(l),
            out@ == list_lines_of(color, l.take(k as int), width as nat),
        decreases n - k,
    {
        let (name, p) = config.profiles.entry(k);
        assert(l.take(k + 1).drop_last() =~= l.take(k as int));
        assert(l.take(k + 1).last() == l[k as int]);
        let line = list_line(color, name, &p.sl, &p.tl, width);
        out.append(line.as_str());
        k = k + 1;
    }
    assert(l.take(n as int) =~= l);
    out
}

/// After `tt default sl=<a> tl=<b>` succeeds, `tt default` shows both
/// languages in canonical form.
pub proof fn law_set_default_then_show(m: ProfileMap, sl: Seq<char>, tl: Seq<char>)
    ensures
        patch_of(m, "default"@, Some(sl), Some(tl), None) matches Ok(m2) ==> {
            &&& m2.contains_key("default"@)
            &&& resolve_source_of(sl) matches Ok(a)
            &&& resolve_target_of(tl) matches Ok(b)
            &&& languages_line_of(m2["default"@]) == "sl="@ + a + " tl="@ + b
        },
{
}

/// Every name and language of a listing is free of the escape character.
pub open spec fn plain_listing(l: Listing) -> bool {
    forall|i: int|
        0 <= i < l.len() ==> lacks(#[trigger] l[i].0, '\x1b') && lacks(l[i].1.sl, '\x1b') && lacks(
            l[i].1.tl,
            '\x1b',
        )
}

/// Without color `tt profile list` is plain text: no escape character but
/// those in the stored names and languages.
pub proof fn law_plain_profile_list(l: Listing, width: nat)
    requires
        plain_listing(l),
    ensures
        lacks(list_lines_of(false, l, width), '\x1b'),
    decreases l.len(),
{
    reveal_strlit("  ");
    reveal_strlit("\n");
    reveal_strlit("sl=");
    reveal_strlit("tl=");
    reveal_strlit("  (used when no p= is given)");
    let esc = '\x1b';
    if l.len() > 0 {
        let p = l.drop_last();
        assert(plain_listing(p)) by {
            assert forall|i: int| 0 <= i < p.len() implies lacks(#[trigger] p[i].0, esc) && lacks(
                p[i].1.sl,
                esc,
            ) && lacks(p[i].1.tl, esc) by {
                assert(p[i] == l[i]);
            }
        }
        law_plain_profile_list(p, width);
        let (name, prof) = l.last();
        assert(l[l.len() - 1] == l.last());
        lemma_pad_lacks(name, width, esc);
        let tag = if name == "default"@ {
            "  (used when no p= is given)"@
        } else {
            Seq::empty()
        };
        let a0 = "  "@ + pad_of(name, width);
        lemma_lacks_concat("  "@, pad_of(name, width), esc);
        let a1 = a0 + "  "@;
        lemma_lacks_concat(a0, "  "@, esc);
        let a2 = a1 + "sl="@;
        lemma_lacks_concat(a1, "sl="@, esc);
        let a3 = a2 + prof.sl;
        lemma_lacks_concat(a2, prof.sl, esc);
        let a4 = a3 + "  "@;
        lemma_lacks_concat(a3, "  "@, esc);
        let a5 = a4 + "tl="@;
        lemma_lacks_concat(a4, "tl="@, esc);
        let a6 = a5 + prof.tl;
        lemma_lacks_concat(a5, prof.tl, esc);
        let a7 = a6 + tag;
        lemma_lacks_concat(a6, tag, esc);
        lemma_lacks_concat(a7, "\n"@, esc);
        assert(list_line_of(false, name, prof, width) == a7 + "\n"@);
        lemma_lacks_concat(list_lines_of(false, p, width), a7 + "\n"@, esc);
    }
}

} // verus!
