//! Profiles by name, the built-in default, and how a request's languages
//! are resolved against them.

use vstd::prelude::*;
use crate::error::{Error, ErrorView};
use crate::lang::{
    law_resolve_idempotent, resolve_source, resolve_source_of, resolve_target, resolve_target_of,
};
use crate::profile::{Profile, ProfileView};
use crate::text::{
    concat, lemma_lex_asymmetric, lemma_lex_irreflexive, lemma_lex_total, lemma_lex_transitive,
    lex_lt, opt_str, owned, str_eq, str_lt,
};

verus! {

/// The profile used when none is named.
pub const DEFAULT_PROFILE: &'static str = "default";

/// Profile listings as the specifications see them: names with languages.
pub type Listing = Seq<(Seq<char>, ProfileView)>;

/// Names appear in strictly increasing order (so each at most once).
pub open spec fn names_sorted(l: Listing) -> bool {
    forall|i: int, j: int| 0 <= i < j < l.len() ==> lex_lt(#[trigger] l[i].0, #[trigger] l[j].0)
}

/// The map a listing describes.
pub open spec fn map_of(l: Listing) -> Map<Seq<char>, ProfileView>
    decreases l.len(),
{
    if l.len() == 0 {
        Map::empty()
    } else {
        map_of(l.drop_last()).insert(l.last().0, l.last().1)
    }
}

/// The listing of stored entries.
pub open spec fn listing_of(e: Seq<(String, Profile)>) -> Listing {
    e.map_values(|x: (String, Profile)| (x.0@, x.1@))
}

pub proof fn lemma_map_of(l: Listing)
    requires
        names_sorted(l),
    ensures
        forall|k: Seq<char>| #[trigger] map_of(l).contains_key(k)
            <==> exists|i: int| 0 <= i < l.len() && l[i].0 == k,
        forall|i: int| 0 <= i < l.len() ==> #[trigger] map_of(l)[l[i].0] == l[i].1,
    decreases l.len(),
{
    if l.len() > 0 {
        let p = l.drop_last();
        assert(names_sorted(p)) by {
            assert forall|i: int, j: int| 0 <= i < j < p.len() implies lex_lt(
                #[trigger] p[i].0,
                #[trigger] p[j].0,
            ) by {
                assert(p[i] == l[i] && p[j] == l[j]);
            }
        }
        lemma_map_of(p);
        let last = l[l.len() - 1];
        assert(map_of(l) == map_of(p).insert(last.0, last.1));
        assert forall|k: Seq<char>| #[trigger] map_of(l).contains_key(k) <==> exists|i: int|
            0 <= i < l.len() && l[i].0 == k by {
            if k == last.0 {
                assert(l[l.len() - 1].0 == k);
            } else {
                if map_of(l).contains_key(k) {
                    assert(map_of(p).contains_key(k));
                    let i = choose|i: int| 0 <= i < p.len() && p[i].0 == k;
                    assert(l[i] == p[i]);
                }
                if exists|i: int| 0 <= i < l.len() && l[i].0 == k {
                    let i = choose|i: int| 0 <= i < l.len() && l[i].0 == k;
                    assert(i < p.len());
                    assert(p[i] == l[i]);
                    assert(map_of(p).contains_key(k));
                }
            }
        }
        assert forall|i: int| 0 <= i < l.len() implies #[trigger] map_of(l)[l[i].0] == l[i].1 by {
            if i < p.len() {
                assert(p[i] == l[i]);
                assert(lex_lt(l[i].0, l[l.len() - 1].0));
                lemma_lex_irreflexive(l[i].0);
                assert(map_of(p)[p[i].0] == p[i].1);
            }
        }
    }
}

/// Profiles keyed by name, kept in name order.
pub struct Profiles {
    entries: Vec<(String, Profile)>,
}

impl Profiles {
    #[verifier::type_invariant]
    spec fn sorted(self) -> bool {
        names_sorted(listing_of(self.entries@))
    }

    /// The profiles in name order.
    pub closed spec fn listing(self) -> Listing {
        listing_of(self.entries@)
    }

    pub fn new() -> (r: Profiles)
        ensures
            r.listing() == Seq::<(Seq<char>, ProfileView)>::empty(),
            r@ == Map::<Seq<char>, ProfileView>::empty(),
    {
        let r = Profiles { entries: Vec::new() };
        assert(r.listing() =~= Seq::<(Seq<char>, ProfileView)>::empty());
        r
    }

    /// How many profiles there are.
    pub fn len(&self) -> (n: usize)
        ensures
            n == self.listing().len(),
            names_sorted(self.listing()),
    {
        proof {
            use_type_invariant(self);
        }
        self.entries.len()
    }

    /// The `i`-th profile in name order.
    pub fn entry(&self, i: usize) -> (r: (&str, &Profile))
        requires
            i < self.listing().len(),
        ensures
            r.0@ == self.listing()[i as int].0,
            r.1@ == self.listing()[i as int].1,
    {
        let e = &self.entries[i];
        (e.0.as_str(), &e.1)
    }

    fn find(&self, name: &str) -> (r: Option<usize>)
        ensures
            match r {
                Some(i) => i < self.listing().len() && self.listing()[i as int].0 == name@,
                None => forall|i: int|
                    0 <= i < self.listing().len() ==> #[trigger] self.listing()[i].0 != name@,
            },
    {
        let n = self.entries.len();
        let mut i: usize = 0;
        while i < n
            invariant
                n == self.entries@.len(),
                i <= n,
                forall|j: int| 0 <= j < i ==> #[trigger] self.listing()[j].0 != name@,
            decreases n - i,
        {
            if str_eq(self.entries[i].0.as_str(), name) {
                return Some(i);
            }
            i = i + 1;
        }
        None
    }

    pub fn contains_key(&self, name: &str) -> (r: bool)
        ensures
            r == self@.contains_key(name@),
    {
        proof {
            use_type_invariant(self);
            lemma_map_of(self.listing());
        }
        self.find(name).is_some()
    }

    pub fn get(&self, name: &str) -> (r: Option<&Profile>)
        ensures
            match r {
                Some(p) => self@.contains_key(name@) && self@[name@] == p@,
                None => !self@.contains_key(name@),
            },
    {
        proof {
            use_type_invariant(self);
            lemma_map_of(self.listing());
        }
        match self.find(name) {
            Some(i) => Some(&self.entries[i].1),
            None => None,
        }
    }

    /// Adds or replaces the profile under `name`.
    pub fn insert(&mut self, name: &str, profile: Profile)
        ensures
            final(self)@ == old(self)@.insert(name@, profile@),
    {
        proof {
            use_type_invariant(&*self);
        }
        let ghost old_l = self.listing();
        let ghost pv = profile@;
        let mut v: Vec<(String, Profile)> = Vec::new();
        std::mem::swap(&mut v, &mut self.entries);
        assert(listing_of(v@) == old_l);
        let n = v.len();
        let mut j: usize = 0;
        let mut found = false;
        while j < n
            invariant_except_break
                !found,
            invariant
                n == v@.len(),
                listing_of(v@) == old_l,
                names_sorted(old_l),
                j <= n,
                forall|k: int| 0 <= k < j ==> lex_lt(#[trigger] old_l[k].0, name@),
            ensures
                found ==> j < n && old_l[j as int].0 == name@,
                !found ==> j == n || lex_lt(name@, old_l[j as int].0),
            decreases n - j,
        {
            if str_eq(v[j].0.as_str(), name) {
                found = true;
                break;
            }
            if str_lt(name, v[j].0.as_str()) {
                break;
            }
            proof {
                lemma_lex_total(old_l[j as int].0, name@);
            }
            j = j + 1;
        }
        let ghost new_l;
        if found {
            v.set(j, (owned(name), profile));
            proof {
                new_l = old_l.update(j as int, (name@, pv));
            }
        } else {
            v.insert(j, (owned(name), profile));
            proof {
                new_l = old_l.insert(j as int, (name@, pv));
            }
        }
        assert(listing_of(v@) =~= new_l);
        proof {
            lemma_map_of(old_l);
            assert(names_sorted(new_l)) by {
                assert forall|a: int, b: int| 0 <= a < b < new_l.len() implies lex_lt(
                    #[trigger] new_l[a].0,
                    #[trigger] new_l[b].0,
                ) by {
                    if found {
                        assert(new_l[a].0 == old_l[a].0);
                        assert(new_l[b].0 == old_l[b].0);
                    } else if b < j {
                        assert(new_l[a] == old_l[a] && new_l[b] == old_l[b]);
                    } else if b == j {
                        assert(new_l[a] == old_l[a]);
                    } else {
                        assert(new_l[b] == old_l[b - 1]);
                        if a < j {
                            assert(new_l[a] == old_l[a]);
                            assert(lex_lt(old_l[a].0, old_l[b - 1].0));
                        } else if a == j {
                            if b - 1 > j {
                                assert(lex_lt(old_l[j as int].0, old_l[b - 1].0));
                                lemma_lex_transitive(name@, old_l[j as int].0, old_l[b - 1].0);
                            }
                        } else {
                            assert(new_l[a] == old_l[a - 1]);
                            assert(lex_lt(old_l[a - 1].0, old_l[b - 1].0));
                        }
                    }
                }
            }
            lemma_map_of(new_l);
            assert(map_of(new_l) =~= map_of(old_l).insert(name@, pv)) by {
                assert forall|k: Seq<char>| #[trigger] map_of(new_l).contains_key(k)
                    == map_of(old_l).insert(name@, pv).contains_key(k) by {
                    if map_of(old_l).contains_key(k) {
                        let i = choose|i: int| 0 <= i < old_l.len() && old_l[i].0 == k;
                        if found {
                            assert(new_l[i].0 == k);
                        } else if i < j {
                            assert(new_l[i] == old_l[i]);
                        } else {
                            assert(new_l[i + 1] == old_l[i]);
                        }
                    }
                    if k == name@ {
                        assert(new_l[j as int].0 == name@);
                    }
                    if map_of(new_l).contains_key(k) {
                        let i = choose|i: int| 0 <= i < new_l.len() && new_l[i].0 == k;
                        if i != j {
                            if found || i < j {
                                assert(new_l[i] == old_l[i]);
                            } else {
                                assert(new_l[i] == old_l[i - 1]);
                            }
                        }
                    }
                }
                assert forall|k: Seq<char>| #[trigger] map_of(new_l).contains_key(k) implies map_of(
                    new_l,
                )[k] == map_of(old_l).insert(name@, pv)[k] by {
                    let i = choose|i: int| 0 <= i < new_l.len() && new_l[i].0 == k;
                    assert(map_of(new_l)[new_l[i].0] == new_l[i].1);
                    if i != j {
                        assert(new_l[j as int].0 == name@);
                        if i < j {
                            assert(lex_lt(new_l[i].0, new_l[j as int].0));
                        } else {
                            assert(lex_lt(new_l[j as int].0, new_l[i].0));
                        }
                        lemma_lex_irreflexive(k);
                        assert(k != name@);
                    }
                    if i == j {
                        assert(new_l[i] == (name@, pv));
                    } else if found || i < j {
                        assert(new_l[i] == old_l[i]);
                        assert(map_of(old_l)[old_l[i].0] == old_l[i].1);
                    } else {
                        assert(new_l[i] == old_l[i - 1]);
                        assert(map_of(old_l)[old_l[i - 1].0] == old_l[i - 1].1);
                    }
                }
            }
        }
        self.entries = v;
    }

    /// Removes the profile under `name`; whether there was one.
    pub fn remove(&mut self, name: &str) -> (r: bool)
        ensures
            r == old(self)@.contains_key(name@),
            final(self)@ == old(self)@.remove(name@),
    {
        proof {
            use_type_invariant(&*self);
            lemma_map_of(self.listing());
        }
        let ghost old_l = self.listing();
        match self.find(name) {
            None => {
                assert(old_l.len() == self.listing().len());
                assert(self@ =~= self@.remove(name@));
                false
            },
            Some(i) => {
                let mut v: Vec<(String, Profile)> = Vec::new();
                std::mem::swap(&mut v, &mut self.entries);
                assert(listing_of(v@) == old_l);
                v.remove(i);
                let ghost new_l = old_l.remove(i as int);
                assert(listing_of(v@) =~= new_l);
                proof {
                    assert(names_sorted(new_l)) by {
                        assert forall|a: int, b: int| 0 <= a < b < new_l.len() implies lex_lt(
                            #[trigger] new_l[a].0,
                            #[trigger] new_l[b].0,
                        ) by {
                            if a < i && b >= i {
                                assert(new_l[b] == old_l[b + 1]);
                            } else if a >= i {
                                assert(new_l[a] == old_l[a + 1]);
                                assert(new_l[b] == old_l[b + 1]);
                            }
                        }
                    }
                    lemma_map_of(new_l);
                    assert(map_of(new_l) =~= map_of(old_l).remove(name@)) by {
                        assert forall|k: Seq<char>| #[trigger] map_of(new_l).contains_key(k)
                            == map_of(old_l).remove(name@).contains_key(k) by {
                            if map_of(new_l).contains_key(k) {
                                let a = choose|a: int| 0 <= a < new_l.len() && new_l[a].0 == k;
                                if a < i {
                                    assert(new_l[a] == old_l[a]);
                                    assert(lex_lt(old_l[a].0, old_l[i as int].0));
                                    lemma_lex_irreflexive(k);
                                } else {
                                    assert(new_l[a] == old_l[a + 1]);
                                    assert(lex_lt(old_l[i as int].0, old_l[a + 1].0));
                                    lemma_lex_irreflexive(k);
                                }
                            }
                            if map_of(old_l).contains_key(k) && k != name@ {
                                let a = choose|a: int| 0 <= a < old_l.len() && old_l[a].0 == k;
                                if a < i {
                                    assert(new_l[a] == old_l[a]);
                                } else {
                                    assert(a != i);
                                    assert(new_l[a - 1] == old_l[a]);
                                }
                            }
                        }
                        assert forall|k: Seq<char>| #[trigger] map_of(new_l).contains_key(
                            k,
                        ) implies map_of(new_l)[k] == map_of(old_l).remove(name@)[k] by {
                            let a = choose|a: int| 0 <= a < new_l.len() && new_l[a].0 == k;
                            if a < i {
                                assert(new_l[a] == old_l[a]);
                                assert(map_of(old_l)[old_l[a].0] == old_l[a].1);
                            } else {
                                assert(new_l[a] == old_l[a + 1]);
                                assert(map_of(old_l)[old_l[a + 1].0] == old_l[a + 1].1);
                            }
                        }
                    }
                }
                self.entries = v;
                true
            },
        }
    }
}

impl View for Profiles {
    type V = Map<Seq<char>, ProfileView>;

    open spec fn view(&self) -> Map<Seq<char>, ProfileView> {
        map_of(self.listing())
    }
}

/// Profiles as the specifications see them.
pub type ProfileMap = Map<Seq<char>, ProfileView>;

/// The profile every configuration starts from.
pub open spec fn builtin_default() -> ProfileView {
    ProfileView { sl: "auto"@, tl: "en"@ }
}

/// `m` with the built-in default added when no default is present.
pub open spec fn with_default(m: ProfileMap) -> ProfileMap {
    if m.contains_key("default"@) {
        m
    } else {
        m.insert("default"@, builtin_default())
    }
}

/// The languages a request resolves to.
pub open spec fn resolve_of(
    m: ProfileMap,
    profile: Option<Seq<char>>,
    sl: Option<Seq<char>>,
    tl: Option<Seq<char>>,
) -> Result<(Seq<char>, Seq<char>), ErrorView> {
    let base = match profile {
        Some(p) => p,
        None => "default"@,
    };
    if !m.contains_key(base) {
        Err(ErrorView::BadArgs("unknown profile: "@ + base))
    } else {
        let s = match sl {
            Some(s) => s,
            None => m[base].sl,
        };
        let t = match tl {
            Some(t) => t,
            None => m[base].tl,
        };
        match resolve_source_of(s) {
            Err(e) => Err(e),
            Ok(sc) => match resolve_target_of(t) {
                Err(e) => Err(e),
                Ok(tc) => Ok((sc, tc)),
            },
        }
    }
}

/// Adding a profile.
pub open spec fn add_of(m: ProfileMap, name: Seq<char>, sl: Seq<char>, tl: Seq<char>) -> Result<
    ProfileMap,
    ErrorView,
> {
    if name.len() == 0 {
        Err(ErrorView::BadArgs("profile name required"@))
    } else if m.contains_key(name) {
        Err(ErrorView::BadArgs("profile already exists: "@ + name))
    } else {
        match resolve_source_of(sl) {
            Err(e) => Err(e),
            Ok(sc) => match resolve_target_of(tl) {
                Err(e) => Err(e),
                Ok(tc) => Ok(m.insert(name, ProfileView { sl: sc, tl: tc })),
            },
        }
    }
}

/// Deleting a profile.
pub open spec fn delete_of(m: ProfileMap, name: Seq<char>) -> Result<ProfileMap, ErrorView> {
    if name == "default"@ {
        Err(ErrorView::BadArgs("cannot delete the default profile"@))
    } else if !m.contains_key(name) {
        Err(ErrorView::BadArgs("unknown profile: "@ + name))
    } else {
        Ok(m.remove(name))
    }
}

/// An optional language resolved, or the error it gives.
pub open spec fn resolve_opt_source(l: Option<Seq<char>>) -> Result<Option<Seq<char>>, ErrorView> {
    match l {
        None => Ok(None),
        Some(s) => match resolve_source_of(s) {
            Ok(c) => Ok(Some(c)),
            Err(e) => Err(e),
        },
    }
}

/// An optional target language resolved, or the error it gives.
pub open spec fn resolve_opt_target(l: Option<Seq<char>>) -> Result<Option<Seq<char>>, ErrorView> {
    match l {
        None => Ok(None),
        Some(s) => match resolve_target_of(s) {
            Ok(c) => Ok(Some(c)),
            Err(e) => Err(e),
        },
    }
}

/// A profile with the given languages replaced.
pub open spec fn patched(p: ProfileView, sl: Option<Seq<char>>, tl: Option<Seq<char>>) -> ProfileView {
    ProfileView {
        sl: match sl {
            Some(s) => s,
            None => p.sl,
        },
        tl: match tl {
            Some(t) => t,
            None => p.tl,
        },
    }
}

/// Changing a profile's languages and, optionally, its name.
pub open spec fn patch_of(
    m: ProfileMap,
    name: Seq<char>,
    sl: Option<Seq<char>>,
    tl: Option<Seq<char>>,
    new_name: Option<Seq<char>>,
) -> Result<ProfileMap, ErrorView> {
    match resolve_opt_source(sl) {
        Err(e) => Err(e),
        Ok(sc) => match resolve_opt_target(tl) {
            Err(e) => Err(e),
            Ok(tc) => if !m.contains_key(name) {
                Err(ErrorView::BadArgs("unknown profile: "@ + name))
            } else {
                let p = patched(m[name], sc, tc);
                match new_name {
                    Some(nn) => if nn != name {
                        if name == "default"@ {
                            Err(ErrorView::BadArgs("cannot rename the default profile"@))
                        } else if nn == "default"@ {
                            Err(ErrorView::BadArgs("cannot name a profile 'default'"@))
                        } else if m.contains_key(nn) {
                            Err(ErrorView::BadArgs("profile already exists: "@ + nn))
                        } else {
                            Ok(m.remove(name).insert(nn, p))
                        }
                    } else {
                        Ok(m.insert(name, p))
                    },
                    None => Ok(m.insert(name, p)),
                }
            },
        },
    }
}

/// What a changing operation did: the new profiles, or the error.
pub open spec fn change_result(r: Result<(), Error>, after: ProfileMap) -> Result<ProfileMap, ErrorView> {
    match r {
        Ok(_) => Ok(after),
        Err(e) => Err(e@),
    }
}

/// The default profile is never lost: once present, every successful
/// change keeps it, and the built-in default is only added when missing.
pub proof fn law_default_persists(
    m: ProfileMap,
    name: Seq<char>,
    sl: Seq<char>,
    tl: Seq<char>,
    psl: Option<Seq<char>>,
    ptl: Option<Seq<char>>,
    new_name: Option<Seq<char>>,
)
    requires
        m.contains_key("default"@),
    ensures
        add_of(m, name, sl, tl) matches Ok(m2) ==> m2.contains_key("default"@),
        delete_of(m, name) matches Ok(m2) ==> m2.contains_key("default"@),
        patch_of(m, name, psl, ptl, new_name) matches Ok(m2) ==> m2.contains_key("default"@),
        with_default(m) == m,
        with_default(m.remove("default"@)).contains_key("default"@),
{
}

/// Adding a profile and then resolving a request that names it, with no
/// overrides, gives back the languages the profile was added with.
pub proof fn law_add_then_resolve(m: ProfileMap, name: Seq<char>, sl: Seq<char>, tl: Seq<char>)
    ensures
        add_of(m, name, sl, tl) matches Ok(m2) ==> {
            &&& m2.contains_key(name)
            &&& resolve_source_of(sl) == Ok::<Seq<char>, ErrorView>(m2[name].sl)
            &&& resolve_target_of(tl) == Ok::<Seq<char>, ErrorView>(m2[name].tl)
            &&& resolve_of(m2, Some(name), None, None) == Ok::<
                (Seq<char>, Seq<char>),
                ErrorView,
            >((m2[name].sl, m2[name].tl))
        },
{
    law_resolve_idempotent(sl);
    law_resolve_idempotent(tl);
}

/// Patching a profile's languages and then resolving a request that names
/// it, with no overrides, gives the new languages in canonical form.
pub proof fn law_patch_then_resolve(m: ProfileMap, name: Seq<char>, sl: Seq<char>, tl: Seq<char>)
    ensures
        patch_of(m, name, Some(sl), Some(tl), None) matches Ok(m2) ==> {
            &&& resolve_source_of(sl) matches Ok(a)
            &&& resolve_target_of(tl) matches Ok(b)
            &&& resolve_of(m2, Some(name), None, None) == Ok::<(Seq<char>, Seq<char>), ErrorView>((a, b))
        },
{
    law_resolve_idempotent(sl);
    law_resolve_idempotent(tl);
}

/// Patching changes only the languages it is given: with only `tl=` the
/// source stays as it was and the target becomes the canonical code given,
/// with only `sl=` the target stays, and with neither both stay; a rename
/// carries the profile to its new name.
pub proof fn law_patch_changes_only_what_is_given(
    m: ProfileMap,
    name: Seq<char>,
    sl: Option<Seq<char>>,
    tl: Option<Seq<char>>,
    new_name: Option<Seq<char>>,
)
    ensures
        patch_of(m, name, sl, tl, new_name) matches Ok(m2) ==> {
            let at = match new_name {
                Some(n) => n,
                None => name,
            };
            &&& m.contains_key(name)
            &&& m2.contains_key(at)
            &&& match sl {
                None => m2[at].sl == m[name].sl,
                Some(s) => resolve_source_of(s) == Ok::<Seq<char>, ErrorView>(m2[at].sl),
            }
            &&& match tl {
                None => m2[at].tl == m[name].tl,
                Some(t) => resolve_target_of(t) == Ok::<Seq<char>, ErrorView>(m2[at].tl),
            }
        },
{
}

/// Renaming moves a profile: the new name holds it, the old name is gone,
/// and every other profile stays as it was.
pub proof fn law_rename_moves(m: ProfileMap, name: Seq<char>, new_name: Seq<char>)
    requires
        new_name != name,
    ensures
        patch_of(m, name, None, None, Some(new_name)) matches Ok(m2) ==> {
            &&& m2.contains_key(new_name)
            &&& m2[new_name] == m[name]
            &&& !m2.contains_key(name)
            &&& forall|k: Seq<char>| k != name && k != new_name ==> (#[trigger] m2.contains_key(k)
                == m.contains_key(k) && (m.contains_key(k) ==> m2[k] == m[k]))
        },
{
    if let Ok(m2) = patch_of(m, name, None, None, Some(new_name)) {
        assert(patched(m[name], None, None) == m[name]);
    }
}

/// Deleting removes exactly the named profile.
pub proof fn law_delete_removes(m: ProfileMap, name: Seq<char>)
    ensures
        delete_of(m, name) matches Ok(m2) ==> !m2.contains_key(name) && m2 == m.remove(name),
        delete_of(m, name) is Err <==> (name == "default"@ || !m.contains_key(name)),
{
}

/// Adding the default when missing is idempotent.
pub proof fn law_ensure_default_idempotent(m: ProfileMap)
    ensures
        with_default(with_default(m)) == with_default(m),
        with_default(m).contains_key("default"@),
{
}

/// The languages of a request once profile and overrides are applied.
#[derive(Debug)]
pub struct Resolved {
    pub sl: String,
    pub tl: String,
}

/// All saved profiles.
pub struct Config {
    pub profiles: Profiles,
}

impl Default for Config {
    fn default() -> (c: Config)
        ensures
            c.profiles@ == Map::<Seq<char>, ProfileView>::empty(),
    {
        Config { profiles: Profiles::new() }
    }
}

impl Config {
    /// A configuration holding only the built-in default profile.
    pub fn with_builtin_default() -> (c: Config)
        ensures
            c.profiles@ == Map::<Seq<char>, ProfileView>::empty().insert("default"@, builtin_default()),
    {
        let mut c = Config { profiles: Profiles::new() };
        c.profiles.insert(DEFAULT_PROFILE, Profile::new(owned("auto"), owned("en")));
        c
    }

    /// Adds the built-in default profile unless a default is already there.
    pub fn ensure_default(&mut self)
        ensures
            final(self).profiles@ == with_default(old(self).profiles@),
    {
        if !self.profiles.contains_key(DEFAULT_PROFILE) {
            self.profiles.insert(DEFAULT_PROFILE, Profile::new(owned("auto"), owned("en")));
        }
    }

    pub fn resolve(&self, profile: Option<&str>, sl: Option<&str>, tl: Option<&str>) -> (r: Result<
        Resolved,
        Error,
    >)
        ensures
            match r {
                Ok(res) => resolve_of(self.profiles@, opt_str(profile), opt_str(sl), opt_str(tl))
                    == Ok::<(Seq<char>, Seq<char>), ErrorView>((res.sl@, res.tl@)),
                Err(e) => resolve_of(self.profiles@, opt_str(profile), opt_str(sl), opt_str(tl))
                    == Err::<(Seq<char>, Seq<char>), ErrorView>(e@),
            },
    {
        let base_name = match profile {
            Some(p) => p,
            None => DEFAULT_PROFILE,
        };
        let base = match self.profiles.get(base_name) {
            Some(b) => b,
            None => return Err(Error::BadArgs(concat("unknown profile: ", base_name))),
        };
        let s = match sl {
            Some(s) => s,
            None => base.sl.as_str(),
        };
        let t = match tl {
            Some(t) => t,
            None => base.tl.as_str(),
        };
        let sc = resolve_source(s)?;
        let tc = resolve_target(t)?;
        Ok(Resolved { sl: sc, tl: tc })
    }

    /// Changes the default profile's languages.
    pub fn set_default(&mut self, sl: Option<&str>, tl: Option<&str>) -> (r: Result<(), Error>)
        ensures
            change_result(r, final(self).profiles@) == patch_of(
                old(self).profiles@,
                "default"@,
                opt_str(sl),
                opt_str(tl),
                None,
            ),
            r is Err ==> final(self).profiles@ == old(self).profiles@,
    {
        self.patch(DEFAULT_PROFILE, sl, tl, None)
    }

    pub fn add(&mut self, name: &str, sl: &str, tl: &str) -> (r: Result<(), Error>)
        ensures
            change_result(r, final(self).profiles@) == add_of(old(self).profiles@, name@, sl@, tl@),
            r is Err ==> final(self).profiles@ == old(self).profiles@,
    {
        if name.unicode_len() == 0 {
            return Err(Error::BadArgs(owned("profile name required")));
        }
        if self.profiles.contains_key(name) {
            return Err(Error::BadArgs(concat("profile already exists: ", name)));
        }
        let sc = resolve_source(sl)?;
        let tc = resolve_target(tl)?;
        self.profiles.insert(name, Profile::new(sc, tc));
        Ok(())
    }

    pub fn delete(&mut self, name: &str) -> (r: Result<(), Error>)
        ensures
            change_result(r, final(self).profiles@) == delete_of(old(self).profiles@, name@),
            r is Err ==> final(self).profiles@ == old(self).profiles@,
    {
        if str_eq(name, DEFAULT_PROFILE) {
            return Err(Error::BadArgs(owned("cannot delete the default profile")));
        }
        if self.profiles.remove(name) {
            Ok(())
        } else {
            Err(Error::BadArgs(concat("unknown profile: ", name)))
        }
    }

    pub fn patch(
        &mut self,
        name: &str,
        sl: Option<&str>,
        tl: Option<&str>,
        new_name: Option<&str>,
    ) -> (r: Result<(), Error>)
        ensures
            change_result(r, final(self).profiles@) == patch_of(
                old(self).profiles@,
                name@,
                opt_str(sl),
                opt_str(tl),
                opt_str(new_name),
            ),
            r is Err ==> final(self).profiles@ == old(self).profiles@,
    {
        let sc = match sl {
            Some(s) => Some(resolve_source(s)?),
            None => None,
        };
        let tc = match tl {
            Some(t) => Some(resolve_target(t)?),
            None => None,
        };
        let mut profile = match self.profiles.get(name) {
            Some(p) => p.duplicate(),
            None => return Err(Error::BadArgs(concat("unknown profile: ", name))),
        };
        if let Some(s) = sc {
            profile.sl = s;
        }
        if let Some(t) = tc {
            profile.tl = t;
        }
        match new_name {
            Some(nn) => {
                if !str_eq(nn, name) {
                    if str_eq(name, DEFAULT_PROFILE) {
                        return Err(Error::BadArgs(owned("cannot rename the default profile")));
                    }
                    if str_eq(nn, DEFAULT_PROFILE) {
                        return Err(Error::BadArgs(owned("cannot name a profile 'default'")));
                    }
                    if self.profiles.contains_key(nn) {
                        return Err(Error::BadArgs(concat("profile already exists: ", nn)));
                    }
                    self.profiles.remove(name);
                    self.profiles.insert(nn, profile);
                } else {
                    self.profiles.insert(name, profile);
                }
            },
            None => {
                self.profiles.insert(name, profile);
            },
        }
        Ok(())
    }
}

} // verus!
