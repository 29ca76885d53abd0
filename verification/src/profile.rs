//! A named pair of languages.

use vstd::prelude::*;

verus! {

/// A source and a target language.
#[derive(Debug)]
pub struct Profile {
    pub sl: String,
    pub tl: String,
}

/// A profile as the specifications see it.
pub struct ProfileView {
    pub sl: Seq<char>,
    pub tl: Seq<char>,
}

impl View for Profile {
    type V = ProfileView;

    open spec fn view(&self) -> ProfileView {
        ProfileView { sl: self.sl@, tl: self.tl@ }
    }
}

impl Profile {
    pub fn new(sl: String, tl: String) -> (p: Profile)
        ensures
            p.sl == sl,
            p.tl == tl,
    {
        Profile { sl, tl }
    }

    /// A copy with the same languages.
    pub fn duplicate(&self) -> (p: Profile)
        ensures
            p@ == self@,
    {
        Profile { sl: self.sl.clone(), tl: self.tl.clone() }
    }
}

} // verus!
