//! The one argument that is read before all others.
//!
//! The configuration profile decides which configuration file supplies the
//! defaults, so it is picked from the command line before the other
//! arguments are parsed. Only the form `-P NAME` is known.

use vstd::prelude::*;
use vstd::string::*;
use crate::text::{first_position, lemma_first_position, string_views};

verus! {

/// The flag that names the profile.
pub open spec fn profile_flag() -> Seq<char> {
    seq!['-', 'P']
}

/// The profile that the arguments name: the argument behind the first `-P`;
/// none where there is no `-P` or nothing behind the first one.
pub open spec fn profile_of(args: Seq<Seq<char>>) -> Option<Seq<char>> {
    let at = first_position(args, profile_flag());
    if at + 1 < args.len() {
        Some(args[at + 1])
    } else {
        None
    }
}

/// Picks the profile from the command line.
pub fn get_profile(args: &Vec<String>) -> (profile: Option<String>)
    ensures
        match profile {
            Some(name) => profile_of(string_views(args@)) == Some(name@),
            None => profile_of(string_views(args@)) is None,
        },
{
    let flag = String::from_str("-P");
    proof {
        reveal_strlit("-P");
        assert("-P"@ =~= profile_flag());
    }
    let mut at: usize = 0;
    while at < args.len() && args[at] != flag
        invariant
            at <= args.len(),
            flag@ == profile_flag(),
            forall|j: int| 0 <= j < at ==> string_views(args@)[j] != profile_flag(),
        decreases args.len() - at,
    {
        at += 1;
    }
    proof {
        lemma_first_position(string_views(args@), profile_flag(), at as int);
    }
    if at < args.len() && at + 1 < args.len() {
        Some(args[at + 1].clone())
    } else {
        None
    }
}

} // verus!
