//! Rules on the list of a site's administrators and on the optional texts
//! of a site.

use crate::entity::UserView;
use vstd::prelude::*;

verus! {

/// `at` is the place of the first of `users` whose identifier is `id`.
pub open spec fn is_first_with_id(users: Seq<UserView>, id: i32, at: int) -> bool {
    &&& 0 <= at < users.len()
    &&& users[at].id == id
    &&& forall|before: int| 0 <= before < at ==> (#[trigger] users[before]).id != id
}

/// One of `users` has the identifier `id`.
pub open spec fn has_id(users: Seq<UserView>, id: i32) -> bool {
    exists|at: int| 0 <= at < users.len() && (#[trigger] users[at]).id == id
}

/// The place of the first of `users` whose identifier is `id`, if there is
/// one.
pub fn position_of_user(users: &Vec<UserView>, id: i32) -> (found: Option<usize>)
    ensures
        match found {
            Some(at) => is_first_with_id(users@, id, at as int),
            None => !has_id(users@, id),
        },
{
    let mut at: usize = 0;
    while at < users.len()
        invariant
            at <= users.len(),
            forall|before: int| 0 <= before < at ==> (#[trigger] users@[before]).id != id,
        decreases users.len() - at,
    {
        if users[at].id == id {
            return Some(at);
        }
        at += 1;
    }
    None
}

/// Moves the user at `at` to the head of the list; the others keep their
/// order.
pub fn promote(users: &mut Vec<UserView>, at: usize)
    requires
        at < old(users).len(),
    ensures
        final(users)@ == old(users)@.remove(at as int).insert(0, old(users)@[at as int]),
{
    let user = users.remove(at);
    users.insert(0, user);
}

/// What an optional text of a request does to the stored one: an absent
/// text leaves it as it is, an empty text clears it, and any other text
/// takes its place.
pub open spec fn overwrite_of(text: Option<String>) -> Option<Option<String>> {
    match text {
        None => None,
        Some(given) => if given@.len() == 0 {
            Some(None)
        } else {
            Some(Some(given))
        },
    }
}

/// What an optional text of a request does to the stored one.
pub fn diesel_option_overwrite(text: &Option<String>) -> (change: Option<Option<String>>)
    ensures
        change == overwrite_of(*text),
{
    match text {
        None => None,
        Some(given) => {
            if given.as_str().is_empty() {
                Some(None)
            } else {
                Some(Some(given.clone()))
            }
        },
    }
}

} // verus!
