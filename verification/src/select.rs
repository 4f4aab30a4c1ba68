use vstd::prelude::*;
use crate::error::RpcError;
use crate::resolve::random_below;

verus! {

/// The per-user show lists of the multi-user mode, loaded once at
/// startup and read-only for the loop's lifetime.
#[derive(Debug)]
pub struct ShowMappings {
    pub entries: Vec<(String, Vec<String>)>,
}

/// The show list of the first entry for `user`, in file order.
pub open spec fn spec_lookup_user(
    entries: Seq<(String, Vec<String>)>,
    user: Seq<char>,
) -> Option<Seq<String>>
    decreases entries.len(),
{
    if entries.len() == 0 {
        None
    } else if entries[0].0@ == user {
        Some(entries[0].1@)
    } else {
        spec_lookup_user(entries.skip(1), user)
    }
}

/// A uniformly random entry of a show list; `None` exactly on an empty
/// list. Drawn fresh on each call — in the observed behaviour the caller
/// draws once at startup, pinning the user to one show for the run.
pub fn select_random_show_name(shows: &Vec<String>) -> (r: Option<&String>)
    ensures
        (r matches Some(s) ==> exists|i: int|
            0 <= i < shows@.len() && #[trigger] shows@[i] == *s),
        (r is None <==> shows@.len() == 0),
{
    if shows.len() == 0 {
        None
    } else {
        let i = random_below(shows.len());
        let s = &shows[i];
        proof {
            assert(shows@[i as int] == *s);
        }
        Some(s)
    }
}

/// The multi-user show selection: look the user up, then draw one of
/// their shows uniformly at random. Fails with `UserNotFound` for an
/// unknown user, and with `NoShowsForUser` on an empty list — both
/// fatal setup conditions for the caller.
pub fn select_show(user: &str, mappings: &ShowMappings) -> (r: Result<String, RpcError>)
    ensures
        (spec_lookup_user(mappings.entries@, user@) is None ==> r == Err::<String, RpcError>(
            RpcError::UserNotFound,
        )),
        (spec_lookup_user(mappings.entries@, user@) matches Some(shows) ==> (if shows.len() == 0 {
            r == Err::<String, RpcError>(RpcError::NoShowsForUser)
        } else {
            r matches Ok(t) && exists|i: int| 0 <= i < shows.len() && (#[trigger] shows[i])@ == t@
        })),
{
    let entries = &mappings.entries;
    let user_string = String::from_str(user);
    let mut i: usize = 0;
    assert(entries@.skip(0) =~= entries@);
    while i < entries.len()
        invariant
            entries == &mappings.entries,
            i <= entries@.len(),
            user_string@ == user@,
            spec_lookup_user(entries@, user@) == spec_lookup_user(entries@.skip(i as int), user@),
        decreases entries@.len() - i,
    {
        let entry = &entries[i];
        proof {
            assert(entries@.skip(i as int)[0] == entries@[i as int]);
        }
        if entry.0 == user_string {
            let shows = &entry.1;
            if shows.len() == 0 {
                return Err(RpcError::NoShowsForUser);
            }
            return match select_random_show_name(shows) {
                Some(s) => Ok(s.clone()),
                None => Err(RpcError::NoShowsForUser),
            };
        }
        proof {
            assert(entries@.skip(i as int).skip(1) =~= entries@.skip(i as int + 1));
        }
        i = i + 1;
    }
    assert(entries@.skip(i as int).len() == 0);
    Err(RpcError::UserNotFound)
}

} // verus!
