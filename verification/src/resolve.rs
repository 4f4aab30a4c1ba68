use vstd::prelude::*;
use vstd::string::*;
use rand::Rng;
use crate::error::RpcError;
use crate::json::JsonValue;

verus! {

/// The episode finally handed to playback: the drawn episode id and the
/// file path fetched for it. Short-lived, consumed immediately, never
/// persisted.
#[derive(Debug)]
pub struct SelectedEpisode {
    pub episode_id: u64,
    pub episode_file_path: String,
}

/// The show list inside a `VideoLibrary.GetTVShows` reply.
pub open spec fn spec_shows_of(resp: JsonValue) -> Option<Seq<JsonValue>> {
    match resp.spec_get("result"@) {
        Some(res) => match res.spec_get("tvshows"@) {
            Some(arr) => arr.spec_as_arr(),
            None => None,
        },
        None => None,
    }
}

/// A show entry's title, when it carries one.
pub open spec fn spec_title_of(show: JsonValue) -> Option<Seq<char>> {
    show.spec_str_field("title"@)
}

/// The first show in server order whose title equals `title` exactly,
/// case-sensitively. On duplicate titles the first entry wins.
pub open spec fn spec_find_show(shows: Seq<JsonValue>, title: Seq<char>) -> Option<JsonValue>
    decreases shows.len(),
{
    if shows.len() == 0 {
        None
    } else if spec_title_of(shows[0]) == Some(title) {
        Some(shows[0])
    } else {
        spec_find_show(shows.skip(1), title)
    }
}

/// What resolving a title against a show-list reply owes: the matched
/// show's id; `Protocol` where the reply lacks the show array or the
/// matched show lacks an id; `ShowNotFound` where no title matches.
pub open spec fn spec_find_show_id(resp: JsonValue, title: Seq<char>) -> Result<u64, RpcError> {
    match spec_shows_of(resp) {
        None => Err(RpcError::Protocol),
        Some(shows) => match spec_find_show(shows, title) {
            None => Err(RpcError::ShowNotFound),
            Some(show) => match show.spec_u64_field("tvshowid"@) {
                Some(id) => Ok(id),
                None => Err(RpcError::Protocol),
            },
        },
    }
}

/// First stage of episode resolution: search the show-list reply for the
/// requested title and return the matched show's server-assigned id.
pub fn find_show_id(resp: &JsonValue, title: &str) -> (r: Result<u64, RpcError>)
    ensures
        r == spec_find_show_id(*resp, title@),
{
    let shows: &Vec<JsonValue> = match resp.get("result") {
        Some(res) => match res.get("tvshows") {
            Some(t) => match t.as_arr() {
                Some(a) => a,
                None => {
                    return Err(RpcError::Protocol);
                },
            },
            None => {
                return Err(RpcError::Protocol);
            },
        },
        None => {
            return Err(RpcError::Protocol);
        },
    };
    let title_string = String::from_str(title);
    let mut i: usize = 0;
    assert(shows@.skip(0) =~= shows@);
    while i < shows.len()
        invariant
            spec_shows_of(*resp) == Some(shows@),
            i <= shows@.len(),
            title_string@ == title@,
            spec_find_show(shows@, title@) == spec_find_show(shows@.skip(i as int), title@),
        decreases shows@.len() - i,
    {
        let show = &shows[i];
        let is_match = match show.get("title") {
            Some(t) => match t.as_str() {
                Some(s) => String::from_str(s) == title_string,
                None => false,
            },
            None => false,
        };
        proof {
            assert(shows@.skip(i as int)[0] == shows@[i as int]);
        }
        if is_match {
            return match show.get("tvshowid") {
                Some(v) => match v.as_u64() {
                    Some(id) => Ok(id),
                    None => Err(RpcError::Protocol),
                },
                None => Err(RpcError::Protocol),
            };
        }
        proof {
            assert(shows@.skip(i as int).skip(1) =~= shows@.skip(i as int + 1));
        }
        i = i + 1;
    }
    assert(shows@.skip(i as int).len() == 0);
    Err(RpcError::ShowNotFound)
}

/// The episode list inside a `VideoLibrary.GetEpisodes` reply.
pub open spec fn spec_episodes_of(resp: JsonValue) -> Option<Seq<JsonValue>> {
    match resp.spec_get("result"@) {
        Some(res) => match res.spec_get("episodes"@) {
            Some(arr) => arr.spec_as_arr(),
            None => None,
        },
        None => None,
    }
}

/// An episode entry's server-assigned id, when it carries one.
pub open spec fn spec_episode_id_of(ep: JsonValue) -> Option<u64> {
    ep.spec_u64_field("episodeid"@)
}

/// What reading the episode ids out of a `GetEpisodes` reply owes:
/// `NoEpisodesFound` where the list is absent or empty, `Protocol` where
/// an entry lacks an id, and otherwise every id, in server order.
pub open spec fn spec_episode_ids(resp: JsonValue) -> Result<Seq<u64>, RpcError> {
    match spec_episodes_of(resp) {
        None => Err(RpcError::NoEpisodesFound),
        Some(eps) => if eps.len() == 0 {
            Err(RpcError::NoEpisodesFound)
        } else if forall|i: int| 0 <= i < eps.len() ==> spec_episode_id_of(#[trigger] eps[i]) is Some {
            Ok(Seq::new(eps.len(), |i: int| spec_episode_id_of(eps[i])->0))
        } else {
            Err(RpcError::Protocol)
        },
    }
}

/// Second stage, first half: collect every episode id of the reply.
pub fn extract_episode_ids(resp: &JsonValue) -> (r: Result<Vec<u64>, RpcError>)
    ensures
        (r matches Ok(ids) ==> spec_episode_ids(*resp) == Ok::<Seq<u64>, RpcError>(ids@)
            && ids@.len() > 0),
        (r matches Err(e) ==> spec_episode_ids(*resp) == Err::<Seq<u64>, RpcError>(e)),
{
    let eps: &Vec<JsonValue> = match resp.get("result") {
        Some(res) => match res.get("episodes") {
            Some(t) => match t.as_arr() {
                Some(a) => a,
                None => {
                    return Err(RpcError::NoEpisodesFound);
                },
            },
            None => {
                return Err(RpcError::NoEpisodesFound);
            },
        },
        None => {
            return Err(RpcError::NoEpisodesFound);
        },
    };
    if eps.len() == 0 {
        return Err(RpcError::NoEpisodesFound);
    }
    let mut ids: Vec<u64> = Vec::new();
    let mut i: usize = 0;
    while i < eps.len()
        invariant
            spec_episodes_of(*resp) == Some(eps@),
            i <= eps@.len(),
            ids@.len() == i,
            forall|j: int| 0 <= j < i ==> spec_episode_id_of(#[trigger] eps@[j]) == Some(ids@[j]),
        decreases eps@.len() - i,
    {
        let ep = &eps[i];
        let id = match ep.get("episodeid") {
            Some(v) => match v.as_u64() {
                Some(id) => id,
                None => {
                    return Err(RpcError::Protocol);
                },
            },
            None => {
                return Err(RpcError::Protocol);
            },
        };
        ids.push(id);
        i = i + 1;
    }
    proof {
        let eps_view = eps@;
        assert(forall|j: int|
            0 <= j < eps_view.len() ==> spec_episode_id_of(#[trigger] eps_view[j]) is Some);
        assert(Seq::new(eps_view.len(), |j: int| spec_episode_id_of(eps_view[j])->0) =~= ids@);
    }
    Ok(ids)
}

/// Relies on `rand::thread_rng` and `Rng::gen_range`: an index drawn
/// uniformly from `0..n`. Nothing beyond the range is assumed — two
/// calls on the same `n` may differ.
#[verifier::external_body]
pub(crate) fn random_below(n: usize) -> (r: usize)
    requires
        n > 0,
    ensures
        r < n,
{
    rand::thread_rng().gen_range(0..n)
}

/// Second stage, second half: draw one episode id uniformly at random
/// from the reply's episode list. Whatever the draw, the returned id is
/// a member of that list; the draw is fresh on every call, so immediate
/// repeats are possible and expected.
pub fn pick_episode_id(resp: &JsonValue) -> (r: Result<u64, RpcError>)
    ensures
        (r matches Ok(id) ==> spec_episode_ids(*resp) matches Ok(ids) && ids.contains(id)),
        (r matches Err(e) ==> spec_episode_ids(*resp) == Err::<Seq<u64>, RpcError>(e)),
{
    let ids = match extract_episode_ids(resp) {
        Ok(v) => v,
        Err(e) => {
            return Err(e);
        },
    };
    let i = random_below(ids.len());
    let id = ids[i];
    proof {
        assert(ids@.contains(ids@[i as int]));
    }
    Ok(id)
}

/// The playable file path inside a `VideoLibrary.GetEpisodeDetails`
/// reply.
pub open spec fn spec_file_path_of(resp: JsonValue) -> Option<Seq<char>> {
    match resp.spec_get("result"@) {
        Some(res) => match res.spec_get("episodedetails"@) {
            Some(d) => d.spec_str_field("file"@),
            None => None,
        },
        None => None,
    }
}

/// Final stage: read the drawn episode's file path out of the details
/// reply and pair it with the id, or report `FilePathNotFound`.
pub fn resolve_from_details(episode_id: u64, resp: &JsonValue) -> (r: Result<
    SelectedEpisode,
    RpcError,
>)
    ensures
        (r matches Ok(se) ==> se.episode_id == episode_id && spec_file_path_of(*resp)
            == Some(se.episode_file_path@)),
        (r matches Err(e) ==> e == RpcError::FilePathNotFound && spec_file_path_of(*resp)
            is None),
{
    let file = match resp.get("result") {
        Some(res) => match res.get("episodedetails") {
            Some(d) => match d.get("file") {
                Some(f) => match f.as_str() {
                    Some(s) => s,
                    None => {
                        return Err(RpcError::FilePathNotFound);
                    },
                },
                None => {
                    return Err(RpcError::FilePathNotFound);
                },
            },
            None => {
                return Err(RpcError::FilePathNotFound);
            },
        },
        None => {
            return Err(RpcError::FilePathNotFound);
        },
    };
    Ok(SelectedEpisode { episode_id, episode_file_path: String::from_str(file) })
}

} // verus!
