use vstd::prelude::*;
use vstd::string::*;
use crate::json::{lookup_fields, JsonValue};

verus! {

/// A single JSON-RPC call: the fixed protocol version "2.0", a method
/// name, its parameters, and a correlation id. Built fresh per call and
/// holding no identity beyond it.
#[derive(Debug)]
pub struct RpcRequest {
    pub method: String,
    pub params: JsonValue,
    pub id: u64,
}

/// In a field list whose first `k` keys all differ from the key at `k`,
/// the lookup of that key finds exactly the entry at `k`.
proof fn lemma_lookup_at(s: Seq<(String, JsonValue)>, k: int)
    requires
        0 <= k < s.len(),
        forall|i: int| 0 <= i < k ==> (#[trigger] s[i]).0@ != s[k].0@,
    ensures
        lookup_fields(s, s[k].0@) == Some(s[k].1),
    decreases k,
{
    if k > 0 {
        assert(s[0].0@ != s[k].0@);
        lemma_lookup_at(s.skip(1), k - 1);
        assert(s.skip(1)[k - 1] == s[k]);
    }
}

/// An object of one member.
pub fn obj1(k1: &str, v1: JsonValue) -> (r: JsonValue)
    ensures
        r.spec_get(k1@) == Some(v1),
        v1.keys_distinct() ==> r.keys_distinct(),
        (r matches JsonValue::Obj(fields) && fields@.len() == 1),
        forall|d: nat| #[trigger] v1.depth_below(d) ==> r.depth_below((d + 1) as nat),
{
    let mut fields: Vec<(String, JsonValue)> = Vec::new();
    fields.push((String::from_str(k1), v1));
    let ghost s = fields@;
    let r = JsonValue::Obj(fields);
    proof {
        lemma_lookup_at(s, 0);
        if v1.keys_distinct() {
            assert forall|i: int| 0 <= i < s.len() implies (#[trigger] s[i]).1.keys_distinct() by {
                assert(s[i] == s[0]);
            }
            assert(r.keys_distinct());
        }
        assert forall|d: nat| #[trigger] v1.depth_below(d) implies r.depth_below(
            (d + 1) as nat,
        ) by {
            assert forall|i: int| 0 <= i < s.len() implies (#[trigger] s[i]).1.depth_below(d) by {
                assert(s[i] == s[0]);
            }
        }
    }
    r
}

/// An object of two members with distinct keys.
pub fn obj2(k1: &str, v1: JsonValue, k2: &str, v2: JsonValue) -> (r: JsonValue)
    requires
        k1@ != k2@,
    ensures
        r.spec_get(k1@) == Some(v1),
        r.spec_get(k2@) == Some(v2),
        v1.keys_distinct() && v2.keys_distinct() ==> r.keys_distinct(),
        (r matches JsonValue::Obj(fields) && fields@.len() == 2),
        forall|d: nat| #[trigger] v1.depth_below(d) && v2.depth_below(d) ==> r.depth_below(
            (d + 1) as nat,
        ),
{
    let mut fields: Vec<(String, JsonValue)> = Vec::new();
    fields.push((String::from_str(k1), v1));
    fields.push((String::from_str(k2), v2));
    let ghost s = fields@;
    let r = JsonValue::Obj(fields);
    proof {
        lemma_lookup_at(s, 0);
        lemma_lookup_at(s, 1);
        if v1.keys_distinct() && v2.keys_distinct() {
            assert forall|i: int, j: int| 0 <= i < j < s.len() implies (#[trigger] s[i]).0@
                != (#[trigger] s[j]).0@ by {
                assert(i == 0 && j == 1);
            }
            assert forall|i: int| 0 <= i < s.len() implies (#[trigger] s[i]).1.keys_distinct() by {
                if i == 0 {
                    assert(s[i].1 == v1);
                } else {
                    assert(s[i].1 == v2);
                }
            }
            assert(r.keys_distinct());
        }
        assert forall|d: nat| #[trigger] v1.depth_below(d) && v2.depth_below(d) implies r
            .depth_below((d + 1) as nat) by {
            assert forall|i: int| 0 <= i < s.len() implies (#[trigger] s[i]).1.depth_below(d) by {
                if i == 0 {
                    assert(s[i].1 == v1);
                } else {
                    assert(s[i].1 == v2);
                }
            }
        }
    }
    r
}

/// An object of three members with pairwise distinct keys.
pub fn obj3(k1: &str, v1: JsonValue, k2: &str, v2: JsonValue, k3: &str, v3: JsonValue) -> (r:
    JsonValue)
    requires
        k1@ != k2@,
        k1@ != k3@,
        k2@ != k3@,
    ensures
        r.spec_get(k1@) == Some(v1),
        r.spec_get(k2@) == Some(v2),
        r.spec_get(k3@) == Some(v3),
        v1.keys_distinct() && v2.keys_distinct() && v3.keys_distinct() ==> r.keys_distinct(),
        (r matches JsonValue::Obj(fields) && fields@.len() == 3),
        forall|d: nat| #[trigger] v1.depth_below(d) && v2.depth_below(d) && v3.depth_below(d)
            ==> r.depth_below((d + 1) as nat),
{
    let mut fields: Vec<(String, JsonValue)> = Vec::new();
    fields.push((String::from_str(k1), v1));
    fields.push((String::from_str(k2), v2));
    fields.push((String::from_str(k3), v3));
    let ghost s = fields@;
    let r = JsonValue::Obj(fields);
    proof {
        lemma_lookup_at(s, 0);
        lemma_lookup_at(s, 1);
        lemma_lookup_at(s, 2);
        if v1.keys_distinct() && v2.keys_distinct() && v3.keys_distinct() {
            assert forall|i: int, j: int| 0 <= i < j < s.len() implies (#[trigger] s[i]).0@
                != (#[trigger] s[j]).0@ by {
                assert(0 <= i < 3 && 0 <= j < 3);
            }
            assert forall|i: int| 0 <= i < s.len() implies (#[trigger] s[i]).1.keys_distinct() by {
                if i == 0 {
                    assert(s[i].1 == v1);
                } else if i == 1 {
                    assert(s[i].1 == v2);
                } else {
                    assert(s[i].1 == v3);
                }
            }
            assert(r.keys_distinct());
        }
        assert forall|d: nat| #[trigger] v1.depth_below(d) && v2.depth_below(d) && v3.depth_below(
            d,
        ) implies r.depth_below((d + 1) as nat) by {
            assert forall|i: int| 0 <= i < s.len() implies (#[trigger] s[i]).1.depth_below(d) by {
                if i == 0 {
                    assert(s[i].1 == v1);
                } else if i == 1 {
                    assert(s[i].1 == v2);
                } else {
                    assert(s[i].1 == v3);
                }
            }
        }
    }
    r
}

/// An object of four members with pairwise distinct keys.
pub fn obj4(
    k1: &str,
    v1: JsonValue,
    k2: &str,
    v2: JsonValue,
    k3: &str,
    v3: JsonValue,
    k4: &str,
    v4: JsonValue,
) -> (r: JsonValue)
    requires
        k1@ != k2@,
        k1@ != k3@,
        k1@ != k4@,
        k2@ != k3@,
        k2@ != k4@,
        k3@ != k4@,
    ensures
        r.spec_get(k1@) == Some(v1),
        r.spec_get(k2@) == Some(v2),
        r.spec_get(k3@) == Some(v3),
        r.spec_get(k4@) == Some(v4),
        v1.keys_distinct() && v2.keys_distinct() && v3.keys_distinct() && v4.keys_distinct()
            ==> r.keys_distinct(),
        (r matches JsonValue::Obj(fields) && fields@.len() == 4),
        forall|d: nat| #[trigger] v1.depth_below(d) && v2.depth_below(d) && v3.depth_below(d)
            && v4.depth_below(d) ==> r.depth_below((d + 1) as nat),
{
    let mut fields: Vec<(String, JsonValue)> = Vec::new();
    fields.push((String::from_str(k1), v1));
    fields.push((String::from_str(k2), v2));
    fields.push((String::from_str(k3), v3));
    fields.push((String::from_str(k4), v4));
    let ghost s = fields@;
    let r = JsonValue::Obj(fields);
    proof {
        lemma_lookup_at(s, 0);
        lemma_lookup_at(s, 1);
        lemma_lookup_at(s, 2);
        lemma_lookup_at(s, 3);
        if v1.keys_distinct() && v2.keys_distinct() && v3.keys_distinct() && v4.keys_distinct() {
            assert forall|i: int, j: int| 0 <= i < j < s.len() implies (#[trigger] s[i]).0@
                != (#[trigger] s[j]).0@ by {
                assert(0 <= i < 4 && 0 <= j < 4);
            }
            assert forall|i: int| 0 <= i < s.len() implies (#[trigger] s[i]).1.keys_distinct() by {
                if i == 0 {
                    assert(s[i].1 == v1);
                } else if i == 1 {
                    assert(s[i].1 == v2);
                } else if i == 2 {
                    assert(s[i].1 == v3);
                } else {
                    assert(s[i].1 == v4);
                }
            }
            assert(r.keys_distinct());
        }
        assert forall|d: nat| #[trigger] v1.depth_below(d) && v2.depth_below(d) && v3.depth_below(
            d,
        ) && v4.depth_below(d) implies r.depth_below((d + 1) as nat) by {
            assert forall|i: int| 0 <= i < s.len() implies (#[trigger] s[i]).1.depth_below(d) by {
                if i == 0 {
                    assert(s[i].1 == v1);
                } else if i == 1 {
                    assert(s[i].1 == v2);
                } else if i == 2 {
                    assert(s[i].1 == v3);
                } else {
                    assert(s[i].1 == v4);
                }
            }
        }
    }
    r
}

impl RpcRequest {
    /// The full call body: `{"jsonrpc": "2.0", "method": ..., "params":
    /// ..., "id": ...}`, with the members in that order.
    pub fn to_json(self) -> (r: JsonValue)
        ensures
            r.spec_str_field("jsonrpc"@) == Some("2.0"@),
            r.spec_str_field("method"@) == Some(self.method@),
            r.spec_get("params"@) == Some(self.params),
            r.spec_u64_field("id"@) == Some(self.id),
            self.params.keys_distinct() ==> r.keys_distinct(),
            (r matches JsonValue::Obj(fields) && fields@.len() == 4),
            forall|d: nat| #[trigger] self.params.depth_below(d) ==> r.depth_below((d + 1) as nat),
    {
        proof {
            reveal_strlit("jsonrpc");
            reveal_strlit("method");
            reveal_strlit("params");
            reveal_strlit("id");
            assert("jsonrpc"@.len() == 7);
            assert("method"@.len() == 6);
            assert("params"@.len() == 6);
            assert("id"@.len() == 2);
            assert("method"@[0] == 'm');
            assert("params"@[0] == 'p');
        }
        let version = JsonValue::Str(String::from_str("2.0"));
        let method = JsonValue::Str(self.method);
        let id = JsonValue::UInt(self.id);
        let ghost gversion = version;
        let ghost gmethod = method;
        let ghost gid = id;
        let r = obj4("jsonrpc", version, "method", method, "params", self.params, "id", id);
        proof {
            assert forall|d: nat| #[trigger] self.params.depth_below(d) implies r.depth_below(
                (d + 1) as nat,
            ) by {
                assert(gversion.depth_below(d));
                assert(gmethod.depth_below(d));
                assert(gid.depth_below(d));
            }
        }
        r
    }
}

/// An array of one string.
pub fn str_list1(a: &str) -> (r: JsonValue)
    ensures
        (r.spec_as_arr() matches Some(items) && items.len() == 1 && items[0].spec_as_str()
            == Some(a@)),
        r.keys_distinct(),
        r.depth_below(1),
{
    let mut items: Vec<JsonValue> = Vec::new();
    items.push(JsonValue::Str(String::from_str(a)));
    let ghost s = items@;
    let r = JsonValue::Arr(items);
    proof {
        assert forall|i: int| 0 <= i < s.len() implies (#[trigger] s[i]).keys_distinct() by {
            assert(s[i] == s[0]);
        }
        assert forall|i: int| 0 <= i < s.len() implies (#[trigger] s[i]).depth_below(0) by {
            assert(s[i] == s[0]);
        }
    }
    r
}

/// An array of three strings.
pub fn str_list3(a: &str, b: &str, c: &str) -> (r: JsonValue)
    ensures
        (r.spec_as_arr() matches Some(items) && items.len() == 3 && items[0].spec_as_str()
            == Some(a@) && items[1].spec_as_str() == Some(b@) && items[2].spec_as_str()
            == Some(c@)),
        r.keys_distinct(),
        r.depth_below(1),
{
    let mut items: Vec<JsonValue> = Vec::new();
    items.push(JsonValue::Str(String::from_str(a)));
    items.push(JsonValue::Str(String::from_str(b)));
    items.push(JsonValue::Str(String::from_str(c)));
    let ghost s = items@;
    let r = JsonValue::Arr(items);
    proof {
        assert forall|i: int| 0 <= i < s.len() implies (#[trigger] s[i]).keys_distinct() by {
            if i == 0 {
                assert(s[i].keys_distinct());
            } else if i == 1 {
                assert(s[i].keys_distinct());
            } else {
                assert(s[i].keys_distinct());
            }
        }
        assert forall|i: int| 0 <= i < s.len() implies (#[trigger] s[i]).depth_below(0) by {
            if i == 0 {
                assert(s[i].depth_below(0));
            } else if i == 1 {
                assert(s[i].depth_below(0));
            } else {
                assert(s[i].depth_below(0));
            }
        }
    }
    r
}

/// The page window asked of every listing call: entries 0 through 1000,
/// a single generous page instead of true pagination.
pub fn page_limits() -> (r: JsonValue)
    ensures
        r.spec_u64_field("start"@) == Some(0u64),
        r.spec_u64_field("end"@) == Some(1000u64),
        r.keys_distinct(),
        r.depth_below(1),
{
    proof {
        reveal_strlit("start");
        reveal_strlit("end");
        assert("start"@.len() == 5);
        assert("end"@.len() == 3);
    }
    let r = obj2("start", JsonValue::UInt(0), "end", JsonValue::UInt(1000));
    proof {
        assert(JsonValue::UInt(0).depth_below(0));
        assert(JsonValue::UInt(1000).depth_below(0));
    }
    r
}

/// The call that lists every show with its title.
pub fn req_get_tv_shows() -> (r: RpcRequest)
    ensures
        r.method@ == "VideoLibrary.GetTVShows"@,
        r.id == 1,
        r.params.keys_distinct(),
        (r.params.spec_get("properties"@) matches Some(p) && p.spec_as_arr() matches Some(items)
            && items.len() == 1 && items[0].spec_as_str() == Some("title"@)),
        (r.params.spec_get("limits"@) matches Some(l) && l.spec_u64_field("start"@) == Some(0u64)
            && l.spec_u64_field("end"@) == Some(1000u64)),
        (r.params matches JsonValue::Obj(fields) && fields@.len() == 2),
        r.params.depth_below(2),
{
    proof {
        reveal_strlit("properties");
        reveal_strlit("limits");
        assert("properties"@.len() == 10);
        assert("limits"@.len() == 6);
    }
    let props = str_list1("title");
    let limits = page_limits();
    let ghost gprops = props;
    let ghost glimits = limits;
    let params = obj2("properties", props, "limits", limits);
    proof {
        assert(gprops.depth_below(1) && glimits.depth_below(1));
    }
    RpcRequest { method: String::from_str("VideoLibrary.GetTVShows"), params, id: 1 }
}

/// The call that lists every episode of one show.
pub fn req_get_episodes(show_id: u64) -> (r: RpcRequest)
    ensures
        r.method@ == "VideoLibrary.GetEpisodes"@,
        r.id == 1,
        r.params.keys_distinct(),
        r.params.spec_u64_field("tvshowid"@) == Some(show_id),
        (r.params.spec_get("properties"@) matches Some(p) && p.spec_as_arr() matches Some(items)
            && items.len() == 3 && items[0].spec_as_str() == Some("title"@)
            && items[1].spec_as_str() == Some("season"@) && items[2].spec_as_str()
            == Some("episode"@)),
        (r.params.spec_get("limits"@) matches Some(l) && l.spec_u64_field("start"@) == Some(0u64)
            && l.spec_u64_field("end"@) == Some(1000u64)),
        (r.params matches JsonValue::Obj(fields) && fields@.len() == 3),
        r.params.depth_below(2),
{
    proof {
        reveal_strlit("tvshowid");
        reveal_strlit("properties");
        reveal_strlit("limits");
        assert("tvshowid"@.len() == 8);
        assert("properties"@.len() == 10);
        assert("limits"@.len() == 6);
    }
    let props = str_list3("title", "season", "episode");
    let limits = page_limits();
    let ghost gprops = props;
    let ghost glimits = limits;
    let params = obj3("tvshowid", JsonValue::UInt(show_id), "properties", props, "limits", limits);
    proof {
        assert(JsonValue::UInt(show_id).depth_below(1));
        assert(gprops.depth_below(1) && glimits.depth_below(1));
    }
    RpcRequest { method: String::from_str("VideoLibrary.GetEpisodes"), params, id: 1 }
}

/// The call that fetches one episode's playable file path.
pub fn req_get_episode_details(episode_id: u64) -> (r: RpcRequest)
    ensures
        r.method@ == "VideoLibrary.GetEpisodeDetails"@,
        r.id == 1,
        r.params.keys_distinct(),
        r.params.spec_u64_field("episodeid"@) == Some(episode_id),
        (r.params.spec_get("properties"@) matches Some(p) && p.spec_as_arr() matches Some(items)
            && items.len() == 1 && items[0].spec_as_str() == Some("file"@)),
        (r.params matches JsonValue::Obj(fields) && fields@.len() == 2),
        r.params.depth_below(2),
{
    proof {
        reveal_strlit("episodeid");
        reveal_strlit("properties");
        assert("episodeid"@.len() == 9);
        assert("properties"@.len() == 10);
    }
    let props = str_list1("file");
    let ghost gprops = props;
    let params = obj2("episodeid", JsonValue::UInt(episode_id), "properties", props);
    proof {
        assert(JsonValue::UInt(episode_id).depth_below(1));
        assert(gprops.depth_below(1));
    }
    RpcRequest { method: String::from_str("VideoLibrary.GetEpisodeDetails"), params, id: 1 }
}

/// The call that starts playback of one file.
pub fn req_player_open(file: &str) -> (r: RpcRequest)
    ensures
        r.method@ == "Player.Open"@,
        r.id == 1,
        r.params.keys_distinct(),
        (r.params.spec_get("item"@) matches Some(item) && item.spec_str_field("file"@)
            == Some(file@)),
        (r.params matches JsonValue::Obj(fields) && fields@.len() == 1),
        (r.params.spec_get("item"@) matches Some(item) && item matches JsonValue::Obj(inner)
            && inner@.len() == 1),
        r.params.depth_below(2),
{
    let file_val = JsonValue::Str(String::from_str(file));
    let ghost gfile = file_val;
    let item = obj1("file", file_val);
    let ghost gitem = item;
    let params = obj1("item", item);
    proof {
        assert(gfile.depth_below(0));
        assert(gitem.depth_below(1));
    }
    RpcRequest { method: String::from_str("Player.Open"), params, id: 1 }
}

/// The call that asks which players are active, with empty parameters.
pub fn req_get_active_players() -> (r: RpcRequest)
    ensures
        r.method@ == "Player.GetActivePlayers"@,
        r.id == 1,
        r.params.keys_distinct(),
        (r.params matches JsonValue::Obj(fields) && fields@.len() == 0),
        r.params.depth_below(1),
{
    let fields: Vec<(String, JsonValue)> = Vec::new();
    let params = JsonValue::Obj(fields);
    RpcRequest { method: String::from_str("Player.GetActivePlayers"), params, id: 1 }
}

} // verus!
