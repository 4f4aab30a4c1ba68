use kodi_remote::codec::{echoed_method_and_id, json_to_text, parse_response, reserialize, text_to_json};
use kodi_remote::error::RpcError;
use kodi_remote::json::JsonValue;
use kodi_remote::player::is_active;
use kodi_remote::request::{
    req_get_active_players, req_get_episode_details, req_get_episodes, req_get_tv_shows,
    req_player_open,
};
use kodi_remote::resolve::{extract_episode_ids, find_show_id, pick_episode_id, resolve_from_details};

fn obj(fields: Vec<(&str, JsonValue)>) -> JsonValue {
    JsonValue::Obj(fields.into_iter().map(|(k, v)| (k.to_string(), v)).collect())
}

fn shows_response() -> JsonValue {
    obj(vec![(
        "result",
        obj(vec![(
            "tvshows",
            JsonValue::Arr(vec![obj(vec![
                ("title", JsonValue::Str("Archer".to_string())),
                ("tvshowid", JsonValue::UInt(5)),
            ])]),
        )]),
    )])
}

fn episodes_response(ids: &[u64]) -> JsonValue {
    obj(vec![(
        "result",
        obj(vec![(
            "episodes",
            JsonValue::Arr(
                ids.iter().map(|id| obj(vec![("episodeid", JsonValue::UInt(*id))])).collect(),
            ),
        )]),
    )])
}

fn details_response(file: &str) -> JsonValue {
    obj(vec![(
        "result",
        obj(vec![(
            "episodedetails",
            obj(vec![("file", JsonValue::Str(file.to_string()))]),
        )]),
    )])
}

#[test]
fn find_show_id_matches_title() {
    assert_eq!(find_show_id(&shows_response(), "Archer"), Ok(5));
}

#[test]
fn find_show_id_absent_title_is_show_not_found() {
    assert_eq!(find_show_id(&shows_response(), "Frasier"), Err(RpcError::ShowNotFound));
}

#[test]
fn find_show_id_first_match_wins_on_duplicates() {
    let resp = obj(vec![(
        "result",
        obj(vec![(
            "tvshows",
            JsonValue::Arr(vec![
                obj(vec![
                    ("title", JsonValue::Str("Archer".to_string())),
                    ("tvshowid", JsonValue::UInt(5)),
                ]),
                obj(vec![
                    ("title", JsonValue::Str("Archer".to_string())),
                    ("tvshowid", JsonValue::UInt(9)),
                ]),
            ]),
        )]),
    )]);
    assert_eq!(find_show_id(&resp, "Archer"), Ok(5));
}

#[test]
fn find_show_id_missing_array_is_protocol_error() {
    let resp = obj(vec![("result", obj(vec![]))]);
    assert_eq!(find_show_id(&resp, "Archer"), Err(RpcError::Protocol));
}

#[test]
fn find_show_id_missing_id_is_protocol_error() {
    let resp = obj(vec![(
        "result",
        obj(vec![(
            "tvshows",
            JsonValue::Arr(vec![obj(vec![("title", JsonValue::Str("Archer".to_string()))])]),
        )]),
    )]);
    assert_eq!(find_show_id(&resp, "Archer"), Err(RpcError::Protocol));
}

#[test]
fn extract_episode_ids_reads_all_in_order() {
    let ids = extract_episode_ids(&episodes_response(&[10, 11, 12])).unwrap();
    assert_eq!(ids, vec![10, 11, 12]);
}

#[test]
fn empty_episode_list_is_no_episodes_found() {
    assert_eq!(pick_episode_id(&episodes_response(&[])), Err(RpcError::NoEpisodesFound));
}

#[test]
fn absent_episode_list_is_no_episodes_found() {
    let resp = obj(vec![("result", obj(vec![]))]);
    assert_eq!(pick_episode_id(&resp), Err(RpcError::NoEpisodesFound));
}

#[test]
fn episode_without_id_is_protocol_error() {
    let resp = obj(vec![(
        "result",
        obj(vec![(
            "episodes",
            JsonValue::Arr(vec![obj(vec![("title", JsonValue::Str("Pilot".to_string()))])]),
        )]),
    )]);
    assert_eq!(pick_episode_id(&resp), Err(RpcError::Protocol));
}

#[test]
fn picked_episode_belongs_to_the_list() {
    let resp = episodes_response(&[10, 11]);
    for _ in 0..50 {
        let id = pick_episode_id(&resp).unwrap();
        assert!(id == 10 || id == 11);
    }
}

#[test]
fn repeated_picks_are_spread_roughly_uniformly() {
    let resp = episodes_response(&[10, 11]);
    let mut count_10 = 0;
    let mut count_11 = 0;
    for _ in 0..200 {
        match pick_episode_id(&resp).unwrap() {
            10 => count_10 += 1,
            11 => count_11 += 1,
            other => panic!("unexpected id {}", other),
        }
    }
    assert!(count_10 >= 40, "id 10 drawn only {} of 200 times", count_10);
    assert!(count_11 >= 40, "id 11 drawn only {} of 200 times", count_11);
}

#[test]
fn resolve_archer_scenario() {
    let show_id = find_show_id(&shows_response(), "Archer").unwrap();
    assert_eq!(show_id, 5);
    let episode_id = pick_episode_id(&episodes_response(&[10, 11])).unwrap();
    assert!(episode_id == 10 || episode_id == 11);
    let file = if episode_id == 10 { "/media/archer/e10.mkv" } else { "/media/archer/e11.mkv" };
    let selected = resolve_from_details(episode_id, &details_response(file)).unwrap();
    assert_eq!(selected.episode_id, episode_id);
    assert_eq!(selected.episode_file_path, file);
}

#[test]
fn missing_file_path_is_file_path_not_found() {
    let resp = obj(vec![("result", obj(vec![("episodedetails", obj(vec![]))]))]);
    assert_eq!(
        resolve_from_details(10, &resp).unwrap_err(),
        RpcError::FilePathNotFound
    );
}

#[test]
fn is_active_empty_array_is_false() {
    let resp = obj(vec![("result", JsonValue::Arr(vec![]))]);
    assert!(!is_active(&resp));
}

#[test]
fn is_active_missing_result_is_false() {
    assert!(!is_active(&obj(vec![])));
}

#[test]
fn is_active_malformed_result_is_false() {
    let resp = obj(vec![("result", JsonValue::Str("?".to_string()))]);
    assert!(!is_active(&resp));
}

#[test]
fn is_active_nonempty_array_is_true() {
    let resp = obj(vec![(
        "result",
        JsonValue::Arr(vec![obj(vec![("playerid", JsonValue::UInt(1))])]),
    )]);
    assert!(is_active(&resp));
}

#[test]
fn serialized_request_has_the_wire_shape() {
    let text = json_to_text(&req_get_episodes(5).to_json());
    assert_eq!(
        text,
        "{\"jsonrpc\":\"2.0\",\"method\":\"VideoLibrary.GetEpisodes\",\"params\":{\"tvshowid\":5,\"properties\":[\"title\",\"season\",\"episode\"],\"limits\":{\"start\":0,\"end\":1000}},\"id\":1}"
    );
}

#[test]
fn active_players_request_has_empty_params() {
    let text = json_to_text(&req_get_active_players().to_json());
    assert_eq!(
        text,
        "{\"jsonrpc\":\"2.0\",\"method\":\"Player.GetActivePlayers\",\"params\":{},\"id\":1}"
    );
}

#[test]
fn parse_reads_back_written_text() {
    let parsed = text_to_json("{\"a\":1}").unwrap();
    assert_eq!(parsed, obj(vec![("a", JsonValue::UInt(1))]));
}

#[test]
fn parse_response_rejects_invalid_json() {
    assert_eq!(parse_response("not json at all {"), Err(RpcError::Protocol));
}

#[test]
fn reserialize_returns_the_same_document() {
    let doc = obj(vec![
        ("show", JsonValue::Str("Archer".to_string())),
        ("ids", JsonValue::Arr(vec![JsonValue::UInt(10), JsonValue::UInt(11)])),
        ("nested", obj(vec![("ok", JsonValue::Bool(true)), ("gap", JsonValue::Null)])),
    ]);
    assert_eq!(reserialize(&doc), Some(doc));
}

fn nested_arrays(levels: usize) -> JsonValue {
    let mut v = JsonValue::UInt(1);
    for _ in 0..levels {
        v = JsonValue::Arr(vec![v]);
    }
    v
}

#[test]
fn reserialize_succeeds_at_the_parser_nesting_limit() {
    let doc = nested_arrays(127);
    assert_eq!(reserialize(&doc), Some(doc));
}

#[test]
fn reserialize_fails_beyond_the_parser_nesting_limit() {
    let doc = nested_arrays(128);
    assert_eq!(reserialize(&doc), None);
}

#[test]
fn echoed_request_keeps_method_and_id() {
    let (method, id) = echoed_method_and_id(req_get_tv_shows()).unwrap();
    assert_eq!(method, "VideoLibrary.GetTVShows");
    assert_eq!(id, 1);
    let (method, id) = echoed_method_and_id(req_player_open("/media/archer/e10.mkv")).unwrap();
    assert_eq!(method, "Player.Open");
    assert_eq!(id, 1);
    let (method, id) = echoed_method_and_id(req_get_episode_details(10)).unwrap();
    assert_eq!(method, "VideoLibrary.GetEpisodeDetails");
    assert_eq!(id, 1);
}
