use kodi_remote::auth::Authorization;
use kodi_remote::autoplay::{next_action, tick_decision, LoopState, PollOutcome, TickAction};
use kodi_remote::client::{Config, RpcClient};
use kodi_remote::error::RpcError;
use kodi_remote::select::{select_random_show_name, select_show, ShowMappings};

#[test]
fn credential_is_deterministic() {
    let first = Authorization::new("alice", "secret");
    let second = Authorization::new("alice", "secret");
    assert_eq!(first.auth_header_value(), second.auth_header_value());
}

#[test]
fn credential_has_the_basic_scheme_shape() {
    let auth = Authorization::new("alice", "secret");
    assert_eq!(auth.auth_header_value().as_str(), "Basic YWxpY2U6c2VjcmV0");
}

#[test]
fn client_builds_credential_and_endpoint() {
    let client = RpcClient::new(Config {
        url: "http://kodi.local:8080".to_string(),
        username: "u".to_string(),
        password: "p".to_string(),
    });
    assert_eq!(client.auth.auth_header_value().as_str(), "Basic dTpw");
    assert_eq!(client.endpoint_url(), "http://kodi.local:8080/jsonrpc");
}

fn bob_mapping() -> ShowMappings {
    ShowMappings {
        entries: vec![(
            "bob".to_string(),
            vec!["ShowA".to_string(), "ShowB".to_string()],
        )],
    }
}

#[test]
fn selection_for_known_user_stays_in_their_list() {
    let mapping = bob_mapping();
    for _ in 0..50 {
        let show = select_show("bob", &mapping).unwrap();
        assert!(show == "ShowA" || show == "ShowB");
    }
}

#[test]
fn selection_for_unknown_user_is_user_not_found() {
    assert_eq!(select_show("carol", &bob_mapping()), Err(RpcError::UserNotFound));
}

#[test]
fn selection_from_empty_list_is_no_shows_for_user() {
    let mapping = ShowMappings { entries: vec![("dan".to_string(), vec![])] };
    assert_eq!(select_show("dan", &mapping), Err(RpcError::NoShowsForUser));
}

#[test]
fn random_show_name_comes_from_the_list() {
    let shows = vec!["ShowA".to_string(), "ShowB".to_string()];
    for _ in 0..50 {
        let show = select_random_show_name(&shows).unwrap();
        assert!(show.as_str() == "ShowA" || show.as_str() == "ShowB");
    }
    let empty: Vec<String> = vec![];
    assert!(select_random_show_name(&empty).is_none());
}

#[test]
fn idle_tick_starts_playback() {
    let mut state = LoopState::new();
    assert_eq!(next_action(&mut state, PollOutcome::Idle), TickAction::StartPlayback);
}

#[test]
fn unreachable_appliance_keeps_the_loop_polling() {
    let mut state = LoopState::new();
    let before = state;
    assert_eq!(next_action(&mut state, PollOutcome::Unreachable), TickAction::LogAndContinue);
    assert_eq!(state, before);
}

#[test]
fn failed_poll_is_survived_and_idle_poll_plays() {
    let mut state = LoopState::new();
    let before = state;
    assert_eq!(
        tick_decision(&mut state, Err(RpcError::Transport)),
        TickAction::LogAndContinue
    );
    assert_eq!(state, before);
    assert_eq!(
        tick_decision(&mut state, Err(RpcError::Protocol)),
        TickAction::LogAndContinue
    );
    assert_eq!(state, before);
    assert_eq!(tick_decision(&mut state, Ok(false)), TickAction::StartPlayback);
    assert_eq!(tick_decision(&mut state, Ok(true)), TickAction::Heartbeat);
}

#[test]
fn heartbeat_fires_every_sixty_active_ticks() {
    let mut state = LoopState::new();
    assert_eq!(next_action(&mut state, PollOutcome::Active), TickAction::Heartbeat);
    for _ in 0..59 {
        assert_eq!(next_action(&mut state, PollOutcome::Active), TickAction::Quiet);
    }
    assert_eq!(next_action(&mut state, PollOutcome::Active), TickAction::Heartbeat);
}
