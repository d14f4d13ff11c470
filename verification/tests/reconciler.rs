use tf2_scan::diff::generate_player_events;
use tf2_scan::events::{PlayerEvent, ServerEvent};
use tf2_scan::reconcile::{
    add_entities, new_player_event_row, new_server_event_row, new_session_row, new_settings_row,
    reconcile_player_events, reconcile_server_events, server_rows, sessions_representable,
    StorageWrite,
};
use tf2_scan::records::{Player, Server, ServerSettings, Session};
use tf2_scan::roster::PlayerSnapshot;
use tf2_scan::scan::{scan_endpoint, EndpointState};
use tf2_scan::settings::ServerInfo;

fn seen(name: &str, score: i32, duration: u64) -> PlayerSnapshot {
    PlayerSnapshot { name: name.to_string(), score, duration }
}

fn metadata(name: &str, map: &str) -> ServerInfo {
    ServerInfo {
        name: name.to_string(),
        map: map.to_string(),
        max_players: 32,
        vac: true,
        visibility: true,
        bots: 2,
        version: "8622567".to_string(),
    }
}

fn server_event(server_id: i32, kind: &str, data: &str, at: i64) -> StorageWrite {
    StorageWrite::ServerEvent(tf2_scan::records::ServerEvent {
        event_id: 0,
        server_id,
        event_type: kind.to_string(),
        event_data: data.to_string(),
        created_at: at,
    })
}

fn player_event(server_id: i32, player_id: i32, kind: &str, data: &str, at: i64) -> StorageWrite {
    StorageWrite::PlayerEvent(tf2_scan::records::PlayerEvent {
        event_id: 0,
        server_id,
        player_id,
        event_type: kind.to_string(),
        event_data: data.to_string(),
        created_at: at,
    })
}

#[test]
fn one_server_row_per_configured_address() {
    let endpoints = vec!["10.0.0.1:27015".to_string(), "10.0.0.2:27015".to_string()];
    assert_eq!(
        server_rows(&endpoints),
        vec![
            Server { server_id: 0, address: "10.0.0.1:27015".to_string() },
            Server { server_id: 0, address: "10.0.0.2:27015".to_string() },
        ]
    );
    assert_eq!(server_rows(&vec![]), vec![]);
}

#[test]
fn up_and_down_become_one_event_row_each() {
    let writes = reconcile_server_events(4, &vec![ServerEvent::Up, ServerEvent::Down], 1000);
    assert_eq!(writes, vec![server_event(4, "up", "", 1000), server_event(4, "down", "", 1000)]);
}

#[test]
fn settings_change_brings_an_event_row_and_a_settings_row() {
    let events = vec![ServerEvent::SettingsChanged(metadata("srv", "cp_dustbowl")), ServerEvent::Up];
    let writes = reconcile_server_events(9, &events, 77);
    assert_eq!(
        writes,
        vec![
            server_event(9, "setting change", "cp_dustbowl", 77),
            StorageWrite::Settings(ServerSettings {
                setting_id: 0,
                server_id: 9,
                name: "srv".to_string(),
                max_players: 32,
                current_map: "cp_dustbowl".to_string(),
                vac_status: true,
                has_password: true,
                game_version: "8622567".to_string(),
                bots: 2,
                created_at: 77,
            }),
            server_event(9, "up", "", 77),
        ]
    );
}

#[test]
fn no_server_events_bring_no_rows() {
    assert_eq!(reconcile_server_events(1, &vec![], 5), vec![]);
    assert_eq!(reconcile_player_events(1, &vec![], &vec![], 5), vec![]);
}

#[test]
fn settings_row_keeps_the_largest_player_limit() {
    let mut info = metadata("srv", "m");
    info.max_players = 255;
    assert_eq!(new_settings_row(1, &info, 0).max_players, 255);
}

#[test]
fn server_event_row_of_each_variant() {
    let up = new_server_event_row(2, &ServerEvent::Up, 10);
    assert_eq!((up.event_type.as_str(), up.event_data.as_str()), ("up", ""));
    let down = new_server_event_row(2, &ServerEvent::Down, 10);
    assert_eq!((down.event_type.as_str(), down.event_data.as_str()), ("down", ""));
    let change = new_server_event_row(2, &ServerEvent::SettingsChanged(metadata("s", "koth")), 10);
    assert_eq!((change.event_type.as_str(), change.event_data.as_str()), ("setting change", "koth"));
    assert_eq!((change.event_id, change.server_id, change.created_at), (0, 2, 10));
}

#[test]
fn player_event_row_of_each_variant() {
    let p = seen("p", -12, 30);
    let row = |e: PlayerEvent| {
        let r = new_player_event_row(5, 6, &e, 7);
        assert_eq!((r.event_id, r.server_id, r.player_id, r.created_at), (0, 5, 6, 7));
        (r.event_type, r.event_data)
    };
    assert_eq!(row(PlayerEvent::PlayerJoined(p.clone())), ("join".to_string(), "".to_string()));
    assert_eq!(row(PlayerEvent::PlayerLeft(p.clone())), ("leave".to_string(), "".to_string()));
    assert_eq!(
        row(PlayerEvent::TargetJoined(p.clone())),
        ("target join".to_string(), "".to_string())
    );
    assert_eq!(
        row(PlayerEvent::TargetLeft(p.clone())),
        ("target leave".to_string(), "".to_string())
    );
    assert_eq!(
        row(PlayerEvent::PointUpdate(p.clone(), -12)),
        ("point change".to_string(), "-12".to_string())
    );
    assert_eq!(
        row(PlayerEvent::PointUpdate(p.clone(), 2147483647)),
        ("point change".to_string(), "2147483647".to_string())
    );
}

#[test]
fn session_starts_duration_seconds_before_it_ends() {
    let row = new_session_row(3, 8, &seen("bob", 3, 120), 1_700_000_000);
    assert_eq!(
        row,
        Session {
            session_id: 0,
            server_id: 3,
            player_id: 8,
            score: 3,
            duration: 120,
            joined_at: 1_699_999_880,
            left_at: 1_700_000_000,
        }
    );
}

#[test]
fn session_of_zero_duration_starts_when_it_ends() {
    let row = new_session_row(1, 1, &seen("x", 0, 0), -5);
    assert_eq!((row.joined_at, row.left_at), (-5, -5));
}

#[test]
fn session_start_may_reach_the_smallest_timestamp() {
    let row = new_session_row(1, 1, &seen("x", 0, u64::MAX), i64::MAX);
    assert_eq!(row.joined_at, i64::MIN);
    let row = new_session_row(1, 1, &seen("x", 0, 1 << 63), 0);
    assert_eq!(row.joined_at, i64::MIN);
}

#[test]
fn watched_leave_produces_one_session_row_with_its_duration() {
    let previous = vec![seen("bob", 3, 120)];
    let events = generate_player_events(&previous, &vec![], &vec!["bob".to_string()]);
    let writes = reconcile_player_events(1, &events, &vec![Some(42)], 500);
    assert_eq!(
        writes,
        vec![
            StorageWrite::Session(Session {
                session_id: 0,
                server_id: 1,
                player_id: 42,
                score: 3,
                duration: 120,
                joined_at: 380,
                left_at: 500,
            }),
            player_event(1, 42, "target leave", "", 500),
        ]
    );
    let sessions = writes.iter().filter(|w| matches!(w, StorageWrite::Session(_))).count();
    assert_eq!(sessions, 1);
}

#[test]
fn every_leave_and_only_a_leave_brings_a_session() {
    let events = vec![
        PlayerEvent::PlayerJoined(seen("a", 0, 1)),
        PlayerEvent::PlayerLeft(seen("b", 1, 10)),
        PlayerEvent::TargetJoined(seen("c", 0, 1)),
        PlayerEvent::PointUpdate(seen("d", 5, 1), 5),
        PlayerEvent::TargetLeft(seen("e", 2, 20)),
    ];
    let ids = vec![Some(1), Some(2), Some(3), Some(4), Some(5)];
    let writes = reconcile_player_events(7, &events, &ids, 100);
    assert_eq!(
        writes,
        vec![
            player_event(7, 1, "join", "", 100),
            StorageWrite::Session(Session {
                session_id: 0,
                server_id: 7,
                player_id: 2,
                score: 1,
                duration: 10,
                joined_at: 90,
                left_at: 100,
            }),
            player_event(7, 2, "leave", "", 100),
            player_event(7, 3, "target join", "", 100),
            player_event(7, 4, "point change", "5", 100),
            StorageWrite::Session(Session {
                session_id: 0,
                server_id: 7,
                player_id: 5,
                score: 2,
                duration: 20,
                joined_at: 80,
                left_at: 100,
            }),
            player_event(7, 5, "target leave", "", 100),
        ]
    );
}

#[test]
fn unresolved_entity_skips_only_its_own_rows() {
    let events = vec![
        PlayerEvent::PlayerLeft(seen("ghost", 1, 10)),
        PlayerEvent::PlayerJoined(seen("a", 0, 1)),
        PlayerEvent::PlayerLeft(seen("late", 1, 10)),
    ];
    let writes = reconcile_player_events(7, &events, &vec![None, Some(3)], 100);
    assert_eq!(writes, vec![player_event(7, 3, "join", "", 100)]);
}

#[test]
fn sessions_that_cannot_start_in_range_are_detected() {
    let events = vec![PlayerEvent::PlayerLeft(seen("x", 0, 10))];
    assert!(sessions_representable(&events, &vec![Some(1)], i64::MIN + 10));
    assert!(!sessions_representable(&events, &vec![Some(1)], i64::MIN + 9));
    assert!(sessions_representable(&events, &vec![None], i64::MIN + 9));
    assert!(sessions_representable(&events, &vec![], i64::MIN + 9));
    let joins = vec![PlayerEvent::PlayerJoined(seen("x", 0, 10))];
    assert!(sessions_representable(&joins, &vec![Some(1)], i64::MIN));
    let long = vec![PlayerEvent::TargetLeft(seen("x", 0, u64::MAX))];
    assert!(sessions_representable(&long, &vec![Some(1)], i64::MAX));
    assert!(!sessions_representable(&long, &vec![Some(1)], i64::MAX - 1));
}

#[test]
fn entities_are_distinct_non_empty_names_in_first_seen_order() {
    let mut rows: Vec<Player> = Vec::new();
    add_entities(&mut rows, &vec![seen("b", 0, 0), seen("", 0, 0), seen("a", 0, 0), seen("b", 9, 9)]);
    assert_eq!(
        rows,
        vec![
            Player { player_id: 0, name: "b".to_string() },
            Player { player_id: 0, name: "a".to_string() },
        ]
    );
    add_entities(&mut rows, &vec![seen("a", 1, 1), seen("c", 0, 0)]);
    assert_eq!(
        rows,
        vec![
            Player { player_id: 0, name: "b".to_string() },
            Player { player_id: 0, name: "a".to_string() },
            Player { player_id: 0, name: "c".to_string() },
        ]
    );
}

#[test]
fn observing_the_same_roster_again_adds_no_entity() {
    let roster = vec![seen("a", 0, 0), seen("b", 0, 0)];
    let mut rows: Vec<Player> = vec![Player { player_id: 31, name: "b".to_string() }];
    add_entities(&mut rows, &roster);
    let once = rows.clone();
    add_entities(&mut rows, &roster);
    assert_eq!(rows, once);
    assert_eq!(
        rows,
        vec![
            Player { player_id: 31, name: "b".to_string() },
            Player { player_id: 0, name: "a".to_string() },
        ]
    );
}

#[test]
fn unchanged_info_over_many_polls_stores_one_settings_row() {
    let mut state = EndpointState::new();
    let mut stored: Vec<ServerSettings> = Vec::new();
    for poll in 0..5 {
        let outcome =
            scan_endpoint(&mut state, Some(metadata("srv", "m")), stored.last(), None, &vec![]);
        for write in reconcile_server_events(1, &outcome.server_events, 1000 + poll) {
            if let StorageWrite::Settings(row) = write {
                stored.push(row);
            }
        }
    }
    assert_eq!(stored.len(), 1);
    assert_eq!(stored[0].created_at, 1000);
    assert_eq!(stored[0].current_map, "m");
}

#[test]
fn restart_with_a_matching_stored_row_stores_nothing() {
    let mut stored = vec![new_settings_row(1, &metadata("srv", "m"), 10)];
    let mut state = EndpointState::new();
    for poll in 0..3 {
        let outcome =
            scan_endpoint(&mut state, Some(metadata("srv", "m")), stored.last(), None, &vec![]);
        for write in reconcile_server_events(1, &outcome.server_events, 1000 + poll) {
            if let StorageWrite::Settings(row) = write {
                stored.push(row);
            }
        }
    }
    assert_eq!(stored.len(), 1);
    assert_eq!(stored[0].created_at, 10);
}
