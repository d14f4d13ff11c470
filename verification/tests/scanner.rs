use tf2_scan::cycle::{summarize, CycleSummary, WORKER_THREADS};
use tf2_scan::events::{PlayerEvent, ServerEvent};
use tf2_scan::records::ServerSettings;
use tf2_scan::roster::PlayerSnapshot;
use tf2_scan::scan::{scan_endpoint, EndpointState, ScanOutcome};
use tf2_scan::settings::{detect_settings_change, ServerInfo};
use tf2_scan::watchlist::{parse_name_list, refresh_targets, reload_targets, same_names};

fn player(name: &str, score: i32, duration: u64) -> PlayerSnapshot {
    PlayerSnapshot { name: name.to_string(), score, duration }
}

fn info(name: &str, map: &str) -> ServerInfo {
    ServerInfo {
        name: name.to_string(),
        map: map.to_string(),
        max_players: 24,
        vac: true,
        visibility: false,
        bots: 0,
        version: "1.0".to_string(),
    }
}

fn stored(name: &str, map: &str) -> ServerSettings {
    ServerSettings {
        setting_id: 17,
        server_id: 3,
        name: name.to_string(),
        max_players: 24,
        current_map: map.to_string(),
        vac_status: true,
        has_password: false,
        game_version: "0.9".to_string(),
        bots: 0,
        created_at: 1_700_000_000,
    }
}

#[test]
fn a_server_never_seen_is_always_a_change() {
    assert!(detect_settings_change(&info("a", "m"), None, None));
}

#[test]
fn remembered_value_decides_before_the_stored_row() {
    let fresh = info("a", "m");
    let same = info("a", "m");
    let other_row = stored("b", "m");
    assert!(!detect_settings_change(&fresh, Some(&same), Some(&other_row)));
    let different = info("a", "other_map");
    let same_row = stored("a", "m");
    assert!(detect_settings_change(&fresh, Some(&different), Some(&same_row)));
}

#[test]
fn stored_row_decides_when_nothing_is_remembered() {
    let fresh = info("a", "m");
    assert!(!detect_settings_change(&fresh, None, Some(&stored("a", "m"))));
    assert!(detect_settings_change(&fresh, None, Some(&stored("a", "n"))));
}

#[test]
fn each_tracked_field_alone_is_a_change() {
    let base = info("a", "m");
    let mut other = info("a", "m");
    other.name = "b".to_string();
    assert!(detect_settings_change(&base, Some(&other), None));
    let mut other = info("a", "m");
    other.map = "n".to_string();
    assert!(detect_settings_change(&base, Some(&other), None));
    let mut other = info("a", "m");
    other.max_players = 32;
    assert!(detect_settings_change(&base, Some(&other), None));
    let mut other = info("a", "m");
    other.vac = false;
    assert!(detect_settings_change(&base, Some(&other), None));
    let mut other = info("a", "m");
    other.visibility = true;
    assert!(detect_settings_change(&base, Some(&other), None));
    let mut other = info("a", "m");
    other.bots = 4;
    assert!(detect_settings_change(&base, Some(&other), None));
}

#[test]
fn each_tracked_field_of_a_stored_row_alone_is_a_change() {
    let base = info("a", "m");
    let mut row = stored("a", "m");
    row.max_players = 25;
    assert!(detect_settings_change(&base, None, Some(&row)));
    let mut row = stored("a", "m");
    row.vac_status = false;
    assert!(detect_settings_change(&base, None, Some(&row)));
    let mut row = stored("a", "m");
    row.has_password = true;
    assert!(detect_settings_change(&base, None, Some(&row)));
    let mut row = stored("a", "m");
    row.bots = 1;
    assert!(detect_settings_change(&base, None, Some(&row)));
    let mut row = stored("a", "m");
    row.max_players = 24 + 256;
    assert!(detect_settings_change(&base, None, Some(&row)));
}

#[test]
fn version_and_row_identity_are_not_tracked() {
    let base = info("a", "m");
    let mut other = info("a", "m");
    other.version = "2.0".to_string();
    assert!(!detect_settings_change(&base, Some(&other), None));
    let mut row = stored("a", "m");
    row.setting_id = 99;
    row.server_id = 98;
    row.created_at = 5;
    row.game_version = "other".to_string();
    assert!(!detect_settings_change(&base, None, Some(&row)));
}

#[test]
fn unchanged_info_raises_no_settings_change_on_the_second_poll() {
    let mut state = EndpointState::new();
    let first = scan_endpoint(&mut state, Some(info("a", "m")), None, None, &vec![]);
    assert_eq!(
        first.server_events,
        vec![ServerEvent::SettingsChanged(info("a", "m")), ServerEvent::Up]
    );
    let second = scan_endpoint(&mut state, Some(info("a", "m")), None, None, &vec![]);
    assert_eq!(second.server_events, vec![ServerEvent::Up]);
}

#[test]
fn changed_info_raises_a_settings_change_with_the_new_metadata() {
    let mut state = EndpointState::new();
    scan_endpoint(&mut state, Some(info("a", "m")), None, None, &vec![]);
    let out = scan_endpoint(&mut state, Some(info("a", "n")), None, None, &vec![]);
    assert_eq!(out.server_events, vec![ServerEvent::SettingsChanged(info("a", "n")), ServerEvent::Up]);
    assert_eq!(state.info, Some(info("a", "n")));
}

#[test]
fn failed_info_query_is_down_and_keeps_what_was_known() {
    let mut state = EndpointState::new();
    scan_endpoint(&mut state, Some(info("a", "m")), None, None, &vec![]);
    let down = scan_endpoint(&mut state, None, None, None, &vec![]);
    assert_eq!(down.server_events, vec![ServerEvent::Down]);
    assert_eq!(state.info, Some(info("a", "m")));
    let back = scan_endpoint(&mut state, Some(info("a", "m")), None, None, &vec![]);
    assert_eq!(back.server_events, vec![ServerEvent::Up]);
}

#[test]
fn first_poll_after_a_restart_consults_the_stored_row() {
    let mut state = EndpointState::new();
    let row = stored("a", "m");
    let out = scan_endpoint(&mut state, Some(info("a", "m")), Some(&row), None, &vec![]);
    assert_eq!(out.server_events, vec![ServerEvent::Up]);
    assert_eq!(state.info, Some(info("a", "m")));
}

#[test]
fn failed_player_query_keeps_the_roster_baseline() {
    let mut state = EndpointState::new();
    let roster = vec![player("alice", 1, 10), player("bob", 2, 20)];
    let first = scan_endpoint(&mut state, None, None, Some(roster.clone()), &vec![]);
    assert_eq!(first.player_events.len(), 2);
    assert!(first.roster_fetched);
    assert_eq!(first.players_seen, 2);

    let failed = scan_endpoint(&mut state, None, None, None, &vec![]);
    assert_eq!(failed.player_events, vec![]);
    assert!(!failed.roster_fetched);
    assert_eq!(failed.players_seen, 0);
    assert_eq!(state.roster, roster);

    let recovered = scan_endpoint(&mut state, None, None, Some(roster.clone()), &vec![]);
    assert_eq!(recovered.player_events, vec![]);
    assert!(recovered.roster_fetched);
}

#[test]
fn the_two_queries_fail_independently() {
    let mut state = EndpointState::new();
    let out = scan_endpoint(&mut state, None, None, Some(vec![player("alice", 0, 5)]), &vec![]);
    assert_eq!(out.server_events, vec![ServerEvent::Down]);
    assert_eq!(out.player_events, vec![PlayerEvent::PlayerJoined(player("alice", 0, 5))]);
    assert_eq!(state.info, None);
    assert_eq!(state.roster, vec![player("alice", 0, 5)]);

    let out = scan_endpoint(&mut state, Some(info("a", "m")), None, None, &vec![]);
    assert_eq!(out.server_events, vec![ServerEvent::SettingsChanged(info("a", "m")), ServerEvent::Up]);
    assert_eq!(out.player_events, vec![]);
    assert_eq!(state.roster, vec![player("alice", 0, 5)]);
}

#[test]
fn scan_uses_the_watchlist() {
    let mut state = EndpointState::new();
    let watch = vec!["alice".to_string()];
    let out = scan_endpoint(&mut state, None, None, Some(vec![player("alice", 0, 5)]), &watch);
    assert_eq!(out.player_events, vec![PlayerEvent::TargetJoined(player("alice", 0, 5))]);
    let out = scan_endpoint(&mut state, None, None, Some(vec![]), &watch);
    assert_eq!(out.player_events, vec![PlayerEvent::TargetLeft(player("alice", 0, 5))]);
}

#[test]
fn observe_info_and_observe_roster_touch_their_own_half() {
    let mut state = EndpointState::new();
    let events = state.observe_roster(Some(vec![player("a", 1, 1)]), &vec![]);
    assert_eq!(events.len(), 1);
    let events = state.observe_info(Some(info("s", "m")), None);
    assert_eq!(events.len(), 2);
    assert_eq!(state.roster, vec![player("a", 1, 1)]);
    let events = state.observe_roster(None, &vec![]);
    assert!(events.is_empty());
    assert_eq!(state.info, Some(info("s", "m")));
}

#[test]
fn new_state_remembers_nothing() {
    let state = EndpointState::new();
    assert_eq!(state.info, None);
    assert!(state.roster.is_empty());
}

#[test]
fn summary_counts_a_cycle() {
    let outcomes = vec![
        ScanOutcome {
            server_events: vec![ServerEvent::SettingsChanged(info("a", "m")), ServerEvent::Up],
            player_events: vec![
                PlayerEvent::PlayerJoined(player("a", 0, 0)),
                PlayerEvent::PlayerJoined(player("b", 0, 0)),
                PlayerEvent::PlayerJoined(player("c", 0, 0)),
            ],
            roster_fetched: true,
            players_seen: 3,
        },
        ScanOutcome {
            server_events: vec![ServerEvent::Down],
            player_events: vec![],
            roster_fetched: false,
            players_seen: 0,
        },
        ScanOutcome {
            server_events: vec![ServerEvent::Up],
            player_events: vec![],
            roster_fetched: true,
            players_seen: 11,
        },
    ];
    assert_eq!(
        summarize(&outcomes),
        CycleSummary { scanned: 3, succeeded: 2, failed: 1, events: 7, players: 14 }
    );
}

#[test]
fn summary_of_no_outcomes_is_all_zero() {
    assert_eq!(
        summarize(&vec![]),
        CycleSummary { scanned: 0, succeeded: 0, failed: 0, events: 0, players: 0 }
    );
}

#[test]
fn summary_player_counter_wraps_around() {
    let one = |n: usize| ScanOutcome {
        server_events: vec![],
        player_events: vec![],
        roster_fetched: true,
        players_seen: n,
    };
    let summary = summarize(&vec![one(usize::MAX), one(3)]);
    assert_eq!(summary.players, 2);
    assert_eq!(summary.succeeded, 2);
}

#[test]
fn worker_pool_is_capped_at_two_hundred() {
    assert_eq!(WORKER_THREADS, 200);
}

#[test]
fn unreadable_watchlist_keeps_the_saved_one() {
    let mut saved = vec!["alice".to_string()];
    assert!(!refresh_targets(&mut saved, None));
    assert_eq!(saved, vec!["alice".to_string()]);
}

#[test]
fn loaded_watchlist_replaces_the_saved_one_as_a_whole() {
    let mut saved = vec!["alice".to_string(), "bob".to_string()];
    assert!(refresh_targets(&mut saved, Some(vec!["carol".to_string()])));
    assert_eq!(saved, vec!["carol".to_string()]);
    assert!(!refresh_targets(&mut saved, Some(vec!["carol".to_string()])));
    assert_eq!(saved, vec!["carol".to_string()]);
    assert!(refresh_targets(&mut saved, Some(vec![])));
    assert!(saved.is_empty());
}

#[test]
fn watchlists_compare_by_value_and_order() {
    let a = vec!["x".to_string(), "y".to_string()];
    assert!(same_names(&a, &vec!["x".to_string(), "y".to_string()]));
    assert!(!same_names(&a, &vec!["y".to_string(), "x".to_string()]));
    assert!(!same_names(&a, &vec!["x".to_string()]));
    assert!(same_names(&vec![], &vec![]));
}

#[test]
fn name_list_has_one_name_per_line() {
    assert_eq!(parse_name_list("alice\nbob\n"), vec!["alice".to_string(), "bob".to_string()]);
    assert_eq!(parse_name_list("alice\nbob"), vec!["alice".to_string(), "bob".to_string()]);
    assert_eq!(parse_name_list("alice\r\nbob\r\n"), vec!["alice".to_string(), "bob".to_string()]);
    assert_eq!(parse_name_list(""), Vec::<String>::new());
    assert_eq!(parse_name_list("\n"), vec!["".to_string()]);
    assert_eq!(parse_name_list("a\n\nb"), vec!["a".to_string(), "".to_string(), "b".to_string()]);
    assert_eq!(parse_name_list("two words \n"), vec!["two words ".to_string()]);
}

#[test]
fn name_list_agrees_with_the_standard_line_splitter() {
    let texts = [
        "",
        "\n",
        "\r",
        "\r\n",
        "\n\n",
        "a",
        "a\r",
        "a\r\n",
        "a\rb",
        "a\r\rb\n",
        "a\r\r\nb",
        "\ra\n\rb",
        "a\n\r",
        "a\n\r\n",
        "x\ny\r\nz\r",
        "🚨 name\nsecond ü\r\n\r\n",
    ];
    for text in texts {
        let expected: Vec<String> = text.lines().map(String::from).collect();
        assert_eq!(parse_name_list(text), expected, "for {:?}", text);
    }
}

#[test]
fn reloading_reads_the_names_and_reports_a_change() {
    let mut saved: Vec<String> = Vec::new();
    assert!(reload_targets(&mut saved, Some("alice\nbob\n")));
    assert_eq!(saved, vec!["alice".to_string(), "bob".to_string()]);
    assert!(!reload_targets(&mut saved, Some("alice\r\nbob")));
    assert!(!reload_targets(&mut saved, None));
    assert_eq!(saved, vec!["alice".to_string(), "bob".to_string()]);
    assert!(reload_targets(&mut saved, Some("")));
    assert!(saved.is_empty());
}
