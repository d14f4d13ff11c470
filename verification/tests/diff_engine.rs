use tf2_scan::diff::{contains_name, generate_player_events};
use tf2_scan::events::PlayerEvent;
use tf2_scan::roster::{find_player, PlayerSnapshot};

fn snap(name: &str, score: i32, duration: u64) -> PlayerSnapshot {
    PlayerSnapshot { name: name.to_string(), score, duration }
}

fn names(list: &[&str]) -> Vec<String> {
    list.iter().map(|n| n.to_string()).collect()
}

#[test]
fn first_observation_is_a_plain_join() {
    let previous = vec![];
    let current = vec![snap("alice", 0, 5)];
    let events = generate_player_events(&previous, &current, &names(&[]));
    assert_eq!(events, vec![PlayerEvent::PlayerJoined(snap("alice", 0, 5))]);
}

#[test]
fn watched_player_leaving_is_a_target_leave() {
    let previous = vec![snap("bob", 3, 120)];
    let current = vec![];
    let events = generate_player_events(&previous, &current, &names(&["bob"]));
    assert_eq!(events, vec![PlayerEvent::TargetLeft(snap("bob", 3, 120))]);
}

#[test]
fn score_change_is_a_point_update_only() {
    let previous = vec![snap("carol", 1, 60)];
    let current = vec![snap("carol", 2, 65)];
    let events = generate_player_events(&previous, &current, &names(&[]));
    assert_eq!(events, vec![PlayerEvent::PointUpdate(snap("carol", 2, 65), 2)]);
}

#[test]
fn duration_change_alone_raises_nothing() {
    let previous = vec![snap("carol", 1, 60)];
    let current = vec![snap("carol", 1, 9000)];
    let events = generate_player_events(&previous, &current, &names(&["carol"]));
    assert_eq!(events, vec![]);
}

#[test]
fn two_empty_rosters_raise_nothing() {
    let events = generate_player_events(&vec![], &vec![], &names(&["bob"]));
    assert!(events.is_empty());
}

#[test]
fn empty_names_never_raise_events() {
    let previous = vec![snap("", 4, 10), snap("dave", 1, 1)];
    let current = vec![snap("", 7, 20), snap("", 0, 0), snap("erin", 2, 2)];
    let events = generate_player_events(&previous, &current, &names(&[""]));
    assert_eq!(
        events,
        vec![PlayerEvent::PlayerJoined(snap("erin", 2, 2)), PlayerEvent::PlayerLeft(snap("dave", 1, 1))]
    );
    for event in &events {
        assert!(!event.player().name.is_empty());
    }
}

#[test]
fn empty_name_present_only_before_raises_no_leave() {
    let previous = vec![snap("", 4, 10)];
    let events = generate_player_events(&previous, &vec![], &names(&[]));
    assert_eq!(events, vec![]);
}

#[test]
fn watchlist_membership_picks_the_variant() {
    let previous = vec![snap("gone_plain", 1, 10), snap("gone_watched", 2, 20)];
    let current = vec![snap("new_watched", 3, 30), snap("new_plain", 4, 40)];
    let watch = names(&["new_watched", "gone_watched", "absent"]);
    let events = generate_player_events(&previous, &current, &watch);
    assert_eq!(
        events,
        vec![
            PlayerEvent::TargetJoined(snap("new_watched", 3, 30)),
            PlayerEvent::PlayerJoined(snap("new_plain", 4, 40)),
            PlayerEvent::PlayerLeft(snap("gone_plain", 1, 10)),
            PlayerEvent::TargetLeft(snap("gone_watched", 2, 20)),
        ]
    );
    for event in &events {
        let watched = contains_name(&watch, &event.player().name);
        assert_eq!(event.is_target(), watched);
    }
}

#[test]
fn watched_player_with_new_score_gets_a_plain_point_update() {
    let previous = vec![snap("bob", 3, 120)];
    let current = vec![snap("bob", 5, 180)];
    let events = generate_player_events(&previous, &current, &names(&["bob"]));
    assert_eq!(events, vec![PlayerEvent::PointUpdate(snap("bob", 5, 180), 5)]);
    assert!(!events[0].is_target());
}

#[test]
fn joins_and_updates_come_before_leaves() {
    let previous = vec![snap("left_first", 0, 1), snap("stays", 1, 2), snap("left_second", 0, 3)];
    let current = vec![snap("joins_first", 0, 0), snap("stays", 9, 4), snap("joins_second", 0, 0)];
    let events = generate_player_events(&previous, &current, &names(&[]));
    assert_eq!(
        events,
        vec![
            PlayerEvent::PlayerJoined(snap("joins_first", 0, 0)),
            PlayerEvent::PointUpdate(snap("stays", 9, 4), 9),
            PlayerEvent::PlayerJoined(snap("joins_second", 0, 0)),
            PlayerEvent::PlayerLeft(snap("left_first", 0, 1)),
            PlayerEvent::PlayerLeft(snap("left_second", 0, 3)),
        ]
    );
}

#[test]
fn name_in_one_roster_only_yields_exactly_one_event() {
    let previous = vec![snap("a", 1, 1), snap("b", 2, 2), snap("c", 3, 3)];
    let current = vec![snap("b", 2, 20), snap("c", 30, 30), snap("d", 4, 4)];
    let events = generate_player_events(&previous, &current, &names(&[]));
    let count = |name: &str| events.iter().filter(|e| e.player().name == name).count();
    assert_eq!(count("a"), 1);
    assert_eq!(count("b"), 0);
    assert_eq!(count("c"), 1);
    assert_eq!(count("d"), 1);
    assert_eq!(events.len(), 3);
    assert!(events.contains(&PlayerEvent::PlayerLeft(snap("a", 1, 1))));
    assert!(events.contains(&PlayerEvent::PointUpdate(snap("c", 30, 30), 30)));
    assert!(events.contains(&PlayerEvent::PlayerJoined(snap("d", 4, 4))));
}

#[test]
fn duplicate_names_are_each_tested_against_the_first_earlier_entry() {
    let previous = vec![snap("twin", 1, 10), snap("twin", 7, 10)];
    let current = vec![snap("twin", 7, 11), snap("twin", 1, 11)];
    let events = generate_player_events(&previous, &current, &names(&[]));
    assert_eq!(events, vec![PlayerEvent::PointUpdate(snap("twin", 7, 11), 7)]);
}

#[test]
fn duplicate_new_names_each_join() {
    let current = vec![snap("twin", 0, 0), snap("twin", 5, 5)];
    let events = generate_player_events(&vec![], &current, &names(&[]));
    assert_eq!(
        events,
        vec![PlayerEvent::PlayerJoined(snap("twin", 0, 0)), PlayerEvent::PlayerJoined(snap("twin", 5, 5))]
    );
}

#[test]
fn renamed_player_is_a_join_and_a_leave() {
    let previous = vec![snap("old_name", 12, 300)];
    let current = vec![snap("new_name", 12, 305)];
    let events = generate_player_events(&previous, &current, &names(&[]));
    assert_eq!(
        events,
        vec![
            PlayerEvent::PlayerJoined(snap("new_name", 12, 305)),
            PlayerEvent::PlayerLeft(snap("old_name", 12, 300)),
        ]
    );
}

#[test]
fn negative_score_is_carried_as_it_is() {
    let previous = vec![snap("frank", 0, 0)];
    let current = vec![snap("frank", -3, 1)];
    let events = generate_player_events(&previous, &current, &names(&[]));
    assert_eq!(events, vec![PlayerEvent::PointUpdate(snap("frank", -3, 1), -3)]);
}

#[test]
fn find_player_returns_the_first_entry_of_that_name() {
    let roster = vec![snap("x", 1, 1), snap("y", 2, 2), snap("x", 3, 3)];
    assert_eq!(find_player(&roster, &"x".to_string()), Some(&snap("x", 1, 1)));
    assert_eq!(find_player(&roster, &"y".to_string()), Some(&snap("y", 2, 2)));
    assert_eq!(find_player(&roster, &"z".to_string()), None);
    assert_eq!(find_player(&vec![], &"x".to_string()), None);
}

#[test]
fn contains_name_compares_whole_names() {
    let list = names(&["alice", "bob"]);
    assert!(contains_name(&list, &"bob".to_string()));
    assert!(!contains_name(&list, &"bo".to_string()));
    assert!(!contains_name(&list, &"".to_string()));
    assert!(!contains_name(&names(&[]), &"bob".to_string()));
}

#[test]
fn event_accessors_agree_with_the_variant() {
    let p = snap("p", 1, 2);
    assert!(PlayerEvent::PlayerLeft(p.clone()).is_leave());
    assert!(PlayerEvent::TargetLeft(p.clone()).is_leave());
    assert!(!PlayerEvent::PlayerJoined(p.clone()).is_leave());
    assert!(!PlayerEvent::TargetJoined(p.clone()).is_leave());
    assert!(!PlayerEvent::PointUpdate(p.clone(), 1).is_leave());
    assert!(PlayerEvent::TargetJoined(p.clone()).is_target());
    assert!(PlayerEvent::TargetLeft(p.clone()).is_target());
    assert!(!PlayerEvent::PlayerJoined(p.clone()).is_target());
    assert!(!PlayerEvent::PlayerLeft(p.clone()).is_target());
    assert!(!PlayerEvent::PointUpdate(p.clone(), 1).is_target());
    assert_eq!(PlayerEvent::PointUpdate(p.clone(), 1).player(), &p);
}
