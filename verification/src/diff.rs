//! The diff engine: two consecutive rosters of one endpoint in, typed events out.

use crate::events::{PlayerEvent, PlayerEventView};
use crate::roster::{find_player, has_name, lookup, PlayerSnapshot, SnapshotView};
use vstd::prelude::*;

verus! {

/// The event raised for one entry `p` of the current roster: nothing for an
/// empty name, a join when the name is new, a point update when the name was
/// present with another score.
pub open spec fn arrival(
    previous: Seq<SnapshotView>,
    p: SnapshotView,
    watchlist: Seq<Seq<char>>,
) -> Option<PlayerEventView> {
    if p.name.len() == 0 {
        None
    } else {
        match lookup(previous, p.name) {
            None => Some(
                if watchlist.contains(p.name) {
                    PlayerEventView::TargetJoined(p)
                } else {
                    PlayerEventView::PlayerJoined(p)
                },
            ),
            Some(before) => if before.score != p.score {
                Some(PlayerEventView::PointUpdate(p, p.score))
            } else {
                None
            },
        }
    }
}

/// The event raised for one entry `p` of the previous roster: a leave when the
/// name is non-empty and gone.
pub open spec fn departure(
    current: Seq<SnapshotView>,
    p: SnapshotView,
    watchlist: Seq<Seq<char>>,
) -> Option<PlayerEventView> {
    if p.name.len() == 0 || has_name(current, p.name) {
        None
    } else {
        Some(
            if watchlist.contains(p.name) {
                PlayerEventView::TargetLeft(p)
            } else {
                PlayerEventView::PlayerLeft(p)
            },
        )
    }
}

/// Joins and point updates, in the order of the current roster.
pub open spec fn arrivals(
    previous: Seq<SnapshotView>,
    current: Seq<SnapshotView>,
    watchlist: Seq<Seq<char>>,
) -> Seq<PlayerEventView>
    decreases current.len(),
{
    if current.len() == 0 {
        Seq::empty()
    } else {
        let earlier = arrivals(previous, current.drop_last(), watchlist);
        match arrival(previous, current.last(), watchlist) {
            Some(e) => earlier.push(e),
            None => earlier,
        }
    }
}

/// Leaves, in the order of the previous roster. `gone` is the part of the
/// previous roster considered.
pub open spec fn departures(
    gone: Seq<SnapshotView>,
    current: Seq<SnapshotView>,
    watchlist: Seq<Seq<char>>,
) -> Seq<PlayerEventView>
    decreases gone.len(),
{
    if gone.len() == 0 {
        Seq::empty()
    } else {
        let earlier = departures(gone.drop_last(), current, watchlist);
        match departure(current, gone.last(), watchlist) {
            Some(e) => earlier.push(e),
            None => earlier,
        }
    }
}

/// The event stream of one diff: every join and point update in current-roster
/// order, then every leave in previous-roster order.
pub open spec fn roster_diff(
    previous: Seq<SnapshotView>,
    current: Seq<SnapshotView>,
    watchlist: Seq<Seq<char>>,
) -> Seq<PlayerEventView> {
    arrivals(previous, current, watchlist) + departures(previous, current, watchlist)
}

/// Whether `name` is on the list.
pub fn contains_name(list: &Vec<String>, name: &String) -> (found: bool)
    ensures
        found == list.deep_view().contains(name@),
{
    let ghost view = list.deep_view();
    let mut i: usize = 0;
    while i < list.len()
        invariant
            i <= list.len(),
            view == list.deep_view(),
            forall|j: int| 0 <= j < i ==> view[j] != name@,
        decreases list.len() - i,
    {
        if list[i] == *name {
            assert(view[i as int] == name@);
            return true;
        }
        assert(view[i as int] == list[i as int]@);
        i += 1;
    }
    false
}

/// Compares the previous and the current roster of one endpoint.
pub fn generate_player_events(
    previous_players: &Vec<PlayerSnapshot>,
    current_players: &Vec<PlayerSnapshot>,
    target_players: &Vec<String>,
) -> (events: Vec<PlayerEvent>)
    ensures
        events.deep_view() == roster_diff(
            previous_players.deep_view(),
            current_players.deep_view(),
            target_players.deep_view(),
        ),
        forall|i: int|
            0 <= i < events.len() ==> (#[trigger] events.deep_view()[i]).player().name.len() > 0,
        forall|i: int|
            0 <= i < events.len() ==> variant_follows_watchlist(
                #[trigger] events.deep_view()[i],
                target_players.deep_view(),
            ),
{
    let ghost previous = previous_players.deep_view();
    let ghost current = current_players.deep_view();
    let ghost watchlist = target_players.deep_view();
    let mut events: Vec<PlayerEvent> = Vec::new();

    let mut i: usize = 0;
    assert(current.take(0) =~= Seq::empty());
    assert(events.deep_view() =~= Seq::empty());
    while i < current_players.len()
        invariant
            i <= current_players.len(),
            previous == previous_players.deep_view(),
            current == current_players.deep_view(),
            watchlist == target_players.deep_view(),
            events.deep_view() == arrivals(previous, current.take(i as int), watchlist),
        decreases current_players.len() - i,
    {
        let player = &current_players[i];
        let ghost before = events.deep_view();
        proof {
            let upto = current.take(i as int + 1);
            assert(upto.drop_last() =~= current.take(i as int));
            assert(upto.last() == player@);
        }
        if !player.name.as_str().is_empty() {
            match find_player(previous_players, &player.name) {
                None => {
                    if contains_name(target_players, &player.name) {
                        events.push(PlayerEvent::TargetJoined(player.clone()));
                    } else {
                        events.push(PlayerEvent::PlayerJoined(player.clone()));
                    }
                    assert(events.deep_view() =~= before.push(
                        arrival(previous, player@, watchlist).unwrap(),
                    ));
                },
                Some(earlier) => {
                    if player.score != earlier.score {
                        events.push(PlayerEvent::PointUpdate(player.clone(), player.score));
                        assert(events.deep_view() =~= before.push(
                            arrival(previous, player@, watchlist).unwrap(),
                        ));
                    }
                },
            }
        }
        i += 1;
    }
    assert(current.take(i as int) =~= current);

    let ghost joined = events.deep_view();
    let mut k: usize = 0;
    assert(previous.take(0) =~= Seq::empty());
    assert(departures(previous.take(0), current, watchlist) =~= Seq::empty());
    assert(joined + Seq::empty() =~= joined);
    while k < previous_players.len()
        invariant
            k <= previous_players.len(),
            previous == previous_players.deep_view(),
            current == current_players.deep_view(),
            watchlist == target_players.deep_view(),
            joined == arrivals(previous, current, watchlist),
            events.deep_view() == joined + departures(previous.take(k as int), current, watchlist),
        decreases previous_players.len() - k,
    {
        let player = &previous_players[k];
        let ghost before = events.deep_view();
        proof {
            let upto = previous.take(k as int + 1);
            assert(upto.drop_last() =~= previous.take(k as int));
            assert(upto.last() == player@);
        }
        if !player.name.as_str().is_empty() {
            if find_player(current_players, &player.name).is_none() {
                if contains_name(target_players, &player.name) {
                    events.push(PlayerEvent::TargetLeft(player.clone()));
                } else {
                    events.push(PlayerEvent::PlayerLeft(player.clone()));
                }
                assert(events.deep_view() =~= before.push(
                    departure(current, player@, watchlist).unwrap(),
                ));
            }
        }
        assert(events.deep_view() =~= joined + departures(
            previous.take(k as int + 1),
            current,
            watchlist,
        ));
        k += 1;
    }
    assert(previous.take(k as int) =~= previous);
    proof {
        lemma_no_empty_names(previous, current, watchlist);
        lemma_watchlist_decides_variant(previous, current, watchlist);
        let all = roster_diff(previous, current, watchlist);
        assert forall|i: int| 0 <= i < events.len() implies variant_follows_watchlist(
            #[trigger] events.deep_view()[i],
            watchlist,
        ) by {
            assert(variant_follows_watchlist(all[i], watchlist));
        }
    }
    events
}

/// A join or leave is of the watched kind exactly when its name is on the
/// watchlist; a point update is never of the watched kind.
pub open spec fn variant_follows_watchlist(e: PlayerEventView, watchlist: Seq<Seq<char>>) -> bool {
    if e.is_join() || e.is_leave() {
        e.is_target() <==> watchlist.contains(e.player().name)
    } else {
        !e.is_target()
    }
}

/// What holds of every event raised for an entry of the current roster.
spec fn arrival_sound(e: PlayerEventView, watchlist: Seq<Seq<char>>) -> bool {
    &&& e.player().name.len() > 0
    &&& !e.is_leave()
    &&& variant_follows_watchlist(e, watchlist)
}

/// What holds of every event raised for an entry of the previous roster.
spec fn departure_sound(e: PlayerEventView, watchlist: Seq<Seq<char>>) -> bool {
    &&& e.player().name.len() > 0
    &&& e.is_leave()
    &&& variant_follows_watchlist(e, watchlist)
}

proof fn lemma_arrivals_sound(
    previous: Seq<SnapshotView>,
    current: Seq<SnapshotView>,
    watchlist: Seq<Seq<char>>,
)
    ensures
        forall|i: int|
            0 <= i < arrivals(previous, current, watchlist).len() ==> arrival_sound(
                #[trigger] arrivals(previous, current, watchlist)[i],
                watchlist,
            ),
    decreases current.len(),
{
    if current.len() > 0 {
        lemma_arrivals_sound(previous, current.drop_last(), watchlist);
        let all = arrivals(previous, current, watchlist);
        let earlier = arrivals(previous, current.drop_last(), watchlist);
        assert forall|i: int| 0 <= i < all.len() implies arrival_sound(
            #[trigger] all[i],
            watchlist,
        ) by {
            if i < earlier.len() {
                assert(all[i] == earlier[i]);
            } else {
                assert(arrival(previous, current.last(), watchlist) == Some(all[i]));
            }
        }
    }
}

proof fn lemma_departures_sound(
    gone: Seq<SnapshotView>,
    current: Seq<SnapshotView>,
    watchlist: Seq<Seq<char>>,
)
    ensures
        forall|i: int|
            0 <= i < departures(gone, current, watchlist).len() ==> departure_sound(
                #[trigger] departures(gone, current, watchlist)[i],
                watchlist,
            ),
    decreases gone.len(),
{
    if gone.len() > 0 {
        lemma_departures_sound(gone.drop_last(), current, watchlist);
        let all = departures(gone, current, watchlist);
        let earlier = departures(gone.drop_last(), current, watchlist);
        assert forall|i: int| 0 <= i < all.len() implies departure_sound(
            #[trigger] all[i],
            watchlist,
        ) by {
            if i < earlier.len() {
                assert(all[i] == earlier[i]);
            } else {
                assert(departure(current, gone.last(), watchlist) == Some(all[i]));
            }
        }
    }
}

/// No event of a diff carries an empty name, whatever the rosters hold.
pub proof fn lemma_no_empty_names(
    previous: Seq<SnapshotView>,
    current: Seq<SnapshotView>,
    watchlist: Seq<Seq<char>>,
)
    ensures
        forall|i: int|
            0 <= i < roster_diff(previous, current, watchlist).len() ==> (#[trigger] roster_diff(
                previous,
                current,
                watchlist,
            )[i]).player().name.len() > 0,
{
    lemma_arrivals_sound(previous, current, watchlist);
    lemma_departures_sound(previous, current, watchlist);
}

/// Watchlist membership alone decides between the plain and the watched
/// variant of every join and leave of a diff.
pub proof fn lemma_watchlist_decides_variant(
    previous: Seq<SnapshotView>,
    current: Seq<SnapshotView>,
    watchlist: Seq<Seq<char>>,
)
    ensures
        forall|i: int|
            0 <= i < roster_diff(previous, current, watchlist).len() ==> variant_follows_watchlist(
                #[trigger] roster_diff(previous, current, watchlist)[i],
                watchlist,
            ),
{
    lemma_arrivals_sound(previous, current, watchlist);
    lemma_departures_sound(previous, current, watchlist);
}

/// Joins and point updates come first, in current-roster order; leaves follow.
pub proof fn lemma_leaves_come_last(
    previous: Seq<SnapshotView>,
    current: Seq<SnapshotView>,
    watchlist: Seq<Seq<char>>,
)
    ensures
        forall|i: int, j: int|
            0 <= i < j < roster_diff(previous, current, watchlist).len() && (#[trigger] roster_diff(
                previous,
                current,
                watchlist,
            )[i]).is_leave() ==> (#[trigger] roster_diff(previous, current, watchlist)[j]).is_leave(),
{
    lemma_arrivals_sound(previous, current, watchlist);
    lemma_departures_sound(previous, current, watchlist);
}


/// The predicate "carries `name`" on events.
pub open spec fn carries(name: Seq<char>) -> spec_fn(PlayerEventView) -> bool {
    |e: PlayerEventView| e.player().name == name
}

/// The events of `events` that carry `name`, in their order.
pub open spec fn events_named(events: Seq<PlayerEventView>, name: Seq<char>) -> Seq<
    PlayerEventView,
> {
    events.filter(carries(name))
}

/// Entry `i` of `roster` carries `name` and no other entry does.
pub open spec fn only_at(roster: Seq<SnapshotView>, name: Seq<char>, i: int) -> bool {
    &&& 0 <= i < roster.len()
    &&& roster[i].name == name
    &&& forall|j: int| 0 <= j < roster.len() && j != i ==> (#[trigger] roster[j]).name != name
}

/// The join raised for `p`.
pub open spec fn join_of(p: SnapshotView, watchlist: Seq<Seq<char>>) -> PlayerEventView {
    if watchlist.contains(p.name) {
        PlayerEventView::TargetJoined(p)
    } else {
        PlayerEventView::PlayerJoined(p)
    }
}

/// The leave raised for `p`.
pub open spec fn leave_of(p: SnapshotView, watchlist: Seq<Seq<char>>) -> PlayerEventView {
    if watchlist.contains(p.name) {
        PlayerEventView::TargetLeft(p)
    } else {
        PlayerEventView::PlayerLeft(p)
    }
}

/// Zero or one event as a sequence.
spec fn as_seq(e: Option<PlayerEventView>) -> Seq<PlayerEventView> {
    match e {
        Some(e) => seq![e],
        None => Seq::empty(),
    }
}

proof fn lemma_named_push(events: Seq<PlayerEventView>, e: PlayerEventView, name: Seq<char>)
    ensures
        events_named(events.push(e), name) == if e.player().name == name {
            events_named(events, name).push(e)
        } else {
            events_named(events, name)
        },
{
    reveal(Seq::filter);
    assert(events.push(e).drop_last() =~= events);
}

proof fn lemma_named_empty(name: Seq<char>)
    ensures
        events_named(Seq::empty(), name) == Seq::<PlayerEventView>::empty(),
{
    reveal(Seq::filter);
}

proof fn lemma_arrivals_of_absent_name(
    previous: Seq<SnapshotView>,
    current: Seq<SnapshotView>,
    watchlist: Seq<Seq<char>>,
    name: Seq<char>,
)
    requires
        !has_name(current, name),
    ensures
        events_named(arrivals(previous, current, watchlist), name) == Seq::<
            PlayerEventView,
        >::empty(),
    decreases current.len(),
{
    if current.len() == 0 {
        lemma_named_empty(name);
    } else {
        let rest = current.drop_last();
        assert forall|j: int| 0 <= j < rest.len() implies (#[trigger] rest[j]).name != name by {
            assert(current[j].name != name);
        }
        lemma_arrivals_of_absent_name(previous, rest, watchlist, name);
        assert(current[current.len() - 1].name != name);
        match arrival(previous, current.last(), watchlist) {
            Some(e) => {
                lemma_named_push(arrivals(previous, rest, watchlist), e, name);
            },
            None => {},
        }
    }
}

proof fn lemma_arrivals_of_single_name(
    previous: Seq<SnapshotView>,
    current: Seq<SnapshotView>,
    watchlist: Seq<Seq<char>>,
    name: Seq<char>,
    i: int,
)
    requires
        only_at(current, name, i),
    ensures
        events_named(arrivals(previous, current, watchlist), name) == as_seq(
            arrival(previous, current[i], watchlist),
        ),
    decreases current.len(),
{
    let rest = current.drop_last();
    let earlier = arrivals(previous, rest, watchlist);
    if i == current.len() - 1 {
        assert forall|j: int| 0 <= j < rest.len() implies (#[trigger] rest[j]).name != name by {
            assert(current[j].name != name);
        }
        lemma_arrivals_of_absent_name(previous, rest, watchlist, name);
        match arrival(previous, current.last(), watchlist) {
            Some(e) => {
                lemma_named_push(earlier, e, name);
                assert(Seq::<PlayerEventView>::empty().push(e) =~= seq![e]);
            },
            None => {},
        }
    } else {
        assert(only_at(rest, name, i)) by {
            assert forall|j: int| 0 <= j < rest.len() && j != i implies (#[trigger] rest[j]).name
                != name by {
                assert(current[j].name != name);
            }
        }
        lemma_arrivals_of_single_name(previous, rest, watchlist, name, i);
        assert(current[current.len() - 1].name != name);
        match arrival(previous, current.last(), watchlist) {
            Some(e) => {
                lemma_named_push(earlier, e, name);
            },
            None => {},
        }
    }
}

proof fn lemma_departures_of_absent_name(
    gone: Seq<SnapshotView>,
    current: Seq<SnapshotView>,
    watchlist: Seq<Seq<char>>,
    name: Seq<char>,
)
    requires
        !has_name(gone, name),
    ensures
        events_named(departures(gone, current, watchlist), name) == Seq::<
            PlayerEventView,
        >::empty(),
    decreases gone.len(),
{
    if gone.len() == 0 {
        lemma_named_empty(name);
    } else {
        let rest = gone.drop_last();
        assert forall|j: int| 0 <= j < rest.len() implies (#[trigger] rest[j]).name != name by {
            assert(gone[j].name != name);
        }
        lemma_departures_of_absent_name(rest, current, watchlist, name);
        assert(gone[gone.len() - 1].name != name);
        match departure(current, gone.last(), watchlist) {
            Some(e) => {
                lemma_named_push(departures(rest, current, watchlist), e, name);
            },
            None => {},
        }
    }
}

proof fn lemma_departures_of_single_name(
    gone: Seq<SnapshotView>,
    current: Seq<SnapshotView>,
    watchlist: Seq<Seq<char>>,
    name: Seq<char>,
    i: int,
)
    requires
        only_at(gone, name, i),
    ensures
        events_named(departures(gone, current, watchlist), name) == as_seq(
            departure(current, gone[i], watchlist),
        ),
    decreases gone.len(),
{
    let rest = gone.drop_last();
    let earlier = departures(rest, current, watchlist);
    if i == gone.len() - 1 {
        assert forall|j: int| 0 <= j < rest.len() implies (#[trigger] rest[j]).name != name by {
            assert(gone[j].name != name);
        }
        lemma_departures_of_absent_name(rest, current, watchlist, name);
        match departure(current, gone.last(), watchlist) {
            Some(e) => {
                lemma_named_push(earlier, e, name);
                assert(Seq::<PlayerEventView>::empty().push(e) =~= seq![e]);
            },
            None => {},
        }
    } else {
        assert(only_at(rest, name, i)) by {
            assert forall|j: int| 0 <= j < rest.len() && j != i implies (#[trigger] rest[j]).name
                != name by {
                assert(gone[j].name != name);
            }
        }
        lemma_departures_of_single_name(rest, current, watchlist, name, i);
        assert(gone[gone.len() - 1].name != name);
        match departure(current, gone.last(), watchlist) {
            Some(e) => {
                lemma_named_push(earlier, e, name);
            },
            None => {},
        }
    }
}

/// Where a single entry carries `name`, looking the name up finds that entry.
pub proof fn lemma_lookup_single(roster: Seq<SnapshotView>, name: Seq<char>, i: int)
    requires
        only_at(roster, name, i),
    ensures
        has_name(roster, name),
        lookup(roster, name) == Some(roster[i]),
{
    assert(roster[i].name == name);
    assert(crate::roster::is_first_named(roster, name, i));
    let c = choose|c: int| crate::roster::is_first_named(roster, name, c);
    assert(c == i);
}

/// A non-empty name that one entry of the current roster carries, and no entry
/// of the previous roster, yields exactly one event: the join of that entry.
pub proof fn lemma_new_name_joins_once(
    previous: Seq<SnapshotView>,
    current: Seq<SnapshotView>,
    watchlist: Seq<Seq<char>>,
    i: int,
)
    requires
        0 <= i < current.len(),
        current[i].name.len() > 0,
        only_at(current, current[i].name, i),
        !has_name(previous, current[i].name),
    ensures
        events_named(roster_diff(previous, current, watchlist), current[i].name) == seq![
            join_of(current[i], watchlist),
        ],
{
    let name = current[i].name;
    lemma_arrivals_of_single_name(previous, current, watchlist, name, i);
    lemma_departures_of_absent_name(previous, current, watchlist, name);
    Seq::filter_distributes_over_add(
        arrivals(previous, current, watchlist),
        departures(previous, current, watchlist),
        carries(name),
    );
    assert(seq![join_of(current[i], watchlist)] + Seq::empty() =~= seq![
        join_of(current[i], watchlist),
    ]);
}

/// A non-empty name that one entry of the previous roster carries, and no
/// entry of the current roster, yields exactly one event: the leave of that
/// entry.
pub proof fn lemma_gone_name_leaves_once(
    previous: Seq<SnapshotView>,
    current: Seq<SnapshotView>,
    watchlist: Seq<Seq<char>>,
    i: int,
)
    requires
        0 <= i < previous.len(),
        previous[i].name.len() > 0,
        only_at(previous, previous[i].name, i),
        !has_name(current, previous[i].name),
    ensures
        events_named(roster_diff(previous, current, watchlist), previous[i].name) == seq![
            leave_of(previous[i], watchlist),
        ],
{
    let name = previous[i].name;
    lemma_arrivals_of_absent_name(previous, current, watchlist, name);
    lemma_departures_of_single_name(previous, current, watchlist, name, i);
    Seq::filter_distributes_over_add(
        arrivals(previous, current, watchlist),
        departures(previous, current, watchlist),
        carries(name),
    );
    assert(Seq::empty() + seq![leave_of(previous[i], watchlist)] =~= seq![
        leave_of(previous[i], watchlist),
    ]);
}

/// A name that one entry of each roster carries, with the same score in both,
/// yields no event.
pub proof fn lemma_same_score_is_silent(
    previous: Seq<SnapshotView>,
    current: Seq<SnapshotView>,
    watchlist: Seq<Seq<char>>,
    i: int,
    j: int,
)
    requires
        0 <= i < previous.len(),
        0 <= j < current.len(),
        previous[i].name == current[j].name,
        only_at(previous, previous[i].name, i),
        only_at(current, current[j].name, j),
        previous[i].score == current[j].score,
    ensures
        events_named(roster_diff(previous, current, watchlist), current[j].name) == Seq::<
            PlayerEventView,
        >::empty(),
{
    let name = current[j].name;
    lemma_lookup_single(previous, name, i);
    lemma_lookup_single(current, name, j);
    lemma_arrivals_of_single_name(previous, current, watchlist, name, j);
    lemma_departures_of_single_name(previous, current, watchlist, name, i);
    Seq::filter_distributes_over_add(
        arrivals(previous, current, watchlist),
        departures(previous, current, watchlist),
        carries(name),
    );
    assert(Seq::<PlayerEventView>::empty() + Seq::<PlayerEventView>::empty() =~= Seq::<
        PlayerEventView,
    >::empty());
}

/// A non-empty name that one entry of each roster carries, with another score
/// in the current roster, yields exactly one event: the point update with the
/// new score.
pub proof fn lemma_changed_score_updates_once(
    previous: Seq<SnapshotView>,
    current: Seq<SnapshotView>,
    watchlist: Seq<Seq<char>>,
    i: int,
    j: int,
)
    requires
        0 <= i < previous.len(),
        0 <= j < current.len(),
        current[j].name.len() > 0,
        previous[i].name == current[j].name,
        only_at(previous, previous[i].name, i),
        only_at(current, current[j].name, j),
        previous[i].score != current[j].score,
    ensures
        events_named(roster_diff(previous, current, watchlist), current[j].name) == seq![
            PlayerEventView::PointUpdate(current[j], current[j].score),
        ],
{
    let name = current[j].name;
    lemma_lookup_single(previous, name, i);
    lemma_lookup_single(current, name, j);
    lemma_arrivals_of_single_name(previous, current, watchlist, name, j);
    lemma_departures_of_single_name(previous, current, watchlist, name, i);
    Seq::filter_distributes_over_add(
        arrivals(previous, current, watchlist),
        departures(previous, current, watchlist),
        carries(name),
    );
    let update = PlayerEventView::PointUpdate(current[j], current[j].score);
    assert(seq![update] + Seq::empty() =~= seq![update]);
}

/// What an event says of the two rosters it was raised from: a join carries
/// an entry of the current roster whose name the previous one lacks, a leave
/// an entry of the previous roster whose name the current one lacks, and a
/// point update an entry of the current roster whose name the previous one
/// has with another score.
pub open spec fn event_justified(
    e: PlayerEventView,
    previous: Seq<SnapshotView>,
    current: Seq<SnapshotView>,
) -> bool {
    match e {
        PlayerEventView::PlayerJoined(p) | PlayerEventView::TargetJoined(p) => {
            &&& current.contains(p)
            &&& !has_name(previous, p.name)
        },
        PlayerEventView::PlayerLeft(p) | PlayerEventView::TargetLeft(p) => {
            &&& previous.contains(p)
            &&& !has_name(current, p.name)
        },
        PlayerEventView::PointUpdate(p, score) => {
            &&& current.contains(p)
            &&& score == p.score
            &&& lookup(previous, p.name) is Some
            &&& lookup(previous, p.name)->0.score != p.score
        },
    }
}

proof fn lemma_arrivals_justified(
    previous: Seq<SnapshotView>,
    current: Seq<SnapshotView>,
    watchlist: Seq<Seq<char>>,
)
    ensures
        forall|i: int|
            0 <= i < arrivals(previous, current, watchlist).len() ==> event_justified(
                #[trigger] arrivals(previous, current, watchlist)[i],
                previous,
                current,
            ),
    decreases current.len(),
{
    if current.len() > 0 {
        let rest = current.drop_last();
        lemma_arrivals_justified(previous, rest, watchlist);
        let all = arrivals(previous, current, watchlist);
        let earlier = arrivals(previous, rest, watchlist);
        assert forall|i: int| 0 <= i < all.len() implies event_justified(
            #[trigger] all[i],
            previous,
            current,
        ) by {
            if i < earlier.len() {
                assert(all[i] == earlier[i]);
                assert(event_justified(earlier[i], previous, rest));
                let p = earlier[i].player();
                assert(!earlier[i].is_leave()) by {
                    lemma_arrivals_sound(previous, rest, watchlist);
                    assert(arrival_sound(earlier[i], watchlist));
                }
                assert(rest.contains(p));
                let k = choose|k: int| 0 <= k < rest.len() && rest[k] == p;
                assert(current[k] == p);
            } else {
                assert(arrival(previous, current.last(), watchlist) == Some(all[i]));
                assert(current[current.len() - 1] == current.last());
                assert(current.contains(current.last()));
            }
        }
    }
}

proof fn lemma_departures_justified(
    gone: Seq<SnapshotView>,
    current: Seq<SnapshotView>,
    watchlist: Seq<Seq<char>>,
)
    ensures
        forall|i: int|
            0 <= i < departures(gone, current, watchlist).len() ==> {
                let e = #[trigger] departures(gone, current, watchlist)[i];
                &&& e.is_leave()
                &&& gone.contains(e.player())
                &&& !has_name(current, e.player().name)
            },
    decreases gone.len(),
{
    if gone.len() > 0 {
        let rest = gone.drop_last();
        lemma_departures_justified(rest, current, watchlist);
        let all = departures(gone, current, watchlist);
        let earlier = departures(rest, current, watchlist);
        assert forall|i: int| 0 <= i < all.len() implies {
            let e = #[trigger] all[i];
            &&& e.is_leave()
            &&& gone.contains(e.player())
            &&& !has_name(current, e.player().name)
        } by {
            if i < earlier.len() {
                assert(all[i] == earlier[i]);
                let p = earlier[i].player();
                let k = choose|k: int| 0 <= k < rest.len() && rest[k] == p;
                assert(gone[k] == p);
            } else {
                assert(departure(current, gone.last(), watchlist) == Some(all[i]));
                assert(gone[gone.len() - 1] == gone.last());
            }
        }
    }
}

/// Every event of a diff is justified by the two rosters.
pub proof fn lemma_events_justified(
    previous: Seq<SnapshotView>,
    current: Seq<SnapshotView>,
    watchlist: Seq<Seq<char>>,
)
    ensures
        forall|i: int|
            0 <= i < roster_diff(previous, current, watchlist).len() ==> event_justified(
                #[trigger] roster_diff(previous, current, watchlist)[i],
                previous,
                current,
            ),
{
    lemma_arrivals_justified(previous, current, watchlist);
    lemma_departures_justified(previous, current, watchlist);
}

/// No name both joins and leaves in one diff; and a name that both rosters
/// hold raises point updates only.
pub proof fn lemma_no_join_and_leave_for_one_name(
    previous: Seq<SnapshotView>,
    current: Seq<SnapshotView>,
    watchlist: Seq<Seq<char>>,
)
    ensures
        forall|i: int, j: int|
            0 <= i < roster_diff(previous, current, watchlist).len() && 0 <= j < roster_diff(
                previous,
                current,
                watchlist,
            ).len() && (#[trigger] roster_diff(previous, current, watchlist)[i]).is_join()
                && (#[trigger] roster_diff(previous, current, watchlist)[j]).is_leave()
                ==> roster_diff(previous, current, watchlist)[i].player().name != roster_diff(
                previous,
                current,
                watchlist,
            )[j].player().name,
        forall|i: int|
            0 <= i < roster_diff(previous, current, watchlist).len() && has_name(
                previous,
                (#[trigger] roster_diff(previous, current, watchlist)[i]).player().name,
            ) && has_name(current, roster_diff(previous, current, watchlist)[i].player().name)
                ==> roster_diff(previous, current, watchlist)[i] is PointUpdate,
{
    lemma_events_justified(previous, current, watchlist);
    let all = roster_diff(previous, current, watchlist);
    assert forall|i: int, j: int|
        0 <= i < all.len() && 0 <= j < all.len() && (#[trigger] all[i]).is_join()
            && (#[trigger] all[j]).is_leave() implies all[i].player().name
        != all[j].player().name by {
        assert(event_justified(all[i], previous, current));
        assert(event_justified(all[j], previous, current));
        let q = all[j].player();
        let k = choose|k: int| 0 <= k < previous.len() && previous[k] == q;
        assert(previous[k].name == q.name);
    }
    assert forall|i: int|
        0 <= i < all.len() && has_name(previous, (#[trigger] all[i]).player().name) && has_name(
            current,
            all[i].player().name,
        ) implies all[i] is PointUpdate by {
        assert(event_justified(all[i], previous, current));
    }
}

} // verus!
