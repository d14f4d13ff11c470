//! The persistence reconciler: turns what a cycle observed into the rows to
//! store. Nothing here touches a store; every function returns rows, in the
//! order in which they are to be written.

use crate::events::{PlayerEvent, PlayerEventView, ServerEvent, ServerEventView};
use crate::records::{
    Player, PlayerEventRow, PlayerRow, Server, ServerEventRow, ServerRow, ServerSettings,
    ServerSettingsRow, Session,
};
use crate::roster::{PlayerSnapshot, SnapshotView};
use crate::settings::{ServerInfo, ServerInfoView};
use crate::text::{signed_decimal, signed_decimal_string};
use vstd::prelude::*;

verus! {

/// One row to append to the store.
#[derive(Debug, Clone, PartialEq, Eq)]
pub enum StorageWrite {
    ServerEvent(crate::records::ServerEvent),
    Settings(ServerSettings),
    Session(Session),
    PlayerEvent(crate::records::PlayerEvent),
}

/// Mathematical value of a [`StorageWrite`].
pub enum StorageWriteView {
    ServerEvent(ServerEventRow),
    Settings(ServerSettingsRow),
    Session(Session),
    PlayerEvent(PlayerEventRow),
}

impl View for StorageWrite {
    type V = StorageWriteView;

    open spec fn view(&self) -> StorageWriteView {
        match *self {
            StorageWrite::ServerEvent(row) => StorageWriteView::ServerEvent(row@),
            StorageWrite::Settings(row) => StorageWriteView::Settings(row@),
            StorageWrite::Session(row) => StorageWriteView::Session(row),
            StorageWrite::PlayerEvent(row) => StorageWriteView::PlayerEvent(row@),
        }
    }
}

impl DeepView for StorageWrite {
    type V = StorageWriteView;

    open spec fn deep_view(&self) -> StorageWriteView {
        self@
    }
}

/// The server rows to upsert: one per configured address, in order.
pub open spec fn server_rows_of(endpoints: Seq<Seq<char>>) -> Seq<ServerRow> {
    Seq::new(endpoints.len(), |i: int| ServerRow { server_id: 0, address: endpoints[i] })
}

/// Builds the server rows to upsert, one per configured endpoint address.
pub fn server_rows(endpoints: &Vec<String>) -> (rows: Vec<Server>)
    ensures
        rows.deep_view() == server_rows_of(endpoints.deep_view()),
{
    let mut rows: Vec<Server> = Vec::new();
    let mut i: usize = 0;
    while i < endpoints.len()
        invariant
            i <= endpoints.len(),
            rows.len() == i,
            forall|j: int|
                0 <= j < i ==> (#[trigger] rows[j])@ == (ServerRow {
                    server_id: 0,
                    address: endpoints[j]@,
                }),
        decreases endpoints.len() - i,
    {
        rows.push(Server { server_id: 0, address: endpoints[i].clone() });
        i += 1;
    }
    assert(rows.deep_view() =~= server_rows_of(endpoints.deep_view()));
    rows
}

/// The type column of a server event row.
pub open spec fn server_event_type(e: ServerEventView) -> Seq<char> {
    match e {
        ServerEventView::Up => "up"@,
        ServerEventView::Down => "down"@,
        ServerEventView::SettingsChanged(_) => "setting change"@,
    }
}

/// The data column of a server event row: the new map for a settings change,
/// nothing otherwise.
pub open spec fn server_event_data(e: ServerEventView) -> Seq<char> {
    match e {
        ServerEventView::SettingsChanged(info) => info.map,
        _ => Seq::empty(),
    }
}

/// The event row of `e`, observed at `now` on server `server_id`.
pub open spec fn server_event_row(server_id: i32, e: ServerEventView, now: i64) -> ServerEventRow {
    ServerEventRow {
        event_id: 0,
        server_id,
        event_type: server_event_type(e),
        event_data: server_event_data(e),
        created_at: now,
    }
}

/// The settings row that records `info`, observed at `now` on server `server_id`.
pub open spec fn settings_row(server_id: i32, info: ServerInfoView, now: i64) -> ServerSettingsRow {
    ServerSettingsRow {
        setting_id: 0,
        server_id,
        name: info.name,
        max_players: info.max_players as i32,
        current_map: info.map,
        vac_status: info.vac,
        has_password: info.visibility,
        game_version: info.version,
        bots: info.bots,
        created_at: now,
    }
}

/// The rows that one server event brings: its event row, and for a settings
/// change the new settings row after it.
pub open spec fn writes_of_server_event(server_id: i32, e: ServerEventView, now: i64) -> Seq<
    StorageWriteView,
> {
    match e {
        ServerEventView::SettingsChanged(info) => seq![
            StorageWriteView::ServerEvent(server_event_row(server_id, e, now)),
            StorageWriteView::Settings(settings_row(server_id, info, now)),
        ],
        _ => seq![StorageWriteView::ServerEvent(server_event_row(server_id, e, now))],
    }
}

/// The rows that the server events of one endpoint bring, event by event.
pub open spec fn server_event_writes(server_id: i32, events: Seq<ServerEventView>, now: i64) -> Seq<
    StorageWriteView,
>
    decreases events.len(),
{
    if events.len() == 0 {
        Seq::empty()
    } else {
        server_event_writes(server_id, events.drop_last(), now) + writes_of_server_event(
            server_id,
            events.last(),
            now,
        )
    }
}

/// Builds the settings row that records `info`.
pub fn new_settings_row(server_id: i32, info: &ServerInfo, now: i64) -> (row: ServerSettings)
    ensures
        row@ == settings_row(server_id, info@, now),
{
    ServerSettings {
        setting_id: 0,
        server_id,
        name: info.name.clone(),
        max_players: info.max_players as i32,
        current_map: info.map.clone(),
        vac_status: info.vac,
        has_password: info.visibility,
        game_version: info.version.clone(),
        bots: info.bots,
        created_at: now,
    }
}

/// Builds the event row of one server event.
pub fn new_server_event_row(server_id: i32, event: &ServerEvent, now: i64) -> (row:
    crate::records::ServerEvent)
    ensures
        row@ == server_event_row(server_id, event@, now),
{
    let (event_type, event_data) = match event {
        ServerEvent::Up => ("up".to_owned(), String::new()),
        ServerEvent::Down => ("down".to_owned(), String::new()),
        ServerEvent::SettingsChanged(info) => ("setting change".to_owned(), info.map.clone()),
    };
    crate::records::ServerEvent { event_id: 0, server_id, event_type, event_data, created_at: now }
}

/// Turns the server events of one endpoint, whose server row is `server_id`,
/// into the rows to append, stamped with `now`.
pub fn reconcile_server_events(server_id: i32, events: &Vec<ServerEvent>, now: i64) -> (writes:
    Vec<StorageWrite>)
    ensures
        writes.deep_view() == server_event_writes(server_id, events.deep_view(), now),
{
    let ghost all = events.deep_view();
    let mut writes: Vec<StorageWrite> = Vec::new();
    let mut i: usize = 0;
    assert(all.take(0) =~= Seq::empty());
    assert(writes.deep_view() =~= Seq::empty());
    while i < events.len()
        invariant
            i <= events.len(),
            all == events.deep_view(),
            writes.deep_view() == server_event_writes(server_id, all.take(i as int), now),
        decreases events.len() - i,
    {
        let event = &events[i];
        let ghost before = writes.deep_view();
        proof {
            let upto = all.take(i as int + 1);
            assert(upto.drop_last() =~= all.take(i as int));
            assert(upto.last() == event@);
        }
        writes.push(StorageWrite::ServerEvent(new_server_event_row(server_id, event, now)));
        match event {
            ServerEvent::SettingsChanged(info) => {
                writes.push(StorageWrite::Settings(new_settings_row(server_id, info, now)));
            },
            _ => {},
        }
        assert(writes.deep_view() =~= before + writes_of_server_event(server_id, event@, now));
        i += 1;
    }
    assert(all.take(i as int) =~= all);
    writes
}

/// The type column of a player event row.
pub open spec fn player_event_type(e: PlayerEventView) -> Seq<char> {
    match e {
        PlayerEventView::PlayerJoined(_) => "join"@,
        PlayerEventView::PlayerLeft(_) => "leave"@,
        PlayerEventView::TargetJoined(_) => "target join"@,
        PlayerEventView::TargetLeft(_) => "target leave"@,
        PlayerEventView::PointUpdate(_, _) => "point change"@,
    }
}

/// The data column of a player event row: the new score in decimal for a
/// point update, nothing otherwise.
pub open spec fn player_event_data(e: PlayerEventView) -> Seq<char> {
    match e {
        PlayerEventView::PointUpdate(_, score) => signed_decimal(score as int),
        _ => Seq::empty(),
    }
}

/// The event row of `e`, observed at `now` on server `server_id` for the
/// entity `player_id`.
pub open spec fn player_event_row(
    server_id: i32,
    player_id: i32,
    e: PlayerEventView,
    now: i64,
) -> PlayerEventRow {
    PlayerEventRow {
        event_id: 0,
        server_id,
        player_id,
        event_type: player_event_type(e),
        event_data: player_event_data(e),
        created_at: now,
    }
}

/// The session that ends at `now` for a player seen leaving as `p`: it began
/// `p.duration` seconds earlier.
pub open spec fn session_row(server_id: i32, player_id: i32, p: SnapshotView, now: i64) -> Session {
    Session {
        session_id: 0,
        server_id,
        player_id,
        score: p.score,
        duration: p.duration,
        joined_at: (now - p.duration) as i64,
        left_at: now,
    }
}

/// The start of a session that ends at `now` after `duration` seconds can be
/// held in a timestamp.
pub open spec fn session_fits(duration: u64, now: i64) -> bool {
    now - duration >= i64::MIN
}

/// The rows that one player event brings once its entity is resolved: for a
/// leave the session row and then the event row, otherwise the event row. An
/// event whose entity could not be resolved brings nothing.
pub open spec fn writes_of_player_event(
    server_id: i32,
    player_id: Option<i32>,
    e: PlayerEventView,
    now: i64,
) -> Seq<StorageWriteView> {
    match player_id {
        None => Seq::empty(),
        Some(id) => if e.is_leave() {
            seq![
                StorageWriteView::Session(session_row(server_id, id, e.player(), now)),
                StorageWriteView::PlayerEvent(player_event_row(server_id, id, e, now)),
            ]
        } else {
            seq![StorageWriteView::PlayerEvent(player_event_row(server_id, id, e, now))]
        },
    }
}

/// The entity resolved for event `k`: `player_ids[k]`, or none where the list
/// has no such entry.
pub open spec fn resolved_id(player_ids: Seq<Option<i32>>, k: int) -> Option<i32> {
    if 0 <= k < player_ids.len() {
        player_ids[k]
    } else {
        None
    }
}

/// The rows that the first `n` player events of one endpoint bring, event by
/// event.
pub open spec fn player_event_writes(
    server_id: i32,
    events: Seq<PlayerEventView>,
    player_ids: Seq<Option<i32>>,
    now: i64,
    n: int,
) -> Seq<StorageWriteView>
    decreases n,
{
    if n <= 0 {
        Seq::empty()
    } else {
        player_event_writes(server_id, events, player_ids, now, n - 1) + writes_of_player_event(
            server_id,
            resolved_id(player_ids, n - 1),
            events[n - 1],
            now,
        )
    }
}

/// Every leave among `events` whose entity is resolved has a session start
/// that a timestamp can hold.
pub open spec fn sessions_fit(
    events: Seq<PlayerEventView>,
    player_ids: Seq<Option<i32>>,
    now: i64,
) -> bool {
    forall|k: int|
        0 <= k < events.len() && (#[trigger] events[k]).is_leave() && resolved_id(
            player_ids,
            k,
        ).is_some() ==> session_fits(events[k].player().duration, now)
}

/// Builds the session that ends at `now` for a player seen leaving as `player`.
pub fn new_session_row(server_id: i32, player_id: i32, player: &PlayerSnapshot, now: i64) -> (row:
    Session)
    requires
        session_fits(player.duration, now),
    ensures
        row == session_row(server_id, player_id, player@, now),
        row.left_at == now,
        row.joined_at == now - player.duration,
{
    let joined_at: i64 = (now as i128 - player.duration as i128) as i64;
    Session {
        session_id: 0,
        server_id,
        player_id,
        score: player.score,
        duration: player.duration,
        joined_at,
        left_at: now,
    }
}

/// Builds the event row of one player event.
pub fn new_player_event_row(server_id: i32, player_id: i32, event: &PlayerEvent, now: i64) -> (row:
    crate::records::PlayerEvent)
    ensures
        row@ == player_event_row(server_id, player_id, event@, now),
{
    let (event_type, event_data) = match event {
        PlayerEvent::PlayerJoined(_) => ("join".to_owned(), String::new()),
        PlayerEvent::PlayerLeft(_) => ("leave".to_owned(), String::new()),
        PlayerEvent::TargetJoined(_) => ("target join".to_owned(), String::new()),
        PlayerEvent::TargetLeft(_) => ("target leave".to_owned(), String::new()),
        PlayerEvent::PointUpdate(_, score) => (
            "point change".to_owned(),
            signed_decimal_string(*score as i64),
        ),
    };
    crate::records::PlayerEvent {
        event_id: 0,
        server_id,
        player_id,
        event_type,
        event_data,
        created_at: now,
    }
}

/// Tests whether every session that `reconcile_player_events` would build
/// from these arguments has a start that a timestamp can hold.
pub fn sessions_representable(
    events: &Vec<PlayerEvent>,
    player_ids: &Vec<Option<i32>>,
    now: i64,
) -> (fits: bool)
    ensures
        fits == sessions_fit(events.deep_view(), player_ids@, now),
{
    let ghost all = events.deep_view();
    let mut i: usize = 0;
    while i < events.len() && i < player_ids.len()
        invariant
            i <= events.len(),
            i <= player_ids.len(),
            all == events.deep_view(),
            forall|k: int|
                0 <= k < i && (#[trigger] all[k]).is_leave() && resolved_id(player_ids@, k).is_some()
                    ==> session_fits(all[k].player().duration, now),
        decreases events.len() - i,
    {
        let event = &events[i];
        assert(all[i as int] == event@);
        if event.is_leave() && player_ids[i].is_some() {
            let start: i128 = now as i128 - event.player().duration as i128;
            if start < -9223372036854775808i128 {
                return false;
            }
        }
        i += 1;
    }
    true
}

/// Turns the player events of one endpoint, whose server row is `server_id`,
/// into the rows to append, stamped with `now`. `player_ids[k]` is the entity
/// row resolved for the name of `events[k]`, or `None` where none was found;
/// an event without an entry counts as unresolved. An unresolved event is
/// skipped and the others are not affected.
pub fn reconcile_player_events(
    server_id: i32,
    events: &Vec<PlayerEvent>,
    player_ids: &Vec<Option<i32>>,
    now: i64,
) -> (writes: Vec<StorageWrite>)
    requires
        sessions_fit(events.deep_view(), player_ids@, now),
    ensures
        writes.deep_view() == player_event_writes(
            server_id,
            events.deep_view(),
            player_ids@,
            now,
            events.len() as int,
        ),
{
    let ghost all = events.deep_view();
    let mut writes: Vec<StorageWrite> = Vec::new();
    let mut i: usize = 0;
    assert(writes.deep_view() =~= Seq::empty());
    while i < events.len()
        invariant
            i <= events.len(),
            all == events.deep_view(),
            sessions_fit(all, player_ids@, now),
            writes.deep_view() == player_event_writes(server_id, all, player_ids@, now, i as int),
        decreases events.len() - i,
    {
        let event = &events[i];
        let ghost before = writes.deep_view();
        assert(all[i as int] == event@);
        let resolved = if i < player_ids.len() {
            player_ids[i]
        } else {
            None
        };
        match resolved {
            Some(player_id) => {
                if event.is_leave() {
                    writes.push(
                        StorageWrite::Session(
                            new_session_row(server_id, player_id, event.player(), now),
                        ),
                    );
                }
                writes.push(
                    StorageWrite::PlayerEvent(
                        new_player_event_row(server_id, player_id, event, now),
                    ),
                );
            },
            None => {},
        }
        assert(writes.deep_view() =~= before + writes_of_player_event(
            server_id,
            resolved_id(player_ids@, i as int),
            event@,
            now,
        ));
        i += 1;
    }
    writes
}

/// The names to upsert as entities once `roster` has been observed, given
/// those already `known`: each non-empty name of the roster that is not
/// known yet is added once, in the order of its first appearance.
pub open spec fn names_with(known: Seq<Seq<char>>, roster: Seq<SnapshotView>) -> Seq<Seq<char>>
    decreases roster.len(),
{
    if roster.len() == 0 {
        known
    } else {
        let earlier = names_with(known, roster.drop_last());
        let name = roster.last().name;
        if name.len() == 0 || earlier.contains(name) {
            earlier
        } else {
            earlier.push(name)
        }
    }
}

/// The names of a list of entity rows.
pub open spec fn entity_names(rows: Seq<PlayerRow>) -> Seq<Seq<char>> {
    Seq::new(rows.len(), |i: int| rows[i].name)
}

/// Whether some row of `rows` carries `name`.
fn has_entity(rows: &Vec<Player>, name: &String) -> (found: bool)
    ensures
        found == entity_names(rows.deep_view()).contains(name@),
{
    let ghost names = entity_names(rows.deep_view());
    let mut i: usize = 0;
    while i < rows.len()
        invariant
            i <= rows.len(),
            names == entity_names(rows.deep_view()),
            forall|j: int| 0 <= j < i ==> names[j] != name@,
        decreases rows.len() - i,
    {
        if rows[i].name == *name {
            assert(names[i as int] == name@);
            return true;
        }
        assert(names[i as int] == rows[i as int].name@);
        i += 1;
    }
    false
}

/// Adds to `rows` an entity row for each non-empty name of `roster` that has
/// none yet. A name already present is left alone, so observing it again adds
/// nothing.
pub fn add_entities(rows: &mut Vec<Player>, roster: &Vec<PlayerSnapshot>)
    ensures
        entity_names(final(rows).deep_view()) == names_with(
            entity_names(old(rows).deep_view()),
            roster.deep_view(),
        ),
        forall|i: int|
            old(rows).len() <= i < final(rows).len() ==> (#[trigger] final(rows)[i]).player_id == 0,
        forall|i: int| 0 <= i < old(rows).len() ==> (#[trigger] final(rows)[i]) == old(rows)[i],
        old(rows).len() <= final(rows).len(),
{
    let ghost known = entity_names(rows.deep_view());
    let ghost all = roster.deep_view();
    let mut i: usize = 0;
    assert(all.take(0) =~= Seq::empty());
    while i < roster.len()
        invariant
            i <= roster.len(),
            all == roster.deep_view(),
            known == entity_names(old(rows).deep_view()),
            entity_names(rows.deep_view()) == names_with(known, all.take(i as int)),
            old(rows).len() <= rows.len(),
            forall|j: int| old(rows).len() <= j < rows.len() ==> (#[trigger] rows[j]).player_id == 0,
            forall|j: int| 0 <= j < old(rows).len() ==> (#[trigger] rows[j]) == old(rows)[j],
        decreases roster.len() - i,
    {
        let player = &roster[i];
        let ghost before = entity_names(rows.deep_view());
        proof {
            let upto = all.take(i as int + 1);
            assert(upto.drop_last() =~= all.take(i as int));
            assert(upto.last() == player@);
        }
        if !player.name.as_str().is_empty() && !has_entity(rows, &player.name) {
            rows.push(Player { player_id: 0, name: player.name.clone() });
            assert(entity_names(rows.deep_view()) =~= before.push(player.name@));
        }
        i += 1;
    }
    assert(all.take(i as int) =~= all);
}

/// The session rows among `writes`, in their order.
pub open spec fn sessions_in(writes: Seq<StorageWriteView>) -> Seq<Session>
    decreases writes.len(),
{
    if writes.len() == 0 {
        Seq::empty()
    } else {
        let earlier = sessions_in(writes.drop_last());
        match writes.last() {
            StorageWriteView::Session(row) => earlier.push(row),
            _ => earlier,
        }
    }
}

/// The sessions that the first `n` events close: one for each leave whose
/// entity is resolved, in the order of the events.
pub open spec fn sessions_closed(
    server_id: i32,
    events: Seq<PlayerEventView>,
    player_ids: Seq<Option<i32>>,
    now: i64,
    n: int,
) -> Seq<Session>
    decreases n,
{
    if n <= 0 {
        Seq::empty()
    } else {
        let earlier = sessions_closed(server_id, events, player_ids, now, n - 1);
        match resolved_id(player_ids, n - 1) {
            Some(id) => if events[n - 1].is_leave() {
                earlier.push(session_row(server_id, id, events[n - 1].player(), now))
            } else {
                earlier
            },
            None => earlier,
        }
    }
}

proof fn lemma_sessions_in_push(writes: Seq<StorageWriteView>, w: StorageWriteView)
    ensures
        sessions_in(writes.push(w)) == match w {
            StorageWriteView::Session(row) => sessions_in(writes).push(row),
            _ => sessions_in(writes),
        },
{
    assert(writes.push(w).drop_last() =~= writes);
}

/// A session built for a leave seen at `now` ends at `now` and began as many
/// seconds earlier as the player had been connected; it carries the score
/// and the duration of the leave.
pub proof fn lemma_session_spans_the_stay(server_id: i32, player_id: i32, p: SnapshotView, now: i64)
    requires
        session_fits(p.duration, now),
    ensures
        session_row(server_id, player_id, p, now).left_at == now,
        session_row(server_id, player_id, p, now).joined_at == now - p.duration,
        session_row(server_id, player_id, p, now).left_at - session_row(
            server_id,
            player_id,
            p,
            now,
        ).joined_at == p.duration,
        session_row(server_id, player_id, p, now).duration == p.duration,
        session_row(server_id, player_id, p, now).score == p.score,
{
}

/// The session rows that reconciling player events brings are exactly the
/// sessions those events close: one per leave whose entity is resolved, none
/// for any other event.
pub proof fn lemma_one_session_per_leave(
    server_id: i32,
    events: Seq<PlayerEventView>,
    player_ids: Seq<Option<i32>>,
    now: i64,
    n: int,
)
    requires
        n <= events.len(),
    ensures
        sessions_in(player_event_writes(server_id, events, player_ids, now, n)) == sessions_closed(
            server_id,
            events,
            player_ids,
            now,
            n,
        ),
    decreases n,
{
    if n > 0 {
        lemma_one_session_per_leave(server_id, events, player_ids, now, n - 1);
        let earlier = player_event_writes(server_id, events, player_ids, now, n - 1);
        let e = events[n - 1];
        match resolved_id(player_ids, n - 1) {
            Some(id) => {
                let event_write = StorageWriteView::PlayerEvent(
                    player_event_row(server_id, id, e, now),
                );
                if e.is_leave() {
                    let session_write = StorageWriteView::Session(
                        session_row(server_id, id, e.player(), now),
                    );
                    assert(earlier + seq![session_write, event_write] =~= earlier.push(
                        session_write,
                    ).push(event_write));
                    lemma_sessions_in_push(earlier, session_write);
                    lemma_sessions_in_push(earlier.push(session_write), event_write);
                } else {
                    assert(earlier + seq![event_write] =~= earlier.push(event_write));
                    lemma_sessions_in_push(earlier, event_write);
                }
            },
            None => {
                assert(earlier + Seq::<StorageWriteView>::empty() =~= earlier);
            },
        }
    }
}

/// Every session that a batch of events closes ends at `now` and began as
/// many seconds earlier as one of its leaves had lasted.
pub proof fn lemma_closed_sessions_span_their_stays(
    server_id: i32,
    events: Seq<PlayerEventView>,
    player_ids: Seq<Option<i32>>,
    now: i64,
    n: int,
)
    requires
        n <= events.len(),
        sessions_fit(events, player_ids, now),
    ensures
        forall|i: int|
            0 <= i < sessions_closed(server_id, events, player_ids, now, n).len() ==> {
                let s = #[trigger] sessions_closed(server_id, events, player_ids, now, n)[i];
                &&& s.left_at == now
                &&& s.joined_at == now - s.duration
                &&& s.server_id == server_id
            },
    decreases n,
{
    if n > 0 {
        lemma_closed_sessions_span_their_stays(server_id, events, player_ids, now, n - 1);
        let all = sessions_closed(server_id, events, player_ids, now, n);
        let earlier = sessions_closed(server_id, events, player_ids, now, n - 1);
        assert forall|i: int| 0 <= i < all.len() implies {
            let s = #[trigger] all[i];
            &&& s.left_at == now
            &&& s.joined_at == now - s.duration
            &&& s.server_id == server_id
        } by {
            if i < earlier.len() {
                assert(all[i] == earlier[i]);
            } else {
                assert(events[n - 1].is_leave());
                assert(session_fits(events[n - 1].player().duration, now));
            }
        }
    }
}

/// Adding the names of a roster never repeats a name: where the known names
/// are distinct, so are the names afterwards.
pub proof fn lemma_entities_stay_distinct(known: Seq<Seq<char>>, roster: Seq<SnapshotView>)
    requires
        known.no_duplicates(),
    ensures
        names_with(known, roster).no_duplicates(),
    decreases roster.len(),
{
    if roster.len() > 0 {
        lemma_entities_stay_distinct(known, roster.drop_last());
    }
}

/// Adding the names of a roster keeps every known name where it was, adds no
/// empty name, and leaves no non-empty name of the roster out.
pub proof fn lemma_entities_cover_the_roster(known: Seq<Seq<char>>, roster: Seq<SnapshotView>)
    ensures
        known.len() <= names_with(known, roster).len(),
        names_with(known, roster).take(known.len() as int) == known,
        forall|i: int|
            known.len() <= i < names_with(known, roster).len() ==> (#[trigger] names_with(
                known,
                roster,
            )[i]).len() > 0,
        forall|i: int|
            0 <= i < roster.len() && (#[trigger] roster[i]).name.len() > 0 ==> names_with(
                known,
                roster,
            ).contains(roster[i].name),
    decreases roster.len(),
{
    let all = names_with(known, roster);
    if roster.len() == 0 {
        assert(all.take(known.len() as int) =~= known);
    } else {
        let rest = roster.drop_last();
        let earlier = names_with(known, rest);
        lemma_entities_cover_the_roster(known, rest);
        assert(all.take(known.len() as int) =~= earlier.take(known.len() as int));
        assert forall|i: int| 0 <= i < roster.len() && (#[trigger] roster[i]).name.len()
            > 0 implies all.contains(roster[i].name) by {
            if i < rest.len() {
                assert(rest[i] == roster[i]);
                let k = choose|k: int| 0 <= k < earlier.len() && earlier[k] == rest[i].name;
                assert(all[k] == roster[i].name);
            } else {
                let name = roster.last().name;
                if earlier.contains(name) {
                } else {
                    assert(all[earlier.len() as int] == name);
                }
            }
        }
    }
}

/// Observing the same roster again adds no entity.
pub proof fn lemma_entities_idempotent(known: Seq<Seq<char>>, roster: Seq<SnapshotView>)
    ensures
        names_with(names_with(known, roster), roster) == names_with(known, roster),
{
    lemma_entities_cover_the_roster(known, roster);
    lemma_names_with_nothing_new(names_with(known, roster), roster);
}

proof fn lemma_names_with_nothing_new(known: Seq<Seq<char>>, roster: Seq<SnapshotView>)
    requires
        forall|i: int|
            0 <= i < roster.len() && (#[trigger] roster[i]).name.len() > 0 ==> known.contains(
                roster[i].name,
            ),
    ensures
        names_with(known, roster) == known,
    decreases roster.len(),
{
    if roster.len() > 0 {
        let rest = roster.drop_last();
        assert forall|i: int| 0 <= i < rest.len() && (#[trigger] rest[i]).name.len()
            > 0 implies known.contains(rest[i].name) by {
            assert(rest[i] == roster[i]);
        }
        lemma_names_with_nothing_new(known, rest);
        assert(roster.last() == roster[roster.len() - 1]);
    }
}

} // verus!
