//! The settings history of one server over consecutive polls: what the scanner
//! remembers and what the reconciler has stored, poll after poll.

use crate::events::ServerEventView;
use crate::reconcile::{
    server_event_writes, settings_row, writes_of_server_event, StorageWriteView,
};
use crate::records::ServerSettingsRow;
use crate::scan::{info_after, info_events};
use crate::settings::{matches_record, same_tracked, settings_changed, ServerInfoView};
use vstd::prelude::*;

verus! {

/// The settings rows among `writes`, in their order.
pub open spec fn settings_rows_in(writes: Seq<StorageWriteView>) -> Seq<ServerSettingsRow>
    decreases writes.len(),
{
    if writes.len() == 0 {
        Seq::empty()
    } else {
        let earlier = settings_rows_in(writes.drop_last());
        match writes.last() {
            StorageWriteView::Settings(row) => earlier.push(row),
            _ => earlier,
        }
    }
}

/// The latest row of a settings history, if it has any.
pub open spec fn latest(stored: Seq<ServerSettingsRow>) -> Option<ServerSettingsRow> {
    if stored.len() > 0 {
        Some(stored.last())
    } else {
        None
    }
}

/// What is remembered and what is stored after one more poll, answered with
/// `info` at time `now`: the scanner raises its events against what it
/// remembers and against the latest stored row, and the reconciler appends
/// the settings rows those events bring.
pub open spec fn after_poll(
    server_id: i32,
    remembered: Option<ServerInfoView>,
    stored: Seq<ServerSettingsRow>,
    info: ServerInfoView,
    now: i64,
) -> (Option<ServerInfoView>, Seq<ServerSettingsRow>) {
    let events = info_events(remembered, latest(stored), Some(info));
    (
        info_after(remembered, Some(info)),
        stored + settings_rows_in(server_event_writes(server_id, events, now)),
    )
}

/// What is remembered and what is stored after `n` consecutive polls that
/// were all answered with `info`, poll `k` at time `times[k]`, starting from
/// `remembered` and `stored`.
pub open spec fn after_polls(
    server_id: i32,
    remembered: Option<ServerInfoView>,
    stored: Seq<ServerSettingsRow>,
    info: ServerInfoView,
    times: Seq<i64>,
    n: nat,
) -> (Option<ServerInfoView>, Seq<ServerSettingsRow>)
    decreases n,
{
    if n == 0 {
        (remembered, stored)
    } else {
        let before = after_polls(server_id, remembered, stored, info, times, (n - 1) as nat);
        after_poll(server_id, before.0, before.1, info, times[n - 1])
    }
}

/// The settings rows that the events of one answered info query bring: the
/// row of the answer where the detector saw a change, none otherwise.
pub proof fn lemma_rows_of_one_poll(
    server_id: i32,
    remembered: Option<ServerInfoView>,
    persisted: Option<ServerSettingsRow>,
    info: ServerInfoView,
    now: i64,
)
    ensures
        settings_rows_in(
            server_event_writes(server_id, info_events(remembered, persisted, Some(info)), now),
        ) == if settings_changed(info, remembered, persisted) {
            seq![settings_row(server_id, info, now)]
        } else {
            Seq::<ServerSettingsRow>::empty()
        },
{
    let events = info_events(remembered, persisted, Some(info));
    let up = ServerEventView::Up;
    let change = ServerEventView::SettingsChanged(info);
    let row = settings_row(server_id, info, now);
    reveal_with_fuel(server_event_writes, 3);
    reveal_with_fuel(settings_rows_in, 4);
    if settings_changed(info, remembered, persisted) {
        assert(events =~= seq![change, up]);
        assert(events.drop_last() =~= seq![change]);
        assert(events.drop_last().drop_last() =~= Seq::empty());
        let writes = server_event_writes(server_id, events, now);
        assert(writes =~= writes_of_server_event(server_id, change, now) + writes_of_server_event(
            server_id,
            up,
            now,
        ));
        assert(writes.len() == 3);
        assert(writes.drop_last().len() == 2);
        assert(writes.drop_last().drop_last().len() == 1);
        assert(writes.drop_last().drop_last().drop_last().len() == 0);
        assert(writes[1] == StorageWriteView::Settings(row));
        assert(settings_rows_in(writes) =~= seq![row]);
    } else {
        assert(events =~= seq![up]);
        assert(events.drop_last() =~= Seq::empty());
        let writes = server_event_writes(server_id, events, now);
        assert(writes =~= writes_of_server_event(server_id, up, now));
        assert(writes.len() == 1);
        assert(writes.drop_last().len() == 0);
        assert(settings_rows_in(writes) =~= Seq::empty());
    }
}

/// Once a server has been polled, further polls with the same answer store
/// nothing: after any number of them the history is what it was after the
/// first.
pub proof fn lemma_repeated_answer_stores_nothing(
    server_id: i32,
    remembered: Option<ServerInfoView>,
    stored: Seq<ServerSettingsRow>,
    info: ServerInfoView,
    times: Seq<i64>,
    n: nat,
)
    requires
        1 <= n <= times.len(),
    ensures
        after_polls(server_id, remembered, stored, info, times, n) == after_polls(
            server_id,
            remembered,
            stored,
            info,
            times,
            1,
        ),
        after_polls(server_id, remembered, stored, info, times, n).0 == Some(info),
    decreases n,
{
    reveal_with_fuel(after_polls, 2);
    if n > 1 {
        lemma_repeated_answer_stores_nothing(
            server_id,
            remembered,
            stored,
            info,
            times,
            (n - 1) as nat,
        );
        let before = after_polls(server_id, remembered, stored, info, times, (n - 1) as nat);
        lemma_rows_of_one_poll(server_id, before.0, latest(before.1), info, times[n - 1]);
        assert(same_tracked(info, info));
        assert(before.1 + Seq::<ServerSettingsRow>::empty() =~= before.1);
    }
}

/// A server that was never seen and is then polled `n` times with the same
/// answer has exactly one settings row, the one of the first poll.
pub proof fn lemma_unchanged_info_stored_once(
    server_id: i32,
    info: ServerInfoView,
    times: Seq<i64>,
    n: nat,
)
    requires
        1 <= n <= times.len(),
    ensures
        after_polls(server_id, None, Seq::empty(), info, times, n).1 == seq![
            settings_row(server_id, info, times[0]),
        ],
{
    reveal_with_fuel(after_polls, 2);
    lemma_repeated_answer_stores_nothing(server_id, None, Seq::empty(), info, times, n);
    lemma_rows_of_one_poll(server_id, None, None, info, times[0]);
    assert(Seq::<ServerSettingsRow>::empty() + seq![settings_row(server_id, info, times[0])]
        =~= seq![settings_row(server_id, info, times[0])]);
}

/// After a restart nothing is remembered; where the latest stored row agrees
/// with the answer on the tracked fields, polling `n` times with that answer
/// stores nothing.
pub proof fn lemma_restart_stores_nothing(
    server_id: i32,
    stored: Seq<ServerSettingsRow>,
    info: ServerInfoView,
    times: Seq<i64>,
    n: nat,
)
    requires
        1 <= n <= times.len(),
        stored.len() > 0,
        matches_record(info, stored.last()),
    ensures
        after_polls(server_id, None, stored, info, times, n).1 == stored,
{
    reveal_with_fuel(after_polls, 2);
    lemma_repeated_answer_stores_nothing(server_id, None, stored, info, times, n);
    lemma_rows_of_one_poll(server_id, None, latest(stored), info, times[0]);
    assert(stored + Seq::<ServerSettingsRow>::empty() =~= stored);
}

} // verus!
