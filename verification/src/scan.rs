//! The endpoint scanner: what one endpoint remembers between polls, and how
//! the answers of one poll turn into events and into the next memory.

use crate::diff::{generate_player_events, roster_diff};
use crate::events::{PlayerEvent, PlayerEventView, ServerEvent, ServerEventView};
use crate::records::{ServerSettings, ServerSettingsRow};
use crate::roster::{PlayerSnapshot, SnapshotView};
use crate::settings::{
    detect_settings_change, info_view, record_view, settings_changed, ServerInfo, ServerInfoView,
};
use vstd::prelude::*;

verus! {

/// What is remembered of one endpoint from poll to poll: the metadata and the
/// roster that were last fetched successfully.
#[derive(Debug, Clone, PartialEq, Eq)]
pub struct EndpointState {
    pub info: Option<ServerInfo>,
    pub roster: Vec<PlayerSnapshot>,
}

/// Mathematical value of an [`EndpointState`].
pub struct EndpointStateView {
    pub info: Option<ServerInfoView>,
    pub roster: Seq<SnapshotView>,
}

impl View for EndpointState {
    type V = EndpointStateView;

    open spec fn view(&self) -> EndpointStateView {
        EndpointStateView { info: info_view(self.info), roster: self.roster.deep_view() }
    }
}

/// What one scan of one endpoint produced.
#[derive(Debug, Clone, PartialEq, Eq)]
pub struct ScanOutcome {
    pub server_events: Vec<ServerEvent>,
    pub player_events: Vec<PlayerEvent>,
    /// Whether the player query was answered.
    pub roster_fetched: bool,
    /// Length of the fetched roster; zero when there was none.
    pub players_seen: usize,
}

/// Mathematical value of a [`ScanOutcome`].
pub struct ScanOutcomeView {
    pub server_events: Seq<ServerEventView>,
    pub player_events: Seq<PlayerEventView>,
    pub roster_fetched: bool,
    pub players_seen: usize,
}

impl View for ScanOutcome {
    type V = ScanOutcomeView;

    open spec fn view(&self) -> ScanOutcomeView {
        ScanOutcomeView {
            server_events: self.server_events.deep_view(),
            player_events: self.player_events.deep_view(),
            roster_fetched: self.roster_fetched,
            players_seen: self.players_seen,
        }
    }
}

impl DeepView for ScanOutcome {
    type V = ScanOutcomeView;

    open spec fn deep_view(&self) -> ScanOutcomeView {
        self@
    }
}

/// View of an optional fetched roster.
pub open spec fn roster_view(players: Option<Vec<PlayerSnapshot>>) -> Option<Seq<SnapshotView>> {
    match players {
        Some(p) => Some(p.deep_view()),
        None => None,
    }
}

/// The server events of one info query: `Down` for a failed one; for an
/// answered one `Up`, preceded by `SettingsChanged` where the detector says so.
pub open spec fn info_events(
    last_known: Option<ServerInfoView>,
    persisted: Option<ServerSettingsRow>,
    fetched: Option<ServerInfoView>,
) -> Seq<ServerEventView> {
    match fetched {
        Some(info) => if settings_changed(info, last_known, persisted) {
            seq![ServerEventView::SettingsChanged(info), ServerEventView::Up]
        } else {
            seq![ServerEventView::Up]
        },
        None => seq![ServerEventView::Down],
    }
}

/// The metadata remembered after one info query: the answer, or what was
/// remembered before where there was none.
pub open spec fn info_after(
    last_known: Option<ServerInfoView>,
    fetched: Option<ServerInfoView>,
) -> Option<ServerInfoView> {
    match fetched {
        Some(info) => Some(info),
        None => last_known,
    }
}

/// The player events of one player query: the diff against the remembered
/// roster, or none where the query failed.
pub open spec fn roster_events(
    remembered: Seq<SnapshotView>,
    fetched: Option<Seq<SnapshotView>>,
    watchlist: Seq<Seq<char>>,
) -> Seq<PlayerEventView> {
    match fetched {
        Some(current) => roster_diff(remembered, current, watchlist),
        None => Seq::empty(),
    }
}

/// The roster remembered after one player query.
pub open spec fn roster_after(
    remembered: Seq<SnapshotView>,
    fetched: Option<Seq<SnapshotView>>,
) -> Seq<SnapshotView> {
    match fetched {
        Some(current) => current,
        None => remembered,
    }
}

/// The memory after a scan and what the scan produced, from the memory
/// `before` and the two answers.
pub open spec fn scan_result(
    before: EndpointStateView,
    info: Option<ServerInfoView>,
    persisted: Option<ServerSettingsRow>,
    players: Option<Seq<SnapshotView>>,
    watchlist: Seq<Seq<char>>,
) -> (EndpointStateView, ScanOutcomeView) {
    (
        EndpointStateView {
            info: info_after(before.info, info),
            roster: roster_after(before.roster, players),
        },
        ScanOutcomeView {
            server_events: info_events(before.info, persisted, info),
            player_events: roster_events(before.roster, players, watchlist),
            roster_fetched: players.is_some(),
            players_seen: match players {
                Some(current) => current.len() as usize,
                None => 0,
            },
        },
    )
}

impl EndpointState {
    /// The memory of an endpoint that has never been polled.
    pub fn new() -> (state: EndpointState)
        ensures
            state@.info.is_none(),
            state@.roster == Seq::<SnapshotView>::empty(),
    {
        let state = EndpointState { info: None, roster: Vec::new() };
        assert(state.roster.deep_view() =~= Seq::empty());
        state
    }

    /// Takes in the answer of one info query, `None` standing for a failed
    /// one, and returns the server events it raises. `persisted` is the latest
    /// settings row stored for this server, if any; it is consulted only while
    /// no metadata is remembered.
    pub fn observe_info(
        &mut self,
        info: Option<ServerInfo>,
        persisted: Option<&ServerSettings>,
    ) -> (events: Vec<ServerEvent>)
        ensures
            events.deep_view() == info_events(
                old(self)@.info,
                record_view(persisted),
                info_view(info),
            ),
            final(self)@.info == info_after(old(self)@.info, info_view(info)),
            final(self).roster == old(self).roster,
    {
        let mut events: Vec<ServerEvent> = Vec::new();
        match info {
            Some(fresh) => {
                let changed = detect_settings_change(&fresh, self.info.as_ref(), persisted);
                if changed {
                    events.push(ServerEvent::SettingsChanged(fresh.clone()));
                }
                events.push(ServerEvent::Up);
                self.info = Some(fresh);
            },
            None => {
                events.push(ServerEvent::Down);
            },
        }
        assert(events.deep_view() =~= info_events(
            old(self)@.info,
            record_view(persisted),
            info_view(info),
        ));
        events
    }

    /// Takes in the answer of one player query, `None` standing for a failed
    /// one, and returns the player events it raises. A fetched roster replaces
    /// the remembered one; a failed query leaves it as it was.
    pub fn observe_roster(
        &mut self,
        players: Option<Vec<PlayerSnapshot>>,
        target_players: &Vec<String>,
    ) -> (events: Vec<PlayerEvent>)
        ensures
            events.deep_view() == roster_events(
                old(self)@.roster,
                roster_view(players),
                target_players.deep_view(),
            ),
            final(self)@.roster == roster_after(old(self)@.roster, roster_view(players)),
            final(self).info == old(self).info,
    {
        match players {
            Some(current) => {
                let events = generate_player_events(&self.roster, &current, target_players);
                self.roster = current;
                events
            },
            None => {
                let events: Vec<PlayerEvent> = Vec::new();
                assert(events.deep_view() =~= Seq::empty());
                events
            },
        }
    }
}

/// Scans one endpoint: takes in the answers of its info query and of its
/// player query, each `None` where the query failed, and returns what they
/// raise. The two queries are independent: either may fail alone.
pub fn scan_endpoint(
    state: &mut EndpointState,
    info: Option<ServerInfo>,
    persisted: Option<&ServerSettings>,
    players: Option<Vec<PlayerSnapshot>>,
    target_players: &Vec<String>,
) -> (outcome: ScanOutcome)
    ensures
        final(state)@ == scan_result(
            old(state)@,
            info_view(info),
            record_view(persisted),
            roster_view(players),
            target_players.deep_view(),
        ).0,
        outcome@ == scan_result(
            old(state)@,
            info_view(info),
            record_view(persisted),
            roster_view(players),
            target_players.deep_view(),
        ).1,
{
    let roster_fetched = players.is_some();
    let players_seen = match &players {
        Some(current) => current.len(),
        None => 0,
    };
    let server_events = state.observe_info(info, persisted);
    let player_events = state.observe_roster(players, target_players);
    ScanOutcome { server_events, player_events, roster_fetched, players_seen }
}

} // verus!
