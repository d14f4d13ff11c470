//! Transient events of one polling cycle.

use crate::roster::{PlayerSnapshot, SnapshotView};
use crate::settings::{ServerInfo, ServerInfoView};
use vstd::prelude::*;

verus! {

/// What one info query told about a server.
#[derive(Debug, Clone, PartialEq, Eq)]
pub enum ServerEvent {
    /// The info query was answered.
    Up,
    /// The info query failed.
    Down,
    /// A tracked setting differs from the last known value; carries the new metadata.
    SettingsChanged(ServerInfo),
}

/// Mathematical value of a [`ServerEvent`].
pub enum ServerEventView {
    Up,
    Down,
    SettingsChanged(ServerInfoView),
}

impl View for ServerEvent {
    type V = ServerEventView;

    open spec fn view(&self) -> ServerEventView {
        match *self {
            ServerEvent::Up => ServerEventView::Up,
            ServerEvent::Down => ServerEventView::Down,
            ServerEvent::SettingsChanged(info) => ServerEventView::SettingsChanged(info@),
        }
    }
}

impl DeepView for ServerEvent {
    type V = ServerEventView;

    open spec fn deep_view(&self) -> ServerEventView {
        self@
    }
}

/// A transition of one player between two consecutive rosters of an endpoint.
#[derive(Debug, Clone, PartialEq, Eq)]
pub enum PlayerEvent {
    PlayerJoined(PlayerSnapshot),
    PlayerLeft(PlayerSnapshot),
    /// A watched player joined.
    TargetJoined(PlayerSnapshot),
    /// A watched player left.
    TargetLeft(PlayerSnapshot),
    /// The player stayed and the score changed; carries the new score.
    PointUpdate(PlayerSnapshot, i32),
}

/// Mathematical value of a [`PlayerEvent`].
pub enum PlayerEventView {
    PlayerJoined(SnapshotView),
    PlayerLeft(SnapshotView),
    TargetJoined(SnapshotView),
    TargetLeft(SnapshotView),
    PointUpdate(SnapshotView, i32),
}

impl PlayerEventView {
    /// The snapshot the event carries.
    pub open spec fn player(self) -> SnapshotView {
        match self {
            PlayerEventView::PlayerJoined(p) => p,
            PlayerEventView::PlayerLeft(p) => p,
            PlayerEventView::TargetJoined(p) => p,
            PlayerEventView::TargetLeft(p) => p,
            PlayerEventView::PointUpdate(p, _) => p,
        }
    }

    pub open spec fn is_join(self) -> bool {
        self is PlayerJoined || self is TargetJoined
    }

    pub open spec fn is_leave(self) -> bool {
        self is PlayerLeft || self is TargetLeft
    }

    /// The event is one of the two raised for watched players.
    pub open spec fn is_target(self) -> bool {
        self is TargetJoined || self is TargetLeft
    }
}

impl View for PlayerEvent {
    type V = PlayerEventView;

    open spec fn view(&self) -> PlayerEventView {
        match *self {
            PlayerEvent::PlayerJoined(p) => PlayerEventView::PlayerJoined(p@),
            PlayerEvent::PlayerLeft(p) => PlayerEventView::PlayerLeft(p@),
            PlayerEvent::TargetJoined(p) => PlayerEventView::TargetJoined(p@),
            PlayerEvent::TargetLeft(p) => PlayerEventView::TargetLeft(p@),
            PlayerEvent::PointUpdate(p, score) => PlayerEventView::PointUpdate(p@, score),
        }
    }
}

impl DeepView for PlayerEvent {
    type V = PlayerEventView;

    open spec fn deep_view(&self) -> PlayerEventView {
        self@
    }
}

impl PlayerEvent {
    /// The snapshot the event carries.
    pub fn player(&self) -> (p: &PlayerSnapshot)
        ensures
            p@ == self@.player(),
    {
        match self {
            PlayerEvent::PlayerJoined(p) => p,
            PlayerEvent::PlayerLeft(p) => p,
            PlayerEvent::TargetJoined(p) => p,
            PlayerEvent::TargetLeft(p) => p,
            PlayerEvent::PointUpdate(p, _) => p,
        }
    }

    /// Whether the event closes a session.
    pub fn is_leave(&self) -> (leave: bool)
        ensures
            leave == self@.is_leave(),
    {
        match self {
            PlayerEvent::PlayerLeft(_) => true,
            PlayerEvent::TargetLeft(_) => true,
            _ => false,
        }
    }

    /// Whether the event concerns a watched player.
    pub fn is_target(&self) -> (target: bool)
        ensures
            target == self@.is_target(),
    {
        match self {
            PlayerEvent::TargetJoined(_) => true,
            PlayerEvent::TargetLeft(_) => true,
            _ => false,
        }
    }
}

} // verus!
