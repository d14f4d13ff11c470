//! Rows of the storage schema. Surrogate ids are assigned by the store; a row
//! that has not been written yet carries `0`. Timestamps are whole seconds
//! since 1970-01-01 00:00:00.

use vstd::prelude::*;

verus! {

/// `servers(server_id, address unique)`.
#[derive(Debug, Clone, PartialEq, Eq)]
pub struct Server {
    pub server_id: i32,
    pub address: String,
}

/// `server_settings(...)`: one row per observed change, never updated.
#[derive(Debug, Clone, PartialEq, Eq)]
pub struct ServerSettings {
    pub setting_id: i32,
    pub server_id: i32,
    pub name: String,
    pub max_players: i32,
    pub current_map: String,
    pub vac_status: bool,
    pub has_password: bool,
    pub game_version: String,
    pub bots: u8,
    pub created_at: i64,
}

/// `entities(entity_id, name unique)`.
#[derive(Debug, Clone, PartialEq, Eq)]
pub struct Player {
    pub player_id: i32,
    pub name: String,
}

/// `sessions(...)`: one row per observed leave.
#[derive(Debug, Clone, Copy, PartialEq, Eq)]
pub struct Session {
    pub session_id: i32,
    pub server_id: i32,
    pub player_id: i32,
    pub score: i32,
    /// Whole seconds between `joined_at` and `left_at`.
    pub duration: u64,
    pub joined_at: i64,
    pub left_at: i64,
}

/// `server_events(...)`.
#[derive(Debug, Clone, PartialEq, Eq)]
pub struct ServerEvent {
    pub event_id: i32,
    pub server_id: i32,
    pub event_type: String,
    pub event_data: String,
    pub created_at: i64,
}

/// `player_events(...)`.
#[derive(Debug, Clone, PartialEq, Eq)]
pub struct PlayerEvent {
    pub event_id: i32,
    pub server_id: i32,
    pub player_id: i32,
    pub event_type: String,
    pub event_data: String,
    pub created_at: i64,
}

/// Mathematical value of a [`Server`].
pub struct ServerRow {
    pub server_id: i32,
    pub address: Seq<char>,
}

/// Mathematical value of a [`ServerSettings`].
pub struct ServerSettingsRow {
    pub setting_id: i32,
    pub server_id: i32,
    pub name: Seq<char>,
    pub max_players: i32,
    pub current_map: Seq<char>,
    pub vac_status: bool,
    pub has_password: bool,
    pub game_version: Seq<char>,
    pub bots: u8,
    pub created_at: i64,
}

/// Mathematical value of a [`Player`].
pub struct PlayerRow {
    pub player_id: i32,
    pub name: Seq<char>,
}

/// Mathematical value of a [`ServerEvent`].
pub struct ServerEventRow {
    pub event_id: i32,
    pub server_id: i32,
    pub event_type: Seq<char>,
    pub event_data: Seq<char>,
    pub created_at: i64,
}

/// Mathematical value of a [`PlayerEvent`].
pub struct PlayerEventRow {
    pub event_id: i32,
    pub server_id: i32,
    pub player_id: i32,
    pub event_type: Seq<char>,
    pub event_data: Seq<char>,
    pub created_at: i64,
}

impl View for Server {
    type V = ServerRow;

    open spec fn view(&self) -> ServerRow {
        ServerRow { server_id: self.server_id, address: self.address@ }
    }
}

impl DeepView for Server {
    type V = ServerRow;

    open spec fn deep_view(&self) -> ServerRow {
        self@
    }
}

impl View for ServerSettings {
    type V = ServerSettingsRow;

    open spec fn view(&self) -> ServerSettingsRow {
        ServerSettingsRow {
            setting_id: self.setting_id,
            server_id: self.server_id,
            name: self.name@,
            max_players: self.max_players,
            current_map: self.current_map@,
            vac_status: self.vac_status,
            has_password: self.has_password,
            game_version: self.game_version@,
            bots: self.bots,
            created_at: self.created_at,
        }
    }
}

impl View for Player {
    type V = PlayerRow;

    open spec fn view(&self) -> PlayerRow {
        PlayerRow { player_id: self.player_id, name: self.name@ }
    }
}

impl DeepView for Player {
    type V = PlayerRow;

    open spec fn deep_view(&self) -> PlayerRow {
        self@
    }
}

impl View for Session {
    type V = Session;

    open spec fn view(&self) -> Session {
        *self
    }
}

impl View for ServerEvent {
    type V = ServerEventRow;

    open spec fn view(&self) -> ServerEventRow {
        ServerEventRow {
            event_id: self.event_id,
            server_id: self.server_id,
            event_type: self.event_type@,
            event_data: self.event_data@,
            created_at: self.created_at,
        }
    }
}

impl View for PlayerEvent {
    type V = PlayerEventRow;

    open spec fn view(&self) -> PlayerEventRow {
        PlayerEventRow {
            event_id: self.event_id,
            server_id: self.server_id,
            player_id: self.player_id,
            event_type: self.event_type@,
            event_data: self.event_data@,
            created_at: self.created_at,
        }
    }
}

} // verus!
