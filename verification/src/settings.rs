//! Server metadata and the settings-change detector.

use crate::records::{ServerSettings, ServerSettingsRow};
use vstd::prelude::*;

verus! {

/// Metadata of one server as one info query reported it.
#[derive(Debug, PartialEq, Eq)]
pub struct ServerInfo {
    pub name: String,
    pub map: String,
    pub max_players: u8,
    /// Whether the server is secured by anti-cheat.
    pub vac: bool,
    /// Whether joining needs a password.
    pub visibility: bool,
    pub bots: u8,
    pub version: String,
}

/// Mathematical value of a [`ServerInfo`].
pub struct ServerInfoView {
    pub name: Seq<char>,
    pub map: Seq<char>,
    pub max_players: u8,
    pub vac: bool,
    pub visibility: bool,
    pub bots: u8,
    pub version: Seq<char>,
}

impl View for ServerInfo {
    type V = ServerInfoView;

    open spec fn view(&self) -> ServerInfoView {
        ServerInfoView {
            name: self.name@,
            map: self.map@,
            max_players: self.max_players,
            vac: self.vac,
            visibility: self.visibility,
            bots: self.bots,
            version: self.version@,
        }
    }
}

impl Clone for ServerInfo {
    fn clone(&self) -> (res: Self)
        ensures
            res == *self,
    {
        ServerInfo {
            name: self.name.clone(),
            map: self.map.clone(),
            max_players: self.max_players,
            vac: self.vac,
            visibility: self.visibility,
            bots: self.bots,
            version: self.version.clone(),
        }
    }
}

/// The two snapshots agree on every tracked field: name, map, player limit,
/// anti-cheat flag, password flag and bot count. The version is not tracked.
pub open spec fn same_tracked(a: ServerInfoView, b: ServerInfoView) -> bool {
    &&& a.name == b.name
    &&& a.map == b.map
    &&& a.max_players == b.max_players
    &&& a.vac == b.vac
    &&& a.visibility == b.visibility
    &&& a.bots == b.bots
}

/// The stored row agrees with the snapshot on every tracked field. Row id,
/// server id, version and timestamp play no part.
pub open spec fn matches_record(info: ServerInfoView, row: ServerSettingsRow) -> bool {
    &&& info.name == row.name
    &&& info.map == row.current_map
    &&& info.max_players as int == row.max_players as int
    &&& info.vac == row.vac_status
    &&& info.visibility == row.has_password
    &&& info.bots == row.bots
}

/// Whether `fresh` counts as a settings change. The value held in memory
/// decides when there is one; otherwise the latest stored row decides; a
/// server with neither is always a change.
pub open spec fn settings_changed(
    fresh: ServerInfoView,
    last_known: Option<ServerInfoView>,
    persisted: Option<ServerSettingsRow>,
) -> bool {
    match last_known {
        Some(previous) => !same_tracked(fresh, previous),
        None => match persisted {
            Some(row) => !matches_record(fresh, row),
            None => true,
        },
    }
}

/// View of an optional snapshot.
pub open spec fn info_view(info: Option<ServerInfo>) -> Option<ServerInfoView> {
    match info {
        Some(i) => Some(i@),
        None => None,
    }
}

/// View of an optional borrowed snapshot.
pub open spec fn info_ref_view(info: Option<&ServerInfo>) -> Option<ServerInfoView> {
    match info {
        Some(i) => Some(i@),
        None => None,
    }
}

/// View of an optional borrowed settings row.
pub open spec fn record_view(row: Option<&ServerSettings>) -> Option<ServerSettingsRow> {
    match row {
        Some(r) => Some(r@),
        None => None,
    }
}

impl ServerInfo {
    /// Compares the tracked fields of two snapshots.
    pub fn same_tracked_fields(&self, other: &ServerInfo) -> (same: bool)
        ensures
            same == same_tracked(self@, other@),
    {
        self.name == other.name && self.map == other.map && self.max_players == other.max_players
            && self.vac == other.vac && self.visibility == other.visibility && self.bots
            == other.bots
    }

    /// Compares the tracked fields with a stored settings row.
    pub fn matches_settings_row(&self, row: &ServerSettings) -> (same: bool)
        ensures
            same == matches_record(self@, row@),
    {
        self.name == row.name && self.map == row.current_map && self.max_players as i32
            == row.max_players && self.vac == row.vac_status && self.visibility
            == row.has_password && self.bots == row.bots
    }
}

/// Decides whether a freshly fetched snapshot is a settings change.
pub fn detect_settings_change(
    fresh: &ServerInfo,
    last_known: Option<&ServerInfo>,
    persisted: Option<&ServerSettings>,
) -> (changed: bool)
    ensures
        changed == settings_changed(fresh@, info_ref_view(last_known), record_view(persisted)),
{
    match last_known {
        Some(previous) => !fresh.same_tracked_fields(previous),
        None => match persisted {
            Some(row) => !fresh.matches_settings_row(row),
            None => true,
        },
    }
}

} // verus!
