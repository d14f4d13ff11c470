//! Alerts: the notifications raised when a watched player joins or leaves.

use crate::events::{PlayerEvent, PlayerEventView};
use crate::roster::{PlayerSnapshot, SnapshotView};
use crate::settings::{info_ref_view, ServerInfo, ServerInfoView};
use crate::text::{clock_text, push_clock, push_signed_decimal, signed_decimal};
use vstd::prelude::*;

verus! {

/// Colour of the alert for a watched player who joined: red.
pub const JOIN_COLOR: u64 = 16711680;

/// Colour of the alert for a watched player who left.
pub const LEAVE_COLOR: u64 = 22230;

/// A message for the notification sink.
#[derive(Debug, Clone, PartialEq, Eq)]
pub struct Notification {
    pub title: String,
    pub description: String,
    /// RGB colour.
    pub color: u64,
}

/// Mathematical value of a [`Notification`].
pub struct NotificationView {
    pub title: Seq<char>,
    pub description: Seq<char>,
    pub color: u64,
}

impl View for Notification {
    type V = NotificationView;

    open spec fn view(&self) -> NotificationView {
        NotificationView { title: self.title@, description: self.description@, color: self.color }
    }
}

/// How a server is named in an alert: its name and map where its metadata
/// was fetched in this scan.
pub open spec fn server_label(info: Option<ServerInfoView>) -> Seq<char> {
    match info {
        Some(i) => i.name + " : "@ + i.map,
        None => "Unknown name : Unknown map"@,
    }
}

/// The text of the alert for a watched player who joined.
pub open spec fn join_description(
    p: SnapshotView,
    info: Option<ServerInfoView>,
    address: Seq<char>,
) -> Seq<char> {
    "__**"@ + p.name + "**__ Detected in server \n("@ + server_label(info) + " : "@ + address
        + ")"@
}

/// The text of the alert for a watched player who left: as for a join, with
/// the score and the time spent on the server.
pub open spec fn leave_description(
    p: SnapshotView,
    info: Option<ServerInfoView>,
    address: Seq<char>,
) -> Seq<char> {
    "__**"@ + p.name + "**__ Left the server \n("@ + server_label(info) + " : "@ + address
        + ")\nPoints: "@ + signed_decimal(p.score as int) + ", Duration: "@ + clock_text(
        p.duration as nat,
    )
}

/// The notification an event raises: one for each join or leave of a watched
/// player, none for any other event.
pub open spec fn alert_of(
    e: PlayerEventView,
    info: Option<ServerInfoView>,
    address: Seq<char>,
) -> Option<NotificationView> {
    match e {
        PlayerEventView::TargetJoined(p) => Some(
            NotificationView {
                title: "🚨🚨🚨 Alert."@,
                description: join_description(p, info, address),
                color: JOIN_COLOR,
            },
        ),
        PlayerEventView::TargetLeft(p) => Some(
            NotificationView {
                title: "🦀🦀🦀 Runner."@,
                description: leave_description(p, info, address),
                color: LEAVE_COLOR,
            },
        ),
        _ => None,
    }
}

/// View of an optional notification.
pub open spec fn notification_view(n: Option<Notification>) -> Option<NotificationView> {
    match n {
        Some(n) => Some(n@),
        None => None,
    }
}

fn push_server_label(out: &mut String, info: Option<&ServerInfo>)
    ensures
        final(out)@ == old(out)@ + server_label(info_ref_view(info)),
{
    match info {
        Some(i) => {
            out.append(i.name.as_str());
            out.append(" : ");
            out.append(i.map.as_str());
            assert(out@ =~= old(out)@ + (i.name@ + " : "@ + i.map@));
        },
        None => {
            out.append("Unknown name : Unknown map");
        },
    }
}

fn describe_join(player: &PlayerSnapshot, info: Option<&ServerInfo>, address: &str) -> (text:
    String)
    ensures
        text@ == join_description(player@, info_ref_view(info), address@),
{
    let mut text = String::new();
    text.append("__**");
    text.append(player.name.as_str());
    text.append("**__ Detected in server \n(");
    push_server_label(&mut text, info);
    text.append(" : ");
    text.append(address);
    text.append(")");
    assert(text@ =~= join_description(player@, info_ref_view(info), address@));
    text
}

fn describe_leave(player: &PlayerSnapshot, info: Option<&ServerInfo>, address: &str) -> (text:
    String)
    ensures
        text@ == leave_description(player@, info_ref_view(info), address@),
{
    let mut text = String::new();
    text.append("__**");
    text.append(player.name.as_str());
    text.append("**__ Left the server \n(");
    push_server_label(&mut text, info);
    text.append(" : ");
    text.append(address);
    text.append(")\nPoints: ");
    push_signed_decimal(&mut text, player.score as i64);
    text.append(", Duration: ");
    push_clock(&mut text, player.duration);
    assert(text@ =~= leave_description(player@, info_ref_view(info), address@));
    text
}

/// Composes the notification that `event` raises on the server at `address`,
/// whose metadata of this scan is `info` where the info query was answered.
pub fn alert_for(event: &PlayerEvent, info: Option<&ServerInfo>, address: &str) -> (alert: Option<
    Notification,
>)
    ensures
        notification_view(alert) == alert_of(event@, info_ref_view(info), address@),
{
    match event {
        PlayerEvent::TargetJoined(player) => Some(
            Notification {
                title: "🚨🚨🚨 Alert.".to_owned(),
                description: describe_join(player, info, address),
                color: JOIN_COLOR,
            },
        ),
        PlayerEvent::TargetLeft(player) => Some(
            Notification {
                title: "🦀🦀🦀 Runner.".to_owned(),
                description: describe_leave(player, info, address),
                color: LEAVE_COLOR,
            },
        ),
        _ => None,
    }
}

} // verus!
