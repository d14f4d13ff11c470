//! What goes over the wire to the notification sink and to the heartbeat
//! monitor: the body of a webhook message and the address of a heartbeat.

use crate::alert::{Notification, NotificationView};
use crate::text::{decimal, push_decimal};
use vstd::prelude::*;

verus! {

/// Whether a heartbeat reports how long the scan of the cycle took.
pub const HEARTBEAT_REPORTS_LATENCY: bool = true;

/// The JSON string literal that the json crate writes for `s`, quotes and
/// escapes included.
pub uninterp spec fn json_text(s: Seq<char>) -> Seq<char>;

/// Calls `json::stringify` on a string. Trusted: the literal it writes is a
/// function of the string alone.
#[verifier::external_body]
fn encode_text(s: &str) -> (literal: String)
    ensures
        literal@ == json_text(s@),
{
    json::stringify(s)
}

/// The body of a webhook message, from the JSON literals of its avatar
/// address, title and description: one object that names the sender and
/// holds the alert as its only embed.
pub open spec fn payload_text(
    avatar: Seq<char>,
    title: Seq<char>,
    description: Seq<char>,
    color: u64,
) -> Seq<char> {
    "{\"username\":\"TF2-Alert\",\"avatar_url\":"@ + avatar
        + ",\"contents\":\"ALERT\",\"embeds\":[{\"title\":"@ + title + ",\"description\":"@
        + description + ",\"color\":"@ + decimal(color as nat) + "}]}"@
}

/// Lays out the body of a webhook message from the JSON literals of its
/// avatar address, title and description.
pub fn assemble_payload(avatar: &str, title: &str, description: &str, color: u64) -> (body: String)
    ensures
        body@ == payload_text(avatar@, title@, description@, color),
{
    let mut body = String::new();
    body.append("{\"username\":\"TF2-Alert\",\"avatar_url\":");
    body.append(avatar);
    body.append(",\"contents\":\"ALERT\",\"embeds\":[{\"title\":");
    body.append(title);
    body.append(",\"description\":");
    body.append(description);
    body.append(",\"color\":");
    push_decimal(&mut body, color);
    body.append("}]}");
    assert(body@ =~= payload_text(avatar@, title@, description@, color));
    body
}

/// The body of the webhook message that carries `alert`, shown with the
/// avatar at `image`.
pub open spec fn webhook_body(image: Seq<char>, alert: NotificationView) -> Seq<char> {
    payload_text(
        json_text(image),
        json_text(alert.title),
        json_text(alert.description),
        alert.color,
    )
}

/// Builds the JSON body of the webhook message that carries `alert`.
pub fn webhook_payload(image: &str, alert: &Notification) -> (body: String)
    ensures
        body@ == webhook_body(image@, alert@),
{
    let avatar = encode_text(image);
    let title = encode_text(alert.title.as_str());
    let description = encode_text(alert.description.as_str());
    assemble_payload(avatar.as_str(), title.as_str(), description.as_str(), alert.color)
}

/// The address a heartbeat is sent to: the configured one, followed by the
/// scan latency in milliseconds where it is reported.
pub open spec fn heartbeat_address(url: Seq<char>, latency_ms: Option<u64>) -> Seq<char> {
    match latency_ms {
        Some(ms) => url + decimal(ms as nat),
        None => url,
    }
}

/// Builds the address a heartbeat is sent to.
pub fn heartbeat_target(url: &str, latency_ms: Option<u64>) -> (target: String)
    ensures
        target@ == heartbeat_address(url@, latency_ms),
{
    let mut target = url.to_owned();
    match latency_ms {
        Some(ms) => {
            push_decimal(&mut target, ms);
        },
        None => {},
    }
    target
}

} // verus!
