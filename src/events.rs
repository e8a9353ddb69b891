//! Decisions of the event subscription client: which events to subscribe
//! to, and what each message of the event stream calls for.

use vstd::prelude::*;
use vstd::string::StringExecFns;
use crate::text::same_text;

verus! {

/// The event types subscribed to, each with its version.
pub open spec fn subscription_list() -> Seq<(Seq<char>, Seq<char>)> {
    seq![
        ("channel.follow"@, "2"@),
        ("channel.subscribe"@, "1"@),
        ("channel.subscription.gift"@, "1"@),
        ("channel.subscription.message"@, "1"@),
        ("channel.cheer"@, "1"@),
        ("channel.channel_points_custom_reward_redemption.add"@, "1"@),
        ("channel.hype_train.progress"@, "1"@),
    ]
}

pub fn subscriptions() -> (r: Vec<(String, String)>)
    ensures
        r@.map_values(|p: (String, String)| (p.0@, p.1@)) == subscription_list(),
{
    let mut r: Vec<(String, String)> = Vec::new();
    r.push((String::from_str("channel.follow"), String::from_str("2")));
    r.push((String::from_str("channel.subscribe"), String::from_str("1")));
    r.push((String::from_str("channel.subscription.gift"), String::from_str("1")));
    r.push((String::from_str("channel.subscription.message"), String::from_str("1")));
    r.push((String::from_str("channel.cheer"), String::from_str("1")));
    r.push(
        (
            String::from_str("channel.channel_points_custom_reward_redemption.add"),
            String::from_str("1"),
        ),
    );
    r.push((String::from_str("channel.hype_train.progress"), String::from_str("1")));
    assert(r@.map_values(|p: (String, String)| (p.0@, p.1@)) =~= subscription_list());
    r
}

/// Whether no subscription succeeded, given whether each one did; the
/// stream is of no use then.
pub fn all_subscriptions_failed(results: &Vec<bool>) -> (r: bool)
    ensures
        r == (forall|i: int| 0 <= i < results@.len() ==> !(#[trigger] results@[i])),
{
    let mut i: usize = 0;
    while i < results.len()
        invariant
            i <= results@.len(),
            forall|k: int| 0 <= k < i ==> !(#[trigger] results@[k]),
        decreases results@.len() - i,
    {
        if results[i] {
            return false;
        }
        i = i + 1;
    }
    true
}

/// What a text message of the event stream calls for.
pub enum EventAction {
    /// Subscribe to the events for this session id.
    Subscribe(String),
    /// Drop the connection and connect again.
    Reconnect,
    /// Nothing to do.
    Ignore,
    /// Show this line.
    Show(String),
    /// Show the whole message.
    ShowRaw,
}

pub enum EventActionView {
    Subscribe(Seq<char>),
    Reconnect,
    Ignore,
    Show(Seq<char>),
    ShowRaw,
}

impl View for EventAction {
    type V = EventActionView;

    open spec fn view(&self) -> EventActionView {
        match self {
            EventAction::Subscribe(s) => EventActionView::Subscribe(s@),
            EventAction::Reconnect => EventActionView::Reconnect,
            EventAction::Ignore => EventActionView::Ignore,
            EventAction::Show(s) => EventActionView::Show(s@),
            EventAction::ShowRaw => EventActionView::ShowRaw,
        }
    }
}

/// A welcome names the session to subscribe with (without it, connect
/// again); keep-alives need nothing; a follow notification is shown by the
/// follower's name, `Anonymous` when it has none; anything else is shown
/// whole.
pub open spec fn event_action(
    message_type: Seq<char>,
    session_id: Option<Seq<char>>,
    subscription_type: Seq<char>,
    user_name: Option<Seq<char>>,
) -> EventActionView {
    if message_type == "session_welcome"@ {
        match session_id {
            Some(id) => EventActionView::Subscribe(id),
            None => EventActionView::Reconnect,
        }
    } else if message_type == "session_keepalive"@ {
        EventActionView::Ignore
    } else if message_type == "notification"@ && subscription_type == "channel.follow"@ {
        let user = match user_name {
            Some(u) => u,
            None => "Anonymous"@,
        };
        EventActionView::Show(">> New follow from "@ + user + "."@)
    } else {
        EventActionView::ShowRaw
    }
}

pub open spec fn opt_str(o: Option<&str>) -> Option<Seq<char>> {
    match o {
        Some(s) => Some(s@),
        None => None,
    }
}

/// Decides what a text message of the event stream calls for, from its
/// message type, its session id, its subscription type and the user it
/// names, as far as the message has them.
pub fn classify_event(
    message_type: &str,
    session_id: Option<&str>,
    subscription_type: &str,
    user_name: Option<&str>,
) -> (r: EventAction)
    ensures
        r@ == event_action(message_type@, opt_str(session_id), subscription_type@, opt_str(user_name)),
{
    if same_text(message_type, "session_welcome") {
        match session_id {
            Some(id) => EventAction::Subscribe(String::from_str(id)),
            None => EventAction::Reconnect,
        }
    } else if same_text(message_type, "session_keepalive") {
        EventAction::Ignore
    } else if same_text(message_type, "notification") && same_text(subscription_type, "channel.follow") {
        let user = match user_name {
            Some(u) => u,
            None => "Anonymous",
        };
        let mut line = String::from_str(">> New follow from ");
        line.append(user);
        line.append(".");
        EventAction::Show(line)
    } else {
        EventAction::ShowRaw
    }
}

} // verus!
