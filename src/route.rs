//! What the operator's console shows for each classified chat frame.

use vstd::prelude::*;
use vstd::string::StringExecFns;
use crate::classify::{
    split_tokens, lookup_tag, tag_section, tag_section_of, tag_value, tokens_of, Metadata, MetadataView,
};
use crate::text::{find_from, find_sub, has_prefix, join3, matches_at, same_text, substring, to_chars};

verus! {

/// The tag naming the recipient of a gifted subscription.
pub open spec fn key_recipient() -> Seq<char> {
    "msg-param-recipient-display-name="@
}

/// The line for a `USERNOTICE` with notice id `id` from `user`.
pub open spec fn user_notice_line(
    m: Seq<char>,
    id: Seq<char>,
    user: Seq<char>,
    recipient: Seq<char>,
    body: Seq<char>,
) -> Seq<char> {
    if id == "sub"@ {
        "> "@ + user + " subscribed! "@ + body
    } else if id == "resub"@ {
        "> "@ + user + " resubscribed! "@ + body
    } else if id == "subgift"@ {
        "> "@ + user + " gifted sub to "@ + recipient + "! "@ + body
    } else if id == "submysterygift"@ {
        "> "@ + user + " gifted some subs to random viewers! "@ + body
    } else if id == "primepaidupgrade"@ {
        "> "@ + user + " converted prime sub to standard sub! "@ + body
    } else if id == "giftpaidupgrade"@ {
        "> "@ + user + " continuing sub gifted by another chatter! "@ + body
    } else if id == "communitypayforward"@ {
        "> "@ + user + " is paying forward sub gifted by another chatter! "@ + body
    } else if id == "announcement"@ {
        "> "@ + user + " announced that "@ + body
    } else if id == "raid"@ {
        "> "@ + user + " raided the channel! "@ + body
    } else if id == "viewermilestone"@ {
        "> "@ + user + " did something that fired viewer milestone! "@ + body
    } else {
        m
    }
}

/// The line for a `NOTICE` with notice id `id` about the room's modes.
pub open spec fn room_notice_line(m: Seq<char>, id: Seq<char>) -> Seq<char> {
    if id == "emote_only_on"@ {
        "> This room is now in emote-only mode."@
    } else if id == "emote_only_off"@ {
        "> This room is no longer in emote-only mode."@
    } else if id == "subs_on"@ {
        "> This room is now in subscribers-only mode."@
    } else if id == "subs_off"@ {
        "> This room is no longer in subscribers-only mode."@
    } else if id == "followers_on"@ || id == "followers_on_zero"@ {
        "> This room is now in followers-only mode."@
    } else if id == "followers_off"@ {
        "> This room is no longer in followers-only mode."@
    } else if id == "slow_on"@ {
        "> This room is now in slow mode."@
    } else if id == "slow_off"@ {
        "> This room is no longer in slow mode."@
    } else {
        m
    }
}

/// The position of the last `c` in `s`.
pub open spec fn last_index_of(s: Seq<char>, c: char) -> Option<nat>
    decreases s.len(),
{
    if s.len() == 0 {
        None
    } else if s.last() == c {
        Some((s.len() - 1) as nat)
    } else {
        last_index_of(s.drop_last(), c)
    }
}

/// The line for a `CLEARCHAT`: a ban names the user after the last colon.
pub open spec fn clear_chat_line(m: Seq<char>, body: Seq<char>) -> Seq<char> {
    if has_prefix(m, "@ban-duration"@) {
        let user = match last_index_of(m, ':') {
            Some(i) => m.skip((i + 1) as int),
            None => Seq::empty(),
        };
        "> "@ + user + " got banned!"@
    } else if body.len() > 0 {
        "> "@ + body + " chat messages got cleared"@
    } else {
        "> Chat got cleared"@
    }
}

/// The line for a `CLEARMSG`: the login runs up to the first `;`.
pub open spec fn clear_msg_line(m: Seq<char>) -> Seq<char> {
    if has_prefix(m, "@login="@) {
        let end = match find_sub(m, seq![';'], 0) {
            Some(i) => i as int,
            None => m.len() as int,
        };
        "> "@ + m.subrange(7, end) + " got perma banned!"@
    } else {
        "> Someones messages got cleared"@
    }
}

/// What the console shows for frame `m` with metadata `md`, header `h` and
/// body `b`; nothing for plain chat and for room and user state updates.
/// A frame of a type it does not know is shown whole.
pub open spec fn line_for(m: Seq<char>, md: MetadataView, h: Seq<char>, b: Seq<char>) -> Option<
    Seq<char>,
> {
    let t = md.message_type;
    let user = md.username;
    if t == "PRIVMSG"@ {
        if md.custom_reward_id.len() > 0 {
            Some(
                "> "@ + user + " redeemed custom reward with ID: "@ + md.custom_reward_id + ". "@ + b,
            )
        } else if md.bits.len() > 0 {
            Some("> "@ + user + " cheered with "@ + md.bits + " bits. "@ + b)
        } else {
            None
        }
    } else if t == "USERNOTICE"@ {
        Some(user_notice_line(m, md.msg_id, user, tag_value(tokens_of(tag_section(h)), key_recipient()), b))
    } else if t == "CLEARCHAT"@ {
        Some(clear_chat_line(m, b))
    } else if t == "CLEARMSG"@ {
        Some(clear_msg_line(m))
    } else if t == "NOTICE"@ {
        Some(room_notice_line(m, md.msg_id))
    } else if t == "ROOMSTATE"@ || t == "USERSTATE"@ {
        None
    } else {
        Some(m)
    }
}

pub open spec fn opt_view(o: Option<String>) -> Option<Seq<char>> {
    match o {
        Some(s) => Some(s@),
        None => None,
    }
}

fn user_notice_exec(m: &str, id: &str, user: &str, recipient: &str, body: &str) -> (r: String)
    ensures
        r@ == user_notice_line(m@, id@, user@, recipient@, body@),
{
    let tail = if same_text(id, "sub") {
        " subscribed! "
    } else if same_text(id, "resub") {
        " resubscribed! "
    } else if same_text(id, "subgift") {
        let mut r = join3("> ", user, " gifted sub to ");
        r.append(recipient);
        r.append("! ");
        r.append(body);
        return r;
    } else if same_text(id, "submysterygift") {
        " gifted some subs to random viewers! "
    } else if same_text(id, "primepaidupgrade") {
        " converted prime sub to standard sub! "
    } else if same_text(id, "giftpaidupgrade") {
        " continuing sub gifted by another chatter! "
    } else if same_text(id, "communitypayforward") {
        " is paying forward sub gifted by another chatter! "
    } else if same_text(id, "announcement") {
        " announced that "
    } else if same_text(id, "raid") {
        " raided the channel! "
    } else if same_text(id, "viewermilestone") {
        " did something that fired viewer milestone! "
    } else {
        return String::from_str(m);
    };
    let mut r = join3("> ", user, tail);
    r.append(body);
    r
}

fn room_notice_exec(m: &str, id: &str) -> (r: String)
    ensures
        r@ == room_notice_line(m@, id@),
{
    let line = if same_text(id, "emote_only_on") {
        "> This room is now in emote-only mode."
    } else if same_text(id, "emote_only_off") {
        "> This room is no longer in emote-only mode."
    } else if same_text(id, "subs_on") {
        "> This room is now in subscribers-only mode."
    } else if same_text(id, "subs_off") {
        "> This room is no longer in subscribers-only mode."
    } else if same_text(id, "followers_on") || same_text(id, "followers_on_zero") {
        "> This room is now in followers-only mode."
    } else if same_text(id, "followers_off") {
        "> This room is no longer in followers-only mode."
    } else if same_text(id, "slow_on") {
        "> This room is now in slow mode."
    } else if same_text(id, "slow_off") {
        "> This room is no longer in slow mode."
    } else {
        m
    };
    String::from_str(line)
}

/// The position of the last `c` in `v`.
fn last_index(v: &Vec<char>, c: char) -> (r: Option<usize>)
    ensures
        r matches Some(i) ==> last_index_of(v@, c) == Some(i as nat) && i < v@.len(),
        r is None ==> last_index_of(v@, c) is None,
{
    let mut k: usize = v.len();
    assert(v@.take(k as int) == v@);
    while k > 0
        invariant
            k <= v@.len(),
            last_index_of(v@, c) == last_index_of(v@.take(k as int), c),
        decreases k,
    {
        assert(v@.take(k as int).drop_last() == v@.take(k - 1));
        if v[k - 1] == c {
            return Some(k - 1);
        }
        k = k - 1;
    }
    None
}

fn clear_chat_exec(m: &str, body: &str) -> (r: String)
    ensures
        r@ == clear_chat_line(m@, body@),
{
    let v = to_chars(m);
    let pre = to_chars("@ban-duration");
    if matches_at(&v, &pre, 0) {
        let n = v.len();
        let user = match last_index(&v, ':') {
            Some(i) => substring(&v, i + 1, n),
            None => String::new(),
        };
        assert(last_index_of(v@, ':') matches Some(i) ==> user@ == v@.skip((i + 1) as int));
        join3("> ", user.as_str(), " got banned!")
    } else if !body.is_empty() {
        join3("> ", body, " chat messages got cleared")
    } else {
        String::from_str("> Chat got cleared")
    }
}

fn clear_msg_exec(m: &str) -> (r: String)
    ensures
        r@ == clear_msg_line(m@),
{
    let v = to_chars(m);
    let pre = to_chars("@login=");
    proof {
        reveal_strlit("@login=");
    }
    if matches_at(&v, &pre, 0) {
        let semi = vec![';'];
        assert(semi@ == seq![';']);
        let end = match find_from(&v, &semi, 0) {
            Some(i) => i,
            None => v.len(),
        };
        if end < 7 {
            proof {
                assert(v@[end as int] == ';');
                assert(v@.subrange(0, 7)[end as int] == pre@[end as int]);
            }
        }
        let login = substring(&v, 7, end);
        join3("> ", login.as_str(), " got perma banned!")
    } else {
        String::from_str("> Someones messages got cleared")
    }
}

/// What the console shows for a classified frame: `frame` split by
/// `parse_message` into `header`, `body` and `metadata`.
pub fn describe(frame: &str, metadata: &Metadata, header: &str, body: &str) -> (r: Option<String>)
    ensures
        opt_view(r) == line_for(frame@, metadata@, header@, body@),
{
    let t = metadata.message_type.as_str();
    let user = metadata.username.as_str();
    if same_text(t, "PRIVMSG") {
        if !metadata.custom_reward_id.as_str().is_empty() {
            let mut r = join3("> ", user, " redeemed custom reward with ID: ");
            r.append(metadata.custom_reward_id.as_str());
            r.append(". ");
            r.append(body);
            Some(r)
        } else if !metadata.bits.as_str().is_empty() {
            let mut r = join3("> ", user, " cheered with ");
            r.append(metadata.bits.as_str());
            r.append(" bits. ");
            r.append(body);
            Some(r)
        } else {
            None
        }
    } else if same_text(t, "USERNOTICE") {
        let toks = split_tokens(&tag_section_of(&to_chars(header)));
        let recipient = lookup_tag(&toks, &to_chars("msg-param-recipient-display-name="));
        Some(user_notice_exec(frame, metadata.msg_id.as_str(), user, recipient.as_str(), body))
    } else if same_text(t, "CLEARCHAT") {
        Some(clear_chat_exec(frame, body))
    } else if same_text(t, "CLEARMSG") {
        Some(clear_msg_exec(frame))
    } else if same_text(t, "NOTICE") {
        Some(room_notice_exec(frame, metadata.msg_id.as_str()))
    } else if same_text(t, "ROOMSTATE") || same_text(t, "USERSTATE") {
        None
    } else {
        Some(String::from_str(frame))
    }
}

} // verus!
