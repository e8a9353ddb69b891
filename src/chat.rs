//! Outbound chat lines and the queue they wait in before being sent.

use vstd::prelude::*;
use vstd::string::StringExecFns;
use std::collections::VecDeque;
use crate::classify::Metadata;
use crate::text::same_text;

verus! {

/// The line that posts `text` to the chat of `channel`.
pub open spec fn privmsg_line(channel: Seq<char>, text: Seq<char>) -> Seq<char> {
    "PRIVMSG #"@ + channel + " :"@ + text + "\r\n"@
}

/// The line that posts `text` to `channel` as a reply to message `parent`.
pub open spec fn reply_line(channel: Seq<char>, text: Seq<char>, parent: Seq<char>) -> Seq<char> {
    "@reply-parent-msg-id="@ + parent + " PRIVMSG #"@ + channel + " :"@ + text + "\r\n"@
}

/// The text the bot answers `!bot` with.
pub open spec fn bot_info_text() -> Seq<char> {
    "The bot is under development, you can check it out at https://github.com/Abev08/twitch_bot_v3"@
}

/// Fully formatted lines waiting to be sent, oldest first.
pub struct OutboundQueue {
    lines: VecDeque<String>,
}

impl View for OutboundQueue {
    type V = Seq<Seq<char>>;

    closed spec fn view(&self) -> Seq<Seq<char>> {
        self.lines@.map_values(|s: String| s@)
    }
}

impl OutboundQueue {
    pub fn new() -> (r: OutboundQueue)
        ensures
            r@ == Seq::<Seq<char>>::empty(),
    {
        let r = OutboundQueue { lines: VecDeque::new() };
        assert(r@ =~= Seq::<Seq<char>>::empty());
        r
    }

    pub fn len(&self) -> (r: usize)
        ensures
            r == self@.len(),
    {
        self.lines.len()
    }

    /// Appends a line at the back.
    pub fn push(&mut self, line: String)
        ensures
            final(self)@ == old(self)@.push(line@),
    {
        self.lines.push_back(line);
        assert(self@ =~= old(self)@.push(line@));
    }

    /// Takes the oldest line, if any.
    pub fn pop(&mut self) -> (r: Option<String>)
        ensures
            old(self)@.len() == 0 ==> r is None && final(self)@ == old(self)@,
            old(self)@.len() > 0 ==> (r matches Some(s) && s@ == old(self)@[0] && final(self)@
                == old(self)@.drop_first()),
    {
        let r = self.lines.pop_front();
        assert(self@ =~= if old(self)@.len() > 0 {
            old(self)@.drop_first()
        } else {
            old(self)@
        });
        r
    }
}

/// Queues `message` for the chat of `channel`.
pub fn send_message(queue: &mut OutboundQueue, channel: &str, message: &str)
    ensures
        final(queue)@ == old(queue)@.push(privmsg_line(channel@, message@)),
{
    let mut msg = String::from_str("PRIVMSG #");
    msg.append(channel);
    msg.append(" :");
    msg.append(message);
    msg.append("\r\n");
    queue.push(msg);
}

/// Queues `message` for the chat of `channel` as a reply to the message
/// with id `message_id`.
pub fn send_message_response(
    queue: &mut OutboundQueue,
    channel: &str,
    message: &str,
    message_id: &str,
)
    ensures
        final(queue)@ == old(queue)@.push(reply_line(channel@, message@, message_id@)),
{
    let mut msg = String::from_str("@reply-parent-msg-id=");
    msg.append(message_id);
    msg.append(" PRIVMSG #");
    msg.append(channel);
    msg.append(" :");
    msg.append(message);
    msg.append("\r\n");
    queue.push(msg);
}

/// Answers the chat commands the bot knows: `!bot` gets a reply with where
/// the bot lives. Any other message queues nothing.
pub fn check_for_commands(queue: &mut OutboundQueue, channel: &str, metadata: &Metadata, msg: &str)
    ensures
        msg@ == "!bot"@ ==> final(queue)@ == old(queue)@.push(
            reply_line(channel@, bot_info_text(), metadata.message_id@),
        ),
        msg@ != "!bot"@ ==> final(queue)@ == old(queue)@,
{
    if same_text(msg, "!bot") {
        send_message_response(
            queue,
            channel,
            "The bot is under development, you can check it out at https://github.com/Abev08/twitch_bot_v3",
            metadata.message_id.as_str(),
        );
    }
}

} // verus!
