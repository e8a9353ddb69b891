//! The chat connection's life cycle as a state machine: the caller performs
//! each action (connect, sleep, write, read) and reports back what happened.

use vstd::prelude::*;
use vstd::string::StringExecFns;
use crate::chat::{check_for_commands, reply_line, bot_info_text, OutboundQueue};
use crate::classify::{body_of, header_of, metadata_of, parse_message, Metadata};
use crate::frame::{frames_of, rest_of, FrameReader};
use crate::route::{describe, line_for};
use crate::text::{has_prefix, join3, lossy_text, matches_at, same_text, to_chars};

verus! {

/// Pause after a failed connection attempt or a lost connection.
pub const RECONNECT_DELAY_MS: u64 = 2000;

/// Least time between two lines sent from the outbound queue.
pub const SEND_INTERVAL_MS: u64 = 100;

#[derive(Clone, Copy, Debug, PartialEq, Eq, Structural)]
pub enum SessionState {
    Disconnected,
    Connecting,
    Streaming,
}

/// What happened since the last action that waits for something.
pub enum SessionEvent {
    /// Ready to try a connection: at start, and after each pause.
    Ready,
    ConnectFailed,
    /// Connected; the credentials are read afresh for every connection.
    Connected { nick: String, token: String },
    /// A read returned these bytes (at least one).
    Received(Vec<u8>),
    /// A read returned no bytes: the server closed the connection.
    Closed,
    /// A read timed out with nothing to read.
    TimedOut,
    /// A read failed otherwise.
    ReadFailed,
}

pub enum EventView {
    Ready,
    ConnectFailed,
    Connected { nick: Seq<char>, token: Seq<char> },
    Received(Seq<u8>),
    Closed,
    TimedOut,
    ReadFailed,
}

impl View for SessionEvent {
    type V = EventView;

    open spec fn view(&self) -> EventView {
        match self {
            SessionEvent::Ready => EventView::Ready,
            SessionEvent::ConnectFailed => EventView::ConnectFailed,
            SessionEvent::Connected { nick, token } => EventView::Connected {
                nick: nick@,
                token: token@,
            },
            SessionEvent::Received(b) => EventView::Received(b@),
            SessionEvent::Closed => EventView::Closed,
            SessionEvent::TimedOut => EventView::TimedOut,
            SessionEvent::ReadFailed => EventView::ReadFailed,
        }
    }
}

/// What the caller is to do, in order.
pub enum SessionAction {
    /// Open the connection to the chat server; report `Connected` or
    /// `ConnectFailed`.
    Connect,
    /// Sleep this many milliseconds; then report `Ready`.
    Sleep(u64),
    /// Send this line.
    Write(String),
    /// Shut the connection down.
    Close,
    /// Read with a timeout of `SEND_INTERVAL_MS`; report what came of it.
    Read,
    /// Show this line on the console.
    Show(String),
}

pub enum ActionView {
    Connect,
    Sleep(u64),
    Write(Seq<char>),
    Close,
    Read,
    Show(Seq<char>),
}

pub open spec fn action_view(a: SessionAction) -> ActionView {
    match a {
        SessionAction::Connect => ActionView::Connect,
        SessionAction::Sleep(ms) => ActionView::Sleep(ms),
        SessionAction::Write(s) => ActionView::Write(s@),
        SessionAction::Close => ActionView::Close,
        SessionAction::Read => ActionView::Read,
        SessionAction::Show(s) => ActionView::Show(s@),
    }
}

pub open spec fn actions_view(v: Seq<SessionAction>) -> Seq<ActionView> {
    v.map_values(|a: SessionAction| action_view(a))
}

pub struct SessionView {
    pub state: SessionState,
    /// Bytes of a partial frame received on the current connection.
    pub pending: Seq<u8>,
    /// When the last line of the outbound queue was sent, in milliseconds.
    pub last_send_ms: u64,
    pub channel: Seq<char>,
}

pub open spec fn pass_line(token: Seq<char>) -> Seq<char> {
    "PASS oauth:"@ + token + "\r\n"@
}

pub open spec fn nick_line(nick: Seq<char>) -> Seq<char> {
    "NICK "@ + nick + "\r\n"@
}

pub open spec fn join_line(channel: Seq<char>) -> Seq<char> {
    "JOIN #"@ + channel + "\r\n"@
}

pub open spec fn cap_line() -> Seq<char> {
    "CAP REQ :twitch.tv/commands twitch.tv/tags\r\n"@
}

pub open spec fn pong_line() -> Seq<char> {
    "PONG :tmi.twitch.tv\r\n"@
}

/// The four lines that log in and join the channel, then a read.
pub open spec fn login_actions(channel: Seq<char>, nick: Seq<char>, token: Seq<char>) -> Seq<
    ActionView,
> {
    seq![
        ActionView::Write(pass_line(token)),
        ActionView::Write(nick_line(nick)),
        ActionView::Write(join_line(channel)),
        ActionView::Write(cap_line()),
        ActionView::Read,
    ]
}

/// A keep-alive request, answered before any classification.
pub open spec fn is_ping(m: Seq<char>) -> bool {
    has_prefix(m, "PING"@)
}

/// A chat message that is neither a reward redemption nor a cheer.
pub open spec fn is_plain_chat(m: Seq<char>) -> bool {
    let md = metadata_of(m);
    md.message_type == "PRIVMSG"@ && md.custom_reward_id.len() == 0 && md.bits.len() == 0
}

/// What a frame asks the caller to do.
pub open spec fn frame_actions(m: Seq<char>) -> Seq<ActionView> {
    if is_ping(m) {
        seq![ActionView::Write(pong_line())]
    } else {
        match line_for(m, metadata_of(m), header_of(m), body_of(m)) {
            Some(l) => seq![ActionView::Show(l)],
            None => Seq::empty(),
        }
    }
}

/// What a frame adds to the outbound queue: the answer to a chat command.
pub open spec fn frame_outbound(channel: Seq<char>, m: Seq<char>) -> Seq<Seq<char>> {
    if !is_ping(m) && is_plain_chat(m) && body_of(m) == "!bot"@ {
        seq![reply_line(channel, bot_info_text(), metadata_of(m).message_id)]
    } else {
        Seq::empty()
    }
}

pub open spec fn frames_actions(ms: Seq<Seq<char>>) -> Seq<ActionView>
    decreases ms.len(),
{
    if ms.len() == 0 {
        Seq::empty()
    } else {
        frames_actions(ms.drop_last()) + frame_actions(ms.last())
    }
}

pub open spec fn frames_outbound(channel: Seq<char>, ms: Seq<Seq<char>>) -> Seq<Seq<char>>
    decreases ms.len(),
{
    if ms.len() == 0 {
        Seq::empty()
    } else {
        frames_outbound(channel, ms.drop_last()) + frame_outbound(channel, ms.last())
    }
}

/// The texts of the frames that `bytes` completes after `pending`.
pub open spec fn texts_of(pending: Seq<u8>, bytes: Seq<u8>) -> Seq<Seq<char>> {
    frames_of(pending + bytes).map_values(|f: Seq<u8>| lossy_text(f))
}

/// At least `SEND_INTERVAL_MS` have passed since `last`.
pub open spec fn send_due(last: u64, now: u64) -> bool {
    now >= last && now - last >= SEND_INTERVAL_MS
}

/// The result of a step: the new session, the actions, and the new
/// outbound queue.
pub struct StepView {
    pub session: SessionView,
    pub actions: Seq<ActionView>,
    pub outbound: Seq<Seq<char>>,
}

/// While streaming: when sending is due, the oldest outbound line is sent;
/// then the next read.
pub open spec fn drain_then_read(v: SessionView, acts: Seq<ActionView>, q: Seq<Seq<char>>, now: u64) -> StepView {
    if send_due(v.last_send_ms, now) {
        if q.len() > 0 {
            StepView {
                session: SessionView { last_send_ms: now, ..v },
                actions: acts + seq![ActionView::Write(q[0]), ActionView::Read],
                outbound: q.drop_first(),
            }
        } else {
            StepView {
                session: SessionView { last_send_ms: now, ..v },
                actions: acts + seq![ActionView::Read],
                outbound: q,
            }
        }
    } else {
        StepView { session: v, actions: acts + seq![ActionView::Read], outbound: q }
    }
}

/// Pause, then try again.
pub open spec fn back_off(v: SessionView, q: Seq<Seq<char>>, close: bool) -> StepView {
    StepView {
        session: SessionView { state: SessionState::Disconnected, ..v },
        actions: if close {
            seq![ActionView::Close, ActionView::Sleep(RECONNECT_DELAY_MS)]
        } else {
            seq![ActionView::Sleep(RECONNECT_DELAY_MS)]
        },
        outbound: q,
    }
}

/// One transition of the session on event `e` at time `now`, with the
/// outbound queue holding `q`.
pub open spec fn step_spec(v: SessionView, e: EventView, now: u64, q: Seq<Seq<char>>) -> StepView {
    match v.state {
        SessionState::Disconnected => StepView {
            session: SessionView { state: SessionState::Connecting, ..v },
            actions: seq![ActionView::Connect],
            outbound: q,
        },
        SessionState::Connecting => match e {
            EventView::Connected { nick, token } => StepView {
                session: SessionView { state: SessionState::Streaming, pending: Seq::empty(), ..v },
                actions: login_actions(v.channel, nick, token),
                outbound: q,
            },
            _ => back_off(v, q, false),
        },
        SessionState::Streaming => match e {
            EventView::Received(bytes) => {
                let ms = texts_of(v.pending, bytes);
                drain_then_read(
                    SessionView { pending: rest_of(v.pending + bytes), ..v },
                    frames_actions(ms),
                    q + frames_outbound(v.channel, ms),
                    now,
                )
            },
            EventView::Closed => back_off(v, q, true),
            EventView::ReadFailed => back_off(v, q, true),
            _ => drain_then_read(v, Seq::empty(), q, now),
        },
    }
}

/// A failed connection attempt is followed by exactly one pause of
/// `RECONNECT_DELAY_MS` and nothing else; whatever is reported after the
/// pause, the next step makes exactly one new attempt. There is no busy
/// loop: no attempt follows an attempt without a pause between them.
pub proof fn lemma_reconnect_backoff(v: SessionView, e: EventView, now: u64, q: Seq<Seq<char>>)
    requires
        v.state == SessionState::Connecting,
        !(e is Connected),
    ensures
        step_spec(v, e, now, q).session.state == SessionState::Disconnected,
        step_spec(v, e, now, q).actions == seq![ActionView::Sleep(RECONNECT_DELAY_MS)],
        step_spec(v, e, now, q).outbound == q,
        forall|e2: EventView, now2: u64|
            #![trigger step_spec(step_spec(v, e, now, q).session, e2, now2, q)]
            step_spec(step_spec(v, e, now, q).session, e2, now2, q).actions == seq![
                ActionView::Connect,
            ] && step_spec(step_spec(v, e, now, q).session, e2, now2, q).session.state
                == SessionState::Connecting,
{
}

/// The lines a step adds to the outbound queue: answers to the chat
/// commands among the frames it completes.
pub open spec fn step_added(v: SessionView, e: EventView) -> Seq<Seq<char>> {
    match e {
        EventView::Received(bytes) => if v.state == SessionState::Streaming {
            frames_outbound(v.channel, texts_of(v.pending, bytes))
        } else {
            Seq::empty()
        },
        _ => Seq::empty(),
    }
}

/// However deep the outbound queue, a step sends at most one of its lines,
/// the oldest, and only when `SEND_INTERVAL_MS` have passed since the last
/// one was sent.
pub proof fn lemma_one_line_per_interval(v: SessionView, e: EventView, now: u64, q: Seq<Seq<char>>)
    ensures
        step_spec(v, e, now, q).outbound == q + step_added(v, e) || (send_due(v.last_send_ms, now)
            && (q + step_added(v, e)).len() > 0 && step_spec(v, e, now, q).outbound == (q
            + step_added(v, e)).drop_first()),
        step_spec(v, e, now, q).session.last_send_ms != v.last_send_ms ==> send_due(
            v.last_send_ms,
            now,
        ),
{
    assert(q + Seq::<Seq<char>>::empty() == q);
}

/// One chat connection to one channel.
pub struct ChatSession {
    state: SessionState,
    reader: FrameReader,
    metadata: Metadata,
    last_send_ms: u64,
    channel: String,
}

impl View for ChatSession {
    type V = SessionView;

    closed spec fn view(&self) -> SessionView {
        SessionView {
            state: self.state,
            pending: self.reader@,
            last_send_ms: self.last_send_ms,
            channel: self.channel@,
        }
    }
}

proof fn lemma_push_view(v: Seq<SessionAction>, a: SessionAction)
    ensures
        actions_view(v.push(a)) == actions_view(v).push(action_view(a)),
{
    assert(actions_view(v.push(a)) =~= actions_view(v).push(action_view(a)));
}

impl ChatSession {
    /// A disconnected session for `channel`; `None` when no channel is
    /// named.
    pub fn new(channel: &str) -> (r: Option<ChatSession>)
        ensures
            channel@.len() == 0 ==> r is None,
            channel@.len() > 0 ==> (r matches Some(s) && s@ == SessionView {
                state: SessionState::Disconnected,
                pending: Seq::empty(),
                last_send_ms: 0,
                channel: channel@,
            }),
    {
        if channel.is_empty() {
            return None;
        }
        Some(
            ChatSession {
                state: SessionState::Disconnected,
                reader: FrameReader::new(),
                metadata: Metadata::new(),
                last_send_ms: 0,
                channel: String::from_str(channel),
            },
        )
    }

    pub fn state(&self) -> (r: SessionState)
        ensures
            r == self@.state,
    {
        self.state
    }

    /// Handles one complete frame.
    fn handle_frame(
        &mut self,
        frame: &str,
        outbound: &mut OutboundQueue,
        actions: &mut Vec<SessionAction>,
    )
        ensures
            final(self)@ == old(self)@,
            actions_view(final(actions)@) == actions_view(old(actions)@) + frame_actions(frame@),
            final(outbound)@ == old(outbound)@ + frame_outbound(old(self)@.channel, frame@),
    {
        let chars = to_chars(frame);
        let ping = to_chars("PING");
        if matches_at(&chars, &ping, 0) {
            let pong = SessionAction::Write(String::from_str("PONG :tmi.twitch.tv\r\n"));
            proof {
                lemma_push_view(actions@, pong);
            }
            actions.push(pong);
            assert(actions_view(actions@) =~= actions_view(old(actions)@) + frame_actions(frame@));
            assert(old(outbound)@ + frame_outbound(old(self)@.channel, frame@) == old(outbound)@);
            return ;
        }
        let (header, body) = parse_message(frame, &mut self.metadata);
        let plain = same_text(self.metadata.message_type.as_str(), "PRIVMSG")
            && self.metadata.custom_reward_id.as_str().is_empty()
            && self.metadata.bits.as_str().is_empty();
        if plain {
            check_for_commands(outbound, self.channel.as_str(), &self.metadata, body.as_str());
        }
        assert(final(outbound)@ == old(outbound)@ + frame_outbound(old(self)@.channel, frame@)) by {
            if !(plain && body@ == "!bot"@) {
                assert(old(outbound)@ + Seq::<Seq<char>>::empty() == old(outbound)@);
            }
        }
        match describe(frame, &self.metadata, header.as_str(), body.as_str()) {
            Some(line) => {
                let show = SessionAction::Show(line);
                proof {
                    lemma_push_view(actions@, show);
                }
                actions.push(show);
            },
            None => {},
        }
        assert(actions_view(actions@) =~= actions_view(old(actions)@) + frame_actions(frame@));
        assert(self@ == old(self)@);
    }

    /// Sends the oldest outbound line when sending is due, then reads.
    fn drain_then_read(
        &mut self,
        now_ms: u64,
        outbound: &mut OutboundQueue,
        actions: &mut Vec<SessionAction>,
    )
        ensures
            ({
                let s = drain_then_read(
                    old(self)@,
                    actions_view(old(actions)@),
                    old(outbound)@,
                    now_ms,
                );
                &&& final(self)@ == s.session
                &&& actions_view(final(actions)@) == s.actions
                &&& final(outbound)@ == s.outbound
            }),
    {
        if now_ms >= self.last_send_ms && now_ms - self.last_send_ms >= SEND_INTERVAL_MS {
            self.last_send_ms = now_ms;
            match outbound.pop() {
                Some(line) => {
                    let w = SessionAction::Write(line);
                    proof {
                        lemma_push_view(actions@, w);
                    }
                    actions.push(w);
                },
                None => {},
            }
        }
        proof {
            lemma_push_view(actions@, SessionAction::Read);
        }
        actions.push(SessionAction::Read);
        assert(actions_view(actions@) =~= drain_then_read(
            old(self)@,
            actions_view(old(actions)@),
            old(outbound)@,
            now_ms,
        ).actions);
    }

    /// Advances the session on `event`, reported at time `now_ms` (in
    /// milliseconds of a clock that does not go back), and returns what
    /// the caller is to do next, in order. Lines answering chat commands
    /// are queued on `outbound`, which this session alone drains, one line
    /// per `SEND_INTERVAL_MS` at most.
    pub fn step(&mut self, event: SessionEvent, now_ms: u64, outbound: &mut OutboundQueue) -> (actions:
        Vec<SessionAction>)
        ensures
            ({
                let s = step_spec(old(self)@, event@, now_ms, old(outbound)@);
                &&& final(self)@ == s.session
                &&& actions_view(actions@) == s.actions
                &&& final(outbound)@ == s.outbound
            }),
    {
        let mut actions: Vec<SessionAction> = Vec::new();
        assert(actions_view(actions@) =~= Seq::<ActionView>::empty());
        match self.state {
            SessionState::Disconnected => {
                self.state = SessionState::Connecting;
                actions.push(SessionAction::Connect);
                assert(actions_view(actions@) =~= seq![ActionView::Connect]);
            },
            SessionState::Connecting => match event {
                SessionEvent::Connected { nick, token } => {
                    self.reader = FrameReader::new();
                    self.metadata.clear();
                    self.state = SessionState::Streaming;
                    actions.push(SessionAction::Write(join3("PASS oauth:", token.as_str(), "\r\n")));
                    actions.push(SessionAction::Write(join3("NICK ", nick.as_str(), "\r\n")));
                    actions.push(
                        SessionAction::Write(join3("JOIN #", self.channel.as_str(), "\r\n")),
                    );
                    actions.push(
                        SessionAction::Write(
                            String::from_str("CAP REQ :twitch.tv/commands twitch.tv/tags\r\n"),
                        ),
                    );
                    actions.push(SessionAction::Read);
                    assert(actions_view(actions@) =~= login_actions(
                        old(self)@.channel,
                        nick@,
                        token@,
                    ));
                },
                _ => {
                    self.state = SessionState::Disconnected;
                    actions.push(SessionAction::Sleep(RECONNECT_DELAY_MS));
                    assert(actions_view(actions@) =~= seq![ActionView::Sleep(RECONNECT_DELAY_MS)]);
                },
            },
            SessionState::Streaming => match event {
                SessionEvent::Received(bytes) => {
                    let ghost start = self@;
                    let frames = self.reader.feed(bytes.as_slice());
                    let ghost texts = texts_of(start.pending, bytes@);
                    let ghost q0 = outbound@;
                    let mut k: usize = 0;
                    assert(texts.take(0) =~= Seq::<Seq<char>>::empty());
                    while k < frames.len()
                        invariant
                            k <= frames@.len(),
                            frames@.len() == texts.len(),
                            forall|j: int| 0 <= j < frames@.len() ==> #[trigger] frames@[j]@ == texts[j],
                            self@ == (SessionView { pending: rest_of(start.pending + bytes@), ..start }),
                            actions_view(actions@) == frames_actions(texts.take(k as int)),
                            outbound@ == q0 + frames_outbound(start.channel, texts.take(k as int)),
                        decreases frames@.len() - k,
                    {
                        self.handle_frame(frames[k].as_str(), outbound, &mut actions);
                        assert(texts.take(k + 1).drop_last() == texts.take(k as int));
                        assert(texts.take(k + 1).last() == texts[k as int]);
                        k = k + 1;
                    }
                    assert(texts.take(k as int) == texts);
                    self.drain_then_read(now_ms, outbound, &mut actions);
                },
                SessionEvent::Closed | SessionEvent::ReadFailed => {
                    self.state = SessionState::Disconnected;
                    actions.push(SessionAction::Close);
                    actions.push(SessionAction::Sleep(RECONNECT_DELAY_MS));
                    assert(actions_view(actions@) =~= seq![
                        ActionView::Close,
                        ActionView::Sleep(RECONNECT_DELAY_MS),
                    ]);
                },
                _ => {
                    self.drain_then_read(now_ms, outbound, &mut actions);
                    assert(Seq::<ActionView>::empty() + seq![ActionView::Read] =~= seq![ActionView::Read]);
                },
            },
        }
        actions
    }
}

} // verus!
