use abevbot::chat::{send_message, OutboundQueue};
use abevbot::session::{
    ChatSession, SessionAction, SessionEvent, SessionState, RECONNECT_DELAY_MS, SEND_INTERVAL_MS,
};

fn describe(actions: &[SessionAction]) -> Vec<String> {
    actions
        .iter()
        .map(|a| match a {
            SessionAction::Connect => "connect".to_string(),
            SessionAction::Sleep(ms) => format!("sleep {}", ms),
            SessionAction::Write(s) => format!("write {}", s),
            SessionAction::Close => "close".to_string(),
            SessionAction::Read => "read".to_string(),
            SessionAction::Show(s) => format!("show {}", s),
        })
        .collect()
}

fn connected(q: &mut OutboundQueue) -> ChatSession {
    let mut s = ChatSession::new("chan").unwrap();
    s.step(SessionEvent::Ready, 0, q);
    s.step(SessionEvent::Connected { nick: "bot".to_string(), token: "tok".to_string() }, 0, q);
    s
}

#[test]
fn no_channel_no_session() {
    assert!(ChatSession::new("").is_none());
}

#[test]
fn reconnect_backoff() {
    let mut q = OutboundQueue::new();
    let mut s = ChatSession::new("chan").unwrap();
    assert_eq!(describe(&s.step(SessionEvent::Ready, 0, &mut q)), vec!["connect"]);
    assert_eq!(s.state(), SessionState::Connecting);
    let a = s.step(SessionEvent::ConnectFailed, 5, &mut q);
    assert_eq!(describe(&a), vec![format!("sleep {}", RECONNECT_DELAY_MS)]);
    assert_eq!(RECONNECT_DELAY_MS, 2000);
    assert_eq!(s.state(), SessionState::Disconnected);
    assert_eq!(describe(&s.step(SessionEvent::Ready, 2005, &mut q)), vec!["connect"]);
    assert_eq!(
        describe(&s.step(SessionEvent::ConnectFailed, 2010, &mut q)),
        vec![format!("sleep {}", RECONNECT_DELAY_MS)]
    );
}

#[test]
fn login_lines_in_order() {
    let mut q = OutboundQueue::new();
    let mut s = ChatSession::new("chan").unwrap();
    s.step(SessionEvent::Ready, 0, &mut q);
    let a = s.step(SessionEvent::Connected { nick: "bot".to_string(), token: "tok".to_string() }, 0, &mut q);
    assert_eq!(
        describe(&a),
        vec![
            "write PASS oauth:tok\r\n",
            "write NICK bot\r\n",
            "write JOIN #chan\r\n",
            "write CAP REQ :twitch.tv/commands twitch.tv/tags\r\n",
            "read",
        ]
    );
    assert_eq!(s.state(), SessionState::Streaming);
}

#[test]
fn ping_is_answered_before_anything_else() {
    let mut q = OutboundQueue::new();
    let mut s = connected(&mut q);
    let a = s.step(SessionEvent::Received(b"PING :tmi.twitch.tv\r\n".to_vec()), 50, &mut q);
    assert_eq!(describe(&a), vec!["write PONG :tmi.twitch.tv\r\n", "read"]);
}

#[test]
fn frames_split_over_reads_are_handled_once() {
    let mut q = OutboundQueue::new();
    let mut s = connected(&mut q);
    let a = s.step(SessionEvent::Received(b"@msg-id=slow_on :tmi.twitch.tv NOTICE #chan :x\r".to_vec()), 10, &mut q);
    assert_eq!(describe(&a), vec!["read"]);
    let a = s.step(SessionEvent::Received(b"\n".to_vec()), 20, &mut q);
    assert_eq!(describe(&a), vec!["show > This room is now in slow mode.", "read"]);
}

#[test]
fn outbound_lines_leave_one_per_interval() {
    let mut q = OutboundQueue::new();
    let mut s = connected(&mut q);
    send_message(&mut q, "chan", "one");
    send_message(&mut q, "chan", "two");
    assert_eq!(SEND_INTERVAL_MS, 100);
    let a = s.step(SessionEvent::TimedOut, 100, &mut q);
    assert_eq!(describe(&a), vec!["write PRIVMSG #chan :one\r\n", "read"]);
    let a = s.step(SessionEvent::TimedOut, 150, &mut q);
    assert_eq!(describe(&a), vec!["read"]);
    let a = s.step(SessionEvent::TimedOut, 200, &mut q);
    assert_eq!(describe(&a), vec!["write PRIVMSG #chan :two\r\n", "read"]);
    let a = s.step(SessionEvent::TimedOut, 400, &mut q);
    assert_eq!(describe(&a), vec!["read"]);
    assert_eq!(q.len(), 0);
}

#[test]
fn chat_command_reply_is_queued_then_sent() {
    let mut q = OutboundQueue::new();
    let mut s = connected(&mut q);
    let a = s.step(
        SessionEvent::Received(b"@id=m1;display-name=V :v!v@v.tmi.twitch.tv PRIVMSG #chan :!bot\r\n".to_vec()),
        100,
        &mut q,
    );
    assert_eq!(a.len(), 2);
    assert!(matches!(&a[0], SessionAction::Write(l) if l.starts_with("@reply-parent-msg-id=m1 PRIVMSG #chan :The bot")));
    assert_eq!(q.len(), 0);
}

#[test]
fn closed_or_failed_read_disconnects_with_a_pause() {
    let mut q = OutboundQueue::new();
    let mut s = connected(&mut q);
    let a = s.step(SessionEvent::Closed, 10, &mut q);
    assert_eq!(describe(&a), vec!["close".to_string(), format!("sleep {}", RECONNECT_DELAY_MS)]);
    assert_eq!(s.state(), SessionState::Disconnected);
    let mut s = connected(&mut q);
    let a = s.step(SessionEvent::ReadFailed, 10, &mut q);
    assert_eq!(describe(&a), vec!["close".to_string(), format!("sleep {}", RECONNECT_DELAY_MS)]);
}

#[test]
fn partial_frame_is_dropped_on_reconnect() {
    let mut q = OutboundQueue::new();
    let mut s = connected(&mut q);
    s.step(SessionEvent::Received(b"PIN".to_vec()), 10, &mut q);
    s.step(SessionEvent::Closed, 20, &mut q);
    s.step(SessionEvent::Ready, 2020, &mut q);
    s.step(SessionEvent::Connected { nick: "bot".to_string(), token: "tok".to_string() }, 2030, &mut q);
    let a = s.step(SessionEvent::Received(b"G\r\n".to_vec()), 2040, &mut q);
    assert_eq!(describe(&a), vec!["show G".to_string(), "read".to_string()]);
}
