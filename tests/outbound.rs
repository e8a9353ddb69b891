use abevbot::chat::{check_for_commands, send_message, send_message_response, OutboundQueue};
use abevbot::classify::Metadata;

#[test]
fn chat_lines_are_formatted_and_queued_in_order() {
    let mut q = OutboundQueue::new();
    send_message(&mut q, "chan", "hello");
    send_message_response(&mut q, "chan", "hi back", "msg-1");
    assert_eq!(q.len(), 2);
    assert_eq!(q.pop(), Some("PRIVMSG #chan :hello\r\n".to_string()));
    assert_eq!(q.pop(), Some("@reply-parent-msg-id=msg-1 PRIVMSG #chan :hi back\r\n".to_string()));
    assert_eq!(q.pop(), None);
}

#[test]
fn bot_command_gets_a_reply() {
    let mut q = OutboundQueue::new();
    let mut m = Metadata::new();
    m.message_id = "id-7".to_string();
    check_for_commands(&mut q, "chan", &m, "!bot");
    check_for_commands(&mut q, "chan", &m, "!bots");
    check_for_commands(&mut q, "chan", &m, "hello");
    assert_eq!(q.len(), 1);
    assert_eq!(
        q.pop(),
        Some("@reply-parent-msg-id=id-7 PRIVMSG #chan :The bot is under development, you can check it out at https://github.com/Abev08/twitch_bot_v3\r\n".to_string())
    );
}
