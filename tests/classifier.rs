use abevbot::classify::{badge_from_list, parse_message, Badge, Metadata};

const PRIVMSG: &str = "@badge-info=subscriber/12;badges=subscriber/12,moderator/1;bits=;color=#FF0000;display-name=Viewer;id=abc-123;user-id=42 :viewer!viewer@viewer.tmi.twitch.tv PRIVMSG #chan :hello there: friend";

#[test]
fn privmsg_header_body_and_metadata() {
    let mut m = Metadata::new();
    let (header, body) = parse_message(PRIVMSG, &mut m);
    assert_eq!(header, "@badge-info=subscriber/12;badges=subscriber/12,moderator/1;bits=;color=#FF0000;display-name=Viewer;id=abc-123;user-id=42 :viewer!viewer@viewer.");
    assert_eq!(body, "hello there: friend");
    assert_eq!(m.message_type, "PRIVMSG");
    assert_eq!(m.username, "Viewer");
    assert_eq!(m.user_id, "42");
    assert_eq!(m.message_id, "abc-123");
    assert_eq!(m.bits, "");
    assert_eq!(m.custom_reward_id, "");
    assert_eq!(m.badge, Badge::Moderator);
}

#[test]
fn parsing_twice_gives_the_same_metadata() {
    let mut a = Metadata::new();
    let mut b = Metadata::new();
    let ra = parse_message(PRIVMSG, &mut a);
    let rb = parse_message(PRIVMSG, &mut b);
    let rc = parse_message(PRIVMSG, &mut b);
    assert_eq!(ra, rb);
    assert_eq!(rb, rc);
    assert_eq!(a.username, b.username);
    assert_eq!(a.badge, b.badge);
    assert_eq!(a.message_id, b.message_id);
}

#[test]
fn nothing_carries_over_from_the_previous_frame() {
    let mut m = Metadata::new();
    parse_message(PRIVMSG, &mut m);
    parse_message(":tmi.twitch.tv USERSTATE #chan", &mut m);
    assert_eq!(m.message_type, "USERSTATE");
    assert_eq!(m.username, "");
    assert_eq!(m.message_id, "");
    assert_eq!(m.badge, Badge::NoBadge);
}

#[test]
fn frame_without_separator_gives_empty_results() {
    let mut m = Metadata::new();
    parse_message(PRIVMSG, &mut m);
    let (h, b) = parse_message("garbage line", &mut m);
    assert_eq!(h, "");
    assert_eq!(b, "");
    assert_eq!(m.message_type, "");
    assert_eq!(m.username, "");
    assert_eq!(m.badge, Badge::NoBadge);
}

#[test]
fn unknown_tags_are_ignored_and_first_occurrence_wins() {
    let mut m = Metadata::new();
    parse_message("@foo=bar;display-name=First;display-name=Second;msg-id=sub;x-id=9 :tmi.twitch.tv USERNOTICE #c :hey", &mut m);
    assert_eq!(m.username, "First");
    assert_eq!(m.msg_id, "sub");
    assert_eq!(m.message_id, "");
    assert_eq!(m.message_type, "USERNOTICE");
}

#[test]
fn leading_at_msg_id_is_recognized() {
    let mut m = Metadata::new();
    let (_, body) = parse_message("@msg-id=slow_on :tmi.twitch.tv NOTICE #chan :This room is now in slow mode.", &mut m);
    assert_eq!(m.msg_id, "slow_on");
    assert_eq!(m.message_type, "NOTICE");
    assert_eq!(body, "This room is now in slow mode.");
}

#[test]
fn type_without_body() {
    let mut m = Metadata::new();
    let (_, body) = parse_message(":tmi.twitch.tv RECONNECT", &mut m);
    assert_eq!(m.message_type, "RECONNECT");
    assert_eq!(body, "");
}

#[test]
fn badge_priority_over_the_whole_list() {
    assert_eq!(badge_from_list("vip/1,subscriber/3,broadcaster/1"), Badge::Streamer);
    assert_eq!(badge_from_list("subscriber/3,moderator/1"), Badge::Moderator);
    assert_eq!(badge_from_list("vip/1,subscriber/0"), Badge::Subscriber);
    assert_eq!(badge_from_list("vip/1"), Badge::Vip);
    assert_eq!(badge_from_list("premium/1,glhf-pledge/1"), Badge::NoBadge);
    assert_eq!(badge_from_list(""), Badge::NoBadge);
}

#[test]
fn badge_name_must_start_an_entry() {
    assert_eq!(badge_from_list("notvip/1"), Badge::NoBadge);
}

#[test]
fn at_sign_opens_only_the_tag_section() {
    let mut m = Metadata::new();
    parse_message(";tmi.twitch.tv P", &mut m);
    assert_eq!(m.message_id, "");
    parse_message(";@id=5;tmi.twitch.tv P", &mut m);
    assert_eq!(m.message_id, "");
    parse_message("@bits=1;@badges=broadcaster/1;@display-name=X :tmi.twitch.tv PRIVMSG #c :x", &mut m);
    assert_eq!(m.bits, "1");
    assert_eq!(m.badge, abevbot::classify::Badge::NoBadge);
    assert_eq!(m.username, "");
}
