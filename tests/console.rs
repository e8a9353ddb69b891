use abevbot::classify::{parse_message, Metadata};
use abevbot::route::describe;

fn line(frame: &str) -> Option<String> {
    let mut m = Metadata::new();
    let (h, b) = parse_message(frame, &mut m);
    describe(frame, &m, &h, &b)
}

#[test]
fn plain_chat_shows_nothing() {
    assert_eq!(line("@display-name=A;id=1 :a!a@a.tmi.twitch.tv PRIVMSG #c :hi"), None);
}

#[test]
fn redemption_and_cheer() {
    assert_eq!(
        line("@custom-reward-id=r-1;display-name=A :a!a@a.tmi.twitch.tv PRIVMSG #c :please"),
        Some("> A redeemed custom reward with ID: r-1. please".to_string())
    );
    assert_eq!(
        line("@bits=100;display-name=B :b!b@b.tmi.twitch.tv PRIVMSG #c :Cheer100"),
        Some("> B cheered with 100 bits. Cheer100".to_string())
    );
}

#[test]
fn user_notices() {
    assert_eq!(
        line("@display-name=A;msg-id=sub :tmi.twitch.tv USERNOTICE #c :yay"),
        Some("> A subscribed! yay".to_string())
    );
    assert_eq!(
        line("@display-name=A;msg-id=subgift;msg-param-recipient-display-name=Bob;x=1 :tmi.twitch.tv USERNOTICE #c"),
        Some("> A gifted sub to Bob! ".to_string())
    );
    assert_eq!(
        line("@display-name=R;msg-id=raid :tmi.twitch.tv USERNOTICE #c"),
        Some("> R raided the channel! ".to_string())
    );
    let odd = "@display-name=A;msg-id=bitsbadgetier :tmi.twitch.tv USERNOTICE #c :x";
    assert_eq!(line(odd), Some(odd.to_string()));
}

#[test]
fn bans_and_clears() {
    assert_eq!(
        line("@ban-duration=600;room-id=1 :tmi.twitch.tv CLEARCHAT #c :baduser"),
        Some("> baduser got banned!".to_string())
    );
    assert_eq!(
        line("@room-id=1 :tmi.twitch.tv CLEARCHAT #c :someone"),
        Some("> someone chat messages got cleared".to_string())
    );
    assert_eq!(line("@room-id=1 :tmi.twitch.tv CLEARCHAT #c"), Some("> Chat got cleared".to_string()));
    assert_eq!(
        line("@login=spammer;room-id=1 :tmi.twitch.tv CLEARMSG #c :msg"),
        Some("> spammer got perma banned!".to_string())
    );
    assert_eq!(
        line("@room-id=1 :tmi.twitch.tv CLEARMSG #c :msg"),
        Some("> Someones messages got cleared".to_string())
    );
}

#[test]
fn room_notices() {
    assert_eq!(
        line("@msg-id=followers_on_zero :tmi.twitch.tv NOTICE #c :x"),
        Some("> This room is now in followers-only mode.".to_string())
    );
    assert_eq!(
        line("@msg-id=emote_only_off :tmi.twitch.tv NOTICE #c :x"),
        Some("> This room is no longer in emote-only mode.".to_string())
    );
}

#[test]
fn state_updates_are_quiet_and_unknown_types_shown_whole() {
    assert_eq!(line("@emote-only=0 :tmi.twitch.tv ROOMSTATE #c"), None);
    assert_eq!(line("@display-name=Bot :tmi.twitch.tv USERSTATE #c"), None);
    assert_eq!(line(":tmi.twitch.tv 001 bot :Welcome"), Some(":tmi.twitch.tv 001 bot :Welcome".to_string()));
    assert_eq!(line("no separator here"), Some("no separator here".to_string()));
}
