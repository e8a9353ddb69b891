use abevbot::database;
use abevbot::secrets::{self, parse_line, parse_secrets, Keys, Record, RequiredInfo, SecretLine};

fn lines(text: &str) -> Vec<String> {
    text.lines().map(|l| l.to_string()).collect()
}

#[test]
fn secret_lines() {
    assert!(matches!(parse_line("// Channel = x"), SecretLine::Ignored));
    assert!(matches!(parse_line("# Channel = x"), SecretLine::Ignored));
    assert!(matches!(parse_line("no equals sign"), SecretLine::Ignored));
    match parse_line("  Channel =  MyChannel  // the stream") {
        SecretLine::Entry { key, value } => {
            assert_eq!(key, Keys::Channel);
            assert_eq!(value, "mychannel");
        }
        _ => panic!("expected an entry"),
    }
    match parse_line("TwitchName = Bot_Name # inline") {
        SecretLine::Entry { key, value } => {
            assert_eq!(key, Keys::TwitchName);
            assert_eq!(value, "Bot_Name");
        }
        _ => panic!("expected an entry"),
    }
    match parse_line("Other = 1") {
        SecretLine::Unrecognized { name } => assert_eq!(name, "Other"),
        _ => panic!("expected an unrecognized key"),
    }
}

#[test]
fn server_address_must_be_an_ip() {
    assert!(matches!(parse_line("ServerIP = localhost"), SecretLine::Ignored));
    match parse_line("ServerIP = 127.0.0.1") {
        SecretLine::Entry { key, value } => {
            assert_eq!(key, Keys::ServerIP);
            assert_eq!(value, "127.0.0.1");
        }
        _ => panic!("expected an entry"),
    }
    assert!(matches!(parse_line("ServerIP = ::1"), SecretLine::Entry { .. }));
}

#[test]
fn complete_secrets_file() {
    let text = "Channel = Chan\n\nTwitchName = bot\nTwitchID = id1\nTwitchPassowrd = pw\n\nServerIP = 127.0.0.1\nTwitchID = id2\n";
    let recs = parse_secrets(&lines(text)).ok().unwrap();
    assert_eq!(secrets::get_data(&recs, Keys::Channel), "chan");
    assert_eq!(secrets::get_data(&recs, Keys::TwitchID), "id2");
    assert_eq!(secrets::get_data(&recs, Keys::ChannelID), "");
    assert_eq!(secrets::get_data(&recs, Keys::ServerIP), "127.0.0.1");
}

#[test]
fn missing_secrets_are_named() {
    let text = "Channel = \nTwitchName = bot\nServerIP = nope\n";
    assert_eq!(
        parse_secrets(&lines(text)).err().unwrap(),
        "Channel, TwitchID, TwitchPassword, ServerIP"
    );
}

#[test]
fn required_info() {
    let mut info = RequiredInfo::new();
    assert!(!info.filled_up());
    assert_eq!(info.get_missing_data_error(), "Channel, TwitchName, TwitchID, TwitchPassword, ServerIP");
    info.channel = "c".to_string();
    info.twitch_name = "n".to_string();
    info.twitch_id = "i".to_string();
    info.twitch_pass = "p".to_string();
    assert_eq!(info.get_missing_data_error(), "ServerIP");
    info.server_ip = "::1".to_string();
    assert!(info.filled_up());
    let mut msg = String::new();
    RequiredInfo::append_missing_data_error(&mut msg, "A");
    RequiredInfo::append_missing_data_error(&mut msg, "B");
    assert_eq!(msg, "A, B");
}

#[test]
fn secret_records() {
    let mut recs = secrets::new_records();
    assert_eq!(recs.len(), 6);
    assert_eq!(secrets::get_data(&recs, Keys::ChannelID), "");
    secrets::set_data(&mut recs, Keys::ChannelID, "12345");
    assert_eq!(secrets::get_data(&recs, Keys::ChannelID), "12345");
    let r = Record::new(Keys::ServerIP);
    assert_eq!(r.key, Keys::ServerIP);
    assert_eq!(r.value, "");
    assert_eq!(Keys::TwitchPassowrd.name(), "TwitchPassowrd");
}

#[test]
fn database_records_and_statements() {
    let mut recs = database::new_records();
    assert_eq!(database::get_data(&recs, database::Keys::TwitchOAuth), "");
    database::set_value(&mut recs, database::Keys::TwitchOAuth, "tok");
    assert_eq!(database::get_data(&recs, database::Keys::TwitchOAuth), "tok");
    assert_eq!(database::get_data(&recs, database::Keys::Version), "");
    let r = database::Record::new(database::Keys::TwitchExpires);
    assert_eq!(r.value, "");
    assert_eq!(
        database::select_query(database::Keys::TwitchOAuthRefresh),
        "SELECT Value FROM Config WHERE Name = 'TwitchOAuthRefresh' LIMIT 1;"
    );
    assert_eq!(
        database::insert_query(database::Keys::Version),
        "INSERT INTO Config (Name, Value) VALUES ('Version', '');"
    );
    assert_eq!(
        database::update_query(database::Keys::TwitchOAuth, "abc"),
        "UPDATE Config SET Value='abc' WHERE Name='TwitchOAuth';"
    );
}

#[test]
fn values_are_trimmed_of_unicode_whitespace() {
    match parse_line("TwitchID =\u{3000}\tabc\u{a0} ") {
        SecretLine::Entry { key, value } => {
            assert_eq!(key, Keys::TwitchID);
            assert_eq!(value, "abc");
        }
        _ => panic!("expected an entry"),
    }
}
