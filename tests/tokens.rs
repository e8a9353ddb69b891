use abevbot::access_tokens::{
    authorize_url, code_request_body, extract_code, find_channel_id, refresh_request_body,
    replace_char, update, TokenAction, TokenEvent,
};
use abevbot::assets::{asset_for, Asset};
use abevbot::events::{all_subscriptions_failed, classify_event, subscriptions, EventAction};

#[test]
fn token_update_steps() {
    assert_eq!(update(TokenEvent::Start { has_token: true, has_refresh_token: true }), TokenAction::Refresh);
    assert_eq!(update(TokenEvent::Start { has_token: false, has_refresh_token: true }), TokenAction::RequestNew);
    assert_eq!(update(TokenEvent::Start { has_token: true, has_refresh_token: false }), TokenAction::RequestNew);
    assert_eq!(update(TokenEvent::Refreshed(true)), TokenAction::FetchChannelId);
    assert_eq!(update(TokenEvent::Refreshed(false)), TokenAction::RequestNew);
    assert_eq!(update(TokenEvent::Authorized), TokenAction::FetchChannelId);
    assert_eq!(update(TokenEvent::ChannelIdFetched(true)), TokenAction::Finish(true));
    assert_eq!(update(TokenEvent::ChannelIdFetched(false)), TokenAction::Finish(false));
}

#[test]
fn authorization_texts() {
    let url = authorize_url("cid");
    assert!(url.starts_with("https://id.twitch.tv/oauth2/authorize?client_id=cid&redirect_uri=http://localhost:3000&response_type=code&scope=bits%3Aread+channel%3Amanage%3Aredemptions+"));
    assert!(url.ends_with("+whispers%3Aedit+whispers%3Aread"));
    assert_eq!(
        code_request_body("a", "b", "c"),
        "client_id=a&client_secret=b&code=c&grant_type=authorization_code&redirect_uri=http://localhost:3000"
    );
    assert_eq!(
        refresh_request_body("a", "b", "x:y:z"),
        "client_id=a&client_secret=b&grant_type=refresh_token&refresh_token=x%3Ay%3Az"
    );
    assert_eq!(replace_char("a&b&", '&', "^&"), "a^&b^&");
}

#[test]
fn authorization_code_from_redirect() {
    assert_eq!(
        extract_code("GET /?code=xyz123&scope=chat HTTP/1.1").as_deref(),
        Some("xyz123")
    );
    assert_eq!(extract_code("GET /?error=denied HTTP/1.1"), None);
    assert_eq!(extract_code("GET /a&b?code=xyz HTTP/1.1"), None);
    assert_eq!(extract_code("GET /?code=abc HTTP/1.1"), None);
}

#[test]
fn channel_id_lookup() {
    let users = vec![
        ("other".to_string(), "1".to_string()),
        ("chan".to_string(), "42".to_string()),
        ("chan".to_string(), "43".to_string()),
    ];
    assert_eq!(find_channel_id(&users, "chan").as_deref(), Some("42"));
    assert_eq!(find_channel_id(&users, "none"), None);
}

#[test]
fn event_subscriptions() {
    let subs = subscriptions();
    assert_eq!(subs.len(), 7);
    assert_eq!(subs[0], ("channel.follow".to_string(), "2".to_string()));
    assert_eq!(subs[6], ("channel.hype_train.progress".to_string(), "1".to_string()));
    assert!(all_subscriptions_failed(&vec![false, false, false]));
    assert!(!all_subscriptions_failed(&vec![false, true, false]));
    assert!(all_subscriptions_failed(&vec![]));
}

#[test]
fn event_messages() {
    assert!(matches!(classify_event("session_welcome", Some("s1"), "", None), EventAction::Subscribe(s) if s == "s1"));
    assert!(matches!(classify_event("session_welcome", None, "", None), EventAction::Reconnect));
    assert!(matches!(classify_event("session_keepalive", None, "", None), EventAction::Ignore));
    assert!(matches!(classify_event("notification", None, "channel.follow", Some("Ann")), EventAction::Show(s) if s == ">> New follow from Ann."));
    assert!(matches!(classify_event("notification", None, "channel.follow", None), EventAction::Show(s) if s == ">> New follow from Anonymous."));
    assert!(matches!(classify_event("notification", None, "channel.cheer", Some("Ann")), EventAction::ShowRaw));
    assert!(matches!(classify_event("session_reconnect", None, "", None), EventAction::ShowRaw));
}

#[test]
fn asset_routes() {
    assert_eq!(asset_for("/"), Asset::Page);
    assert_eq!(asset_for("/client.js"), Asset::Script);
    assert_eq!(asset_for("/follow_sound"), Asset::FollowSound);
    assert_eq!(asset_for("/sub_video"), Asset::SubVideo);
    assert_eq!(asset_for("/favicon.ico"), Asset::NoContent);
}
