//! Keeping the chat access token fresh: which request to make next, and the
//! texts those requests are made of.

use vstd::prelude::*;
use vstd::string::StringExecFns;
use crate::text::{find_from, push_char, substring, to_chars};

verus! {

/// What came of the last step of the token update.
#[derive(Clone, Copy, Debug, PartialEq, Eq, Structural)]
pub enum TokenEvent {
    /// The update starts, knowing whether a token and a refresh token are
    /// stored.
    Start { has_token: bool, has_refresh_token: bool },
    /// A refresh was tried; whether it gave a new token.
    Refreshed(bool),
    /// The user was asked to authorize the bot and the answer was handled.
    Authorized,
    /// The channel id was looked up; whether it was found.
    ChannelIdFetched(bool),
}

/// What to do next.
#[derive(Clone, Copy, Debug, PartialEq, Eq, Structural)]
pub enum TokenAction {
    /// Refresh the stored token.
    Refresh,
    /// Ask the user to authorize the bot for a new token.
    RequestNew,
    /// Look up the id of the channel.
    FetchChannelId,
    /// Done: `true` when the bot can go on.
    Finish(bool),
}

/// A stored token pair is refreshed, and a new one requested only when
/// there is none or the refresh fails; the update succeeds once the
/// channel id is known.
pub open spec fn token_step(e: TokenEvent) -> TokenAction {
    match e {
        TokenEvent::Start { has_token, has_refresh_token } => if has_token && has_refresh_token {
            TokenAction::Refresh
        } else {
            TokenAction::RequestNew
        },
        TokenEvent::Refreshed(ok) => if ok {
            TokenAction::FetchChannelId
        } else {
            TokenAction::RequestNew
        },
        TokenEvent::Authorized => TokenAction::FetchChannelId,
        TokenEvent::ChannelIdFetched(ok) => TokenAction::Finish(ok),
    }
}

/// Decides the next step of the token update.
pub fn update(event: TokenEvent) -> (r: TokenAction)
    ensures
        r == token_step(event),
{
    match event {
        TokenEvent::Start { has_token, has_refresh_token } => {
            if has_token && has_refresh_token {
                TokenAction::Refresh
            } else {
                TokenAction::RequestNew
            }
        },
        TokenEvent::Refreshed(ok) => {
            if ok {
                TokenAction::FetchChannelId
            } else {
                TokenAction::RequestNew
            }
        },
        TokenEvent::Authorized => TokenAction::FetchChannelId,
        TokenEvent::ChannelIdFetched(ok) => TokenAction::Finish(ok),
    }
}

/// The permissions the bot asks for, joined by `+`, with `:` written `%3A`.
pub open spec fn scope_text() -> Seq<char> {
    "bits%3Aread+channel%3Amanage%3Aredemptions+channel%3Aread%3Ahype_train+channel%3Aread%3Aredemptions+channel%3Aread%3Asubscriptions+chat%3Aedit+chat%3Aread+moderator%3Amanage%3Abanned_users+moderator%3Amanage%3Ashoutouts+moderator%3Aread%3Achatters+moderator%3Aread%3Afollowers+whispers%3Aedit+whispers%3Aread"@
}

/// `s` with every `from` replaced by `to`.
pub open spec fn replaced(s: Seq<char>, from: char, to: Seq<char>) -> Seq<char>
    decreases s.len(),
{
    if s.len() == 0 {
        Seq::empty()
    } else {
        replaced(s.drop_last(), from, to) + if s.last() == from {
            to
        } else {
            seq![s.last()]
        }
    }
}

/// Replaces every `from` in `s` by `to`.
pub fn replace_char(s: &str, from: char, to: &str) -> (r: String)
    ensures
        r@ == replaced(s@, from, to@),
{
    let v = to_chars(s);
    let mut r = String::new();
    let mut i: usize = 0;
    assert(v@.take(0) =~= Seq::<char>::empty());
    while i < v.len()
        invariant
            i <= v@.len(),
            r@ == replaced(v@.take(i as int), from, to@),
        decreases v@.len() - i,
    {
        assert(v@.take(i + 1).drop_last() == v@.take(i as int));
        if v[i] == from {
            r.append(to);
        } else {
            push_char(&mut r, v[i]);
        }
        i = i + 1;
    }
    assert(v@.take(i as int) == v@);
    r
}

/// The page where the user authorizes the bot with client id `id`.
pub open spec fn authorize_url_text(id: Seq<char>) -> Seq<char> {
    "https://id.twitch.tv/oauth2/authorize?client_id="@ + id
        + "&redirect_uri=http://localhost:3000&response_type=code&scope="@ + scope_text()
}

pub fn authorize_url(client_id: &str) -> (r: String)
    ensures
        r@ == authorize_url_text(client_id@),
{
    let mut url = String::from_str("https://id.twitch.tv/oauth2/authorize?client_id=");
    url.append(client_id);
    url.append("&redirect_uri=http://localhost:3000&response_type=code&scope=");
    url.append(
        "bits%3Aread+channel%3Amanage%3Aredemptions+channel%3Aread%3Ahype_train+channel%3Aread%3Aredemptions+channel%3Aread%3Asubscriptions+chat%3Aedit+chat%3Aread+moderator%3Amanage%3Abanned_users+moderator%3Amanage%3Ashoutouts+moderator%3Aread%3Achatters+moderator%3Aread%3Afollowers+whispers%3Aedit+whispers%3Aread",
    );
    url
}

/// The authorization code in the redirected request `req`: what follows
/// `?code=` up to the first `&` of the request, when that `&` comes after
/// `?code=`.
pub open spec fn code_in(req: Seq<char>) -> Option<Seq<char>> {
    match (crate::text::find_sub(req, "?code="@, 0), crate::text::find_sub(req, seq!['&'], 0)) {
        (Some(start), Some(end)) => if end > start {
            Some(req.subrange((start + 6) as int, end as int))
        } else {
            None
        },
        _ => None,
    }
}

pub fn extract_code(req: &str) -> (r: Option<String>)
    ensures
        match r {
            Some(c) => code_in(req@) == Some(c@),
            None => code_in(req@) is None,
        },
{
    let v = to_chars(req);
    let n = v.len();
    let key = to_chars("?code=");
    let amp = vec!['&'];
    assert(amp@ == seq!['&']);
    proof {
        reveal_strlit("?code=");
    }
    match (find_from(&v, &key, 0), find_from(&v, &amp, 0)) {
        (Some(start), Some(end)) => {
            if end > start {
                assert(start + 6 <= n);
                if end < start + 6 {
                    proof {
                        assert(v@[end as int] == '&');
                        assert(v@.subrange(start as int, start + 6)[end - start] == key@[end - start]);
                    }
                }
                Some(substring(&v, start + 6, end))
            } else {
                None
            }
        },
        _ => None,
    }
}

/// The body of the request that trades an authorization code for tokens.
pub open spec fn code_request_text(id: Seq<char>, secret: Seq<char>, code: Seq<char>) -> Seq<char> {
    "client_id="@ + id + "&client_secret="@ + secret + "&code="@ + code
        + "&grant_type=authorization_code&redirect_uri=http://localhost:3000"@
}

/// The body of the request that refreshes the tokens.
pub open spec fn refresh_request_text(id: Seq<char>, secret: Seq<char>, refresh: Seq<char>) -> Seq<
    char,
> {
    "client_id="@ + id + "&client_secret="@ + secret + "&grant_type=refresh_token&refresh_token="@
        + replaced(refresh, ':', "%3A"@)
}

pub fn code_request_body(client_id: &str, secret: &str, code: &str) -> (r: String)
    ensures
        r@ == code_request_text(client_id@, secret@, code@),
{
    let mut r = String::from_str("client_id=");
    r.append(client_id);
    r.append("&client_secret=");
    r.append(secret);
    r.append("&code=");
    r.append(code);
    r.append("&grant_type=authorization_code&redirect_uri=http://localhost:3000");
    r
}

pub fn refresh_request_body(client_id: &str, secret: &str, refresh_token: &str) -> (r: String)
    ensures
        r@ == refresh_request_text(client_id@, secret@, refresh_token@),
{
    let mut r = String::from_str("client_id=");
    r.append(client_id);
    r.append("&client_secret=");
    r.append(secret);
    r.append("&grant_type=refresh_token&refresh_token=");
    let escaped = replace_char(refresh_token, ':', "%3A");
    r.append(escaped.as_str());
    r
}

/// The id of the first user whose login is `channel`, among the
/// `(login, id)` pairs of a user lookup.
pub open spec fn channel_id_in(users: Seq<(Seq<char>, Seq<char>)>, channel: Seq<char>) -> Option<
    Seq<char>,
>
    decreases users.len(),
{
    if users.len() == 0 {
        None
    } else if users[0].0 == channel {
        Some(users[0].1)
    } else {
        channel_id_in(users.drop_first(), channel)
    }
}

pub open spec fn pairs_view(v: Seq<(String, String)>) -> Seq<(Seq<char>, Seq<char>)> {
    v.map_values(|p: (String, String)| (p.0@, p.1@))
}

pub fn find_channel_id(users: &Vec<(String, String)>, channel: &str) -> (r: Option<String>)
    ensures
        match r {
            Some(id) => channel_id_in(pairs_view(users@), channel@) == Some(id@),
            None => channel_id_in(pairs_view(users@), channel@) is None,
        },
{
    let ghost pv = pairs_view(users@);
    let mut i: usize = 0;
    assert(pv.skip(0) == pv);
    while i < users.len()
        invariant
            pv == pairs_view(users@),
            i <= users@.len(),
            channel_id_in(pv, channel@) == channel_id_in(pv.skip(i as int), channel@),
        decreases users@.len() - i,
    {
        assert(pv.skip(i as int)[0] == (users@[i as int].0@, users@[i as int].1@));
        if crate::text::same_text(users[i].0.as_str(), channel) {
            return Some(users[i].1.clone());
        }
        assert(pv.skip(i as int).drop_first() == pv.skip(i + 1));
        i = i + 1;
    }
    None
}

} // verus!
