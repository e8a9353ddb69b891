//! The local secrets: which channel to join, the bot's identity and
//! credentials, and the address to serve display clients on. The file is
//! `key = value` lines; `//` and `#` start comments.

use vstd::prelude::*;
use vstd::string::StringExecFns;
use crate::text::{
    copy_range, find_from, find_sub, has_prefix, lower_of, lowercase, matches_at, same_text,
    substring, to_chars, trim, trim_of,
};

verus! {

/// Whether the text is an IP address (v4 or v6), as
/// `IpAddr::from_str` accepts it.
pub uninterp spec fn is_ip_address(s: Seq<char>) -> bool;

/// Relies on `IpAddr::from_str`: whether the text parses as an IPv4 or
/// IPv6 address; the answer depends on the text alone.
#[verifier::external_body]
fn parses_as_ip(s: &str) -> (r: bool)
    ensures
        r == is_ip_address(s@),
{
    <core::net::IpAddr as core::str::FromStr>::from_str(s).is_ok()
}

#[derive(Clone, Copy, Debug, PartialEq, Eq, Structural)]
pub enum Keys {
    Channel,
    ChannelID,
    TwitchName,
    TwitchID,
    TwitchPassowrd,
    ServerIP,
}

/// The name a key has in the secrets file.
pub open spec fn key_name(k: Keys) -> Seq<char> {
    match k {
        Keys::Channel => "Channel"@,
        Keys::ChannelID => "ChannelID"@,
        Keys::TwitchName => "TwitchName"@,
        Keys::TwitchID => "TwitchID"@,
        Keys::TwitchPassowrd => "TwitchPassowrd"@,
        Keys::ServerIP => "ServerIP"@,
    }
}

impl Keys {
    pub fn name(&self) -> (r: &'static str)
        ensures
            r@ == key_name(*self),
    {
        match self {
            Keys::Channel => "Channel",
            Keys::ChannelID => "ChannelID",
            Keys::TwitchName => "TwitchName",
            Keys::TwitchID => "TwitchID",
            Keys::TwitchPassowrd => "TwitchPassowrd",
            Keys::ServerIP => "ServerIP",
        }
    }
}

pub struct Record {
    pub key: Keys,
    pub value: String,
}

impl Record {
    pub fn new(key: Keys) -> (r: Record)
        ensures
            r.key == key,
            r.value@ == Seq::<char>::empty(),
    {
        Record { key, value: String::new() }
    }
}

/// The value of the first record with key `key`; empty when there is none.
pub open spec fn value_of(data: Seq<Record>, key: Keys) -> Seq<char>
    decreases data.len(),
{
    if data.len() == 0 {
        Seq::empty()
    } else if data[0].key == key {
        data[0].value@
    } else {
        value_of(data.drop_first(), key)
    }
}

/// The position of the first record with key `key`.
pub open spec fn record_index(data: Seq<Record>, key: Keys, from: nat) -> Option<nat>
    decreases data.len() - from,
{
    if from >= data.len() {
        None
    } else if data[from as int].key == key {
        Some(from)
    } else {
        record_index(data, key, from + 1)
    }
}

/// The records in the order they are set up: every key, each empty.
pub fn new_records() -> (r: Vec<Record>)
    ensures
        r@.len() == 6,
        r@[0].key == Keys::Channel,
        r@[1].key == Keys::ChannelID,
        r@[2].key == Keys::TwitchID,
        r@[3].key == Keys::TwitchName,
        r@[4].key == Keys::TwitchPassowrd,
        r@[5].key == Keys::ServerIP,
        forall|i: int| 0 <= i < r@.len() ==> (#[trigger] r@[i]).value@ == Seq::<char>::empty(),
{
    let mut r: Vec<Record> = Vec::new();
    r.push(Record::new(Keys::Channel));
    r.push(Record::new(Keys::ChannelID));
    r.push(Record::new(Keys::TwitchID));
    r.push(Record::new(Keys::TwitchName));
    r.push(Record::new(Keys::TwitchPassowrd));
    r.push(Record::new(Keys::ServerIP));
    r
}

/// The value stored under `key`; empty when there is none.
pub fn get_data(data: &Vec<Record>, key: Keys) -> (r: String)
    ensures
        r@ == value_of(data@, key),
{
    let mut i: usize = 0;
    assert(data@.skip(0) == data@);
    while i < data.len()
        invariant
            i <= data@.len(),
            value_of(data@, key) == value_of(data@.skip(i as int), key),
        decreases data@.len() - i,
    {
        assert(data@.skip(i as int)[0] == data@[i as int]);
        if data[i].key == key {
            return data[i].value.clone();
        }
        assert(data@.skip(i as int).drop_first() == data@.skip(i + 1));
        i = i + 1;
    }
    String::new()
}

/// Replaces the value of the first record with key `key`; nothing changes
/// when there is none.
pub fn set_data(data: &mut Vec<Record>, key: Keys, value: &str)
    ensures
        final(data)@.len() == old(data)@.len(),
        match record_index(old(data)@, key, 0) {
            Some(i) => forall|j: int|
                0 <= j < old(data)@.len() ==> if j == i {
                    (#[trigger] final(data)@[j]).key == key && final(data)@[j].value@ == value@
                } else {
                    final(data)@[j] == old(data)@[j]
                },
            None => final(data)@ == old(data)@,
        },
{
    let mut i: usize = 0;
    while i < data.len()
        invariant
            i <= data@.len(),
            data@ == old(data)@,
            record_index(old(data)@, key, 0) == record_index(old(data)@, key, i as nat),
        decreases data@.len() - i,
    {
        if data[i].key == key {
            data[i].value = String::from_str(value);
            return ;
        }
        i = i + 1;
    }
}

/// The secrets file written for the user to fill in: every key that must be
/// given, with the usual local server address.
pub open spec fn template_text() -> Seq<char> {
    "Channel = \n\nTwitchName = \nTwitchID = \nTwitchPassowrd = \n\nServerIP = 127.0.0.1\n"@
}

pub fn template() -> (r: String)
    ensures
        r@ == template_text(),
{
    String::from_str("Channel = \n\nTwitchName = \nTwitchID = \nTwitchPassowrd = \n\nServerIP = 127.0.0.1\n")
}

/// What one line of the secrets file says.
pub enum SecretLine {
    /// A comment, a line without `=`, or a server address that is not an
    /// IP address.
    Ignored,
    /// A value for a known key.
    Entry { key: Keys, value: String },
    /// A key the file should not hold.
    Unrecognized { name: String },
}

pub enum SecretLineView {
    Ignored,
    Entry { key: Keys, value: Seq<char> },
    Unrecognized { name: Seq<char> },
}

impl View for SecretLine {
    type V = SecretLineView;

    open spec fn view(&self) -> SecretLineView {
        match self {
            SecretLine::Ignored => SecretLineView::Ignored,
            SecretLine::Entry { key, value } => SecretLineView::Entry { key: *key, value: value@ },
            SecretLine::Unrecognized { name } => SecretLineView::Unrecognized { name: name@ },
        }
    }
}

/// `s` up to the first occurrence of `pat`, or all of it.
pub open spec fn cut_at(s: Seq<char>, pat: Seq<char>) -> Seq<char> {
    match find_sub(s, pat, 0) {
        Some(i) => s.take(i as int),
        None => s,
    }
}

/// The key named `name`, if any.
pub open spec fn key_named(name: Seq<char>) -> Option<Keys> {
    if name == key_name(Keys::Channel) {
        Some(Keys::Channel)
    } else if name == key_name(Keys::TwitchName) {
        Some(Keys::TwitchName)
    } else if name == key_name(Keys::TwitchID) {
        Some(Keys::TwitchID)
    } else if name == key_name(Keys::TwitchPassowrd) {
        Some(Keys::TwitchPassowrd)
    } else if name == key_name(Keys::ServerIP) {
        Some(Keys::ServerIP)
    } else {
        None
    }
}

/// The meaning of line `l`. The key is what precedes the first `=`,
/// trimmed; the value is what follows it, cut at the first `//` and then at
/// the first `#`, trimmed. The channel name is taken in lower case, and a
/// server address only when it is an IP address.
pub open spec fn secret_line(l: Seq<char>) -> SecretLineView {
    if has_prefix(l, "//"@) || has_prefix(l, "#"@) {
        SecretLineView::Ignored
    } else {
        match find_sub(l, seq!['='], 0) {
            None => SecretLineView::Ignored,
            Some(i) => {
                let name = trim_of(l.take(i as int));
                let value = trim_of(cut_at(cut_at(l.skip((i + 1) as int), "//"@), "#"@));
                match key_named(name) {
                    Some(Keys::Channel) => SecretLineView::Entry {
                        key: Keys::Channel,
                        value: lower_of(value),
                    },
                    Some(Keys::ServerIP) => if is_ip_address(value) {
                        SecretLineView::Entry { key: Keys::ServerIP, value }
                    } else {
                        SecretLineView::Ignored
                    },
                    Some(k) => SecretLineView::Entry { key: k, value },
                    None => SecretLineView::Unrecognized { name },
                }
            },
        }
    }
}

/// `v` up to the first occurrence of `pat`, or all of it.
fn cut_at_exec(v: &Vec<char>, pat: &str) -> (r: Vec<char>)
    ensures
        r@ == cut_at(v@, pat@),
{
    let p = to_chars(pat);
    match find_from(v, &p, 0) {
        Some(i) => copy_range(v, 0, i),
        None => copy_range(v, 0, v.len()),
    }
}

/// Reads one line of the secrets file.
pub fn parse_line(line: &str) -> (r: SecretLine)
    ensures
        r@ == secret_line(line@),
{
    let l = to_chars(line);
    if matches_at(&l, &to_chars("//"), 0) || matches_at(&l, &to_chars("#"), 0) {
        return SecretLine::Ignored;
    }
    let eq = vec!['='];
    assert(eq@ == seq!['=']);
    let i = match find_from(&l, &eq, 0) {
        Some(i) => i,
        None => {
            return SecretLine::Ignored;
        },
    };
    let name = trim(substring(&l, 0, i).as_str());
    let n = l.len();
    let rest = copy_range(&l, i + 1, n);
    let cut = cut_at_exec(&cut_at_exec(&rest, "//"), "#");
    let value = trim(substring(&cut, 0, cut.len()).as_str());
    assert(cut@.subrange(0, cut@.len() as int) == cut@);
    let k = name.as_str();
    if same_text(k, "Channel") {
        SecretLine::Entry { key: Keys::Channel, value: lowercase(value.as_str()) }
    } else if same_text(k, "TwitchName") {
        SecretLine::Entry { key: Keys::TwitchName, value }
    } else if same_text(k, "TwitchID") {
        SecretLine::Entry { key: Keys::TwitchID, value }
    } else if same_text(k, "TwitchPassowrd") {
        SecretLine::Entry { key: Keys::TwitchPassowrd, value }
    } else if same_text(k, "ServerIP") {
        if parses_as_ip(value.as_str()) {
            SecretLine::Entry { key: Keys::ServerIP, value }
        } else {
            SecretLine::Ignored
        }
    } else {
        SecretLine::Unrecognized { name }
    }
}

/// The values the bot cannot run without, as read so far.
pub struct RequiredInfo {
    pub channel: String,
    pub twitch_name: String,
    pub twitch_id: String,
    pub twitch_pass: String,
    pub server_ip: String,
}

/// `msg` with `text` added to the list it holds.
pub open spec fn appended(msg: Seq<char>, text: Seq<char>) -> Seq<char> {
    if msg.len() > 0 {
        msg + ", "@ + text
    } else {
        text
    }
}

pub open spec fn add_if_empty(msg: Seq<char>, field: Seq<char>, text: Seq<char>) -> Seq<char> {
    if field.len() == 0 {
        appended(msg, text)
    } else {
        msg
    }
}

/// The names of the empty fields, in order, separated by commas.
pub open spec fn missing_list(info: RequiredInfo) -> Seq<char> {
    let m1 = add_if_empty(Seq::empty(), info.channel@, "Channel"@);
    let m2 = add_if_empty(m1, info.twitch_name@, "TwitchName"@);
    let m3 = add_if_empty(m2, info.twitch_id@, "TwitchID"@);
    let m4 = add_if_empty(m3, info.twitch_pass@, "TwitchPassword"@);
    add_if_empty(m4, info.server_ip@, "ServerIP"@)
}

pub open spec fn is_filled_up(info: RequiredInfo) -> bool {
    &&& info.channel@.len() > 0
    &&& info.twitch_name@.len() > 0
    &&& info.twitch_id@.len() > 0
    &&& info.twitch_pass@.len() > 0
    &&& info.server_ip@.len() > 0
}

impl RequiredInfo {
    pub fn new() -> (r: RequiredInfo)
        ensures
            r.channel@ == Seq::<char>::empty(),
            r.twitch_name@ == Seq::<char>::empty(),
            r.twitch_id@ == Seq::<char>::empty(),
            r.twitch_pass@ == Seq::<char>::empty(),
            r.server_ip@ == Seq::<char>::empty(),
    {
        RequiredInfo {
            channel: String::new(),
            twitch_name: String::new(),
            twitch_id: String::new(),
            twitch_pass: String::new(),
            server_ip: String::new(),
        }
    }

    /// Every value is there.
    pub fn filled_up(&self) -> (r: bool)
        ensures
            r == is_filled_up(*self),
    {
        !self.channel.as_str().is_empty() && !self.twitch_name.as_str().is_empty()
            && !self.twitch_id.as_str().is_empty() && !self.twitch_pass.as_str().is_empty()
            && !self.server_ip.as_str().is_empty()
    }

    /// The names of the missing values, separated by commas.
    pub fn get_missing_data_error(&self) -> (r: String)
        ensures
            r@ == missing_list(*self),
    {
        let mut err = String::new();
        if self.channel.as_str().is_empty() {
            RequiredInfo::append_missing_data_error(&mut err, "Channel");
        }
        if self.twitch_name.as_str().is_empty() {
            RequiredInfo::append_missing_data_error(&mut err, "TwitchName");
        }
        if self.twitch_id.as_str().is_empty() {
            RequiredInfo::append_missing_data_error(&mut err, "TwitchID");
        }
        if self.twitch_pass.as_str().is_empty() {
            RequiredInfo::append_missing_data_error(&mut err, "TwitchPassword");
        }
        if self.server_ip.as_str().is_empty() {
            RequiredInfo::append_missing_data_error(&mut err, "ServerIP");
        }
        err
    }

    /// Adds `text` to the comma-separated list in `msg`.
    pub fn append_missing_data_error(msg: &mut String, text: &str)
        ensures
            final(msg)@ == appended(old(msg)@, text@),
    {
        if !msg.as_str().is_empty() {
            msg.append(", ");
        }
        msg.append(text);
    }
}

/// The value the last line with an entry for `k` gives it; empty when no
/// line does.
pub open spec fn last_entry(ls: Seq<Seq<char>>, k: Keys) -> Seq<char>
    decreases ls.len(),
{
    if ls.len() == 0 {
        Seq::empty()
    } else {
        match secret_line(ls.last()) {
            SecretLineView::Entry { key, value } => if key == k {
                value
            } else {
                last_entry(ls.drop_last(), k)
            },
            _ => last_entry(ls.drop_last(), k),
        }
    }
}

pub open spec fn lines_view(ls: Seq<String>) -> Seq<Seq<char>> {
    ls.map_values(|s: String| s@)
}

/// The required values that the lines `ls` give.
pub open spec fn info_matches(info: RequiredInfo, ls: Seq<Seq<char>>) -> bool {
    &&& info.channel@ == last_entry(ls, Keys::Channel)
    &&& info.twitch_name@ == last_entry(ls, Keys::TwitchName)
    &&& info.twitch_id@ == last_entry(ls, Keys::TwitchID)
    &&& info.twitch_pass@ == last_entry(ls, Keys::TwitchPassowrd)
    &&& info.server_ip@ == last_entry(ls, Keys::ServerIP)
}

/// Reads the lines of the secrets file. Each known key takes the value of
/// the last line that sets it. When every required value is there, the
/// records hold them (the channel id stays empty, to be looked up);
/// otherwise the error names the missing ones.
pub fn parse_secrets(lines: &Vec<String>) -> (r: Result<Vec<Record>, String>)
    ensures
        ({
            let ls = lines_view(lines@);
            let c = last_entry(ls, Keys::Channel);
            let n = last_entry(ls, Keys::TwitchName);
            let i = last_entry(ls, Keys::TwitchID);
            let p = last_entry(ls, Keys::TwitchPassowrd);
            let s = last_entry(ls, Keys::ServerIP);
            if c.len() > 0 && n.len() > 0 && i.len() > 0 && p.len() > 0 && s.len() > 0 {
                r matches Ok(recs) && recs@.len() == 6 && value_of(recs@, Keys::Channel) == c
                    && value_of(recs@, Keys::ChannelID) == Seq::<char>::empty() && value_of(
                    recs@,
                    Keys::TwitchName,
                ) == n && value_of(recs@, Keys::TwitchID) == i && value_of(
                    recs@,
                    Keys::TwitchPassowrd,
                ) == p && value_of(recs@, Keys::ServerIP) == s
            } else {
                r matches Err(e) && exists|info: RequiredInfo|
                    info_matches(info, ls) && e@ == #[trigger] missing_list(info)
            }
        }),
{
    let ghost ls = lines_view(lines@);
    let mut info = RequiredInfo::new();
    let mut k: usize = 0;
    assert(ls.take(0) =~= Seq::<Seq<char>>::empty());
    while k < lines.len()
        invariant
            ls == lines_view(lines@),
            k <= lines@.len(),
            info_matches(info, ls.take(k as int)),
        decreases lines@.len() - k,
    {
        let parsed = parse_line(lines[k].as_str());
        assert(ls.take(k + 1).drop_last() == ls.take(k as int));
        assert(ls.take(k + 1).last() == lines@[k as int]@);
        match parsed {
            SecretLine::Entry { key, value } => match key {
                Keys::Channel => {
                    info.channel = value;
                },
                Keys::TwitchName => {
                    info.twitch_name = value;
                },
                Keys::TwitchID => {
                    info.twitch_id = value;
                },
                Keys::TwitchPassowrd => {
                    info.twitch_pass = value;
                },
                Keys::ServerIP => {
                    info.server_ip = value;
                },
                Keys::ChannelID => {},
            },
            _ => {},
        }
        k = k + 1;
    }
    assert(ls.take(k as int) == ls);
    if !info.filled_up() {
        return Err(info.get_missing_data_error());
    }
    let mut recs: Vec<Record> = Vec::new();
    recs.push(Record { key: Keys::Channel, value: info.channel });
    recs.push(Record::new(Keys::ChannelID));
    recs.push(Record { key: Keys::TwitchID, value: info.twitch_id });
    recs.push(Record { key: Keys::TwitchName, value: info.twitch_name });
    recs.push(Record { key: Keys::TwitchPassowrd, value: info.twitch_pass });
    recs.push(Record { key: Keys::ServerIP, value: info.server_ip });
    proof {
        let v = recs@;
        let v1 = v.drop_first();
        let v2 = v1.drop_first();
        let v3 = v2.drop_first();
        let v4 = v3.drop_first();
        let v5 = v4.drop_first();
        assert(v1[0] == v[1] && v2[0] == v[2] && v3[0] == v[3] && v4[0] == v[4] && v5[0] == v[5]);
        assert(value_of(v5, Keys::ServerIP) == v[5].value@);
        assert(value_of(v4, Keys::TwitchPassowrd) == v[4].value@);
        assert(value_of(v4, Keys::ServerIP) == v[5].value@);
        assert(value_of(v3, Keys::TwitchName) == v[3].value@);
        assert(value_of(v3, Keys::ServerIP) == v[5].value@);
        assert(value_of(v3, Keys::TwitchPassowrd) == v[4].value@);
        assert(value_of(v2, Keys::TwitchID) == v[2].value@);
        assert(value_of(v2, Keys::TwitchName) == v[3].value@);
        assert(value_of(v2, Keys::TwitchPassowrd) == v[4].value@);
        assert(value_of(v2, Keys::ServerIP) == v[5].value@);
        assert(value_of(v1, Keys::ChannelID) == v[1].value@);
        assert(value_of(v1, Keys::TwitchID) == v[2].value@);
        assert(value_of(v1, Keys::TwitchName) == v[3].value@);
        assert(value_of(v1, Keys::TwitchPassowrd) == v[4].value@);
        assert(value_of(v1, Keys::ServerIP) == v[5].value@);
    }
    Ok(recs)
}

} // verus!
