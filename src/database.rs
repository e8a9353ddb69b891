//! The persisted configuration values (access tokens and their expiry),
//! held in memory as records, and the SQL statements that keep the
//! `Config` table in step with them.

use vstd::prelude::*;
use vstd::string::StringExecFns;

verus! {

#[derive(Clone, Copy, Debug, PartialEq, Eq, Structural)]
pub enum Keys {
    Version,
    TwitchOAuth,
    TwitchOAuthRefresh,
    TwitchExpires,
}

/// The name a key has in the `Config` table.
pub open spec fn key_name(k: Keys) -> Seq<char> {
    match k {
        Keys::Version => "Version"@,
        Keys::TwitchOAuth => "TwitchOAuth"@,
        Keys::TwitchOAuthRefresh => "TwitchOAuthRefresh"@,
        Keys::TwitchExpires => "TwitchExpires"@,
    }
}

impl Keys {
    pub fn name(&self) -> (r: &'static str)
        ensures
            r@ == key_name(*self),
    {
        match self {
            Keys::Version => "Version",
            Keys::TwitchOAuth => "TwitchOAuth",
            Keys::TwitchOAuthRefresh => "TwitchOAuthRefresh",
            Keys::TwitchExpires => "TwitchExpires",
        }
    }
}

pub struct Record {
    pub key: Keys,
    pub value: String,
}

impl Record {
    pub fn new(key: Keys) -> (r: Record)
        ensures
            r.key == key,
            r.value@ == Seq::<char>::empty(),
    {
        Record { key, value: String::new() }
    }
}

/// Every key, each with an empty value, in the order they are loaded.
pub fn new_records() -> (r: Vec<Record>)
    ensures
        r@.len() == 4,
        r@[0].key == Keys::Version,
        r@[1].key == Keys::TwitchOAuth,
        r@[2].key == Keys::TwitchOAuthRefresh,
        r@[3].key == Keys::TwitchExpires,
        forall|i: int| 0 <= i < r@.len() ==> (#[trigger] r@[i]).value@ == Seq::<char>::empty(),
{
    let mut r: Vec<Record> = Vec::new();
    r.push(Record::new(Keys::Version));
    r.push(Record::new(Keys::TwitchOAuth));
    r.push(Record::new(Keys::TwitchOAuthRefresh));
    r.push(Record::new(Keys::TwitchExpires));
    r
}

/// The values of all records with key `key`, one after another.
pub open spec fn values_of(data: Seq<Record>, key: Keys) -> Seq<char>
    decreases data.len(),
{
    if data.len() == 0 {
        Seq::empty()
    } else if data.last().key == key {
        values_of(data.drop_last(), key) + data.last().value@
    } else {
        values_of(data.drop_last(), key)
    }
}

/// The value stored under `key`: with one record per key, that record's
/// value; empty when there is none.
pub fn get_data(data: &Vec<Record>, key: Keys) -> (r: String)
    ensures
        r@ == values_of(data@, key),
{
    let mut ret = String::new();
    let mut i: usize = 0;
    assert(data@.take(0) =~= Seq::<Record>::empty());
    while i < data.len()
        invariant
            i <= data@.len(),
            ret@ == values_of(data@.take(i as int), key),
        decreases data@.len() - i,
    {
        assert(data@.take(i + 1).drop_last() == data@.take(i as int));
        if data[i].key == key {
            ret.append(data[i].value.as_str());
        }
        i = i + 1;
    }
    assert(data@.take(i as int) == data@);
    ret
}

/// Stores `value` in the first record with key `key`, after the table row
/// was updated; nothing changes when there is none.
pub fn set_value(data: &mut Vec<Record>, key: Keys, value: &str)
    ensures
        final(data)@.len() == old(data)@.len(),
        forall|j: int|
            0 <= j < old(data)@.len() ==> (#[trigger] final(data)@[j]).key == old(data)@[j].key,
        forall|j: int|
            0 <= j < old(data)@.len() && (forall|i: int| 0 <= i < j ==> old(data)@[i].key != key)
                && old(data)@[j].key == key ==> (#[trigger] final(data)@[j]).value@ == value@,
        forall|j: int|
            0 <= j < old(data)@.len() && !(old(data)@[j].key == key && (forall|i: int|
                0 <= i < j ==> old(data)@[i].key != key)) ==> (#[trigger] final(data)@[j])
                == old(data)@[j],
{
    let mut i: usize = 0;
    while i < data.len()
        invariant
            i <= data@.len(),
            data@ == old(data)@,
            forall|k: int| 0 <= k < i ==> (#[trigger] old(data)@[k]).key != key,
        decreases data@.len() - i,
    {
        if data[i].key == key {
            data[i].value = String::from_str(value);
            return ;
        }
        i = i + 1;
    }
}

/// The statement that reads the value stored under `key`.
pub open spec fn select_statement(key: Keys) -> Seq<char> {
    "SELECT Value FROM Config WHERE Name = '"@ + key_name(key) + "' LIMIT 1;"@
}

/// The statement that adds an empty row for `key`.
pub open spec fn insert_statement(key: Keys) -> Seq<char> {
    "INSERT INTO Config (Name, Value) VALUES ('"@ + key_name(key) + "', '');"@
}

/// The statement that stores `value` under `key`.
pub open spec fn update_statement(key: Keys, value: Seq<char>) -> Seq<char> {
    "UPDATE Config SET Value='"@ + value + "' WHERE Name='"@ + key_name(key) + "';"@
}

pub fn select_query(key: Keys) -> (r: String)
    ensures
        r@ == select_statement(key),
{
    let mut r = String::from_str("SELECT Value FROM Config WHERE Name = '");
    r.append(key.name());
    r.append("' LIMIT 1;");
    r
}

pub fn insert_query(key: Keys) -> (r: String)
    ensures
        r@ == insert_statement(key),
{
    let mut r = String::from_str("INSERT INTO Config (Name, Value) VALUES ('");
    r.append(key.name());
    r.append("', '');");
    r
}

pub fn update_query(key: Keys, value: &str) -> (r: String)
    ensures
        r@ == update_statement(key, value@),
{
    let mut r = String::from_str("UPDATE Config SET Value='");
    r.append(value);
    r.append("' WHERE Name='");
    r.append(key.name());
    r.append("';");
    r
}

} // verus!
