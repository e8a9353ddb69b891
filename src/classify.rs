//! Splitting a chat frame into header, type and body, and deriving the
//! sender's metadata from the tags in the header.

use vstd::prelude::*;
use crate::text::{copy_range, find_from, find_sub, has_prefix, matches_at, occurs_at, substring, to_chars};

verus! {

/// The marker that separates the tag header from the command.
pub open spec fn separator() -> Seq<char> {
    seq!['t', 'm', 'i', '.', 't', 'w', 'i', 't', 'c', 'h', '.', 't', 'v']
}

/// What follows the separator and the one character after it.
pub open spec fn after_separator(m: Seq<char>, i: nat) -> Seq<char> {
    if i + 14 <= m.len() {
        m.skip((i + 14) as int)
    } else {
        Seq::empty()
    }
}

/// The tag header: everything before the separator, or nothing when the
/// frame has no separator.
pub open spec fn header_of(m: Seq<char>) -> Seq<char> {
    match find_sub(m, separator(), 0) {
        Some(i) => m.take(i as int),
        None => Seq::empty(),
    }
}

/// The message type: the word right after the separator.
pub open spec fn message_type_of(m: Seq<char>) -> Seq<char> {
    match find_sub(m, separator(), 0) {
        Some(i) => {
            let r = after_separator(m, i);
            match find_sub(r, seq![' '], 0) {
                Some(j) => r.take(j as int),
                None => r,
            }
        },
        None => Seq::empty(),
    }
}

/// The body: everything after the first colon that follows the type word.
pub open spec fn body_of(m: Seq<char>) -> Seq<char> {
    match find_sub(m, separator(), 0) {
        Some(i) => {
            let r = after_separator(m, i);
            match find_sub(r, seq![' '], 0) {
                Some(j) => {
                    let r2 = r.skip((j + 1) as int);
                    match find_sub(r2, seq![':'], 0) {
                        Some(k) => r2.skip((k + 1) as int),
                        None => Seq::empty(),
                    }
                },
                None => Seq::empty(),
            }
        },
        None => Seq::empty(),
    }
}

pub open spec fn is_tag_delim(c: char) -> bool {
    c == ';' || c == ' '
}

/// The first delimiter position at or after `from`.
pub open spec fn find_delim(s: Seq<char>, from: nat) -> Option<nat>
    decreases s.len() - from,
{
    if from >= s.len() {
        None
    } else if is_tag_delim(s[from as int]) {
        Some(from)
    } else {
        find_delim(s, from + 1)
    }
}

/// The header cut at every `;` and every space.
pub open spec fn tokens_of(h: Seq<char>) -> Seq<Seq<char>>
    decreases h.len(),
{
    match find_delim(h, 0) {
        Some(d) => if d < h.len() {
            seq![h.take(d as int)] + tokens_of(h.skip((d + 1) as int))
        } else {
            seq![h]
        },
        None => seq![h],
    }
}

/// The tags of header `h`: the header without the `@` that opens its tag
/// section. Only that one `@` is dropped; a token elsewhere that starts with
/// `@` keeps it, and so is no tag the metadata is derived from.
pub open spec fn tag_section(h: Seq<char>) -> Seq<char> {
    if h.len() > 0 && h[0] == '@' {
        h.drop_first()
    } else {
        h
    }
}

/// Token `t` is the tag whose key, with its `=`, is `key`.
pub open spec fn is_tag(t: Seq<char>, key: Seq<char>) -> bool {
    has_prefix(t, key)
}

/// The value of the first token of `toks` that is the tag `key`; empty when
/// there is none.
pub open spec fn tag_value(toks: Seq<Seq<char>>, key: Seq<char>) -> Seq<char>
    decreases toks.len(),
{
    if toks.len() == 0 {
        Seq::empty()
    } else if is_tag(toks[0], key) {
        toks[0].skip(key.len() as int)
    } else {
        tag_value(toks.drop_first(), key)
    }
}

pub open spec fn key_id() -> Seq<char> {
    seq!['i', 'd', '=']
}

pub open spec fn key_badges() -> Seq<char> {
    seq!['b', 'a', 'd', 'g', 'e', 's', '=']
}

pub open spec fn key_display_name() -> Seq<char> {
    seq!['d', 'i', 's', 'p', 'l', 'a', 'y', '-', 'n', 'a', 'm', 'e', '=']
}

pub open spec fn key_user_id() -> Seq<char> {
    seq!['u', 's', 'e', 'r', '-', 'i', 'd', '=']
}

pub open spec fn key_custom_reward_id() -> Seq<char> {
    seq!['c', 'u', 's', 't', 'o', 'm', '-', 'r', 'e', 'w', 'a', 'r', 'd', '-', 'i', 'd', '=']
}

pub open spec fn key_bits() -> Seq<char> {
    seq!['b', 'i', 't', 's', '=']
}

pub open spec fn key_msg_id() -> Seq<char> {
    seq!['m', 's', 'g', '-', 'i', 'd', '=']
}

/// Token `t` is one of the tags the metadata is derived from.
pub open spec fn is_known_tag(t: Seq<char>) -> bool {
    ||| is_tag(t, key_id())
    ||| is_tag(t, key_badges())
    ||| is_tag(t, key_display_name())
    ||| is_tag(t, key_user_id())
    ||| is_tag(t, key_custom_reward_id())
    ||| is_tag(t, key_bits())
    ||| is_tag(t, key_msg_id())
}

/// Coarse role of a chat participant.
#[derive(Clone, Copy, Debug, PartialEq, Eq, Structural)]
pub enum Badge {
    Streamer,
    Moderator,
    Subscriber,
    Vip,
    NoBadge,
}

pub open spec fn badge_streamer() -> Seq<char> {
    seq!['b', 'r', 'o', 'a', 'd', 'c', 'a', 's', 't', 'e', 'r']
}

pub open spec fn badge_moderator() -> Seq<char> {
    seq!['m', 'o', 'd', 'e', 'r', 'a', 't', 'o', 'r']
}

pub open spec fn badge_subscriber() -> Seq<char> {
    seq!['s', 'u', 'b', 's', 'c', 'r', 'i', 'b', 'e', 'r']
}

pub open spec fn badge_vip() -> Seq<char> {
    seq!['v', 'i', 'p']
}

/// An entry of the comma-separated badge list starts at `p` with `name`.
pub open spec fn badge_at(v: Seq<char>, name: Seq<char>, p: int) -> bool {
    (p == 0 || (0 < p <= v.len() && v[p - 1] == ',')) && occurs_at(v, name, p)
}

pub open spec fn has_badge(v: Seq<char>, name: Seq<char>) -> bool {
    exists|p: int| #[trigger] badge_at(v, name, p)
}

/// The highest-ranked badge of the list: streamer, then moderator, then
/// subscriber, then VIP.
pub open spec fn badge_of(v: Seq<char>) -> Badge {
    if has_badge(v, badge_streamer()) {
        Badge::Streamer
    } else if has_badge(v, badge_moderator()) {
        Badge::Moderator
    } else if has_badge(v, badge_subscriber()) {
        Badge::Subscriber
    } else if has_badge(v, badge_vip()) {
        Badge::Vip
    } else {
        Badge::NoBadge
    }
}

/// The metadata of a frame, as plain values.
pub struct MetadataView {
    pub message_type: Seq<char>,
    pub badge: Badge,
    pub username: Seq<char>,
    pub user_id: Seq<char>,
    pub message_id: Seq<char>,
    pub custom_reward_id: Seq<char>,
    pub bits: Seq<char>,
    pub msg_id: Seq<char>,
}

/// The metadata that the tags `toks` give, with the message type `ty`.
pub open spec fn metadata_from(ty: Seq<char>, toks: Seq<Seq<char>>) -> MetadataView {
    MetadataView {
        message_type: ty,
        badge: badge_of(tag_value(toks, key_badges())),
        username: tag_value(toks, key_display_name()),
        user_id: tag_value(toks, key_user_id()),
        message_id: tag_value(toks, key_id()),
        custom_reward_id: tag_value(toks, key_custom_reward_id()),
        bits: tag_value(toks, key_bits()),
        msg_id: tag_value(toks, key_msg_id()),
    }
}

/// Nothing known: every field empty, no badge.
pub open spec fn empty_metadata() -> MetadataView {
    MetadataView {
        message_type: Seq::empty(),
        badge: Badge::NoBadge,
        username: Seq::empty(),
        user_id: Seq::empty(),
        message_id: Seq::empty(),
        custom_reward_id: Seq::empty(),
        bits: Seq::empty(),
        msg_id: Seq::empty(),
    }
}

/// The metadata of frame `m`; empty when the frame has no separator.
pub open spec fn metadata_of(m: Seq<char>) -> MetadataView {
    if find_sub(m, separator(), 0) is Some {
        metadata_from(message_type_of(m), tokens_of(tag_section(header_of(m))))
    } else {
        empty_metadata()
    }
}

proof fn lemma_delim_skips_clean(s: Seq<char>, k: nat)
    requires
        k <= s.len(),
        forall|j: int| 0 <= j < k ==> !is_tag_delim(#[trigger] s[j]),
    ensures
        find_delim(s, 0) == find_delim(s, k),
    decreases k,
{
    if k > 0 {
        lemma_delim_skips_clean(s, (k - 1) as nat);
    }
}

/// The views of a list of character vectors.
pub open spec fn view_tokens(toks: Seq<Vec<char>>) -> Seq<Seq<char>> {
    toks.map_values(|t: Vec<char>| t@)
}

/// Cuts the header at every `;` and every space.
pub fn split_tokens(h: &Vec<char>) -> (toks: Vec<Vec<char>>)
    ensures
        view_tokens(toks@) == tokens_of(h@),
{
    let n = h.len();
    let mut toks: Vec<Vec<char>> = Vec::new();
    let ghost mut acc: Seq<Seq<char>> = Seq::empty();
    let mut cur: Vec<char> = Vec::new();
    let mut start: usize = 0;
    let mut i: usize = 0;
    assert(h@.skip(0) == h@);
    while i < n
        invariant
            n == h@.len(),
            start <= i <= n,
            tokens_of(h@) == acc + tokens_of(h@.skip(start as int)),
            forall|j: int| start <= j < i ==> !is_tag_delim(#[trigger] h@[j]),
            cur@ == h@.subrange(start as int, i as int),
            view_tokens(toks@) == acc,
        decreases n - i,
    {
        let c = h[i];
        if c == ';' || c == ' ' {
            let ghost d = h@.skip(start as int);
            let ghost off = (i - start) as nat;
            proof {
                assert forall|j: int| 0 <= j < off implies !is_tag_delim(#[trigger] d[j]) by {
                    assert(d[j] == h@[start + j]);
                }
                lemma_delim_skips_clean(d, off);
                assert(find_delim(d, off) == Some(off));
                assert(d.skip((off + 1) as int) == h@.skip(i + 1));
                assert(d.take(off as int) == cur@);
                acc = acc.push(cur@);
            }
            toks.push(cur);
            assert(view_tokens(toks@) =~= acc);
            cur = Vec::new();
            start = i + 1;
            assert(cur@ == h@.subrange(start as int, start as int));
        } else {
            cur.push(c);
            assert(h@.subrange(start as int, i + 1) == h@.subrange(start as int, i as int).push(c));
        }
        i = i + 1;
    }
    proof {
        let d = h@.skip(start as int);
        let off = (n - start) as nat;
        assert forall|j: int| 0 <= j < off implies !is_tag_delim(#[trigger] d[j]) by {
            assert(d[j] == h@[start + j]);
        }
        lemma_delim_skips_clean(d, off);
        assert(find_delim(d, off) is None);
        assert(cur@ == d);
        acc = acc.push(cur@);
    }
    toks.push(cur);
    assert(view_tokens(toks@) =~= acc);
    toks
}

/// The tag section of header `h`: `h` without the `@` that opens it.
pub fn tag_section_of(h: &Vec<char>) -> (r: Vec<char>)
    ensures
        r@ == tag_section(h@),
{
    let n = h.len();
    if n > 0 && h[0] == '@' {
        copy_range(h, 1, n)
    } else {
        copy_range(h, 0, n)
    }
}

/// The value of the first tag `key` among `toks`; empty when there is none.
pub fn lookup_tag(toks: &Vec<Vec<char>>, key: &Vec<char>) -> (r: String)
    ensures
        r@ == tag_value(view_tokens(toks@), key@),
{
    let ghost vt = view_tokens(toks@);
    let mut k: usize = 0;
    assert(vt.skip(0) == vt);
    while k < toks.len()
        invariant
            vt == view_tokens(toks@),
            k <= toks@.len(),
            tag_value(vt, key@) == tag_value(vt.skip(k as int), key@),
        decreases toks@.len() - k,
    {
        assert(vt[k as int] == toks@[k as int]@);
        assert(vt.skip(k as int)[0] == vt[k as int]);
        let t = &toks[k];
        if matches_at(t, key, 0) {
            let r = substring(t, key.len(), t.len());
            assert(t@.skip(key@.len() as int) == t@.subrange(key@.len() as int, t@.len() as int));
            return r;
        }
        assert(vt.skip(k as int).drop_first() == vt.skip(k + 1));
        k = k + 1;
    }
    String::new()
}

/// Whether an entry of the badge list `v` starts with `name`.
fn has_badge_exec(v: &Vec<char>, name: &Vec<char>) -> (r: bool)
    ensures
        r == has_badge(v@, name@),
{
    let n = v.len();
    let mut p: usize = 0;
    while p < n
        invariant
            n == v@.len(),
            p <= n,
            forall|q: int| 0 <= q < p ==> !#[trigger] badge_at(v@, name@, q),
        decreases n - p,
    {
        if (p == 0 || v[p - 1] == ',') && matches_at(v, name, p) {
            assert(badge_at(v@, name@, p as int));
            return true;
        }
        p = p + 1;
    }
    if (n == 0 || v[n - 1] == ',') && matches_at(v, name, n) {
        assert(badge_at(v@, name@, n as int));
        return true;
    }
    assert forall|q: int| !#[trigger] badge_at(v@, name@, q) by {
        if 0 <= q <= n {
        }
    }
    false
}

/// The highest-ranked badge of the badge list `v`.
pub fn badge_from_list(v: &str) -> (b: Badge)
    ensures
        b == badge_of(v@),
{
    let v = to_chars(v);
    if has_badge_exec(&v, &vec!['b', 'r', 'o', 'a', 'd', 'c', 'a', 's', 't', 'e', 'r']) {
        Badge::Streamer
    } else if has_badge_exec(&v, &vec!['m', 'o', 'd', 'e', 'r', 'a', 't', 'o', 'r']) {
        Badge::Moderator
    } else if has_badge_exec(&v, &vec!['s', 'u', 'b', 's', 'c', 'r', 'i', 'b', 'e', 'r']) {
        Badge::Subscriber
    } else if has_badge_exec(&v, &vec!['v', 'i', 'p']) {
        Badge::Vip
    } else {
        Badge::NoBadge
    }
}

/// A frame's metadata. Every field is recomputed for each frame; nothing
/// carries over from the previous one.
pub struct Metadata {
    pub message_type: String,
    pub badge: Badge,
    pub username: String,
    pub user_id: String,
    pub message_id: String,
    pub custom_reward_id: String,
    pub bits: String,
    pub msg_id: String,
}

impl View for Metadata {
    type V = MetadataView;

    open spec fn view(&self) -> MetadataView {
        MetadataView {
            message_type: self.message_type@,
            badge: self.badge,
            username: self.username@,
            user_id: self.user_id@,
            message_id: self.message_id@,
            custom_reward_id: self.custom_reward_id@,
            bits: self.bits@,
            msg_id: self.msg_id@,
        }
    }
}

impl Metadata {
    pub fn new() -> (r: Metadata)
        ensures
            r@ == empty_metadata(),
    {
        Metadata {
            message_type: String::new(),
            badge: Badge::NoBadge,
            username: String::new(),
            user_id: String::new(),
            message_id: String::new(),
            custom_reward_id: String::new(),
            bits: String::new(),
            msg_id: String::new(),
        }
    }

    /// Forgets every field.
    pub fn clear(&mut self)
        ensures
            final(self)@ == empty_metadata(),
    {
        self.message_type = String::new();
        self.badge = Badge::NoBadge;
        self.username = String::new();
        self.user_id = String::new();
        self.message_id = String::new();
        self.custom_reward_id = String::new();
        self.bits = String::new();
        self.msg_id = String::new();
    }
}

/// Splits frame `msg` into its tag header and its body, and fills `metadata`
/// from the header. A frame without the separator gives an empty header,
/// an empty body and empty metadata.
pub fn parse_message(msg: &str, metadata: &mut Metadata) -> (r: (String, String))
    ensures
        final(metadata)@ == metadata_of(msg@),
        r.0@ == header_of(msg@),
        r.1@ == body_of(msg@),
{
    let m = to_chars(msg);
    let sep = vec!['t', 'm', 'i', '.', 't', 'w', 'i', 't', 'c', 'h', '.', 't', 'v'];
    assert(sep@ == separator());
    let i = match find_from(&m, &sep, 0) {
        Some(i) => i,
        None => {
            metadata.clear();
            return (String::new(), String::new());
        },
    };
    let n = m.len();
    let header_chars = copy_range(&m, 0, i);
    let header = substring(&m, 0, i);
    let rest: Vec<char> = if n - i >= 14 {
        copy_range(&m, i + 14, n)
    } else {
        Vec::new()
    };
    assert(rest@ == after_separator(m@, i as nat));
    let space = vec![' '];
    let colon = vec![':'];
    assert(space@ == seq![' ']);
    assert(colon@ == seq![':']);
    let (message_type, body) = match find_from(&rest, &space, 0) {
        Some(j) => {
            let ty = substring(&rest, 0, j);
            assert(ty@ == rest@.take(j as int));
            let after = copy_range(&rest, j + 1, rest.len());
            assert(after@ == rest@.skip(j + 1));
            let body = match find_from(&after, &colon, 0) {
                Some(k) => {
                    let b = substring(&after, k + 1, after.len());
                    assert(b@ == after@.skip(k + 1));
                    b
                },
                None => String::new(),
            };
            (ty, body)
        },
        None => {
            let ty = substring(&rest, 0, rest.len());
            assert(ty@ == rest@);
            (ty, String::new())
        },
    };
    assert(message_type@ == message_type_of(msg@));
    assert(body@ == body_of(msg@));
    assert(header_chars@ == header_of(m@));
    let toks = split_tokens(&tag_section_of(&header_chars));
    let badges = lookup_tag(&toks, &vec!['b', 'a', 'd', 'g', 'e', 's', '=']);
    metadata.message_type = message_type;
    metadata.badge = badge_from_list(badges.as_str());
    metadata.username = lookup_tag(
        &toks,
        &vec!['d', 'i', 's', 'p', 'l', 'a', 'y', '-', 'n', 'a', 'm', 'e', '='],
    );
    metadata.user_id = lookup_tag(&toks, &vec!['u', 's', 'e', 'r', '-', 'i', 'd', '=']);
    metadata.message_id = lookup_tag(&toks, &vec!['i', 'd', '=']);
    metadata.custom_reward_id = lookup_tag(
        &toks,
        &vec!['c', 'u', 's', 't', 'o', 'm', '-', 'r', 'e', 'w', 'a', 'r', 'd', '-', 'i', 'd', '='],
    );
    metadata.bits = lookup_tag(&toks, &vec!['b', 'i', 't', 's', '=']);
    metadata.msg_id = lookup_tag(&toks, &vec!['m', 's', 'g', '-', 'i', 'd', '=']);
    assert(metadata.badge == badge_of(tag_value(tokens_of(tag_section(header_of(msg@))), key_badges())));
    assert(metadata.username@ == tag_value(tokens_of(tag_section(header_of(msg@))), key_display_name()));
    (header, body)
}

proof fn lemma_unknown_tag_value(a: Seq<Seq<char>>, t: Seq<char>, b: Seq<Seq<char>>, key: Seq<char>)
    requires
        !is_tag(t, key),
    ensures
        tag_value(a + seq![t] + b, key) == tag_value(a + b, key),
    decreases a.len(),
{
    if a.len() == 0 {
        assert(a + seq![t] + b == seq![t] + b);
        assert((seq![t] + b).drop_first() == b);
        assert(a + b == b);
    } else {
        assert((a + seq![t] + b).drop_first() == a.drop_first() + seq![t] + b);
        assert((a + b).drop_first() == a.drop_first() + b);
        lemma_unknown_tag_value(a.drop_first(), t, b, key);
    }
}

/// A tag that the metadata is not derived from never shows in it: adding
/// such a tag anywhere among the others changes no field. A token that
/// starts with `@` inside the tag section, such as `@id=5`, is such a tag. A tag that is
/// absent leaves its field at its default, the empty text or no badge.
pub proof fn lemma_unknown_tags_ignored(
    ty: Seq<char>,
    a: Seq<Seq<char>>,
    t: Seq<char>,
    b: Seq<Seq<char>>,
)
    requires
        !is_known_tag(t),
    ensures
        metadata_from(ty, a + seq![t] + b) == metadata_from(ty, a + b),
        metadata_from(ty, Seq::empty()) == (MetadataView { message_type: ty, ..empty_metadata() }),
{
    lemma_unknown_tag_value(a, t, b, key_id());
    lemma_unknown_tag_value(a, t, b, key_badges());
    lemma_unknown_tag_value(a, t, b, key_display_name());
    lemma_unknown_tag_value(a, t, b, key_user_id());
    lemma_unknown_tag_value(a, t, b, key_custom_reward_id());
    lemma_unknown_tag_value(a, t, b, key_bits());
    lemma_unknown_tag_value(a, t, b, key_msg_id());
    let e = Seq::<char>::empty();
    assert(!has_badge(e, badge_streamer()));
    assert(!has_badge(e, badge_moderator()));
    assert(!has_badge(e, badge_subscriber()));
    assert(!has_badge(e, badge_vip()));
}

/// The badge is the highest-ranked one that the badge list names, whatever
/// the order of its entries: streamer over moderator over subscriber over
/// VIP; with none of them, no badge.
pub proof fn lemma_badge_priority(v: Seq<char>)
    ensures
        has_badge(v, badge_streamer()) ==> badge_of(v) == Badge::Streamer,
        !has_badge(v, badge_streamer()) && has_badge(v, badge_moderator()) ==> badge_of(v)
            == Badge::Moderator,
        !has_badge(v, badge_streamer()) && !has_badge(v, badge_moderator()) && has_badge(
            v,
            badge_subscriber(),
        ) ==> badge_of(v) == Badge::Subscriber,
        !has_badge(v, badge_streamer()) && !has_badge(v, badge_moderator()) && !has_badge(
            v,
            badge_subscriber(),
        ) && has_badge(v, badge_vip()) ==> badge_of(v) == Badge::Vip,
        !has_badge(v, badge_streamer()) && !has_badge(v, badge_moderator()) && !has_badge(
            v,
            badge_subscriber(),
        ) && !has_badge(v, badge_vip()) ==> badge_of(v) == Badge::NoBadge,
{
}

} // verus!
