//! Splitting a byte stream into CRLF-terminated frames.

use vstd::prelude::*;
use crate::text::{decode_lossy, lossy_text};

verus! {

/// A terminator (`\r\n`) starts at position `i` of `s`.
pub open spec fn is_crlf_at(s: Seq<u8>, i: int) -> bool {
    0 <= i && i + 1 < s.len() && s[i] == 13u8 && s[i + 1] == 10u8
}

/// No terminator occurs anywhere in `s`.
pub open spec fn no_crlf(s: Seq<u8>) -> bool {
    forall|i: int| !#[trigger] is_crlf_at(s, i)
}

/// The first position at or after `from` where a terminator starts.
pub open spec fn find_crlf(s: Seq<u8>, from: nat) -> Option<nat>
    decreases s.len() - from,
{
    if from + 1 >= s.len() {
        None
    } else if is_crlf_at(s, from as int) {
        Some(from)
    } else {
        find_crlf(s, from + 1)
    }
}

/// The complete frames at the front of `s`, in order, without terminators.
pub open spec fn frames_of(s: Seq<u8>) -> Seq<Seq<u8>>
    decreases s.len(),
{
    match find_crlf(s, 0) {
        Some(i) => if i + 2 <= s.len() {
            seq![s.take(i as int)] + frames_of(s.skip((i + 2) as int))
        } else {
            Seq::empty()
        },
        None => Seq::empty(),
    }
}

/// What is left of `s` after its complete frames: a partial frame.
pub open spec fn rest_of(s: Seq<u8>) -> Seq<u8>
    decreases s.len(),
{
    match find_crlf(s, 0) {
        Some(i) => if i + 2 <= s.len() {
            rest_of(s.skip((i + 2) as int))
        } else {
            s
        },
        None => s,
    }
}

/// The bytes of `ps`, each followed by a terminator.
pub open spec fn join_frames(ps: Seq<Seq<u8>>) -> Seq<u8>
    decreases ps.len(),
{
    if ps.len() == 0 {
        Seq::empty()
    } else {
        ps[0] + seq![13u8, 10u8] + join_frames(ps.drop_first())
    }
}

/// The chunks laid end to end.
pub open spec fn flatten_chunks(cs: Seq<Seq<u8>>) -> Seq<u8>
    decreases cs.len(),
{
    if cs.len() == 0 {
        Seq::empty()
    } else {
        cs[0] + flatten_chunks(cs.drop_first())
    }
}

/// The frames that feeding `cs` one chunk after another yields to a reader
/// that starts out holding `pending`.
pub open spec fn frames_fed(pending: Seq<u8>, cs: Seq<Seq<u8>>) -> Seq<Seq<u8>>
    decreases cs.len(),
{
    if cs.len() == 0 {
        Seq::empty()
    } else {
        frames_of(pending + cs[0]) + frames_fed(rest_of(pending + cs[0]), cs.drop_first())
    }
}

/// What such a reader holds once every chunk is fed.
pub open spec fn pending_fed(pending: Seq<u8>, cs: Seq<Seq<u8>>) -> Seq<u8>
    decreases cs.len(),
{
    if cs.len() == 0 {
        pending
    } else {
        pending_fed(rest_of(pending + cs[0]), cs.drop_first())
    }
}

proof fn lemma_find_in_prefix(a: Seq<u8>, b: Seq<u8>, from: nat)
    requires
        find_crlf(a, from) is Some,
    ensures
        find_crlf(a + b, from) == find_crlf(a, from),
    decreases a.len() - from,
{
    if !is_crlf_at(a, from as int) {
        lemma_find_in_prefix(a, b, from + 1);
    }
}

proof fn lemma_find_skips_clean(s: Seq<u8>, k: nat)
    requires
        forall|j: int| 0 <= j < k ==> !#[trigger] is_crlf_at(s, j),
    ensures
        find_crlf(s, 0) == find_crlf(s, k),
    decreases k,
{
    if k > 0 {
        lemma_find_skips_clean(s, (k - 1) as nat);
        if k as int - 1 + 1 < s.len() {
            assert(!is_crlf_at(s, k - 1));
        }
    }
}

proof fn lemma_find_bounds(s: Seq<u8>, from: nat)
    ensures
        find_crlf(s, from) matches Some(i) ==> from <= i && i + 2 <= s.len()
            && is_crlf_at(s, i as int),
        find_crlf(s, from) is None ==> forall|j: int|
            from <= j ==> !#[trigger] is_crlf_at(s, j),
    decreases s.len() - from,
{
    if from + 1 < s.len() && !is_crlf_at(s, from as int) {
        lemma_find_bounds(s, from + 1);
    }
}

/// What is left after the frames never holds a terminator.
pub proof fn lemma_rest_has_no_crlf(s: Seq<u8>)
    ensures
        no_crlf(rest_of(s)),
    decreases s.len(),
{
    lemma_find_bounds(s, 0);
    match find_crlf(s, 0) {
        Some(i) => {
            lemma_rest_has_no_crlf(s.skip((i + 2) as int));
        },
        None => {},
    }
}

/// Splitting `a` and then what is left of it followed by `b` gives the
/// frames, and the remainder, of `a + b` split at once.
pub proof fn lemma_split_concat(a: Seq<u8>, b: Seq<u8>)
    ensures
        frames_of(a) + frames_of(rest_of(a) + b) == frames_of(a + b),
        rest_of(rest_of(a) + b) == rest_of(a + b),
    decreases a.len(),
{
    lemma_find_bounds(a, 0);
    match find_crlf(a, 0) {
        Some(i) => {
            lemma_find_in_prefix(a, b, 0);
            let a2 = a.skip((i + 2) as int);
            lemma_split_concat(a2, b);
            assert((a + b).take(i as int) == a.take(i as int));
            assert((a + b).skip((i + 2) as int) == a2 + b);
            assert(frames_of(a) == seq![a.take(i as int)] + frames_of(a2));
            assert(frames_of(a + b) == seq![a.take(i as int)] + frames_of(a2 + b));
            assert(frames_of(a) + frames_of(rest_of(a) + b) == seq![a.take(i as int)] + (
            frames_of(a2) + frames_of(rest_of(a2) + b)));
        },
        None => {
            assert(frames_of(a) + frames_of(rest_of(a) + b) == frames_of(a + b));
        },
    }
}

/// Feeding the chunks one by one yields the frames of their concatenation.
pub proof fn lemma_frames_fed(pending: Seq<u8>, cs: Seq<Seq<u8>>)
    requires
        no_crlf(pending),
    ensures
        frames_fed(pending, cs) == frames_of(pending + flatten_chunks(cs)),
        pending_fed(pending, cs) == rest_of(pending + flatten_chunks(cs)),
    decreases cs.len(),
{
    if cs.len() == 0 {
        assert(pending + flatten_chunks(cs) == pending);
        lemma_find_bounds(pending, 0);
    } else {
        let a = pending + cs[0];
        let tail = flatten_chunks(cs.drop_first());
        lemma_rest_has_no_crlf(a);
        lemma_frames_fed(rest_of(a), cs.drop_first());
        lemma_split_concat(a, tail);
        assert(a + tail == pending + flatten_chunks(cs));
    }
}

proof fn lemma_find_before_terminator(p: Seq<u8>, r: Seq<u8>, from: nat)
    requires
        no_crlf(p),
        from <= p.len(),
    ensures
        find_crlf(p + seq![13u8, 10u8] + r, from) == Some(p.len()),
    decreases p.len() - from,
{
    let s = p + seq![13u8, 10u8] + r;
    if from < p.len() {
        if from + 1 < p.len() {
            assert(!is_crlf_at(p, from as int));
        }
        assert(!is_crlf_at(s, from as int));
        lemma_find_before_terminator(p, r, from + 1);
    }
}

/// Payloads without terminators, each followed by one, split back into
/// exactly those payloads with nothing left over.
pub proof fn lemma_join_then_split(ps: Seq<Seq<u8>>)
    requires
        forall|k: int| 0 <= k < ps.len() ==> no_crlf(#[trigger] ps[k]),
    ensures
        frames_of(join_frames(ps)) == ps,
        rest_of(join_frames(ps)) == Seq::<u8>::empty(),
    decreases ps.len(),
{
    let s = join_frames(ps);
    if ps.len() == 0 {
        assert(find_crlf(s, 0) is None);
    } else {
        let p = ps[0];
        let tail = join_frames(ps.drop_first());
        assert(no_crlf(p));
        lemma_find_before_terminator(p, tail, 0);
        assert(s == p + seq![13u8, 10u8] + tail);
        assert(s.take(p.len() as int) == p);
        assert(s.skip((p.len() + 2) as int) == tail);
        lemma_join_then_split(ps.drop_first());
        assert(ps == seq![p] + ps.drop_first());
    }
}

/// However a stream of terminated payloads is cut into chunks (one byte at a
/// time, or with a cut between `\r` and `\n`), feeding the chunks in order
/// to an empty reader yields exactly the payloads, once each and in order,
/// and leaves nothing pending.
pub proof fn lemma_chunking_keeps_frames(payloads: Seq<Seq<u8>>, chunks: Seq<Seq<u8>>)
    requires
        forall|k: int| 0 <= k < payloads.len() ==> no_crlf(#[trigger] payloads[k]),
        flatten_chunks(chunks) == join_frames(payloads),
    ensures
        frames_fed(Seq::empty(), chunks) == payloads,
        pending_fed(Seq::empty(), chunks) == Seq::<u8>::empty(),
{
    assert(no_crlf(Seq::<u8>::empty()));
    lemma_frames_fed(Seq::empty(), chunks);
    assert(Seq::<u8>::empty() + flatten_chunks(chunks) == join_frames(payloads));
    lemma_join_then_split(payloads);
}

/// Accumulates bytes read from a stream and hands out complete frames,
/// keeping a trailing partial frame for the next read. Bytes stay raw until
/// their frame is complete, so a character whose bytes arrive in two reads
/// still decodes whole; invalid sequences become U+FFFD.
pub struct FrameReader {
    buffer: Vec<u8>,
}

impl View for FrameReader {
    type V = Seq<u8>;

    /// The bytes received but not yet handed out as a frame.
    closed spec fn view(&self) -> Seq<u8> {
        self.buffer@
    }
}

impl FrameReader {
    pub fn new() -> (r: FrameReader)
        ensures
            r@ == Seq::<u8>::empty(),
    {
        FrameReader { buffer: Vec::new() }
    }

    /// Appends `chunk` to what is pending and hands out every complete
    /// frame, decoded lossily, in stream order.
    pub fn feed(&mut self, chunk: &[u8]) -> (frames: Vec<String>)
        ensures
            final(self)@ == rest_of(old(self)@ + chunk@),
            no_crlf(final(self)@),
            frames.len() == frames_of(old(self)@ + chunk@).len(),
            forall|k: int|
                0 <= k < frames.len() ==> #[trigger] frames@[k]@ == lossy_text(
                    frames_of(old(self)@ + chunk@)[k],
                ),
    {
        let ghost start_bytes = self.buffer@ + chunk@;
        let mut n: usize = 0;
        while n < chunk.len()
            invariant
                n <= chunk@.len(),
                self.buffer@ == old(self)@ + chunk@.take(n as int),
            decreases chunk@.len() - n,
        {
            self.buffer.push(chunk[n]);
            assert(chunk@.take(n + 1) == chunk@.take(n as int).push(chunk@[n as int]));
            n = n + 1;
        }
        assert(chunk@.take(n as int) == chunk@);
        let data = &self.buffer;
        let mut frames: Vec<String> = Vec::new();
        let ghost mut raw: Seq<Seq<u8>> = Seq::empty();
        let mut start: usize = 0;
        let mut i: usize = 0;
        assert(start_bytes.skip(0) == start_bytes);
        while i < data.len() && i + 1 < data.len()
            invariant
                data@ == start_bytes,
                start <= i <= data@.len(),
                frames_of(start_bytes) == raw + frames_of(start_bytes.skip(start as int)),
                rest_of(start_bytes) == rest_of(start_bytes.skip(start as int)),
                forall|j: int| start <= j < i ==> !#[trigger] is_crlf_at(start_bytes, j),
                frames.len() == raw.len(),
                forall|k: int| 0 <= k < frames.len() ==> #[trigger] frames@[k]@ == lossy_text(raw[k]),
            decreases data@.len() - i,
        {
            if data[i] == 13u8 && data[i + 1] == 10u8 {
                let ghost d = start_bytes.skip(start as int);
                let ghost off = (i - start) as nat;
                proof {
                    assert forall|j: int| 0 <= j < off implies !#[trigger] is_crlf_at(d, j) by {
                        assert(!is_crlf_at(start_bytes, start + j));
                    }
                    lemma_find_skips_clean(d, off);
                    assert(is_crlf_at(d, off as int));
                    assert(find_crlf(d, off) == Some(off));
                    assert(d.skip((off + 2) as int) == start_bytes.skip((i + 2) as int));
                }
                let mut piece: Vec<u8> = Vec::new();
                let mut j: usize = start;
                while j < i
                    invariant
                        data@ == start_bytes,
                        start <= j <= i < data@.len(),
                        piece@ == start_bytes.subrange(start as int, j as int),
                    decreases i - j,
                {
                    piece.push(data[j]);
                    assert(start_bytes.subrange(start as int, j + 1) == start_bytes.subrange(
                        start as int,
                        j as int,
                    ).push(start_bytes[j as int]));
                    j = j + 1;
                }
                assert(piece@ == d.take(off as int));
                let text = decode_lossy(&piece);
                frames.push(text);
                proof {
                    raw = raw.push(piece@);
                    assert(frames_of(d) == seq![d.take(off as int)] + frames_of(d.skip((off + 2) as int)));
                }
                start = i + 2;
                i = i + 2;
            } else {
                i = i + 1;
            }
        }
        proof {
            let d = start_bytes.skip(start as int);
            let off = (i - start) as nat;
            assert forall|j: int| 0 <= j < off implies !#[trigger] is_crlf_at(d, j) by {
                assert(!is_crlf_at(start_bytes, start + j));
            }
            lemma_find_skips_clean(d, off);
            assert(find_crlf(d, off) is None);
            assert(frames_of(d) == Seq::<Seq<u8>>::empty());
            assert(raw + frames_of(d) == raw);
            lemma_rest_has_no_crlf(start_bytes);
        }
        let mut tail: Vec<u8> = Vec::new();
        let mut j: usize = start;
        while j < data.len()
            invariant
                data@ == start_bytes,
                start <= j <= data@.len(),
                tail@ == start_bytes.subrange(start as int, j as int),
            decreases data@.len() - j,
        {
            tail.push(data[j]);
            assert(start_bytes.subrange(start as int, j + 1) == start_bytes.subrange(
                start as int,
                j as int,
            ).push(start_bytes[j as int]));
            j = j + 1;
        }
        assert(tail@ == start_bytes.skip(start as int));
        self.buffer = tail;
        frames
    }
}

} // verus!
