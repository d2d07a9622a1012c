//! Relaying a model's streamed reply to the client.
//!
//! Model chunks are small and arrive fast; an agent collects them and sends
//! the client a piece once at least 500 bytes are waiting, cut after the
//! last sentence end (`.`, `!`, `?` or a newline), or, when there is none,
//! at the longest prefix of at most 500 bytes. Whatever the cuts, the pieces
//! the client receives, in order, spell exactly the reply.

use vstd::prelude::*;
use vstd::utf8::{encode_scalar, encode_utf8};

use crate::text::{chars_of, owned, slice_vec, string_of, trim, trim_vec};

verus! {

/// Bytes waiting before a piece is sent.
pub const SEND_THRESHOLD: usize = 500;

/// UTF-8 length of a character.
pub open spec fn width(c: char) -> int {
    encode_scalar(c as u32).len() as int
}

/// UTF-8 length of a text.
pub open spec fn byte_len(s: Seq<char>) -> int {
    encode_utf8(s).len() as int
}

/// A sentence end, after which a piece may be cut.
pub open spec fn is_stop(c: char) -> bool {
    c == '.' || c == '!' || c == '?' || c == '\n'
}

/// Index of the last sentence end among the first `n` characters; -1 when
/// there is none.
pub open spec fn last_stop(s: Seq<char>, n: int) -> int
    decreases n,
{
    if n <= 0 || n > s.len() {
        -1
    } else if is_stop(s[n - 1]) {
        n - 1
    } else {
        last_stop(s, n - 1)
    }
}

/// Greedy scan from `i` with `acc` bytes taken: the end of the longest
/// prefix of at most `limit` bytes.
pub open spec fn fit_from(s: Seq<char>, i: int, acc: int, limit: int) -> int
    decreases s.len() - i,
{
    if 0 <= i < s.len() && acc + width(s[i]) <= limit {
        fit_from(s, i + 1, acc + width(s[i]), limit)
    } else {
        i
    }
}

/// Where waiting text is cut: after its last sentence end, else after its
/// longest prefix of at most 500 bytes.
pub open spec fn cut_point(s: Seq<char>) -> int {
    if last_stop(s, s.len() as int) >= 0 {
        last_stop(s, s.len() as int) + 1
    } else {
        fit_from(s, 0, 0, SEND_THRESHOLD as int)
    }
}

/// The piece sent from waiting text `s`, with what keeps waiting; none while
/// fewer than 500 bytes wait.
pub open spec fn release(s: Seq<char>) -> Option<(Seq<char>, Seq<char>)> {
    if byte_len(s) >= SEND_THRESHOLD {
        Some((s.take(cut_point(s)), s.skip(cut_point(s))))
    } else {
        None
    }
}

proof fn lemma_encode_concat(a: Seq<char>, b: Seq<char>)
    ensures
        encode_utf8(a + b) == encode_utf8(a) + encode_utf8(b),
    decreases a.len(),
{
    if a.len() == 0 {
        assert(a + b =~= b);
        assert(encode_utf8(a) =~= Seq::<u8>::empty());
        assert(encode_utf8(a) + encode_utf8(b) =~= encode_utf8(b));
    } else {
        assert((a + b).drop_first() =~= a.drop_first() + b);
        assert((a + b)[0] == a[0]);
        lemma_encode_concat(a.drop_first(), b);
        assert(encode_utf8(a + b) =~= encode_utf8(a) + encode_utf8(b));
    }
}

proof fn lemma_byte_len_push(s: Seq<char>, c: char)
    ensures
        byte_len(s.push(c)) == byte_len(s) + width(c),
{
    lemma_encode_concat(s, seq![c]);
    assert(s.push(c) =~= s + seq![c]);
    assert(seq![c].drop_first() =~= Seq::<char>::empty());
    assert(encode_utf8(seq![c]) =~= encode_scalar(c as u32) + encode_utf8(Seq::<char>::empty()));
}

proof fn lemma_last_stop_bounds(s: Seq<char>, n: int)
    requires
        0 <= n <= s.len(),
    ensures
        -1 <= last_stop(s, n) < n,
    decreases n,
{
    if n > 0 {
        lemma_last_stop_bounds(s, n - 1);
    }
}

proof fn lemma_fit_bounds(s: Seq<char>, i: int, acc: int, limit: int)
    requires
        0 <= i <= s.len(),
    ensures
        i <= fit_from(s, i, acc, limit) <= s.len(),
    decreases s.len() - i,
{
    if i < s.len() && acc + width(s[i]) <= limit {
        lemma_fit_bounds(s, i + 1, acc + width(s[i]), limit);
    }
}

/// A cut never falls outside the waiting text.
proof fn lemma_cut_bounds(s: Seq<char>)
    ensures
        0 <= cut_point(s) <= s.len(),
{
    lemma_last_stop_bounds(s, s.len() as int);
    lemma_fit_bounds(s, 0, 0, SEND_THRESHOLD as int);
}

fn width_exec(c: char) -> (w: usize)
    ensures
        w == width(c),
        1 <= w <= 4,
{
    proof {
        vstd::utf8::char_is_scalar(c);
    }
    let u = c as u32;
    if u <= 0x7F {
        1
    } else if u <= 0x7FF {
        2
    } else if u <= 0xFFFF {
        3
    } else {
        4
    }
}

/// Whether at least 500 bytes wait.
fn ready(cs: &Vec<char>) -> (r: bool)
    ensures
        r == (byte_len(cs@) >= SEND_THRESHOLD),
{
    let mut acc: usize = 0;
    let mut i: usize = 0;
    assert(cs@.take(0) =~= Seq::<char>::empty());
    assert(encode_utf8(Seq::<char>::empty()) =~= Seq::<u8>::empty());
    while i < cs.len()
        invariant
            i <= cs@.len(),
            acc == byte_len(cs@.take(i as int)),
            acc < SEND_THRESHOLD,
        decreases cs.len() - i,
    {
        let w = width_exec(cs[i]);
        proof {
            lemma_byte_len_push(cs@.take(i as int), cs@[i as int]);
            assert(cs@.take(i + 1) =~= cs@.take(i as int).push(cs@[i as int]));
        }
        acc = acc + w;
        i = i + 1;
        if acc >= SEND_THRESHOLD {
            proof {
                lemma_encode_concat(cs@.take(i as int), cs@.skip(i as int));
                assert(cs@ =~= cs@.take(i as int) + cs@.skip(i as int));
            }
            return true;
        }
    }
    assert(cs@.take(cs@.len() as int) =~= cs@);
    false
}

/// Where waiting text is cut (see `cut_point`).
fn cut_exec(cs: &Vec<char>) -> (k: usize)
    ensures
        k == cut_point(cs@),
        k <= cs@.len(),
{
    let mut j: usize = cs.len();
    while j > 0
        invariant
            j <= cs@.len(),
            last_stop(cs@, cs@.len() as int) == last_stop(cs@, j as int),
        decreases j,
    {
        let c = cs[j - 1];
        if c == '.' || c == '!' || c == '?' || c == '\n' {
            return j;
        }
        j = j - 1;
    }
    let mut i: usize = 0;
    let mut acc: usize = 0;
    while i < cs.len() && acc + width_exec(cs[i]) <= SEND_THRESHOLD
        invariant
            i <= cs@.len(),
            acc <= SEND_THRESHOLD,
            fit_from(cs@, 0, 0, SEND_THRESHOLD as int) == fit_from(cs@, i as int, acc as int, SEND_THRESHOLD as int),
        decreases cs.len() - i,
    {
        acc = acc + width_exec(cs[i]);
        i = i + 1;
    }
    i
}

/// The piece to send from waiting text, with what keeps waiting (see
/// `release`).
pub fn release_ready(waiting: &str) -> (r: Option<(String, String)>)
    ensures
        match release(waiting@) {
            Some(p) => r matches Some(x) && x.0@ == p.0 && x.1@ == p.1,
            None => r is None,
        },
{
    let cs = chars_of(waiting);
    if !ready(&cs) {
        return None;
    }
    let k = cut_exec(&cs);
    let a = slice_vec(&cs, 0, k);
    let b = slice_vec(&cs, k, cs.len());
    assert(a@ =~= waiting@.take(k as int));
    assert(b@ =~= waiting@.skip(k as int));
    Some((string_of(&a), string_of(&b)))
}

/// Why an advisor, the facilitator or the secretary produced no reply.
pub enum AgentError {
    /// The model call failed (its message).
    Model(String),
    /// The client's event stream closed.
    Channel(String),
    /// Anything else, such as an empty reply.
    Generic(String),
}

impl AgentError {
    /// The error as shown: its kind, then its message.
    pub fn message(&self) -> (r: String)
        ensures
            self matches AgentError::Model(m) ==> r@ == "Model error: "@ + m@,
            self matches AgentError::Channel(m) ==> r@ == "Channel error: "@ + m@,
            self matches AgentError::Generic(m) ==> r@ == "Agent error: "@ + m@,
    {
        let (prefix, m) = match self {
            AgentError::Model(m) => ("Model error: ", m),
            AgentError::Channel(m) => ("Channel error: ", m),
            AgentError::Generic(m) => ("Agent error: ", m),
        };
        let mut s = owned(prefix);
        s.append(m.as_str());
        s
    }
}

/// The relay of one streamed reply: everything received, what waits, and
/// (in the proof only) everything sent so far.
pub struct ChunkRelay {
    full: String,
    waiting: String,
    sent: Ghost<Seq<char>>,
}

impl ChunkRelay {
    /// Everything received so far.
    pub closed spec fn received(&self) -> Seq<char> {
        self.full@
    }

    /// What has been received and not yet sent.
    pub closed spec fn pending(&self) -> Seq<char> {
        self.waiting@
    }

    /// The pieces sent so far, concatenated.
    pub closed spec fn delivered(&self) -> Seq<char> {
        self.sent@
    }

    /// What was sent, followed by what waits, is what was received.
    #[verifier::type_invariant]
    spec fn wf(&self) -> bool {
        self.sent@ + self.waiting@ == self.full@
    }

    /// A relay that has received nothing.
    pub fn new() -> (r: Self)
        ensures
            r.received() == Seq::<char>::empty(),
            r.pending() == Seq::<char>::empty(),
            r.delivered() == Seq::<char>::empty(),
    {
        let r = ChunkRelay { full: String::new(), waiting: String::new(), sent: Ghost(Seq::empty()) };
        r
    }

    /// Takes a model chunk; returns the piece to send now, if one is ready.
    pub fn push(&mut self, chunk: &str) -> (r: Option<String>)
        ensures
            final(self).received() == old(self).received() + chunk@,
            final(self).delivered() + final(self).pending() == final(self).received(),
            match release(old(self).pending() + chunk@) {
                Some(p) => r matches Some(x) && x@ == p.0 && final(self).pending() == p.1
                    && final(self).delivered() == old(self).delivered() + p.0,
                None => r is None && final(self).pending() == old(self).pending() + chunk@
                    && final(self).delivered() == old(self).delivered(),
            },
    {
        proof {
            use_type_invariant(&*self);
        }
        let mut full = self.full.clone();
        full.append(chunk);
        let mut waiting = self.waiting.clone();
        waiting.append(chunk);
        let ghost sent = self.sent@;
        match release_ready(waiting.as_str()) {
            None => {
                assert(sent + waiting@ =~= full@);
                *self = ChunkRelay { full, waiting, sent: Ghost(sent) };
                None
            },
            Some(p) => {
                proof {
                    lemma_cut_bounds(waiting@);
                }
                let (piece, rest) = p;
                assert(waiting@ =~= piece@ + rest@);
                assert((sent + piece@) + rest@ =~= full@);
                *self = ChunkRelay { full, waiting: rest, sent: Ghost(sent + piece@) };
                Some(piece)
            },
        }
    }

    /// At the end of the stream: the last piece, if anything waits. After
    /// it, everything received has been sent.
    pub fn finish(&mut self) -> (r: Option<String>)
        ensures
            final(self).received() == old(self).received(),
            final(self).delivered() == final(self).received(),
            final(self).delivered() + final(self).pending() == final(self).received(),
            final(self).pending() == Seq::<char>::empty(),
            old(self).pending().len() == 0 ==> r is None,
            old(self).pending().len() > 0 ==> (r matches Some(x) && x@ == old(self).pending()),
    {
        proof {
            use_type_invariant(&*self);
        }
        let full = self.full.clone();
        let ghost sent = self.sent@;
        if self.waiting.as_str().is_empty() {
            assert(self.waiting@ =~= Seq::<char>::empty());
            assert(sent =~= full@);
            None
        } else {
            let piece = self.waiting.clone();
            assert(sent + piece@ =~= full@);
            assert((sent + piece@) + Seq::<char>::empty() =~= full@);
            *self = ChunkRelay { full, waiting: String::new(), sent: Ghost(sent + piece@) };
            Some(piece)
        }
    }

    /// Everything received so far.
    pub fn text(&self) -> (r: &str)
        ensures
            r@ == self.received(),
    {
        self.full.as_str()
    }

    /// Whether a stream error still leaves a usable reply: something other
    /// than whitespace has arrived.
    pub fn keeps_partial(&self) -> (r: bool)
        ensures
            r == (trim(self.received()).len() > 0),
    {
        trim_vec(&chars_of(self.full.as_str())).len() > 0
    }

    /// The collected reply, refused when it is blank.
    pub fn collected(&self) -> (r: Result<String, AgentError>)
        ensures
            trim(self.received()).len() == 0 ==> (r matches Err(AgentError::Generic(m)) && m@
                == "Model returned empty response"@),
            trim(self.received()).len() > 0 ==> (r matches Ok(s) && s@ == self.received()),
    {
        if self.keeps_partial() {
            Ok(owned(self.full.as_str()))
        } else {
            Err(AgentError::Generic(owned("Model returned empty response")))
        }
    }
}

/// Law: a released piece is never empty, and the piece followed by what
/// keeps waiting is exactly the text that waited. With `push` and `finish`
/// this makes the pieces a client receives spell the reply, however the
/// model chunked it.
pub proof fn lemma_release_splits(s: Seq<char>)
    ensures
        release(s) matches Some(p) ==> p.0.len() > 0 && p.0 + p.1 == s,
{
    lemma_cut_bounds(s);
    if byte_len(s) >= SEND_THRESHOLD {
        if s.len() == 0 {
            assert(encode_utf8(s) =~= Seq::<u8>::empty());
        }
        if last_stop(s, s.len() as int) < 0 {
            vstd::utf8::char_is_scalar(s[0]);
            assert(width(s[0]) <= 4);
            lemma_fit_bounds(s, 1, width(s[0]), SEND_THRESHOLD as int);
        }
        assert(s.take(cut_point(s)) + s.skip(cut_point(s)) =~= s);
    }
}

} // verus!
