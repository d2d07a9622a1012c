//! SSE / NDJSON line decoding.
//!
//! HTTP byte streams arrive in arbitrary chunks: a packet can cut a line in
//! half, even through a multi-byte UTF-8 sequence. `LineDecoder` buffers bytes
//! across chunks and only emits a line once its `\n` has arrived, so the lines
//! a stream yields do not depend on how it was chunked.

use vstd::prelude::*;
use vstd::utf8::*;

use crate::text::{chars_of, strip_prefix, strip_prefix_str, string_of, trim, trim_vec};

verus! {

/// What `String::from_utf8_lossy` gives for a byte string (each maximal
/// invalid sequence becomes U+FFFD).
pub uninterp spec fn utf8_lossy(b: Seq<u8>) -> Seq<char>;

/// `String::from_utf8_lossy(..).into_owned()`. Valid UTF-8 is decoded as is;
/// what replaces invalid sequences is named by `utf8_lossy` and not restated.
#[verifier::external_body]
pub(crate) fn lossy_string(b: &[u8]) -> (r: String)
    ensures
        r@ == utf8_lossy(b@),
        valid_utf8(b@) ==> r@ == decode_utf8(b@),
{
    String::from_utf8_lossy(b).into_owned()
}

pub const NEWLINE: u8 = 10;

pub const CARRIAGE_RETURN: u8 = 13;

/// Index of the first `\n` at or after `i` (or `b.len()`).
pub open spec fn next_nl_byte(b: Seq<u8>, i: int) -> int
    decreases b.len() - i,
{
    if i < 0 || i >= b.len() {
        if i < 0 {
            0
        } else {
            b.len() as int
        }
    } else if b[i] == NEWLINE {
        i
    } else {
        next_nl_byte(b, i + 1)
    }
}

pub proof fn lemma_next_nl_byte(b: Seq<u8>, i: int)
    requires
        0 <= i <= b.len(),
    ensures
        i <= next_nl_byte(b, i) <= b.len(),
        next_nl_byte(b, i) < b.len() ==> b[next_nl_byte(b, i)] == NEWLINE,
        forall|k: int| i <= k < next_nl_byte(b, i) ==> #[trigger] b[k] != NEWLINE,
    decreases b.len() - i,
{
    if i < b.len() && b[i] != NEWLINE {
        lemma_next_nl_byte(b, i + 1);
    }
}

/// A complete line with one trailing `\r` removed.
pub open spec fn strip_cr_bytes(l: Seq<u8>) -> Seq<u8> {
    if l.len() > 0 && l.last() == CARRIAGE_RETURN {
        l.drop_last()
    } else {
        l
    }
}

/// The `\n`-terminated lines of `b`, in order, without their terminators.
pub open spec fn complete_lines(b: Seq<u8>) -> Seq<Seq<u8>>
    decreases b.len(),
{
    let j = next_nl_byte(b, 0);
    if 0 <= j < b.len() {
        seq![strip_cr_bytes(b.take(j))] + complete_lines(b.skip(j + 1))
    } else {
        Seq::empty()
    }
}

/// The bytes after the last `\n` of `b` (all of `b` when it has none).
pub open spec fn pending(b: Seq<u8>) -> Seq<u8>
    decreases b.len(),
{
    let j = next_nl_byte(b, 0);
    if 0 <= j < b.len() {
        pending(b.skip(j + 1))
    } else {
        b
    }
}

/// The text of every line of `ls`, as `from_utf8_lossy` decodes it.
pub open spec fn decoded(ls: Seq<Seq<u8>>) -> Seq<Seq<char>> {
    ls.map_values(|l: Seq<u8>| utf8_lossy(l))
}

/// Every line of `ls` that is valid UTF-8 is the text of the matching string
/// of `out`, decoded as is.
pub open spec fn valid_lines_decoded(ls: Seq<Seq<u8>>, out: Seq<String>) -> bool {
    &&& out.len() == ls.len()
    &&& forall|k: int| 0 <= k < ls.len() && valid_utf8(#[trigger] ls[k]) ==> out[k]@ == decode_utf8(ls[k])
}

/// The views of a vector of strings.
pub open spec fn string_views(v: Seq<String>) -> Seq<Seq<char>> {
    v.map_values(|s: String| s@)
}

/// Buffers incoming bytes and yields complete lines (without the trailing
/// `\n` or `\r\n`). A partial line stays buffered until more bytes arrive or
/// `flush` is called.
pub struct LineDecoder {
    buffer: Vec<u8>,
}

impl View for LineDecoder {
    type V = Seq<u8>;

    /// The buffered bytes of the unfinished last line.
    closed spec fn view(&self) -> Seq<u8> {
        self.buffer@
    }
}

impl LineDecoder {
    /// Whether the buffer holds no `\n` (every complete line was handed out).
    pub open spec fn wf(&self) -> bool {
        next_nl_byte(self@, 0) == self@.len()
    }

    /// An empty decoder.
    pub fn new() -> (d: Self)
        ensures
            d@ == Seq::<u8>::empty(),
            d.wf(),
    {
        LineDecoder { buffer: Vec::new() }
    }

    /// Appends `bytes` and returns the lines completed by them.
    ///
    /// Lines are decoded with `from_utf8_lossy`: invalid UTF-8 becomes U+FFFD
    /// and never panics.
    pub fn feed(&mut self, bytes: &[u8]) -> (lines: Vec<String>)
        ensures
            string_views(lines@) == decoded(complete_lines(old(self)@ + bytes@)),
            valid_lines_decoded(complete_lines(old(self)@ + bytes@), lines@),
            final(self)@ == pending(old(self)@ + bytes@),
            final(self).wf(),
    {
        let mut all = slice_to_vec(&self.buffer);
        let mut k: usize = 0;
        while k < bytes.len()
            invariant
                k <= bytes.len(),
                all@ == old(self)@ + bytes@.take(k as int),
            decreases bytes.len() - k,
        {
            all.push(bytes[k]);
            k = k + 1;
            assert(bytes@.take(k as int) == bytes@.take(k - 1).push(bytes@[k - 1]));
        }
        assert(bytes@.take(bytes.len() as int) == bytes@);
        let ghost whole = all@;
        let mut lines: Vec<String> = Vec::new();
        let mut start: usize = 0;
        let ghost mut parts: Seq<Seq<u8>> = Seq::empty();
        assert(whole.skip(0) == whole);
        assert(complete_lines(whole) =~= parts + complete_lines(whole.skip(0)));
        assert(string_views(lines@) + decoded(complete_lines(whole)) == decoded(
            complete_lines(whole),
        ));
        loop
            invariant
                start <= all@.len(),
                all@ == whole,
                decoded(complete_lines(whole)) == string_views(lines@) + decoded(
                    complete_lines(whole.skip(start as int)),
                ),
                pending(whole) == pending(whole.skip(start as int)),
                complete_lines(whole) == parts + complete_lines(whole.skip(start as int)),
                valid_lines_decoded(parts, lines@),
            ensures
                start <= all@.len(),
                all@ == whole,
                decoded(complete_lines(whole)) == string_views(lines@) + decoded(
                    complete_lines(whole.skip(start as int)),
                ),
                pending(whole) == pending(whole.skip(start as int)),
                next_nl_byte(whole.skip(start as int), 0) == whole.skip(start as int).len(),
                complete_lines(whole) == parts + complete_lines(whole.skip(start as int)),
                valid_lines_decoded(parts, lines@),
            decreases all@.len() - start,
        {
            let mut i = start;
            while i < all.len() && all[i] != NEWLINE
                invariant
                    start <= i <= all@.len(),
                    all@ == whole,
                    next_nl_byte(whole, i as int) == next_nl_byte(whole, start as int),
                decreases all@.len() - i,
            {
                i = i + 1;
            }
            proof {
                lemma_next_nl_byte(whole, start as int);
                lemma_shift_nl(whole, start as int);
            }
            if i == all.len() {
                break ;
            }
            let mut end = i;
            if end > start && all[end - 1] == CARRIAGE_RETURN {
                end = end - 1;
            }
            let part = slice_range(&all, start, end);
            let line = lossy_string(&part);
            proof {
                let t = whole.skip(start as int);
                let j = i - start;
                assert(t.take(j) == whole.subrange(start as int, i as int));
                assert(strip_cr_bytes(t.take(j)) == part@);
                assert(t.skip(j + 1) == whole.skip(i + 1));
                assert(complete_lines(t) == seq![part@] + complete_lines(whole.skip(i + 1)));
                assert(pending(t) == pending(whole.skip(i + 1)));
                lemma_decoded_cons(part@, complete_lines(whole.skip(i + 1)));
                lemma_string_views_push(lines@, line);
            }
            let ghost old_lines = lines@;
            lines.push(line);
            proof {
                let np = parts.push(part@);
                assert(complete_lines(whole) =~= np + complete_lines(whole.skip(i + 1)));
                assert forall|k: int| 0 <= k < np.len() && valid_utf8(#[trigger] np[k]) implies lines@[k]@ == decode_utf8(np[k]) by {
                    if k < parts.len() {
                        assert(np[k] == parts[k]);
                        assert(lines@[k] == old_lines[k]);
                    }
                }
                parts = np;
            }
            start = i + 1;
        }
        let rest = slice_range(&all, start, all.len());
        proof {
            let t = whole.skip(start as int);
            assert(t == rest@);
            assert(next_nl_byte(t, 0) == t.len());
            assert(complete_lines(t) == Seq::<Seq<u8>>::empty());
            assert(decoded(Seq::<Seq<u8>>::empty()) == Seq::<Seq<char>>::empty());
            assert(string_views(lines@) + Seq::<Seq<char>>::empty() == string_views(lines@));
            assert(pending(t) == t);
            assert(complete_lines(whole) =~= parts);
        }
        self.buffer = rest;
        lines
    }

    /// Hands out the buffered partial line, if any, and empties the buffer.
    /// Call at end of stream for providers that omit the final newline.
    pub fn flush(&mut self) -> (line: Option<String>)
        ensures
            final(self)@ == Seq::<u8>::empty(),
            old(self)@.len() == 0 ==> line is None,
            old(self)@.len() > 0 ==> (line matches Some(l) && l@ == utf8_lossy(
                strip_cr_bytes(old(self)@),
            )),
            old(self)@.len() > 0 && valid_utf8(strip_cr_bytes(old(self)@)) ==> (line matches Some(l)
                && l@ == decode_utf8(strip_cr_bytes(old(self)@))),
    {
        if self.buffer.len() == 0 {
            return None;
        }
        let mut end = self.buffer.len();
        if end > 0 && self.buffer[end - 1] == CARRIAGE_RETURN {
            end = end - 1;
        }
        let part = slice_range(&self.buffer, 0, end);
        assert(part@ == strip_cr_bytes(old(self)@));
        let line = lossy_string(&part);
        self.buffer = Vec::new();
        Some(line)
    }
}

fn slice_to_vec(b: &Vec<u8>) -> (r: Vec<u8>)
    ensures
        r@ == b@,
{
    slice_range(b, 0, b.len())
}

fn slice_range(b: &Vec<u8>, a: usize, e: usize) -> (r: Vec<u8>)
    requires
        a <= e <= b@.len(),
    ensures
        r@ == b@.subrange(a as int, e as int),
{
    let mut r: Vec<u8> = Vec::new();
    let mut i = a;
    while i < e
        invariant
            a <= i <= e,
            e <= b@.len(),
            r@ == b@.subrange(a as int, i as int),
        decreases e - i,
    {
        r.push(b[i]);
        i = i + 1;
    }
    r
}

proof fn lemma_shift_nl(b: Seq<u8>, s: int)
    requires
        0 <= s <= b.len(),
    ensures
        next_nl_byte(b.skip(s), 0) == next_nl_byte(b, s) - s,
{
    lemma_next_nl_byte(b, s);
    lemma_next_nl_byte(b.skip(s), 0);
    let n1 = next_nl_byte(b, s);
    let n2 = next_nl_byte(b.skip(s), 0);
    if n2 + s < n1 {
        assert(b.skip(s)[n2] == b[n2 + s]);
    } else if n2 + s > n1 {
        assert(b.skip(s)[n1 - s] == b[n1]);
    }
}

proof fn lemma_decoded_cons(l: Seq<u8>, rest: Seq<Seq<u8>>)
    ensures
        decoded(seq![l] + rest) == seq![utf8_lossy(l)] + decoded(rest),
{
    assert(decoded(seq![l] + rest) =~= seq![utf8_lossy(l)] + decoded(rest));
}

proof fn lemma_string_views_push(v: Seq<String>, s: String)
    ensures
        string_views(v.push(s)) == string_views(v).push(s@),
{
    assert(string_views(v.push(s)) =~= string_views(v).push(s@));
}

/// Feeding a stream in two pieces yields the lines of the whole stream and
/// leaves the same partial line buffered: how the bytes were chunked does not
/// change what the decoder emits.
pub proof fn lemma_chunking_invariant(a: Seq<u8>, b: Seq<u8>)
    ensures
        complete_lines(a + b) == complete_lines(a) + complete_lines(pending(a) + b),
        pending(a + b) == pending(pending(a) + b),
    decreases a.len(),
{
    let j = next_nl_byte(a, 0);
    lemma_next_nl_byte(a, 0);
    lemma_next_nl_byte(a + b, 0);
    if j < a.len() {
        let k = next_nl_byte(a + b, 0);
        if k < j {
            assert((a + b)[k] == a[k]);
        } else if k > j {
            assert((a + b)[j] == a[j]);
        }
        assert((a + b).take(j) == a.take(j));
        assert((a + b).skip(j + 1) == a.skip(j + 1) + b);
        lemma_chunking_invariant(a.skip(j + 1), b);
        assert(complete_lines(a + b) == seq![strip_cr_bytes(a.take(j))] + complete_lines(
            a.skip(j + 1) + b,
        ));
        assert(complete_lines(a) == seq![strip_cr_bytes(a.take(j))] + complete_lines(
            a.skip(j + 1),
        ));
        assert(pending(a) == pending(a.skip(j + 1)));
        assert(complete_lines(a + b) =~= complete_lines(a) + complete_lines(pending(a) + b));
    } else {
        assert(pending(a) == a);
        assert(complete_lines(a) == Seq::<Seq<u8>>::empty());
        assert(complete_lines(a + b) =~= complete_lines(a) + complete_lines(pending(a) + b));
    }
}

// ---------------------------------------------------------------------------
// OpenAI-style event lines
// ---------------------------------------------------------------------------

/// The JSON payload of an OpenAI-style stream line: the text after
/// `data: `, unless it is the `[DONE]` sentinel. Other lines carry none.
pub open spec fn data_payload(line: Seq<char>) -> Option<Seq<char>> {
    match strip_prefix(line, "data: "@) {
        Some(d) => if trim(d) == "[DONE]"@ {
            None
        } else {
            Some(d)
        },
        None => None,
    }
}

/// The JSON payload that an OpenAI-style stream line carries, if any.
pub fn sse_data_payload(line: &str) -> (r: Option<String>)
    ensures
        match data_payload(line@) {
            Some(d) => r matches Some(s) && s@ == d,
            None => r is None,
        },
{
    let l = chars_of(line);
    match strip_prefix_str(&l, "data: ") {
        None => None,
        Some(d) => {
            let t = trim_vec(&d);
            let done = chars_of("[DONE]");
            if crate::text::seq_eq(&t, &done) {
                None
            } else {
                Some(string_of(&d))
            }
        },
    }
}

} // verus!
