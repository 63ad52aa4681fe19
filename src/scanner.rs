//! Locating the separator token in a line, and assembling a note from it.

use vstd::prelude::*;
use vstd::utf8::{
    encode_utf8, decode_utf8, valid_utf8, is_char_boundary,
    encode_utf8_valid_utf8, encode_utf8_decode_utf8, valid_utf8_split,
    is_char_boundary_start_end_of_seq, is_char_boundary_iff_not_is_continuation_byte,
    partial_valid_partial_invalid_utf8,
};
use crate::text::{trim_text, trimmed};

verus! {

/// `token` occurs in `s` starting at byte `i`.
pub open spec fn occurs_at(s: Seq<u8>, token: Seq<u8>, i: int) -> bool {
    &&& 0 <= i
    &&& i + token.len() <= s.len()
    &&& s.subrange(i, i + token.len()) == token
}

/// `token` occurs nowhere in `s`.
pub open spec fn absent(s: Seq<u8>, token: Seq<u8>) -> bool {
    forall|j: int| !#[trigger] occurs_at(s, token, j)
}

/// Where a line splits into content and topic, as byte offsets into its
/// UTF-8 encoding. `found` tells a split from no split; without one both
/// offsets are zero.
#[derive(Clone, Copy, Debug, PartialEq, Eq, Structural)]
pub struct SplitPoint {
    pub found: bool,
    pub content_end: usize,
    pub topic_start: usize,
}

impl SplitPoint {
    /// The split that marks no separator.
    pub open spec fn none_spec() -> SplitPoint {
        SplitPoint { found: false, content_end: 0, topic_start: 0 }
    }

    /// `self` is what scanning the bytes `s` for the bytes `token` gives: the
    /// first occurrence of the token, or no split when it does not occur.
    pub open spec fn locates(self, s: Seq<u8>, token: Seq<u8>) -> bool {
        if self.found {
            &&& occurs_at(s, token, self.content_end as int)
            &&& self.topic_start == self.content_end + token.len()
            &&& forall|j: int| 0 <= j < self.content_end ==> !#[trigger] occurs_at(s, token, j)
        } else {
            &&& self == SplitPoint::none_spec()
            &&& absent(s, token)
        }
    }

    /// Offsets that can be applied to a line of `len` bytes.
    pub open spec fn fits(self, len: nat) -> bool {
        self.content_end <= self.topic_start <= len
    }

    /// A split's offsets fall on char boundaries of the encoded line `s`.
    pub open spec fn on_boundaries(self, s: Seq<u8>) -> bool {
        self.found ==> {
            &&& is_char_boundary(s, self.content_end as int)
            &&& is_char_boundary(s, self.topic_start as int)
        }
    }

    /// The split that marks no separator.
    pub fn none() -> (r: SplitPoint)
        ensures
            r == SplitPoint::none_spec(),
    {
        SplitPoint { found: false, content_end: 0, topic_start: 0 }
    }
}

/// Whether `t` occurs in `s` at `i`.
fn occurs_at_exec(s: &[u8], t: &[u8], i: usize) -> (b: bool)
    requires
        i <= s@.len(),
    ensures
        b == occurs_at(s@, t@, i as int),
{
    if t.len() > s.len() - i {
        return false;
    }
    let mut k: usize = 0;
    while k < t.len()
        invariant
            k <= t@.len(),
            i + t.len() <= s.len(),
            forall|m: int| 0 <= m < k ==> s@[i + m] == t@[m],
        decreases t@.len() - k,
    {
        if s[i + k] != t[k] {
            assert(s@.subrange(i as int, i + t@.len())[k as int] != t@[k as int]);
            return false;
        }
        k = k + 1;
    }
    assert(s@.subrange(i as int, i + t@.len()) =~= t@);
    true
}

/// The first occurrence of `t` in `s`, as a split.
pub fn scan_bytes(s: &[u8], t: &[u8]) -> (sp: SplitPoint)
    ensures
        sp.locates(s@, t@),
        sp.fits(s@.len()),
{
    if t.len() > s.len() {
        return SplitPoint::none();
    }
    let last: usize = s.len() - t.len();
    let mut i: usize = 0;
    loop
        invariant
            i <= last,
            last + t.len() == s.len(),
            forall|j: int| 0 <= j < i ==> !#[trigger] occurs_at(s@, t@, j),
        decreases last - i,
    {
        if occurs_at_exec(s, t, i) {
            return SplitPoint { found: true, content_end: i, topic_start: i + t.len() };
        }
        if i == last {
            assert forall|j: int| !#[trigger] occurs_at(s@, t@, j) by {
                if 0 <= j <= i {
                }
            }
            return SplitPoint::none();
        }
        i = i + 1;
    }
}

/// An occurrence of a valid UTF-8 token in a valid UTF-8 line starts and ends
/// on char boundaries (an empty token is taken at the start of the line).
proof fn lemma_match_on_boundaries(b: Seq<u8>, t: Seq<u8>, i: int)
    requires
        valid_utf8(b),
        valid_utf8(t),
        occurs_at(b, t, i),
        t.len() == 0 ==> i == 0,
    ensures
        is_char_boundary(b, i),
        is_char_boundary(b, i + t.len()),
{
    is_char_boundary_start_end_of_seq(b);
    if t.len() > 0 {
        is_char_boundary_start_end_of_seq(t);
        is_char_boundary_iff_not_is_continuation_byte(t, 0);
        assert(b[i] == b.subrange(i, i + t.len())[0]);
        is_char_boundary_iff_not_is_continuation_byte(b, i);
        let k = i + t.len();
        if k < b.len() {
            let r = b.subrange(i, b.len() as int);
            valid_utf8_split(b, i);
            assert(r.subrange(0, t.len() as int) =~= t);
            let x = r.subrange(t.len() as int, r.len() as int);
            if !valid_utf8(x) {
                partial_valid_partial_invalid_utf8(r, t.len() as int);
            }
            is_char_boundary_start_end_of_seq(x);
            is_char_boundary_iff_not_is_continuation_byte(x, 0);
            assert(x[0] == b[k]);
            is_char_boundary_iff_not_is_continuation_byte(b, k);
        }
    }
}

/// Scans the UTF-8 bytes of `raw` left to right for the first occurrence of
/// those of `token`. The offsets found are char boundaries of `raw`.
pub fn scan(raw: &str, token: &str) -> (sp: SplitPoint)
    ensures
        sp.locates(encode_utf8(raw@), encode_utf8(token@)),
        sp.fits(encode_utf8(raw@).len()),
        sp.on_boundaries(encode_utf8(raw@)),
{
    let b = raw.as_bytes();
    let t = token.as_bytes();
    let sp = scan_bytes(b, t);
    proof {
        encode_utf8_valid_utf8(raw@);
        encode_utf8_valid_utf8(token@);
        if sp.found {
            if t@.len() == 0 {
                assert(t@ =~= b@.subrange(0, 0));
                assert(occurs_at(b@, t@, 0));
            }
            lemma_match_on_boundaries(b@, t@, sp.content_end as int);
        }
    }
    sp
}

/// A note: topic and content, each trimmed of surrounding whitespace.
#[derive(Clone, Debug)]
pub struct Note {
    pub topic: String,
    pub content: String,
}

/// The topic that `split` gives of the line `s`: the characters whose bytes
/// follow the token, trimmed.
pub open spec fn topic_of(s: Seq<char>, split: SplitPoint) -> Seq<char> {
    if split.found {
        trimmed(
            decode_utf8(
                encode_utf8(s).subrange(split.topic_start as int, encode_utf8(s).len() as int),
            ),
        )
    } else {
        Seq::empty()
    }
}

/// The content that `split` gives of the line `s`: the characters whose bytes
/// precede the token, trimmed.
pub open spec fn content_of(s: Seq<char>, split: SplitPoint) -> Seq<char> {
    if split.found {
        trimmed(decode_utf8(encode_utf8(s).subrange(0, split.content_end as int)))
    } else {
        Seq::empty()
    }
}

impl Note {
    /// The note with empty topic and content.
    pub fn empty() -> (n: Note)
        ensures
            n.topic@ == Seq::<char>::empty(),
            n.content@ == Seq::<char>::empty(),
    {
        Note { topic: String::new(), content: String::new() }
    }

    /// A note is valid when neither field is empty.
    pub open spec fn valid_spec(&self) -> bool {
        self.topic@.len() > 0 && self.content@.len() > 0
    }
}

/// The note that `split` gives of `raw`; no split gives the empty note.
pub fn assemble(raw: &str, split: SplitPoint) -> (n: Note)
    requires
        split.fits(encode_utf8(raw@).len()),
        split.on_boundaries(encode_utf8(raw@)),
    ensures
        n.topic@ == topic_of(raw@, split),
        n.content@ == content_of(raw@, split),
{
    if !split.found {
        return Note::empty();
    }
    let (content, _) = raw.split_at(split.content_end);
    let (_, topic) = raw.split_at(split.topic_start);
    proof {
        encode_utf8_decode_utf8(content@);
        encode_utf8_decode_utf8(topic@);
    }
    Note { topic: trim_text(topic), content: trim_text(content) }
}

/// Encoding a concatenation concatenates the encodings.
pub proof fn lemma_encode_concat(a: Seq<char>, b: Seq<char>)
    ensures
        encode_utf8(a + b) == encode_utf8(a) + encode_utf8(b),
    decreases a.len(),
{
    if a.len() == 0 {
        assert(a + b =~= b);
        assert(encode_utf8(a) + encode_utf8(b) =~= encode_utf8(b));
    } else {
        lemma_encode_concat(a.drop_first(), b);
        assert((a + b).drop_first() =~= a.drop_first() + b);
        assert((a + b)[0] == a[0]);
        let e = encode_scalar_of(a[0]);
        assert(encode_utf8(a + b) == e + encode_utf8(a.drop_first() + b));
        assert(e + (encode_utf8(a.drop_first()) + encode_utf8(b)) =~= (e + encode_utf8(
            a.drop_first(),
        )) + encode_utf8(b));
    }
}

spec fn encode_scalar_of(c: char) -> Seq<u8> {
    vstd::utf8::encode_scalar(c as u32)
}

/// A line in which the token does not occur does not split, and the note
/// assembled from it has an empty topic (and an empty content).
pub proof fn lemma_no_token_no_split(s: Seq<char>, token: Seq<char>, sp: SplitPoint)
    requires
        absent(encode_utf8(s), encode_utf8(token)),
        sp.locates(encode_utf8(s), encode_utf8(token)),
    ensures
        sp == SplitPoint::none_spec(),
        topic_of(s, sp) == Seq::<char>::empty(),
        content_of(s, sp) == Seq::<char>::empty(),
{
    if sp.found {
        assert(occurs_at(encode_utf8(s), encode_utf8(token), sp.content_end as int));
    }
}

/// Scanning one line twice gives one split, so the notes assembled from the
/// two scans are identical.
pub proof fn lemma_scan_deterministic(s: Seq<char>, token: Seq<char>, a: SplitPoint, b: SplitPoint)
    requires
        a.locates(encode_utf8(s), encode_utf8(token)),
        b.locates(encode_utf8(s), encode_utf8(token)),
    ensures
        a == b,
        topic_of(s, a) == topic_of(s, b),
        content_of(s, a) == content_of(s, b),
{
    let bs = encode_utf8(s);
    let bt = encode_utf8(token);
    if a.found && b.found {
        if a.content_end < b.content_end {
            assert(!occurs_at(bs, bt, a.content_end as int));
        }
        if b.content_end < a.content_end {
            assert(!occurs_at(bs, bt, b.content_end as int));
        }
    } else if a.found {
        assert(!occurs_at(bs, bt, a.content_end as int));
    } else if b.found {
        assert(!occurs_at(bs, bt, b.content_end as int));
    }
}

/// A line `content ++ token ++ topic` splits at the byte length of `content`,
/// and its note holds `content` and `topic` trimmed, provided that the token
/// does not already begin inside `content` (it could, overlapping the
/// separator that follows, when `content` ends in a proper prefix of the
/// token).
pub proof fn lemma_split_recovers(
    content: Seq<char>,
    token: Seq<char>,
    topic: Seq<char>,
    sp: SplitPoint,
)
    requires
        absent(encode_utf8(content), encode_utf8(token)),
        absent(encode_utf8(topic), encode_utf8(token)),
        forall|j: int|
            0 <= j < encode_utf8(content).len() ==> !#[trigger] occurs_at(
                encode_utf8(content) + encode_utf8(token),
                encode_utf8(token),
                j,
            ),
        sp.locates(encode_utf8(content + token + topic), encode_utf8(token)),
    ensures
        sp.found,
        sp.content_end == encode_utf8(content).len(),
        sp.topic_start == encode_utf8(content).len() + encode_utf8(token).len(),
        content_of(content + token + topic, sp) == trimmed(content),
        topic_of(content + token + topic, sp) == trimmed(topic),
{
    let bc = encode_utf8(content);
    let bt = encode_utf8(token);
    let bp = encode_utf8(topic);
    lemma_encode_concat(content, token);
    lemma_encode_concat(content + token, topic);
    let s = bc + bt + bp;
    assert(encode_utf8(content + token + topic) == s);
    let c = bc.len() as int;
    assert(s.subrange(c, c + bt.len()) =~= bt);
    assert(occurs_at(s, bt, c));
    if !sp.found {
        assert(!occurs_at(s, bt, c));
    }
    if (sp.content_end as int) < c {
        let j = sp.content_end as int;
        assert(s.subrange(j, j + bt.len()) =~= (bc + bt).subrange(j, j + bt.len()));
        assert(!occurs_at(bc + bt, bt, j));
    }
    if (sp.content_end as int) > c {
        assert(!occurs_at(s, bt, c));
    }
    assert(s.subrange(0, c) =~= bc);
    assert(s.subrange(c + bt.len(), s.len() as int) =~= bp);
    encode_utf8_decode_utf8(content);
    encode_utf8_decode_utf8(topic);
}

} // verus!
