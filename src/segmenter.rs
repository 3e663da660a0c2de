//! Incremental sentence segmentation of a streamed dialog reply.
use vstd::prelude::*;

use crate::text::{chars_of, string_from_chars};

verus! {

/// A buffer that holds more than this many characters without any terminal
/// punctuation is handed out whole.
pub const FLUSH_THRESHOLD: usize = 200;

/// The marks that end a speakable unit.
pub open spec fn is_terminal(c: char) -> bool {
    c == '.' || c == '?' || c == '!' || c == ':' || c == ';'
}

/// Unicode `White_Space`, the property that `char::is_whitespace` tests.
pub open spec fn is_space(c: char) -> bool {
    ('\u{9}' <= c && c <= '\u{d}') || c == ' ' || c == '\u{85}' || c == '\u{a0}'
        || c == '\u{1680}' || ('\u{2000}' <= c && c <= '\u{200a}') || c == '\u{2028}'
        || c == '\u{2029}' || c == '\u{202f}' || c == '\u{205f}' || c == '\u{3000}'
}

/// Every character is white space (true of the empty text).
pub open spec fn is_blank(s: Seq<char>) -> bool {
    forall|i: int| 0 <= i < s.len() ==> is_space(#[trigger] s[i])
}

/// Index of the last terminal mark among the first `k` characters, or -1.
pub open spec fn last_terminal_before(s: Seq<char>, k: int) -> int
    decreases k,
{
    if k <= 0 {
        -1
    } else if is_terminal(s[k - 1]) {
        k - 1
    } else {
        last_terminal_before(s, k - 1)
    }
}

/// Index of the last terminal mark of `s`, or -1 when it has none.
pub open spec fn last_terminal(s: Seq<char>) -> int {
    last_terminal_before(s, s.len() as int)
}

/// What a push does to the buffer once the fragment is appended: the chunk it
/// hands out, if any, and the buffer it keeps.
pub open spec fn split_buffer(buf: Seq<char>) -> (Option<Seq<char>>, Seq<char>) {
    let i = last_terminal(buf);
    if i >= 0 {
        (Some(buf.subrange(0, i + 1)), buf.subrange(i + 1, buf.len() as int))
    } else if buf.len() > FLUSH_THRESHOLD {
        (Some(buf), Seq::empty())
    } else {
        (None, buf)
    }
}

/// What a flush hands out for a given buffer.
pub open spec fn flush_of(buf: Seq<char>) -> Option<Seq<char>> {
    if is_blank(buf) {
        None
    } else {
        Some(buf)
    }
}

/// The text of an optional chunk; nothing for no chunk.
pub open spec fn text_of(o: Option<Seq<char>>) -> Seq<char> {
    match o {
        Some(s) => s,
        None => Seq::empty(),
    }
}

/// The view of an optional string.
pub open spec fn opt_view(o: Option<String>) -> Option<Seq<char>> {
    match o {
        Some(s) => Some(s@),
        None => None,
    }
}

/// All the fragments, joined in order.
pub open spec fn joined(parts: Seq<Seq<char>>) -> Seq<char>
    decreases parts.len(),
{
    if parts.len() == 0 {
        Seq::empty()
    } else {
        joined(parts.drop_last()) + parts.last()
    }
}

/// Pushing `frags` in order onto a segmenter whose buffer is `buf`: the
/// chunks handed out, joined, and the buffer left.
pub open spec fn push_all(buf: Seq<char>, frags: Seq<Seq<char>>) -> (Seq<char>, Seq<char>)
    decreases frags.len(),
{
    if frags.len() == 0 {
        (Seq::empty(), buf)
    } else {
        let (out, rest) = push_all(buf, frags.drop_last());
        let (chunk, kept) = split_buffer(rest + frags.last());
        (out + text_of(chunk), kept)
    }
}

/// Without a terminal mark among its first `k` characters, the text has no
/// last terminal before `k`.
pub proof fn lemma_no_terminal_before(s: Seq<char>, k: int)
    requires
        0 <= k <= s.len(),
        forall|i: int| 0 <= i < k ==> !is_terminal(#[trigger] s[i]),
    ensures
        last_terminal_before(s, k) == -1,
    decreases k,
{
    if k > 0 {
        lemma_no_terminal_before(s, k - 1);
    }
}

/// A split keeps every character: the chunk handed out, then the buffer kept,
/// is the buffer split.
pub proof fn lemma_split_keeps_text(buf: Seq<char>)
    ensures
        text_of(split_buffer(buf).0) + split_buffer(buf).1 == buf,
{
    let i = last_terminal(buf);
    if i >= 0 {
        lemma_last_terminal_bounds(buf, buf.len() as int);
        assert(buf.subrange(0, i + 1) + buf.subrange(i + 1, buf.len() as int) =~= buf);
    } else if buf.len() > FLUSH_THRESHOLD {
        assert(buf + Seq::<char>::empty() =~= buf);
    } else {
        assert(Seq::<char>::empty() + buf =~= buf);
    }
}

/// The last terminal before `k` is -1 or an index below `k`.
pub proof fn lemma_last_terminal_bounds(s: Seq<char>, k: int)
    requires
        0 <= k <= s.len(),
    ensures
        -1 <= last_terminal_before(s, k) < k,
        last_terminal_before(s, k) >= 0 ==> is_terminal(s[last_terminal_before(s, k)]),
    decreases k,
{
    if k > 0 && !is_terminal(s[k - 1]) {
        lemma_last_terminal_bounds(s, k - 1);
    }
}

/// The chunks handed out by a run of pushes, followed by the buffer left, are
/// the starting buffer followed by every fragment pushed.
pub proof fn lemma_push_all_keeps_text(buf: Seq<char>, frags: Seq<Seq<char>>)
    ensures
        push_all(buf, frags).0 + push_all(buf, frags).1 == buf + joined(frags),
    decreases frags.len(),
{
    if frags.len() == 0 {
        assert(Seq::<char>::empty() + buf =~= buf + Seq::<char>::empty());
    } else {
        let (out, rest) = push_all(buf, frags.drop_last());
        lemma_push_all_keeps_text(buf, frags.drop_last());
        let (chunk, kept) = split_buffer(rest + frags.last());
        lemma_split_keeps_text(rest + frags.last());
        assert(out + text_of(chunk) + kept =~= out + (text_of(chunk) + kept));
        assert(buf + joined(frags) =~= buf + joined(frags.drop_last()) + frags.last());
    }
}

/// Coverage: on a fresh segmenter, the chunks that a run of pushes hands out,
/// followed by what the closing flush hands out, are exactly the fragments
/// joined, no character lost or repeated. This holds unless the buffer left
/// before the flush is non-empty white space, which the flush drops.
pub proof fn lemma_segmenter_coverage(frags: Seq<Seq<char>>)
    requires
        push_all(Seq::empty(), frags).1.len() == 0 || !is_blank(push_all(Seq::empty(), frags).1),
    ensures
        push_all(Seq::empty(), frags).0 + text_of(flush_of(push_all(Seq::empty(), frags).1))
            == joined(frags),
{
    lemma_push_all_keeps_text(Seq::empty(), frags);
    let (out, rest) = push_all(Seq::empty(), frags);
    assert(Seq::<char>::empty() + joined(frags) =~= joined(frags));
    if rest.len() == 0 {
        assert(rest =~= Seq::<char>::empty());
        assert(out + Seq::<char>::empty() =~= out);
    }
}

/// Threshold flush: a fragment longer than the threshold with no terminal
/// mark, pushed on an empty buffer, is handed out whole at once and leaves the
/// buffer empty.
pub proof fn lemma_threshold_flush(frag: Seq<char>)
    requires
        frag.len() > FLUSH_THRESHOLD,
        forall|i: int| 0 <= i < frag.len() ==> !is_terminal(#[trigger] frag[i]),
    ensures
        split_buffer(Seq::empty() + frag) == (Some(frag), Seq::<char>::empty()),
{
    assert(Seq::<char>::empty() + frag =~= frag);
    lemma_no_terminal_before(frag, frag.len() as int);
}

pub fn is_terminal_char(c: char) -> (r: bool)
    ensures
        r == is_terminal(c),
{
    c == '.' || c == '?' || c == '!' || c == ':' || c == ';'
}

pub fn is_space_char(c: char) -> (r: bool)
    ensures
        r == is_space(c),
{
    ('\u{9}' <= c && c <= '\u{d}') || c == ' ' || c == '\u{85}' || c == '\u{a0}' || c
        == '\u{1680}' || ('\u{2000}' <= c && c <= '\u{200a}') || c == '\u{2028}' || c
        == '\u{2029}' || c == '\u{202f}' || c == '\u{205f}' || c == '\u{3000}'
}

/// Accumulates streamed text and hands out speakable chunks.
pub struct SentenceSegmenter {
    buffer: Vec<char>,
}

impl View for SentenceSegmenter {
    type V = Seq<char>;

    /// The text received and not yet handed out.
    closed spec fn view(&self) -> Seq<char> {
        self.buffer@
    }
}

impl SentenceSegmenter {
    pub fn new() -> (r: SentenceSegmenter)
        ensures
            r@ == Seq::<char>::empty(),
    {
        SentenceSegmenter { buffer: Vec::new() }
    }

    /// The text held and not yet handed out.
    pub fn pending(&self) -> (r: String)
        ensures
            r@ == self@,
    {
        string_from_chars(&self.buffer)
    }

    /// Appends `fragment`; hands out the buffer up to and including its last
    /// terminal mark, or the whole buffer once it is longer than the
    /// threshold with no such mark.
    pub fn push(&mut self, fragment: &str) -> (r: Option<String>)
        ensures
            (opt_view(r), final(self)@) == split_buffer(old(self)@ + fragment@),
    {
        let added = chars_of(fragment);
        let mut i: usize = 0;
        while i < added.len()
            invariant
                i <= added@.len(),
                self@ == old(self)@ + added@.subrange(0, i as int),
            decreases added@.len() - i,
        {
            self.buffer.push(added[i]);
            i = i + 1;
            assert(self@ =~= old(self)@ + added@.subrange(0, i as int));
        }
        assert(added@.subrange(0, i as int) =~= fragment@);
        let ghost buf = self@;
        let n = self.buffer.len();
        let mut k: usize = n;
        let mut found = false;
        while k > 0 && !found
            invariant
                buf == self@,
                n == buf.len(),
                k <= n,
                last_terminal(buf) == last_terminal_before(buf, k as int),
                found ==> k > 0 && is_terminal(buf[k - 1]),
            decreases k + if found { 0int } else { 1int },
        {
            if is_terminal_char(self.buffer[k - 1]) {
                found = true;
            } else {
                k = k - 1;
            }
        }
        if found {
            let rest = self.buffer.split_off(k);
            let chunk = string_from_chars(&self.buffer);
            self.buffer = rest;
            Some(chunk)
        } else if n > FLUSH_THRESHOLD {
            let chunk = string_from_chars(&self.buffer);
            self.buffer = Vec::new();
            Some(chunk)
        } else {
            None
        }
    }

    /// Hands out the buffer unless it is empty or white space only, and
    /// empties it in every case.
    pub fn flush(&mut self) -> (r: Option<String>)
        ensures
            opt_view(r) == flush_of(old(self)@),
            r is None <==> is_blank(old(self)@),
            final(self)@ == Seq::<char>::empty(),
    {
        let mut blank = true;
        let mut i: usize = 0;
        while i < self.buffer.len()
            invariant
                i <= self@.len(),
                blank == is_blank(self@.subrange(0, i as int)),
            decreases self@.len() - i,
        {
            let ghost prefix = self@.subrange(0, i as int);
            blank = blank && is_space_char(self.buffer[i]);
            i = i + 1;
            assert(self@.subrange(0, i as int) =~= prefix.push(self@[i - 1]));
            assert(blank ==> is_blank(self@.subrange(0, i as int)));
            assert(is_blank(self@.subrange(0, i as int)) ==> blank) by {
                if is_blank(self@.subrange(0, i as int)) {
                    assert(is_space(self@.subrange(0, i as int)[i - 1]));
                    assert forall|j: int| 0 <= j < prefix.len() implies is_space(prefix[j]) by {
                        assert(prefix[j] == self@.subrange(0, i as int)[j]);
                    }
                }
            }
        }
        assert(self@.subrange(0, i as int) =~= self@);
        let r = if blank {
            None
        } else {
            Some(string_from_chars(&self.buffer))
        };
        self.buffer = Vec::new();
        r
    }
}

} // verus!
