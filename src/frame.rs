//! Frame delimiting for the legacy byte protocol.
//!
//! A frame is a run of raw audio bytes terminated by the five-byte marker
//! `00 'S' 'O' 'T' 00`. The stream buffer accumulates bytes and cuts them
//! at the rightmost marker it holds.
use vstd::prelude::*;
use vstd::slice::{slice_subrange, slice_to_vec};

verus! {

/// Length of the frame marker in bytes.
pub const MARKER_LEN: usize = 5;

/// The frame marker `00 'S' 'O' 'T' 00`.
pub open spec fn marker() -> Seq<u8> {
    seq![0u8, 0x53u8, 0x4fu8, 0x54u8, 0u8]
}

/// The marker occupies `s[i .. i + 5]`.
pub open spec fn marker_at(s: Seq<u8>, i: int) -> bool {
    &&& 0 <= i
    &&& i + 5 <= s.len()
    &&& s[i] == 0u8
    &&& s[i + 1] == 0x53u8
    &&& s[i + 2] == 0x4fu8
    &&& s[i + 3] == 0x54u8
    &&& s[i + 4] == 0u8
}

/// Some occurrence of the marker lies anywhere in `s`.
pub open spec fn has_marker(s: Seq<u8>) -> bool {
    exists|i: int| #[trigger] marker_at(s, i)
}

/// `p` is the rightmost occurrence of the marker in `s`.
pub open spec fn is_rightmost_marker(s: Seq<u8>, p: int) -> bool {
    &&& marker_at(s, p)
    &&& forall|j: int| p < j ==> !#[trigger] marker_at(s, j)
}

/// `p` is the first occurrence of the marker in `s`.
pub open spec fn is_first_marker(s: Seq<u8>, p: int) -> bool {
    &&& marker_at(s, p)
    &&& forall|j: int| j < p ==> !#[trigger] marker_at(s, j)
}

/// The position of the rightmost marker in `s`, if there is one.
pub open spec fn rightmost_marker(s: Seq<u8>) -> Option<int> {
    if has_marker(s) {
        Some(choose|p: int| is_rightmost_marker(s, p))
    } else {
        None
    }
}

/// The position of the first marker in `s`, if there is one.
pub open spec fn first_marker(s: Seq<u8>) -> Option<int> {
    if has_marker(s) {
        Some(choose|p: int| is_first_marker(s, p))
    } else {
        None
    }
}

/// The split of `s` at its rightmost marker: the bytes before it and the
/// bytes after it.
pub open spec fn split_at_rightmost(s: Seq<u8>) -> Option<(Seq<u8>, Seq<u8>)> {
    match rightmost_marker(s) {
        Some(p) => Some((s.subrange(0, p), s.subrange(p + 5, s.len() as int))),
        None => None,
    }
}

/// The bytes before the first marker of `s`, if there is one.
pub open spec fn first_frame(s: Seq<u8>) -> Option<Seq<u8>> {
    match first_marker(s) {
        Some(p) => Some(s.subrange(0, p)),
        None => None,
    }
}

/// Where a marker lies, the rightmost one is found by `rightmost_marker`.
pub proof fn lemma_rightmost_marker(s: Seq<u8>, p: int)
    requires
        marker_at(s, p),
    ensures
        rightmost_marker(s) is Some,
        is_rightmost_marker(s, rightmost_marker(s)->Some_0),
        p <= rightmost_marker(s)->Some_0,
    decreases s.len() - p,
{
    if forall|j: int| p < j ==> !#[trigger] marker_at(s, j) {
        assert(is_rightmost_marker(s, p));
    } else {
        let q = choose|j: int| p < j && #[trigger] marker_at(s, j);
        lemma_rightmost_marker(s, q);
    }
    let r = choose|r: int| is_rightmost_marker(s, r);
    assert(is_rightmost_marker(s, r));
}

/// The rightmost marker is unique.
pub proof fn lemma_rightmost_unique(s: Seq<u8>, p: int)
    requires
        is_rightmost_marker(s, p),
    ensures
        rightmost_marker(s) == Some(p),
{
    lemma_rightmost_marker(s, p);
    let r = rightmost_marker(s)->Some_0;
    if r < p {
        assert(!marker_at(s, p));
    } else if p < r {
        assert(!marker_at(s, r));
    }
}

/// Where a marker lies, the first one is found by `first_marker`.
pub proof fn lemma_first_marker(s: Seq<u8>, p: int)
    requires
        marker_at(s, p),
    ensures
        first_marker(s) is Some,
        is_first_marker(s, first_marker(s)->Some_0),
        first_marker(s)->Some_0 <= p,
    decreases p,
{
    if forall|j: int| j < p ==> !#[trigger] marker_at(s, j) {
        assert(is_first_marker(s, p));
    } else {
        let q = choose|j: int| j < p && #[trigger] marker_at(s, j);
        lemma_first_marker(s, q);
    }
    let r = choose|r: int| is_first_marker(s, r);
    assert(is_first_marker(s, r));
}

/// The first marker is unique.
pub proof fn lemma_first_unique(s: Seq<u8>, p: int)
    requires
        is_first_marker(s, p),
    ensures
        first_marker(s) == Some(p),
{
    lemma_first_marker(s, p);
    let r = first_marker(s)->Some_0;
    if r < p {
        assert(!marker_at(s, r));
    } else if p < r {
        assert(!marker_at(s, p));
    }
}

/// Whether the marker starts at `data[i]`.
fn marker_starts_at(data: &[u8], i: usize) -> (r: bool)
    requires
        i + MARKER_LEN <= data@.len(),
    ensures
        r == marker_at(data@, i as int),
{
    data[i] == 0u8 && data[i + 1] == 0x53u8 && data[i + 2] == 0x4fu8 && data[i + 3] == 0x54u8
        && data[i + 4] == 0u8
}

/// The offset of the first marker in `data`, scanning forward.
pub fn find_first_marker(data: &[u8]) -> (r: Option<usize>)
    ensures
        r is None <==> !has_marker(data@),
        r matches Some(p) ==> is_first_marker(data@, p as int),
        r matches Some(p) ==> first_marker(data@) == Some(p as int),
{
    if data.len() < MARKER_LEN {
        assert forall|j: int| !#[trigger] marker_at(data@, j) by {}
        return None;
    }
    let n: usize = data.len();
    let end: usize = n - MARKER_LEN;
    let mut i: usize = 0;
    while i <= end
        invariant
            end + MARKER_LEN == n,
            n == data@.len(),
            i <= end + 1,
            forall|j: int| j < i ==> !#[trigger] marker_at(data@, j),
        decreases end + 1 - i,
    {
        if marker_starts_at(data, i) {
            proof {
                lemma_first_unique(data@, i as int);
            }
            return Some(i);
        }
        i = i + 1;
    }
    assert forall|j: int| !#[trigger] marker_at(data@, j) by {
        if j >= i {
            assert(j + 5 > data@.len());
        }
    }
    None
}

/// The offset of the rightmost marker in `data`, scanning backward.
pub fn find_rightmost_marker(data: &[u8]) -> (r: Option<usize>)
    ensures
        r is None <==> !has_marker(data@),
        r matches Some(p) ==> is_rightmost_marker(data@, p as int),
        r matches Some(p) ==> rightmost_marker(data@) == Some(p as int),
{
    if data.len() < MARKER_LEN {
        assert forall|j: int| !#[trigger] marker_at(data@, j) by {}
        return None;
    }
    let mut k: usize = data.len() - MARKER_LEN + 1;
    while k > 0
        invariant
            k + MARKER_LEN <= data@.len() + 1,
            forall|j: int| j >= k ==> !#[trigger] marker_at(data@, j),
        decreases k,
    {
        let i = k - 1;
        if marker_starts_at(data, i) {
            proof {
                lemma_rightmost_unique(data@, i as int);
            }
            return Some(i);
        }
        k = i;
    }
    assert forall|j: int| !#[trigger] marker_at(data@, j) by {
        if j >= 0 {
            assert(j >= k);
        }
    }
    None
}

/// The outcome of one scan of the pending bytes for a frame marker.
#[derive(Debug, Clone)]
pub struct FrameDetectionResult {
    /// The bytes before the chosen marker (empty when none was found).
    pub audio_segment: Vec<u8>,
    /// The bytes after the chosen marker (all the bytes when none was found).
    pub remaining: Vec<u8>,
    /// Whether a marker was found.
    pub found: bool,
    /// The offset of the chosen marker.
    pub position: Option<usize>,
}

/// `r` is the result of scanning `s` under the rightmost-marker policy.
pub open spec fn detection_of(s: Seq<u8>, r: FrameDetectionResult) -> bool {
    match split_at_rightmost(s) {
        Some((before, after)) => {
            &&& r.found
            &&& r.position matches Some(p) && rightmost_marker(s) == Some(p as int)
            &&& r.audio_segment@ == before
            &&& r.remaining@ == after
        },
        None => {
            &&& !r.found
            &&& r.position is None
            &&& r.audio_segment@ == Seq::<u8>::empty()
            &&& r.remaining@ == s
        },
    }
}

/// Scans `data` for its rightmost marker and splits it there.
pub fn detect_frame(data: &[u8]) -> (r: FrameDetectionResult)
    ensures
        detection_of(data@, r),
        r.found == has_marker(data@),
{
    let n: usize = data.len();
    match find_rightmost_marker(data) {
        Some(p) => {
            let before = slice_to_vec(slice_subrange(data, 0, p));
            let after = slice_to_vec(slice_subrange(data, p + MARKER_LEN, n));
            FrameDetectionResult { audio_segment: before, remaining: after, found: true, position: Some(p) }
        },
        None => {
            FrameDetectionResult {
                audio_segment: Vec::new(),
                remaining: slice_to_vec(data),
                found: false,
                position: None,
            }
        },
    }
}

/// Bytes accumulated from a stream until a frame marker cuts them.
///
/// The counter always equals the number of pending bytes.
#[derive(Debug)]
pub struct StreamBuffer {
    pending: Vec<u8>,
    byte_count: usize,
}

impl View for StreamBuffer {
    type V = Seq<u8>;

    closed spec fn view(&self) -> Seq<u8> {
        self.pending@
    }
}

impl StreamBuffer {
    /// The counter equals the number of pending bytes.
    pub closed spec fn wf(&self) -> bool {
        self.byte_count == self.pending@.len()
    }

    /// An empty buffer.
    pub fn new() -> (r: StreamBuffer)
        ensures
            r.wf(),
            r@ == Seq::<u8>::empty(),
    {
        StreamBuffer { pending: Vec::new(), byte_count: 0 }
    }

    /// The number of pending bytes, as counted.
    pub fn byte_count(&self) -> (r: usize)
        requires
            self.wf(),
        ensures
            r == self@.len(),
    {
        self.byte_count
    }

    /// The pending bytes.
    pub fn pending(&self) -> (r: &[u8])
        ensures
            r@ == self@,
    {
        self.pending.as_slice()
    }

    /// Adds `bytes` at the end of the pending bytes.
    pub fn append(&mut self, bytes: &[u8])
        requires
            old(self).wf(),
            old(self)@.len() + bytes@.len() <= usize::MAX,
        ensures
            final(self).wf(),
            final(self)@ == old(self)@ + bytes@,
    {
        let mut i: usize = 0;
        while i < bytes.len()
            invariant
                i <= bytes@.len(),
                self.pending@ == old(self)@ + bytes@.subrange(0, i as int),
                self.byte_count == self.pending@.len(),
                old(self)@.len() + bytes@.len() <= usize::MAX,
            decreases bytes@.len() - i,
        {
            self.pending.push(bytes[i]);
            self.byte_count = self.byte_count + 1;
            i = i + 1;
            assert(bytes@.subrange(0, i as int) == bytes@.subrange(0, i - 1).push(bytes@[i - 1]));
        }
        assert(bytes@.subrange(0, i as int) == bytes@);
    }

    /// Scans the pending bytes for their rightmost marker; the buffer is
    /// left as it is.
    pub fn detect(&self) -> (r: FrameDetectionResult)
        ensures
            detection_of(self@, r),
            r.found == has_marker(self@),
    {
        detect_frame(self.pending.as_slice())
    }

    /// Takes the bytes before the rightmost marker, keeping only those after
    /// it; without a marker nothing changes and `None` comes back.
    pub fn extract(&mut self) -> (r: Option<Vec<u8>>)
        requires
            old(self).wf(),
        ensures
            final(self).wf(),
            match split_at_rightmost(old(self)@) {
                Some((before, after)) => r matches Some(v) && v@ == before && final(self)@ == after,
                None => r is None && final(self)@ == old(self)@,
            },
            r is Some ==> !has_marker(final(self)@),
    {
        match find_rightmost_marker(self.pending.as_slice()) {
            Some(p) => {
                proof {
                    lemma_after_rightmost_is_clear(self@, p as int);
                }
                let rest = self.pending.split_off(p + MARKER_LEN);
                let mut segment = rest;
                std::mem::swap(&mut segment, &mut self.pending);
                segment.truncate(p);
                self.byte_count = self.pending.len();
                Some(segment)
            },
            None => None,
        }
    }
}

/// No marker lies in what follows the rightmost marker.
pub proof fn lemma_after_rightmost_is_clear(s: Seq<u8>, p: int)
    requires
        is_rightmost_marker(s, p),
    ensures
        !has_marker(s.subrange(p + 5, s.len() as int)),
{
    let rest = s.subrange(p + 5, s.len() as int);
    assert forall|j: int| !#[trigger] marker_at(rest, j) by {
        if marker_at(rest, j) {
            assert(marker_at(s, p + 5 + j));
        }
    }
}

/// A single marker between marker-free bytes splits them back apart: the
/// bytes before it are the segment, the bytes after it the remainder. The
/// one exclusion is a remainder that opens with `'S' 'O' 'T' 00`, which
/// overlaps the marker's final zero to form a second, later marker.
pub proof fn lemma_split_single_marker(p: Seq<u8>, s: Seq<u8>)
    requires
        !has_marker(p),
        !has_marker(s),
        !marker_at(marker() + s, 4),
    ensures
        split_at_rightmost(p + marker() + s) == Some((p, s)),
{
    let t = p + marker() + s;
    let k = p.len() as int;
    assert(marker_at(t, k));
    assert forall|j: int| k < j implies !#[trigger] marker_at(t, j) by {
        if marker_at(t, j) {
            if j >= k + 5 {
                assert(marker_at(s, j - k - 5));
            } else if j == k + 4 {
                assert(marker_at(marker() + s, 4));
            }
        }
    }
    lemma_rightmost_unique(t, k);
    assert(t.subrange(0, k) == p);
    assert(t.subrange(k + 5, t.len() as int) == s);
}

/// After a split at the rightmost marker, the remainder holds no marker, so
/// a second extraction without new bytes finds nothing.
pub proof fn lemma_extract_twice(s: Seq<u8>)
    requires
        has_marker(s),
    ensures
        split_at_rightmost(s) is Some,
        split_at_rightmost(split_at_rightmost(s)->Some_0.1) is None,
{
    let i = choose|i: int| marker_at(s, i);
    lemma_rightmost_marker(s, i);
    lemma_after_rightmost_is_clear(s, rightmost_marker(s)->Some_0);
}

} // verus!
