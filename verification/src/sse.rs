//! De-framing of a server-sent-event body.
//!
//! An upstream body is a run of segments, each closed by a blank line
//! (`\n\n` or `\r\n\r\n`). The network hands the body over in reads that cut
//! it at arbitrary places. [`SseFrameDecoder`] takes the reads one by one and
//! gives back the events that each read completes.

use vstd::prelude::*;

verus! {

/// One decoded event, as a value of the model.
pub enum Frame {
    /// The bytes that follow the `data: ` prefix of a segment.
    Data(Seq<u8>),
    /// The terminator: the stream is over.
    Done,
}

/// One decoded event.
#[derive(Debug, Clone, PartialEq, Eq)]
pub enum SseEvent {
    /// The bytes that follow the `data: ` prefix of a segment.
    Data(Vec<u8>),
    /// The terminator: the stream is over.
    Done,
}

impl View for SseEvent {
    type V = Frame;

    open spec fn view(&self) -> Frame {
        match self {
            SseEvent::Data(p) => Frame::Data(p@),
            SseEvent::Done => Frame::Done,
        }
    }
}

/// The frames that a sequence of events stands for.
pub open spec fn frames_of(events: Seq<SseEvent>) -> Seq<Frame> {
    events.map_values(|e: SseEvent| e@)
}

/// The bytes of `data: `.
pub open spec fn data_prefix() -> Seq<u8> {
    seq![100u8, 97u8, 116u8, 97u8, 58u8, 32u8]
}

/// The bytes of `[DONE]`.
pub open spec fn done_token() -> Seq<u8> {
    seq![91u8, 68u8, 79u8, 78u8, 69u8, 93u8]
}

/// The length of the blank-line delimiter that starts at `i`: 2 for `\n\n`,
/// 4 for `\r\n\r\n`, 0 where none starts.
pub open spec fn delim_len(s: Seq<u8>, i: int) -> int {
    if 0 <= i && i + 2 <= s.len() && s[i] == 10u8 && s[i + 1] == 10u8 {
        2
    } else if 0 <= i && i + 4 <= s.len() && s[i] == 13u8 && s[i + 1] == 10u8 && s[i + 2] == 13u8
        && s[i + 3] == 10u8 {
        4
    } else {
        0
    }
}

/// The first index at or after `from` where a delimiter starts, or the length
/// of `s` where there is none.
pub open spec fn next_delim(s: Seq<u8>, from: int) -> int
    decreases s.len() - from,
{
    if from >= s.len() {
        s.len() as int
    } else if delim_len(s, from) > 0 {
        from
    } else {
        next_delim(s, from + 1)
    }
}

/// `t` stands in `s` at index `k`.
pub open spec fn token_at(s: Seq<u8>, k: int, t: Seq<u8>) -> bool {
    0 <= k && k + t.len() <= s.len() && s.subrange(k, k + t.len()) == t
}

/// `t` stands somewhere in `s`.
pub open spec fn contains_token(s: Seq<u8>, t: Seq<u8>) -> bool {
    exists|k: int| token_at(s, k, t)
}

/// What one segment decodes to: nothing where it lacks the `data: ` prefix,
/// the terminator where `[DONE]` stands behind the prefix, else its payload.
pub open spec fn classify(seg: Seq<u8>) -> Option<Frame> {
    if !token_at(seg, 0, data_prefix()) {
        None
    } else {
        let payload = seg.subrange(6, seg.len() as int);
        if contains_token(payload, done_token()) {
            Some(Frame::Done)
        } else {
            Some(Frame::Data(payload))
        }
    }
}

/// The frames of the segments of `s` that a delimiter closes, up to and
/// including the first terminator.
pub open spec fn complete_frames(s: Seq<u8>) -> Seq<Frame>
    decreases s.len(),
    via complete_frames_decreases
{
    let i = next_delim(s, 0);
    if i >= s.len() {
        Seq::empty()
    } else {
        let rest = s.subrange(i + delim_len(s, i), s.len() as int);
        match classify(s.subrange(0, i)) {
            None => complete_frames(rest),
            Some(Frame::Done) => seq![Frame::Done],
            Some(Frame::Data(p)) => seq![Frame::Data(p)] + complete_frames(rest),
        }
    }
}

/// The bytes of `s` behind its last delimiter: the segment that is still open.
pub open spec fn open_segment(s: Seq<u8>) -> Seq<u8>
    decreases s.len(),
    via open_segment_decreases
{
    let i = next_delim(s, 0);
    if i >= s.len() {
        s
    } else {
        open_segment(s.subrange(i + delim_len(s, i), s.len() as int))
    }
}

#[via_fn]
proof fn complete_frames_decreases(s: Seq<u8>) {
    lemma_next_delim_least(s, 0);
}

#[via_fn]
proof fn open_segment_decreases(s: Seq<u8>) {
    lemma_next_delim_least(s, 0);
}

/// A terminator is among the frames.
pub open spec fn has_done(frames: Seq<Frame>) -> bool {
    exists|i: int| 0 <= i < frames.len() && frames[i] == Frame::Done
}

/// The frames of the segment that is open when the body ends.
pub open spec fn closing_frames(open: Seq<u8>) -> Seq<Frame> {
    match classify(open) {
        None => Seq::empty(),
        Some(f) => seq![f],
    }
}

/// The frames of a whole body: those of its closed segments and, where no
/// terminator came, that of the segment left open at its end.
pub open spec fn body_frames(s: Seq<u8>) -> Seq<Frame> {
    if has_done(complete_frames(s)) {
        complete_frames(s)
    } else {
        complete_frames(s) + closing_frames(open_segment(s))
    }
}

/// No delimiter starts in `s` at an index from `from` up to `to`.
pub open spec fn no_delim_in(s: Seq<u8>, from: int, to: int) -> bool {
    forall|j: int| from <= j < to ==> delim_len(s, j) == 0
}

/// `next_delim` is the least index at or after `from` where a delimiter
/// starts.
pub proof fn lemma_next_delim_least(s: Seq<u8>, from: int)
    requires
        0 <= from <= s.len(),
    ensures
        from <= next_delim(s, from) <= s.len(),
        no_delim_in(s, from, next_delim(s, from)),
        next_delim(s, from) < s.len() ==> delim_len(s, next_delim(s, from)) > 0,
    decreases s.len() - from,
{
    if from < s.len() && delim_len(s, from) == 0 {
        lemma_next_delim_least(s, from + 1);
    }
}

/// Where no delimiter starts before `k`, the search from `from` gives what
/// the search from `k` gives.
pub proof fn lemma_next_delim_skip(s: Seq<u8>, from: int, k: int)
    requires
        0 <= from <= k <= s.len(),
        no_delim_in(s, from, k),
    ensures
        next_delim(s, from) == next_delim(s, k),
    decreases k - from,
{
    if from < k {
        lemma_next_delim_skip(s, from + 1, k);
    }
}


/// The first segment of a body decides how its frames begin: where the
/// first delimiter starts at `i`, a segment without the `data: ` prefix is
/// passed over and leaves the frames of what follows as they are, a
/// terminator ends the frames, and a payload stands before the frames of
/// what follows.
pub proof fn lemma_first_segment(s: Seq<u8>, i: int)
    requires
        0 <= i < s.len(),
        no_delim_in(s, 0, i),
        delim_len(s, i) > 0,
    ensures
        complete_frames(s) == (match classify(s.subrange(0, i)) {
            None => complete_frames(s.subrange(i + delim_len(s, i), s.len() as int)),
            Some(Frame::Done) => seq![Frame::Done],
            Some(Frame::Data(p)) => seq![Frame::Data(p)] + complete_frames(
                s.subrange(i + delim_len(s, i), s.len() as int),
            ),
        }),
        open_segment(s) == open_segment(s.subrange(i + delim_len(s, i), s.len() as int)),
{
    lemma_next_delim_skip(s, 0, i);
}

/// A body without a delimiter holds no complete frame and is open as a whole.
pub proof fn lemma_no_delimiter(s: Seq<u8>)
    requires
        no_delim_in(s, 0, s.len() as int),
    ensures
        complete_frames(s) == Seq::<Frame>::empty(),
        open_segment(s) == s,
{
    lemma_next_delim_skip(s, 0, s.len() as int);
}

/// A delimiter that starts in `a` before the first delimiter of `a` would
/// start there in `a + b` too: appending bytes brings no earlier delimiter.
proof fn lemma_first_delim_stays(a: Seq<u8>, b: Seq<u8>, i: int)
    requires
        0 <= i < a.len(),
        no_delim_in(a, 0, i),
        delim_len(a, i) > 0,
    ensures
        no_delim_in(a + b, 0, i),
        delim_len(a + b, i) == delim_len(a, i),
{
    let ab = a + b;
    assert forall|k: int| 0 <= k < a.len() implies ab[k] == a[k] by {}
    assert forall|j: int| 0 <= j < i implies delim_len(ab, j) == 0 by {
        assert(delim_len(a, j) == 0);
        if delim_len(ab, j) == 2 {
            assert(ab[j] == a[j] && ab[j + 1] == a[j + 1]);
        } else if delim_len(ab, j) == 4 {
            if j + 4 <= a.len() {
                assert(ab[j] == a[j] && ab[j + 1] == a[j + 1] && ab[j + 2] == a[j + 2] && ab[j + 3]
                    == a[j + 3]);
            } else {
                assert(i == j + 1);
                assert(ab[j + 2] == a[j + 2]);
            }
        }
    }
}

/// The reads may cut the body anywhere: where `a` holds no terminator, the
/// frames of `a + b` are the frames of `a` and then the frames of what `a`
/// left open with `b` behind it, and the same segment stays open.
pub proof fn lemma_reads_compose(a: Seq<u8>, b: Seq<u8>)
    requires
        !has_done(complete_frames(a)),
    ensures
        complete_frames(a + b) == complete_frames(a) + complete_frames(open_segment(a) + b),
        open_segment(a + b) == open_segment(open_segment(a) + b),
    decreases a.len(),
{
    lemma_next_delim_least(a, 0);
    let i = next_delim(a, 0);
    if i >= a.len() {
        assert(Seq::<Frame>::empty() + complete_frames(a + b) =~= complete_frames(a + b));
    } else {
        let d = delim_len(a, i);
        let ab = a + b;
        let rest = a.subrange(i + d, a.len() as int);
        lemma_first_delim_stays(a, b, i);
        lemma_first_segment(ab, i);
        assert(ab.subrange(0, i) =~= a.subrange(0, i));
        assert(ab.subrange(i + d, ab.len() as int) =~= rest + b);
        let tail = complete_frames(rest);
        match classify(a.subrange(0, i)) {
            None => {
                lemma_reads_compose(rest, b);
            },
            Some(Frame::Done) => {
                assert(complete_frames(a)[0] == Frame::Done);
            },
            Some(Frame::Data(p)) => {
                assert(complete_frames(a) == seq![Frame::Data(p)] + tail);
                if has_done(tail) {
                    let k = choose|k: int| 0 <= k < tail.len() && tail[k] == Frame::Done;
                    assert(complete_frames(a)[k + 1] == Frame::Done);
                }
                lemma_reads_compose(rest, b);
                assert(seq![Frame::Data(p)] + (tail + complete_frames(open_segment(rest) + b))
                    =~= (seq![Frame::Data(p)] + tail) + complete_frames(open_segment(rest) + b));
            },
        }
    }
}

/// The bytes of one outgoing event: the prefix, the payload, a blank line.
pub open spec fn frame_bytes(payload: Seq<u8>) -> Seq<u8> {
    data_prefix() + payload + seq![10u8, 10u8]
}

/// No line feed is among the bytes.
pub open spec fn single_line(payload: Seq<u8>) -> bool {
    forall|i: int| 0 <= i < payload.len() ==> payload[i] != 10u8
}

/// What is framed is what is decoded: a body that begins with the frame of
/// a payload of one line decodes to that payload and then to the frames of
/// the rest, or to the terminator where the payload holds `[DONE]`.
pub proof fn lemma_frame_round_trip(payload: Seq<u8>, rest: Seq<u8>)
    requires
        single_line(payload),
    ensures
        complete_frames(frame_bytes(payload) + rest) == (if contains_token(payload, done_token()) {
            seq![Frame::Done]
        } else {
            seq![Frame::Data(payload)] + complete_frames(rest)
        }),
{
    let s = frame_bytes(payload) + rest;
    let i = 6 + payload.len() as int;
    assert forall|j: int| 0 <= j < i implies delim_len(s, j) == 0 by {
        if j >= 6 {
            assert(s[j] == payload[j - 6]);
        }
        if 6 <= j + 1 < i {
            assert(s[j + 1] == payload[j + 1 - 6]);
        }
    }
    assert(s[i] == 10u8 && s[i + 1] == 10u8);
    lemma_first_segment(s, i);
    let seg = s.subrange(0, i);
    assert(seg.subrange(0, 6) =~= data_prefix());
    assert(seg.subrange(6, seg.len() as int) =~= payload);
    assert(s.subrange(i + 2, s.len() as int) =~= rest);
}

/// The frame of the terminator decodes to the terminator, whatever follows.
pub proof fn lemma_terminator_round_trip(rest: Seq<u8>)
    ensures
        complete_frames(frame_bytes(done_token()) + rest) == seq![Frame::Done],
{
    assert(done_token().subrange(0, 6) =~= done_token());
    assert(token_at(done_token(), 0, done_token()));
    lemma_frame_round_trip(done_token(), rest);
}

/// A token of six bytes stands at `k` exactly where the six bytes agree.
proof fn lemma_token_of_six(s: Seq<u8>, k: int, t: Seq<u8>)
    requires
        t.len() == 6,
        0 <= k,
        k + 6 <= s.len(),
    ensures
        token_at(s, k, t) <==> (s[k] == t[0] && s[k + 1] == t[1] && s[k + 2] == t[2] && s[k + 3]
            == t[3] && s[k + 4] == t[4] && s[k + 5] == t[5]),
{
    let sub = s.subrange(k, k + 6);
    if s[k] == t[0] && s[k + 1] == t[1] && s[k + 2] == t[2] && s[k + 3] == t[3] && s[k + 4] == t[4]
        && s[k + 5] == t[5] {
        assert(sub =~= t);
    }
    if sub == t {
        assert(sub[0] == t[0] && sub[1] == t[1] && sub[2] == t[2] && sub[3] == t[3] && sub[4]
            == t[4] && sub[5] == t[5]);
    }
}

/// A delimiter of a suffix is a delimiter of the whole, moved by the cut.
proof fn lemma_delim_len_suffix(s: Seq<u8>, start: int, j: int)
    requires
        0 <= start <= s.len(),
        0 <= j,
    ensures
        delim_len(s.subrange(start, s.len() as int), j) == delim_len(s, start + j),
{
}

/// Mapping to frames goes through `push`.
proof fn lemma_frames_push(events: Seq<SseEvent>, e: SseEvent)
    ensures
        frames_of(events.push(e)) == frames_of(events) + seq![e@],
{
    assert(frames_of(events.push(e)) =~= frames_of(events) + seq![e@]);
}

/// The bytes of `buf` from `from` up to `to`, copied.
fn copy_range(buf: &Vec<u8>, from: usize, to: usize) -> (out: Vec<u8>)
    requires
        from <= to <= buf.len(),
    ensures
        out@ == buf@.subrange(from as int, to as int),
{
    let mut out: Vec<u8> = Vec::new();
    let mut i: usize = from;
    while i < to
        invariant
            from <= i <= to <= buf.len(),
            out@ == buf@.subrange(from as int, i as int),
        decreases to - i,
    {
        out.push(buf[i]);
        i += 1;
        proof {
            assert(out@ =~= buf@.subrange(from as int, i as int));
        }
    }
    out
}

/// The length of the delimiter that starts at `pos` in `buf`, or 0.
fn delim_at(buf: &Vec<u8>, pos: usize) -> (d: usize)
    requires
        pos <= buf.len(),
    ensures
        d == delim_len(buf@, pos as int),
        pos + d <= buf.len(),
{
    let n: usize = buf.len();
    if n - pos >= 2 && buf[pos] == 10 && buf[pos + 1] == 10 {
        2
    } else if n - pos >= 4 && buf[pos] == 13 && buf[pos + 1] == 10 && buf[pos + 2] == 13 && buf[pos
        + 3] == 10 {
        4
    } else {
        0
    }
}

/// Whether `[DONE]` stands in `buf` at `k`, before `end`.
fn done_at(buf: &Vec<u8>, k: usize, end: usize) -> (r: bool)
    requires
        k + 6 <= end <= buf.len(),
    ensures
        r == token_at(buf@, k as int, done_token()),
{
    proof {
        lemma_token_of_six(buf@, k as int, done_token());
    }
    buf[k] == 91 && buf[k + 1] == 68 && buf[k + 2] == 79 && buf[k + 3] == 78 && buf[k + 4] == 69
        && buf[k + 5] == 93
}

/// What the segment of `buf` from `start` up to `end` decodes to.
fn classify_segment(buf: &Vec<u8>, start: usize, end: usize) -> (r: Option<SseEvent>)
    requires
        start <= end <= buf.len(),
    ensures
        match r {
            None => classify(buf@.subrange(start as int, end as int)) is None,
            Some(e) => classify(buf@.subrange(start as int, end as int)) == Some(e@),
        },
{
    let ghost seg = buf@.subrange(start as int, end as int);
    if end - start < 6 {
        return None;
    }
    proof {
        lemma_token_of_six(seg, 0, data_prefix());
    }
    if !(buf[start] == 100 && buf[start + 1] == 97 && buf[start + 2] == 116 && buf[start + 3] == 97
        && buf[start + 4] == 58 && buf[start + 5] == 32) {
        return None;
    }
    let from: usize = start + 6;
    let ghost payload = seg.subrange(6, seg.len() as int);
    proof {
        assert(payload =~= buf@.subrange(from as int, end as int));
    }
    let mut k: usize = from;
    let mut found: bool = false;
    while !found && end - k >= 6
        invariant
            from <= k <= end <= buf.len(),
            payload == buf@.subrange(from as int, end as int),
            forall|j: int| 0 <= j < k - from ==> !token_at(payload, j, done_token()),
            found ==> token_at(payload, k - from, done_token()),
        decreases (if found { 0int } else { 1int }), end - k,
    {
        let hit = done_at(buf, k, end);
        proof {
            assert(payload.subrange(k - from, k - from + 6) =~= buf@.subrange(
                k as int,
                k as int + 6,
            ));
        }
        if hit {
            found = true;
        } else {
            k += 1;
        }
    }
    if found {
        Some(SseEvent::Done)
    } else {
        proof {
            assert forall|j: int| !token_at(payload, j, done_token()) by {
                if token_at(payload, j, done_token()) {
                    assert(j + 6 <= payload.len());
                    assert(j < k - from);
                }
            }
        }
        Some(SseEvent::Data(copy_range(buf, from, end)))
    }
}

/// The bytes of the outgoing event that carries `payload`.
pub fn encode_frame(payload: &[u8]) -> (out: Vec<u8>)
    ensures
        out@ == frame_bytes(payload@),
{
    let mut out: Vec<u8> = Vec::new();
    out.push(100);
    out.push(97);
    out.push(116);
    out.push(97);
    out.push(58);
    out.push(32);
    let mut i: usize = 0;
    while i < payload.len()
        invariant
            i <= payload.len(),
            out@ == data_prefix() + payload@.subrange(0, i as int),
        decreases payload.len() - i,
    {
        out.push(payload[i]);
        i += 1;
        proof {
            assert(out@ =~= data_prefix() + payload@.subrange(0, i as int));
        }
    }
    out.push(10);
    out.push(10);
    proof {
        assert(payload@.subrange(0, i as int) =~= payload@);
        assert(out@ =~= frame_bytes(payload@));
    }
    out
}

/// The bytes of the outgoing terminator.
pub fn terminator_frame() -> (out: Vec<u8>)
    ensures
        out@ == frame_bytes(done_token()),
{
    let mut token: Vec<u8> = Vec::new();
    token.push(91);
    token.push(68);
    token.push(79);
    token.push(78);
    token.push(69);
    token.push(93);
    proof {
        assert(token@ =~= done_token());
    }
    encode_frame(token.as_slice())
}

/// A terminator among frames put together is a terminator in one of the parts.
proof fn lemma_has_done_concat(a: Seq<Frame>, b: Seq<Frame>)
    ensures
        has_done(a + b) <==> has_done(a) || has_done(b),
{
    if has_done(a) {
        let i = choose|i: int| 0 <= i < a.len() && a[i] == Frame::Done;
        assert((a + b)[i] == Frame::Done);
    }
    if has_done(b) {
        let i = choose|i: int| 0 <= i < b.len() && b[i] == Frame::Done;
        assert((a + b)[a.len() + i] == Frame::Done);
    }
    if has_done(a + b) {
        let i = choose|i: int| 0 <= i < (a + b).len() && (a + b)[i] == Frame::Done;
        if i < a.len() {
            assert(a[i] == Frame::Done);
        } else {
            assert(b[i - a.len()] == Frame::Done);
        }
    }
}

/// The decoder of one streamed body: what is left of the reads so far, and
/// whether the terminator has come. It remembers, for the proofs alone, the
/// bytes that it has taken and the frames that it has given.
pub struct SseFrameDecoder {
    pending: Vec<u8>,
    done: bool,
    seen: Ghost<Seq<u8>>,
    given: Ghost<Seq<Frame>>,
}

impl SseFrameDecoder {
    /// The bytes of the segment that is still open.
    pub closed spec fn pending(&self) -> Seq<u8> {
        self.pending@
    }

    /// The terminator has come, or the body was closed.
    pub closed spec fn finished(&self) -> bool {
        self.done
    }

    /// The bytes of the body that the decoder has taken, all reads together.
    pub closed spec fn seen(&self) -> Seq<u8> {
        self.seen@
    }

    /// The frames that the decoder has given, all reads together.
    pub closed spec fn given(&self) -> Seq<Frame> {
        self.given@
    }

    /// However the body was cut into reads, the decoder has given the frames
    /// of the body as a whole: while the body goes on, those of its closed
    /// segments, and holds the segment that is open; once it is over, all of
    /// its frames.
    pub open spec fn wf(&self) -> bool {
        if self.finished() {
            self.given() == body_frames(self.seen())
        } else {
            &&& self.given() == complete_frames(self.seen())
            &&& !has_done(self.given())
            &&& self.pending() == open_segment(self.seen())
        }
    }

    /// A decoder at the start of a body.
    pub fn new() -> (d: SseFrameDecoder)
        ensures
            d.wf(),
            d.pending() == Seq::<u8>::empty(),
            d.seen() == Seq::<u8>::empty(),
            d.given() == Seq::<Frame>::empty(),
            !d.finished(),
    {
        proof {
            lemma_no_delimiter(Seq::<u8>::empty());
        }
        SseFrameDecoder {
            pending: Vec::new(),
            done: false,
            seen: Ghost(Seq::empty()),
            given: Ghost(Seq::empty()),
        }
    }

    /// Whether the terminator has come, or the body was closed.
    pub fn is_finished(&self) -> (b: bool)
        ensures
            b == self.finished(),
    {
        self.done
    }

    /// Takes one read and gives the events of the segments that it closes,
    /// in their order, up to and including the terminator. After the
    /// terminator every read is ignored.
    pub fn feed(&mut self, bytes: &[u8]) -> (events: Vec<SseEvent>)
        requires
            old(self).wf(),
        ensures
            final(self).wf(),
            final(self).given() == old(self).given() + frames_of(events@),
            final(self).seen() == (if old(self).finished() {
                old(self).seen()
            } else {
                old(self).seen() + bytes@
            }),
            old(self).finished() ==> events@.len() == 0 && final(self).finished(),
            !old(self).finished() ==> frames_of(events@) == complete_frames(
                old(self).pending() + bytes@,
            ),
            !old(self).finished() ==> final(self).finished() == has_done(
                complete_frames(old(self).pending() + bytes@),
            ),
            !old(self).finished() && !final(self).finished() ==> final(self).pending()
                == open_segment(old(self).pending() + bytes@),
    {
        let mut events: Vec<SseEvent> = Vec::new();
        if self.done {
            proof {
                assert(old(self).given() + frames_of(events@) =~= old(self).given());
            }
            return events;
        }
        let mut b: usize = 0;
        while b < bytes.len()
            invariant
                b <= bytes.len(),
                !self.done,
                self.seen == old(self).seen,
                self.given == old(self).given,
                self.pending@ == old(self).pending@ + bytes@.subrange(0, b as int),
            decreases bytes.len() - b,
        {
            self.pending.push(bytes[b]);
            b += 1;
            proof {
                assert(self.pending@ =~= old(self).pending@ + bytes@.subrange(0, b as int));
            }
        }
        let ghost s = self.pending@;
        proof {
            assert(bytes@.subrange(0, b as int) =~= bytes@);
            assert(s.subrange(0, s.len() as int) =~= s);
            assert(frames_of(events@) =~= Seq::<Frame>::empty());
            assert(Seq::<Frame>::empty() + complete_frames(s) =~= complete_frames(s));
        }
        let n: usize = self.pending.len();
        let mut start: usize = 0;
        let mut pos: usize = 0;
        let mut done: bool = false;
        while !done && pos < n
            invariant
                self.pending@ == s,
                self.seen == old(self).seen,
                self.given == old(self).given,
                n == s.len(),
                start <= pos <= n,
                !self.done,
                forall|i: int| 0 <= i < events@.len() - (if done { 1int } else { 0int })
                    ==> events@[i]@ != Frame::Done,
                done ==> events@.len() > 0 && events@[events@.len() - 1]@ == Frame::Done
                    && complete_frames(s) == frames_of(events@),
                !done ==> no_delim_in(s.subrange(start as int, n as int), 0, pos - start),
                !done ==> complete_frames(s) == frames_of(events@) + complete_frames(
                    s.subrange(start as int, n as int),
                ),
                !done ==> open_segment(s) == open_segment(s.subrange(start as int, n as int)),
            decreases (if done { 0int } else { 1int }), n - pos,
        {
            let ghost sub = s.subrange(start as int, n as int);
            let d = delim_at(&self.pending, pos);
            proof {
                lemma_delim_len_suffix(s, start as int, pos - start);
            }
            if d == 0 {
                pos += 1;
            } else {
                let ev = classify_segment(&self.pending, start, pos);
                proof {
                    lemma_next_delim_skip(sub, 0, pos - start);
                    assert(next_delim(sub, 0) == pos - start);
                    assert(sub.subrange(0, pos - start) =~= s.subrange(start as int, pos as int));
                    assert(sub.subrange(pos - start + d, sub.len() as int) =~= s.subrange(
                        pos + d,
                        n as int,
                    ));
                }
                let ghost before = events@;
                match ev {
                    None => {},
                    Some(SseEvent::Done) => {
                        events.push(SseEvent::Done);
                        done = true;
                        proof {
                            lemma_frames_push(before, SseEvent::Done);
                            assert(complete_frames(sub) =~= seq![Frame::Done]);
                        }
                    },
                    Some(e) => {
                        let ghost frame = e@;
                        events.push(e);
                        proof {
                            lemma_frames_push(before, e);
                            assert(frames_of(before) + (seq![frame] + complete_frames(
                                s.subrange(pos + d, n as int),
                            )) =~= frames_of(before) + seq![frame] + complete_frames(
                                s.subrange(pos + d, n as int),
                            ));
                        }
                    },
                }
                pos = pos + d;
                start = pos;
                proof {
                    assert(no_delim_in(s.subrange(start as int, n as int), 0, 0));
                }
            }
        }
        if done {
            self.done = true;
            self.pending = Vec::new();
            proof {
                assert(frames_of(events@)[events@.len() - 1] == Frame::Done);
            }
        } else {
            let ghost sub = s.subrange(start as int, n as int);
            proof {
                lemma_next_delim_skip(sub, 0, sub.len() as int);
                assert(complete_frames(sub) =~= Seq::<Frame>::empty());
                assert(frames_of(events@) + Seq::<Frame>::empty() =~= frames_of(events@));
                assert(!has_done(frames_of(events@)));
            }
            let tail = self.pending.split_off(start);
            self.pending = tail;
        }
        proof {
            let before = old(self).seen();
            lemma_reads_compose(before, bytes@);
            lemma_has_done_concat(old(self).given(), frames_of(events@));
        }
        self.seen = Ghost(old(self).seen() + bytes@);
        self.given = Ghost(old(self).given() + frames_of(events@));
        events
    }

    /// Closes the body: gives the event of the segment that was left open,
    /// where it holds one. After the terminator there is none.
    pub fn finish(&mut self) -> (events: Vec<SseEvent>)
        requires
            old(self).wf(),
        ensures
            final(self).wf(),
            final(self).seen() == old(self).seen(),
            final(self).given() == old(self).given() + frames_of(events@),
            final(self).given() == body_frames(old(self).seen()),
            final(self).finished(),
            old(self).finished() ==> events@.len() == 0,
            !old(self).finished() ==> frames_of(events@) == closing_frames(old(self).pending()),
    {
        let mut events: Vec<SseEvent> = Vec::new();
        if self.done {
            proof {
                assert(old(self).given() + frames_of(events@) =~= old(self).given());
            }
            return events;
        }
        let n: usize = self.pending.len();
        let ev = classify_segment(&self.pending, 0, n);
        proof {
            assert(self.pending@.subrange(0, n as int) =~= self.pending@);
        }
        match ev {
            None => {
                proof {
                    assert(frames_of(events@) =~= Seq::<Frame>::empty());
                }
            },
            Some(e) => {
                let ghost frame = e@;
                events.push(e);
                proof {
                    assert(frames_of(events@) =~= seq![frame]);
                }
            },
        }
        self.done = true;
        self.pending = Vec::new();
        self.given = Ghost(old(self).given() + frames_of(events@));
        events
    }
}

/// Decodes a body that is at hand as a whole: the events of its closed
/// segments and, where no terminator came, that of the segment left open at
/// its end.
pub fn decode_body(body: &[u8]) -> (events: Vec<SseEvent>)
    ensures
        frames_of(events@) == body_frames(body@),
{
    let mut decoder = SseFrameDecoder::new();
    let mut events = decoder.feed(body);
    let mut last = decoder.finish();
    proof {
        assert(Seq::<u8>::empty() + body@ =~= body@);
        assert(frames_of(events@ + last@) =~= frames_of(events@) + frames_of(last@));
        assert(Seq::<Frame>::empty() + frames_of(events@) =~= frames_of(events@));
    }
    events.append(&mut last);
    events
}

} // verus!
