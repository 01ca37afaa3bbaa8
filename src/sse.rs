use vstd::prelude::*;
use crate::stream::{ErrorKind, EventView, StreamEvent};

verus! {

/// The byte that ends a line.
pub const NEWLINE: u8 = 10;

/// Lines, each followed by a newline, one after another.
pub open spec fn joined_lines(ls: Seq<Seq<u8>>) -> Seq<u8>
    decreases ls.len(),
{
    if ls.len() == 0 {
        Seq::empty()
    } else {
        joined_lines(ls.drop_last()) + ls.last() + seq![NEWLINE]
    }
}

pub open spec fn has_no_newline(l: Seq<u8>) -> bool {
    forall|j: int| 0 <= j < l.len() ==> l[j] != NEWLINE
}

/// The bytes of a response stream, cut into lines. Chunks may end anywhere,
/// also inside a line; the part after the last newline waits for the next one.
pub struct LineBuffer {
    pending: Vec<u8>,
}

impl View for LineBuffer {
    type V = Seq<u8>;

    closed spec fn view(&self) -> Seq<u8> {
        self.pending@
    }
}

impl LineBuffer {
    pub open spec fn wf(&self) -> bool {
        has_no_newline(self@)
    }

    pub fn new() -> (r: LineBuffer)
        ensures
            r.wf(),
            r@ == Seq::<u8>::empty(),
    {
        LineBuffer { pending: Vec::new() }
    }

    /// The bytes after the last newline seen so far.
    pub fn pending(&self) -> (r: &Vec<u8>)
        ensures
            r@ == self@,
    {
        &self.pending
    }

    /// Takes in a chunk and hands back the lines it completes, in order and
    /// without their newlines; what follows the last newline is kept.
    pub fn push(&mut self, chunk: &[u8]) -> (r: Vec<Vec<u8>>)
        requires
            old(self).wf(),
        ensures
            final(self).wf(),
            joined_lines(r@.map_values(|l: Vec<u8>| l@)) + final(self)@ == old(self)@ + chunk@,
            forall|j: int| 0 <= j < r@.len() ==> has_no_newline(#[trigger] r@[j]@),
    {
        let mut lines: Vec<Vec<u8>> = Vec::new();
        let mut pending: Vec<u8> = Vec::new();
        std::mem::swap(&mut pending, &mut self.pending);
        let ghost start = pending@;
        let n = chunk.len();
        for i in 0..n
            invariant
                n == chunk@.len(),
                start == old(self)@,
                has_no_newline(pending@),
                forall|j: int| 0 <= j < lines@.len() ==> has_no_newline(#[trigger] lines@[j]@),
                joined_lines(lines@.map_values(|l: Vec<u8>| l@)) + pending@ == start
                    + chunk@.take(i as int),
        {
            let b = chunk[i];
            let ghost before = lines@.map_values(|l: Vec<u8>| l@);
            assert(chunk@.take(i + 1) =~= chunk@.take(i as int).push(b));
            if b == NEWLINE {
                let mut line: Vec<u8> = Vec::new();
                std::mem::swap(&mut line, &mut pending);
                let ghost lv = line@;
                lines.push(line);
                let ghost after = lines@.map_values(|l: Vec<u8>| l@);
                assert(after.drop_last() =~= before);
                assert(after.last() == lv);
                assert(joined_lines(after) + pending@ =~= start + chunk@.take(i + 1));
            } else {
                let ghost p0 = pending@;
                pending.push(b);
                assert(joined_lines(before) + p0 == start + chunk@.take(i as int));
                assert(pending@ == p0.push(b));
                assert((joined_lines(before) + p0).push(b) =~= joined_lines(before) + p0.push(b));
                assert((start + chunk@.take(i as int)).push(b) =~= start + chunk@.take(i as int).push(b));
                assert(joined_lines(before) + pending@ =~= start + chunk@.take(i + 1));
            }
        }
        assert(chunk@.take(n as int) =~= chunk@);
        self.pending = pending;
        lines
    }
}

/// The byte that may end a line before its newline.
pub const CARRIAGE_RETURN: u8 = 13;

/// The field name, with its colon, that starts a data line: `data:`.
pub open spec fn data_field() -> Seq<u8> {
    seq![100u8, 97u8, 116u8, 97u8, 58u8]
}

/// The payload that marks the end of the stream: `[DONE]`.
pub open spec fn sentinel() -> Seq<u8> {
    seq![91u8, 68u8, 79u8, 78u8, 69u8, 93u8]
}

/// A line without the carriage return that may end it.
pub open spec fn strip_cr(l: Seq<u8>) -> Seq<u8> {
    if l.len() > 0 && l.last() == CARRIAGE_RETURN {
        l.drop_last()
    } else {
        l
    }
}

/// The value of a data line: what follows `data:` and one optional space.
pub open spec fn data_value(l: Seq<u8>) -> Seq<u8> {
    let rest = l.skip(5);
    if rest.len() > 0 && rest[0] == 32u8 {
        rest.skip(1)
    } else {
        rest
    }
}

/// What one line of the stream carries.
#[derive(Debug)]
pub enum SseLine {
    /// A blank line, a comment, or a field other than data.
    Skip,
    /// The end-of-stream marker.
    Sentinel,
    /// A frame to decode.
    Payload(Vec<u8>),
}

pub enum SseLineView {
    Skip,
    Sentinel,
    Payload(Seq<u8>),
}

impl View for SseLine {
    type V = SseLineView;

    open spec fn view(&self) -> SseLineView {
        match self {
            SseLine::Skip => SseLineView::Skip,
            SseLine::Sentinel => SseLineView::Sentinel,
            SseLine::Payload(p) => SseLineView::Payload(p@),
        }
    }
}

/// A line is data when it starts with `data:`; its value is the sentinel or
/// a frame. Every other line is skipped.
pub open spec fn sse_line_of(line: Seq<u8>) -> SseLineView {
    let l = strip_cr(line);
    if l.len() >= 5 && l.take(5) == data_field() {
        if data_value(l) == sentinel() {
            SseLineView::Sentinel
        } else {
            SseLineView::Payload(data_value(l))
        }
    } else {
        SseLineView::Skip
    }
}

/// Whether `l` holds `prefix` from position `at` on.
fn holds_at(l: &[u8], at: usize, prefix: &[u8]) -> (r: bool)
    requires
        at <= l@.len(),
    ensures
        r == (l@.len() - at >= prefix@.len() && l@.subrange(at as int, at + prefix@.len())
            == prefix@),
{
    if l.len() - at < prefix.len() {
        return false;
    }
    let n = prefix.len();
    let len = l.len();
    for i in 0..n
        invariant
            n == prefix@.len(),
            len == l@.len(),
            at <= l@.len(),
            l@.len() - at >= n,
            forall|j: int| 0 <= j < i ==> l@[at + j] == prefix@[j],
    {
        if l[at + i] != prefix[i] {
            assert(l@.subrange(at as int, at + n)[i as int] != prefix@[i as int]);
            return false;
        }
    }
    assert(l@.subrange(at as int, at + n) =~= prefix@);
    true
}

/// The bytes of `l` from `from` up to `to`.
fn copy_range(l: &[u8], from: usize, to: usize) -> (r: Vec<u8>)
    requires
        from <= to <= l@.len(),
    ensures
        r@ == l@.subrange(from as int, to as int),
{
    let mut r: Vec<u8> = Vec::new();
    for i in from..to
        invariant
            to <= l@.len(),
            r@ == l@.subrange(from as int, i as int),
    {
        r.push(l[i]);
        assert(r@ =~= l@.subrange(from as int, i + 1));
    }
    r
}

/// Reads one line of the stream, with or without its carriage return.
pub fn classify_line(line: &[u8]) -> (r: SseLine)
    ensures
        r@ == sse_line_of(line@),
{
    let ghost l = strip_cr(line@);
    let mut end = line.len();
    if end > 0 && line[end - 1] == CARRIAGE_RETURN {
        end = end - 1;
    }
    assert(l =~= line@.take(end as int));
    let data: [u8; 5] = [100u8, 97u8, 116u8, 97u8, 58u8];
    assert(data@ =~= data_field());
    if end < 5 || !holds_at(line, 0, data.as_slice()) {
        if end >= 5 {
            assert(l.take(5) =~= line@.subrange(0, 5));
        }
        return SseLine::Skip;
    }
    assert(l.take(5) =~= line@.subrange(0, 5));
    let mut start: usize = 5;
    if start < end && line[start] == 32u8 {
        start = start + 1;
    }
    assert(data_value(l) =~= line@.subrange(start as int, end as int));
    let done: [u8; 6] = [91u8, 68u8, 79u8, 78u8, 69u8, 93u8];
    assert(done@ =~= sentinel());
    if end - start == 6 && holds_at(line, start, done.as_slice()) {
        SseLine::Sentinel
    } else {
        SseLine::Payload(copy_range(line, start, end))
    }
}

/// The event a decoded frame stands for. `decoded` is `None` when the frame
/// is not a valid chunk, else the content of its first choice's delta, if
/// any. A frame that does not decode is a protocol error carrying the raw
/// frame; non-empty content is a delta; a frame without content gives none.
pub fn event_from_frame(raw: String, decoded: Option<Option<String>>) -> (r: Option<StreamEvent>)
    ensures
        match decoded {
            None => r matches Some(e) && e@ == EventView::Error(ErrorKind::Protocol, raw@),
            Some(Some(t)) => if t@.len() > 0 {
                r matches Some(e) && e@ == EventView::Delta(t@)
            } else {
                r is None
            },
            Some(None) => r is None,
        },
{
    match decoded {
        None => Some(StreamEvent::Error(ErrorKind::Protocol, raw)),
        Some(Some(t)) => {
            if t.as_str().is_empty() {
                None
            } else {
                Some(StreamEvent::Delta(t))
            }
        },
        Some(None) => None,
    }
}

} // verus!
