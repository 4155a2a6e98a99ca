//! Frames of the worker protocol: one JSON value per line, of bounded length.

use vstd::prelude::*;
use vstd::slice::slice_subrange;
use vstd::utf8::decode_utf8;
use vstd::utf8::valid_utf8;

use crate::codec::readable_within;
use crate::codec::no_controls;
use crate::codec::parsed;
use crate::codec::render_json;
use crate::codec::rendered;
use crate::codec::MAX_NESTING;
use crate::json::Json;
use crate::json::JsonView;

verus! {

/// What one read from the worker gives.
#[derive(Debug)]
pub enum Frame {
    /// One line, without its end.
    Line(String),
    /// The worker closed the stream.
    Eof,
    /// A line that is longer than allowed; this many of its bytes were seen.
    Oversized(usize),
}

/// The mathematical reading of a [`Frame`].
pub enum FrameView {
    Line(Seq<char>),
    Eof,
    Oversized(nat),
}

impl View for Frame {
    type V = FrameView;

    open spec fn view(&self) -> FrameView {
        match *self {
            Frame::Line(line) => FrameView::Line(line@),
            Frame::Eof => FrameView::Eof,
            Frame::Oversized(bytes) => FrameView::Oversized(bytes as nat),
        }
    }
}

/// What `String::from_utf8` says of bytes that are not UTF-8.
pub uninterp spec fn utf8_fault(bytes: Seq<u8>) -> Seq<char>;

/// Calls `String::from_utf8`.
///
/// Trusted: bytes that are UTF-8 become the text that they encode, and all others are
/// refused. The message of the refusal depends on the bytes alone; it is named
/// [`utf8_fault`].
#[verifier::external_body]
fn text_from_utf8(bytes: Vec<u8>) -> (res: Result<String, String>)
    ensures
        match res {
            Ok(text) => valid_utf8(bytes@) && text@ == decode_utf8(bytes@),
            Err(fault) => !valid_utf8(bytes@) && fault@ == utf8_fault(bytes@),
        },
{
    String::from_utf8(bytes).map_err(|err| err.to_string())
}

/// The length of the first line in `bytes`, its line feed included, if it has ended.
pub open spec fn line_len(bytes: Seq<u8>) -> Option<nat>
    decreases bytes.len(),
{
    if bytes.len() == 0 {
        None
    } else if bytes[0] == 10 {
        Some(1)
    } else {
        match line_len(bytes.skip(1)) {
            Some(len) => Some(len + 1),
            None => None,
        }
    }
}

/// How many of the bytes belong to the first line.
pub open spec fn line_part(bytes: Seq<u8>) -> nat {
    match line_len(bytes) {
        Some(len) => len,
        None => bytes.len(),
    }
}

/// `bytes` without `end` as their last byte.
pub open spec fn without_last(bytes: Seq<u8>, end: u8) -> Seq<u8> {
    if bytes.len() > 0 && bytes.last() == end {
        bytes.drop_last()
    } else {
        bytes
    }
}

/// A line without its end: a line feed, with or without a carriage return before it.
pub open spec fn line_content(line: Seq<u8>) -> Seq<u8> {
    without_last(without_last(line, 10), 13)
}

/// The text of a line, or why it is none.
pub open spec fn line_frame(line: Seq<u8>) -> Result<FrameView, Seq<char>> {
    let content = line_content(line);
    if valid_utf8(content) {
        Ok(FrameView::Line(decode_utf8(content)))
    } else {
        Err(utf8_fault(content))
    }
}

/// What happens when bytes become available to a reader.
pub struct ReadStepView {
    /// How many of the bytes are used up.
    pub taken: nat,
    /// What the reader keeps of an unfinished line.
    pub buffer: Seq<u8>,
    /// The frame that is complete, or the fault in it.
    pub found: Option<Result<FrameView, Seq<char>>>,
}

/// One step of a reader that has kept `buffer` of the current line when `available` comes in;
/// that nothing is available means that the stream has ended.
pub open spec fn read_step(buffer: Seq<u8>, available: Seq<u8>, max_bytes: nat) -> ReadStepView {
    if available.len() == 0 {
        if buffer.len() == 0 {
            ReadStepView { taken: 0, buffer, found: Some(Ok(FrameView::Eof)) }
        } else {
            ReadStepView { taken: 0, buffer: Seq::empty(), found: Some(line_frame(buffer)) }
        }
    } else {
        let taken = line_part(available);
        let line = buffer + available.take(taken as int);
        if line.len() > max_bytes {
            ReadStepView {
                taken: 0,
                buffer,
                found: Some(Ok(FrameView::Oversized(line.len()))),
            }
        } else if line_len(available) is Some {
            ReadStepView { taken, buffer: Seq::empty(), found: Some(line_frame(line)) }
        } else {
            ReadStepView { taken, buffer: line, found: None }
        }
    }
}

/// What happened when bytes became available to a reader.
#[derive(Debug)]
pub struct ReadStep {
    /// How many of the bytes are used up.
    pub taken: usize,
    /// The frame that is complete, or the fault in it.
    pub found: Option<Result<Frame, String>>,
}

/// The mathematical reading of what a reader found.
pub open spec fn found_view(found: Option<Result<Frame, String>>) -> Option<
    Result<FrameView, Seq<char>>,
> {
    match found {
        Some(Ok(frame)) => Some(Ok(frame@)),
        Some(Err(fault)) => Some(Err(fault@)),
        None => None,
    }
}

proof fn lemma_line_len(bytes: Seq<u8>, at: int)
    requires
        0 <= at <= bytes.len(),
        forall|i: int| 0 <= i < at ==> #[trigger] bytes[i] != 10,
        at < bytes.len() ==> bytes[at] == 10,
    ensures
        line_len(bytes) == (if at < bytes.len() {
            Some((at + 1) as nat)
        } else {
            None
        }),
    decreases bytes.len(),
{
    if bytes.len() > 0 && at > 0 {
        assert(bytes[0] != 10);
        let rest = bytes.skip(1);
        assert forall|i: int| 0 <= i < at - 1 implies #[trigger] rest[i] != 10 by {
            assert(rest[i] == bytes[i + 1]);
        }
        lemma_line_len(rest, at - 1);
    }
}

fn position_of_newline(bytes: &[u8]) -> (res: Option<usize>)
    ensures
        match res {
            Some(at) => at < bytes@.len() && line_len(bytes@) == Some((at + 1) as nat),
            None => line_len(bytes@) is None,
        },
{
    let mut i: usize = 0;
    while i < bytes.len()
        invariant
            i <= bytes@.len(),
            forall|j: int| 0 <= j < i ==> #[trigger] bytes@[j] != 10,
        decreases bytes@.len() - i,
    {
        if bytes[i] == 10 {
            proof {
                lemma_line_len(bytes@, i as int);
            }
            return Some(i);
        }
        i = i + 1;
    }
    proof {
        lemma_line_len(bytes@, bytes@.len() as int);
    }
    None
}

fn finish_line(buf: &mut Vec<u8>) -> (res: Result<Frame, String>)
    ensures
        final(buf)@ == Seq::<u8>::empty(),
        found_view(Some(res)) == Some(line_frame(old(buf)@)),
{
    let mut line: Vec<u8> = Vec::new();
    line.append(buf);
    assert(line@ =~= old(buf)@);
    let len: usize = line.len();
    if len > 0 && line[len - 1] == 10 {
        line.pop();
    }
    assert(line@ =~= without_last(old(buf)@, 10));
    let len: usize = line.len();
    if len > 0 && line[len - 1] == 13 {
        line.pop();
    }
    assert(line@ =~= line_content(old(buf)@));
    match text_from_utf8(line) {
        Ok(text) => Ok(Frame::Line(text)),
        Err(fault) => Err(fault),
    }
}

/// Read one newline-terminated frame, refusing anything longer than `max_bytes`: one step, for
/// the bytes that are `available`. None are at the end of the stream. `buf` keeps what was
/// taken of a line until its end comes in.
pub fn read_frame_buffered(available: &[u8], max_bytes: usize, buf: &mut Vec<u8>) -> (res: ReadStep)
    requires
        old(buf)@.len() + available@.len() <= usize::MAX,
    ensures
        ({
            let step = read_step(old(buf)@, available@, max_bytes as nat);
            &&& res.taken == step.taken
            &&& final(buf)@ == step.buffer
            &&& found_view(res.found) == step.found
        }),
{
    if available.len() == 0 {
        if buf.len() == 0 {
            return ReadStep { taken: 0, found: Some(Ok(Frame::Eof)) };
        }
        let frame = finish_line(buf);
        return ReadStep { taken: 0, found: Some(frame) };
    }
    let newline = position_of_newline(available);
    let take: usize = match newline {
        Some(at) => at + 1,
        None => available.len(),
    };
    let ghost line = buf@ + available@.take(take as int);
    if buf.len() + take > max_bytes {
        return ReadStep { taken: 0, found: Some(Ok(Frame::Oversized(buf.len() + take))) };
    }
    buf.extend_from_slice(slice_subrange(available, 0, take));
    assert(buf@ =~= line);
    if newline.is_some() {
        let frame = finish_line(buf);
        ReadStep { taken: take, found: Some(frame) }
    } else {
        ReadStep { taken: take, found: None }
    }
}

/// What a reader makes of bytes that come in pieces, and which bytes it leaves; behind the
/// last piece the stream ends.
pub open spec fn read_pieces(buffer: Seq<u8>, pieces: Seq<Seq<u8>>, max_bytes: nat) -> (
    Result<FrameView, Seq<char>>,
    Seq<u8>,
)
    decreases pieces.len(),
{
    if pieces.len() == 0 {
        (read_step(buffer, Seq::empty(), max_bytes).found->0, Seq::empty())
    } else {
        let step = read_step(buffer, pieces.first(), max_bytes);
        match step.found {
            Some(outcome) => (
                outcome,
                pieces.first().skip(step.taken as int) + pieces.drop_first().flatten(),
            ),
            None => read_pieces(step.buffer, pieces.drop_first(), max_bytes),
        }
    }
}

/// Whether `outcome` is what a reader owes of the bytes of a stream, and `rest` what it owes
/// to leave.
pub open spec fn reads_as(
    stream: Seq<u8>,
    max_bytes: nat,
    outcome: Result<FrameView, Seq<char>>,
    rest: Seq<u8>,
) -> bool {
    let len = line_part(stream);
    if stream.len() == 0 {
        outcome == Ok::<FrameView, Seq<char>>(FrameView::Eof) && rest == stream
    } else if len > max_bytes {
        outcome matches Ok(FrameView::Oversized(seen)) && max_bytes < seen <= len
    } else {
        outcome == line_frame(stream.take(len as int)) && rest == stream.skip(len as int)
    }
}

proof fn lemma_line_len_behind(front: Seq<u8>, back: Seq<u8>)
    requires
        line_len(front) is None,
    ensures
        line_len(front + back) == (match line_len(back) {
            Some(len) => Some(front.len() + len),
            None => None,
        }),
    decreases front.len(),
{
    if front.len() == 0 {
        assert(front + back =~= back);
    } else {
        assert((front + back).skip(1) =~= front.skip(1) + back);
        lemma_line_len_behind(front.skip(1), back);
    }
}

proof fn lemma_line_len_in_front(front: Seq<u8>, back: Seq<u8>)
    requires
        line_len(front) is Some,
    ensures
        line_len(front + back) == line_len(front),
    decreases front.len(),
{
    if front[0] != 10 {
        assert((front + back).skip(1) =~= front.skip(1) + back);
        lemma_line_len_in_front(front.skip(1), back);
    }
}

proof fn lemma_line_len_bound(bytes: Seq<u8>)
    ensures
        line_len(bytes) matches Some(len) ==> 0 < len <= bytes.len() && bytes[len - 1] == 10,
    decreases bytes.len(),
{
    if bytes.len() > 0 && bytes[0] != 10 {
        lemma_line_len_bound(bytes.skip(1));
    }
}

/// However a stream is cut into pieces, a reader finds the same frame in it and leaves the
/// same bytes: a line is put together again from its pieces, nothing of it is lost, and it is
/// refused as oversized exactly when it is longer than allowed.
pub proof fn lemma_pieces_are_reassembled(
    buffer: Seq<u8>,
    pieces: Seq<Seq<u8>>,
    max_bytes: nat,
)
    requires
        line_len(buffer) is None,
        buffer.len() <= max_bytes,
        forall|i: int| 0 <= i < pieces.len() ==> (#[trigger] pieces[i]).len() > 0,
    ensures
        reads_as(
            buffer + pieces.flatten(),
            max_bytes,
            read_pieces(buffer, pieces, max_bytes).0,
            read_pieces(buffer, pieces, max_bytes).1,
        ),
    decreases pieces.len(),
{
    let stream = buffer + pieces.flatten();
    if pieces.len() == 0 {
        assert(stream =~= buffer);
        assert(stream.take(stream.len() as int) =~= buffer);
        assert(stream.skip(stream.len() as int) =~= Seq::empty());
    } else {
        let piece = pieces.first();
        let others = pieces.drop_first().flatten();
        assert(piece == pieces[0]);
        let step = read_step(buffer, piece, max_bytes);
        assert(stream =~= buffer + (piece + others));
        lemma_line_len_behind(buffer, piece + others);
        lemma_line_len_bound(piece);
        lemma_line_len_bound(piece + others);
        if line_len(piece) is Some {
            lemma_line_len_in_front(piece, others);
            let taken = line_part(piece);
            assert(stream.take((buffer.len() + taken) as int) =~= buffer + piece.take(
                taken as int,
            ));
            assert(stream.skip((buffer.len() + taken) as int) =~= piece.skip(taken as int)
                + others);
        } else {
            lemma_line_len_behind(piece, others);
            lemma_line_len_bound(others);
            assert(piece.take(piece.len() as int) =~= piece);
            if buffer.len() + piece.len() <= max_bytes {
                lemma_line_len_behind(buffer, piece);
                assert(step.buffer =~= buffer + piece);
                assert(stream =~= step.buffer + others);
                assert forall|i: int| 0 <= i < pieces.drop_first().len() implies (
                #[trigger] pieces.drop_first()[i]).len() > 0 by {
                    assert(pieces.drop_first()[i] == pieces[i + 1]);
                }
                lemma_pieces_are_reassembled(step.buffer, pieces.drop_first(), max_bytes);
            }
        }
    }
}

/// A reader never keeps more of a line than the allowed number of bytes, and no line end.
pub proof fn lemma_buffer_is_bounded(buffer: Seq<u8>, available: Seq<u8>, max_bytes: nat)
    requires
        line_len(buffer) is None,
        buffer.len() <= max_bytes,
    ensures
        line_len(read_step(buffer, available, max_bytes).buffer) is None,
        read_step(buffer, available, max_bytes).buffer.len() <= max_bytes,
{
    if available.len() > 0 && line_len(available) is None {
        lemma_line_len_behind(buffer, available);
        assert(available.take(available.len() as int) =~= available);
    }
}

proof fn lemma_no_newline(bytes: Seq<u8>)
    requires
        no_controls(bytes),
    ensures
        line_len(bytes) is None,
{
    lemma_line_len(bytes, bytes.len() as int);
}

/// A line of text without control characters is read back as that text, whatever follows it.
pub proof fn lemma_line_is_read_back(content: Seq<u8>, following: Seq<u8>, max_bytes: nat)
    requires
        no_controls(content),
        valid_utf8(content),
        content.len() < max_bytes,
    ensures
        reads_as(
            content.push(10) + following,
            max_bytes,
            Ok(FrameView::Line(decode_utf8(content))),
            following,
        ),
{
    let line = content.push(10);
    lemma_no_newline(content);
    lemma_line_len_behind(content, seq![10u8]);
    assert(line =~= content + seq![10u8]);
    lemma_line_len_in_front(line, following);
    assert((line + following).take(line.len() as int) =~= line);
    assert((line + following).skip(line.len() as int) =~= following);
    assert(without_last(line, 10) =~= content);
    assert(line_content(line) == content);
}

/// A line of text without control characters is read back as that text, and what follows it is
/// left, however the stream is cut into pieces.
pub proof fn lemma_line_survives_any_cut(
    content: Seq<u8>,
    following: Seq<u8>,
    pieces: Seq<Seq<u8>>,
    max_bytes: nat,
)
    requires
        no_controls(content),
        valid_utf8(content),
        content.len() < max_bytes,
        pieces.flatten() == content.push(10) + following,
        forall|i: int| 0 <= i < pieces.len() ==> (#[trigger] pieces[i]).len() > 0,
    ensures
        read_pieces(Seq::empty(), pieces, max_bytes) == (
            Ok::<FrameView, Seq<char>>(FrameView::Line(decode_utf8(content))),
            following,
        ),
{
    lemma_pieces_are_reassembled(Seq::empty(), pieces, max_bytes);
    lemma_line_is_read_back(content, following, max_bytes);
    let stream = content.push(10) + following;
    assert(Seq::<u8>::empty() + pieces.flatten() =~= stream);
    lemma_no_newline(content);
    lemma_line_len_behind(content, seq![10u8] + following);
    assert(stream =~= content + (seq![10u8] + following));
    assert((seq![10u8] + following)[0] == 10);
    assert(line_part(stream) == content.len() + 1);
}

/// The line that carries a JSON value: its compact text and a line feed.
pub open spec fn frame_line(tree: JsonView) -> Seq<u8> {
    rendered(tree).push(10)
}

/// The bytes of the frame that carries `json`. They can always be made.
///
/// A frame is one line. Whoever reads it gets the same value back, unless the value is nested
/// more deeply than JSON texts are read or uses the field name that is reserved.
pub fn encode_frame(json: &Json) -> (res: Result<Vec<u8>, String>)
    ensures
        res is Ok,
        res matches Ok(line) ==> {
            &&& line@ == frame_line(json@)
            &&& valid_utf8(rendered(json@))
            &&& no_controls(rendered(json@))
            &&& line_len(line@) == Some(line@.len())
            &&& readable_within(json@, MAX_NESTING as nat) ==> parsed(decode_utf8(rendered(json@)))
                == Ok::<JsonView, Seq<char>>(json@)
        },
{
    match render_json(json) {
        Ok(bytes) => {
            let mut line = bytes;
            line.push(10);
            proof {
                lemma_no_newline(bytes@);
                lemma_line_len_behind(bytes@, seq![10u8]);
                assert(line@ =~= bytes@ + seq![10u8]);
            }
            Ok(line)
        },
        Err(fault) => Err(fault),
    }
}

/// The first line of a stream ends at its first line feed, if it has one.
pub proof fn lemma_lines_end_at_the_line_feed(bytes: Seq<u8>)
    ensures
        match line_len(bytes) {
            Some(len) => {
                &&& 0 < len <= bytes.len()
                &&& bytes[len - 1] == 10
                &&& forall|i: int| 0 <= i < len - 1 ==> #[trigger] bytes[i] != 10
                &&& line_part(bytes) == len
            },
            None => {
                &&& forall|i: int| 0 <= i < bytes.len() ==> #[trigger] bytes[i] != 10
                &&& line_part(bytes) == bytes.len()
            },
        },
    decreases bytes.len(),
{
    if bytes.len() > 0 && bytes[0] != 10 {
        let rest = bytes.skip(1);
        lemma_lines_end_at_the_line_feed(rest);
        match line_len(rest) {
            Some(len) => {
                assert forall|i: int| 0 <= i < len implies #[trigger] bytes[i] != 10 by {
                    if i > 0 {
                        assert(rest[i - 1] == bytes[i]);
                    }
                }
            },
            None => {
                assert forall|i: int| 0 <= i < bytes.len() implies #[trigger] bytes[i] != 10 by {
                    if i > 0 {
                        assert(rest[i - 1] == bytes[i]);
                    }
                }
            },
        }
    }
}

/// A line is the text of its bytes without its end, be that a line feed, one behind a carriage
/// return, or the end of the stream; bytes that are no text are refused.
pub proof fn lemma_line_ends_do_not_count(content: Seq<u8>)
    requires
        content.len() > 0 ==> content.last() != 10 && content.last() != 13,
    ensures
        valid_utf8(content) ==> {
            let line = Ok::<FrameView, Seq<char>>(FrameView::Line(decode_utf8(content)));
            &&& line_frame(content) == line
            &&& line_frame(content.push(10)) == line
            &&& line_frame(content.push(13).push(10)) == line
        },
        !valid_utf8(content) ==> {
            &&& line_frame(content) is Err
            &&& line_frame(content.push(10)) is Err
            &&& line_frame(content.push(13).push(10)) is Err
        },
{
    assert(line_content(content) =~= content);
    assert(content.push(10).drop_last() =~= content);
    assert(line_content(content.push(10)) =~= content);
    assert(content.push(13).push(10).drop_last() =~= content.push(13));
    assert(content.push(13).drop_last() =~= content);
    assert(line_content(content.push(13).push(10)) =~= content);
}

/// When bytes come in, a line that would grow longer than allowed is refused with the bytes that
/// were seen of it, and nothing of them is taken; a line that ends is handed out whole; and an
/// unfinished line is kept. When the stream ends, so does the unfinished line; without one the
/// reader says that the stream has ended.
pub proof fn lemma_what_a_reader_does(buffer: Seq<u8>, available: Seq<u8>, max_bytes: nat)
    ensures
        ({
            let step = read_step(buffer, available, max_bytes);
            let part = line_part(available);
            let ends = exists|i: int| 0 <= i < available.len() && #[trigger] available[i] == 10;
            &&& available.len() == 0 && buffer.len() == 0 ==> step.found == Some(
                Ok::<FrameView, Seq<char>>(FrameView::Eof),
            )
            &&& available.len() == 0 && buffer.len() > 0 ==> step.found == Some(line_frame(buffer))
                && step.buffer.len() == 0
            &&& available.len() == 0 ==> step.taken == 0
            &&& available.len() > 0 && buffer.len() + part > max_bytes ==> {
                &&& step.found == Some(
                    Ok::<FrameView, Seq<char>>(FrameView::Oversized(buffer.len() + part)),
                )
                &&& step.taken == 0
                &&& step.buffer == buffer
            }
            &&& available.len() > 0 && buffer.len() + part <= max_bytes ==> {
                &&& step.taken == part
                &&& ends ==> step.found == Some(line_frame(buffer + available.take(part as int)))
                    && step.buffer.len() == 0
                &&& !ends ==> step.found is None && step.buffer == buffer + available
            }
        }),
{
    lemma_lines_end_at_the_line_feed(available);
    match line_len(available) {
        Some(len) => {
            assert(available[len - 1] == 10);
        },
        None => {
            assert(available.take(available.len() as int) =~= available);
        },
    }
}

} // verus!
