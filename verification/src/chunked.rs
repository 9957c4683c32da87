//! The chunked transfer coding, written down as an encoder, and the law
//! that the machine reads back what the encoder wrote.

use vstd::prelude::*;
use crate::laws::{lemma_first_byte, lemma_message_done, lemma_span_marks_first};
use crate::lexer::{hex_value, CR, LF};
use crate::machine::{DataKind, Flags, Machine, Notice, State};
use crate::run::{span_marks, Mark};

verus! {

/// The digit of a value below sixteen, in lower case.
pub open spec fn hex_digit(d: nat) -> u8 {
    if d < 10 {
        (0x30 + d) as u8
    } else {
        (0x61 + d - 10) as u8
    }
}

/// The hexadecimal numeral of `n`, without leading zeros.
pub open spec fn hex(n: nat) -> Seq<u8>
    decreases n,
{
    if n < 16 {
        seq![hex_digit(n)]
    } else {
        hex(n / 16).push(hex_digit(n % 16))
    }
}

/// One chunk: the size, a line end, the data, a line end.
pub open spec fn chunk(data: Seq<u8>) -> Seq<u8> {
    hex(data.len()) + seq![CR, LF] + data + seq![CR, LF]
}

/// The last chunk, of size zero, and the empty line that ends a body
/// without trailers.
pub open spec fn last_chunk() -> Seq<u8> {
    seq![0x30u8, CR, LF, CR, LF]
}

/// A body as a sequence of chunks, closed by the last chunk.
pub open spec fn chunked(chunks: Seq<Seq<u8>>) -> Seq<u8>
    decreases chunks.len(),
{
    if chunks.len() == 0 {
        last_chunk()
    } else {
        chunk(chunks[0]) + chunked(chunks.drop_first())
    }
}

/// The events of one chunk: its header, its data, its completion.
pub open spec fn chunk_marks(data: Seq<u8>) -> Seq<Mark> {
    seq![Mark::Notice(Notice::ChunkHeader)] + span_marks(DataKind::Body, data)
        + seq![Mark::Notice(Notice::ChunkComplete)]
}

/// The events of a chunked body: those of each chunk, then the header and
/// the completion of the last chunk, then the completion of the message.
pub open spec fn chunked_marks(chunks: Seq<Seq<u8>>) -> Seq<Mark>
    decreases chunks.len(),
{
    if chunks.len() == 0 {
        seq![
            Mark::Notice(Notice::ChunkHeader),
            Mark::Notice(Notice::ChunkComplete),
            Mark::Notice(Notice::MessageComplete),
        ]
    } else {
        chunk_marks(chunks[0]) + chunked_marks(chunks.drop_first())
    }
}

/// The length of a chunked body.
pub open spec fn chunked_len(chunks: Seq<Seq<u8>>) -> nat {
    chunked(chunks).len()
}

/// The machine in the size of a chunk, having read the numeral of `n`.
pub open spec fn sized(m: Machine, n: nat) -> Machine {
    Machine { state: State::ChunkSize, content_length: n as u64, ..m }
}

/// The machine after a chunked body: paused in a tunnel, ready for the
/// next message, or closed.
#[verifier::opaque]
pub open spec fn after_chunked_body(m: Machine) -> Machine {
    (Machine {
        state: State::AfterMessage,
        content_length: 0,
        span_len: 0,
        flags: Flags { trailers: true, ..m.flags },
        ..m
    }).conclude()
}

/// A hexadecimal digit has the value that it was written for.
proof fn lemma_hex_digit(d: nat)
    requires
        d < 16,
    ensures
        hex_value(hex_digit(d)) == Some(d as u8),
        hex_digit(d) != CR,
        hex_digit(d) != LF,
{
}

/// The first digit of a chunk size.
proof fn lemma_size_first_digit(m: Machine, d: nat, rest: Seq<u8>)
    requires
        m.ready(),
        m.state == State::ChunkSizeStart,
        d < 16,
        d <= m.options.max_chunk_size,
    ensures
        m.feed(seq![hex_digit(d)] + rest) == sized(m, d).feed(rest),
        m.trace(seq![hex_digit(d)] + rest) == sized(m, d).trace(rest),
        m.consumed(seq![hex_digit(d)] + rest) == 1 + sized(m, d).consumed(rest),
{
    let b = hex_digit(d);
    lemma_hex_digit(d);
    m.lemma_transition_chunk_size(b);
    lemma_first_byte(m, b, rest);
    assert(m.step(b).next == sized(m, d));
    assert(m.trace(seq![b] + rest) =~= sized(m, d).trace(rest));
}

/// A further digit of a chunk size.
proof fn lemma_size_next_digit(m: Machine, n: nat, rest: Seq<u8>)
    requires
        m.ready(),
        m.state == State::ChunkSize,
        m.content_length == n / 16,
        n <= m.options.max_chunk_size,
    ensures
        m.feed(seq![hex_digit(n % 16)] + rest) == sized(m, n).feed(rest),
        m.trace(seq![hex_digit(n % 16)] + rest) == sized(m, n).trace(rest),
        m.consumed(seq![hex_digit(n % 16)] + rest) == 1 + sized(m, n).consumed(rest),
{
    let d = n % 16;
    let b = hex_digit(d);
    lemma_hex_digit(d);
    m.lemma_transition_chunk_size(b);
    lemma_first_byte(m, b, rest);
    assert(m.content_length * 16 + d == n);
    assert(m.step(b).next == sized(m, n));
    assert(m.trace(seq![b] + rest) =~= sized(m, n).trace(rest));
}

/// The numeral of a chunk size is read as the number that it stands for.
proof fn lemma_size(m: Machine, n: nat, rest: Seq<u8>)
    requires
        m.ready(),
        m.state == State::ChunkSizeStart,
        n <= m.options.max_chunk_size,
    ensures
        m.feed(hex(n) + rest) == sized(m, n).feed(rest),
        m.trace(hex(n) + rest) == sized(m, n).trace(rest),
        m.consumed(hex(n) + rest) == hex(n).len() + sized(m, n).consumed(rest),
    decreases n,
{
    if n < 16 {
        lemma_size_first_digit(m, n, rest);
    } else {
        let last = seq![hex_digit(n % 16)];
        assert(hex(n) + rest =~= hex(n / 16) + (last + rest));
        lemma_size(m, n / 16, last + rest);
        lemma_size_next_digit(sized(m, n / 16), n, rest);
        assert(sized(sized(m, n / 16), n) == sized(m, n));
    }
}

/// The line end after the size of a chunk that is not the last.
proof fn lemma_size_line_end(m: Machine, rest: Seq<u8>)
    requires
        m.ready(),
        m.state == State::ChunkSize,
        m.content_length > 0,
    ensures
        m.feed(seq![CR, LF] + rest) == m.goto(State::ChunkData).feed(rest),
        m.trace(seq![CR, LF] + rest) == seq![Mark::Notice(Notice::ChunkHeader)] + m.goto(
            State::ChunkData,
        ).trace(rest),
        m.consumed(seq![CR, LF] + rest) == 2 + m.goto(State::ChunkData).consumed(rest),
{
    assert(seq![CR, LF] + rest =~= seq![CR] + (seq![LF] + rest));
    m.lemma_transition_chunk_size(CR);
    lemma_first_byte(m, CR, seq![LF] + rest);
    let at_lf = m.goto(State::ChunkSizeLf);
    assert(m.step(CR).next == at_lf);
    at_lf.lemma_transition_expect_lf(LF);
    lemma_first_byte(at_lf, LF, rest);
    let due = m.announce(State::ChunkData, Notice::ChunkHeader);
    assert(at_lf.step(LF).next == due);
    due.lemma_feed_flush(rest);
    assert(due.flushed() == m.goto(State::ChunkData));
    assert(m.trace(seq![CR, LF] + rest) =~= seq![Mark::Notice(Notice::ChunkHeader)] + m.goto(
        State::ChunkData,
    ).trace(rest));
}

/// The data of a chunk: each byte is body data, and the bytes still
/// expected go down by one with each.
proof fn lemma_chunk_data(m: Machine, data: Seq<u8>, rest: Seq<u8>)
    requires
        m.ready(),
        m.state == State::ChunkData,
        m.content_length == data.len(),
        data.len() > 0,
    ensures
        m.feed(data + rest) == (Machine {
            state: State::ChunkDataCr,
            content_length: 0,
            ..m
        }).feed(rest),
        m.trace(data + rest) == span_marks(DataKind::Body, data) + (Machine {
            state: State::ChunkDataCr,
            content_length: 0,
            ..m
        }).trace(rest),
        m.consumed(data + rest) == data.len() + (Machine {
            state: State::ChunkDataCr,
            content_length: 0,
            ..m
        }).consumed(rest),
    decreases data.len(),
{
    let b = data[0];
    let tail = data.drop_first();
    let end = Machine { state: State::ChunkDataCr, content_length: 0, ..m };
    assert(data + rest =~= seq![b] + (tail + rest));
    lemma_span_marks_first(DataKind::Body, data);
    m.lemma_transition_body_byte(b);
    lemma_first_byte(m, b, tail + rest);
    if data.len() == 1 {
        assert(tail + rest =~= rest);
        assert(m.step(b).next == end);
        assert(span_marks(DataKind::Body, tail) =~= Seq::<Mark>::empty());
        assert(m.trace(data + rest) =~= span_marks(DataKind::Body, data) + end.trace(rest));
    } else {
        let next = Machine { content_length: (m.content_length - 1) as u64, ..m };
        assert(m.step(b).next == next);
        lemma_chunk_data(next, tail, rest);
        assert(m.trace(data + rest) =~= span_marks(DataKind::Body, data) + end.trace(rest));
    }
}

/// The line end after the data of a chunk.
proof fn lemma_chunk_line_end(m: Machine, rest: Seq<u8>)
    requires
        m.ready(),
        m.state == State::ChunkDataCr,
    ensures
        m.feed(seq![CR, LF] + rest) == m.goto(State::ChunkSizeStart).feed(rest),
        m.trace(seq![CR, LF] + rest) == seq![Mark::Notice(Notice::ChunkComplete)] + m.goto(
            State::ChunkSizeStart,
        ).trace(rest),
        m.consumed(seq![CR, LF] + rest) == 2 + m.goto(State::ChunkSizeStart).consumed(rest),
{
    assert(seq![CR, LF] + rest =~= seq![CR] + (seq![LF] + rest));
    m.lemma_transition_chunk_data_end(CR);
    lemma_first_byte(m, CR, seq![LF] + rest);
    let at_lf = m.goto(State::ChunkDataLf);
    assert(m.step(CR).next == at_lf);
    at_lf.lemma_transition_expect_lf(LF);
    lemma_first_byte(at_lf, LF, rest);
    let due = m.announce(State::ChunkSizeStart, Notice::ChunkComplete);
    assert(at_lf.step(LF).next == due);
    due.lemma_feed_flush(rest);
    assert(due.flushed() == m.goto(State::ChunkSizeStart));
    assert(m.trace(seq![CR, LF] + rest) =~= seq![Mark::Notice(Notice::ChunkComplete)] + m.goto(
        State::ChunkSizeStart,
    ).trace(rest));
}

/// One chunk is read as its header, its data and its completion, and
/// leaves the machine before the next chunk's size.
pub proof fn lemma_chunk(m: Machine, data: Seq<u8>, rest: Seq<u8>)
    requires
        m.ready(),
        m.state == State::ChunkSizeStart,
        0 < data.len() <= m.options.max_chunk_size,
    ensures
        m.feed(chunk(data) + rest) == (Machine { content_length: 0, ..m }).feed(rest),
        m.trace(chunk(data) + rest) == chunk_marks(data) + (Machine {
            content_length: 0,
            ..m
        }).trace(rest),
        m.consumed(chunk(data) + rest) == chunk(data).len() + (Machine {
            content_length: 0,
            ..m
        }).consumed(rest),
{
    let n = data.len();
    let eol = seq![CR, LF];
    let next = Machine { content_length: 0, ..m };
    assert(chunk(data) + rest =~= hex(n) + (eol + (data + (eol + rest))));
    lemma_size(m, n, eol + (data + (eol + rest)));
    let m1 = sized(m, n);
    lemma_size_line_end(m1, data + (eol + rest));
    let m2 = m1.goto(State::ChunkData);
    lemma_chunk_data(m2, data, eol + rest);
    let m3 = Machine { state: State::ChunkDataCr, content_length: 0, ..m2 };
    lemma_chunk_line_end(m3, rest);
    assert(m3.goto(State::ChunkSizeStart) == next);
    assert(m.trace(chunk(data) + rest) =~= chunk_marks(data) + next.trace(rest));
}

/// The last chunk and the empty line after it complete the chunk and the
/// message.
pub proof fn lemma_last_chunk(m: Machine, rest: Seq<u8>)
    requires
        m.ready(),
        m.state == State::ChunkSizeStart,
    ensures
        m.feed(last_chunk() + rest) == after_chunked_body(m).feed(rest),
        m.trace(last_chunk() + rest) == chunked_marks(Seq::empty())
            + after_chunked_body(m).trace(rest),
        m.consumed(last_chunk() + rest) == 5 + after_chunked_body(m).consumed(rest),
{
    reveal(after_chunked_body);
    let eol = seq![CR, LF];
    assert(last_chunk() + rest =~= seq![hex_digit(0)] + (seq![CR] + (seq![LF] + (seq![CR] + (
    seq![LF] + rest)))));
    let r1 = seq![CR] + (seq![LF] + (seq![CR] + (seq![LF] + rest)));
    let r2 = seq![LF] + (seq![CR] + (seq![LF] + rest));
    let r3 = seq![CR] + (seq![LF] + rest);
    let r4 = seq![LF] + rest;
    lemma_size_first_digit(m, 0, r1);
    let m1 = sized(m, 0);
    m1.lemma_transition_chunk_size(CR);
    lemma_first_byte(m1, CR, r2);
    let m2 = m1.goto(State::ChunkSizeLf);
    assert(m1.step(CR).next == m2);
    m2.lemma_transition_expect_lf(LF);
    lemma_first_byte(m2, LF, r3);
    let m3 = m2.step(LF).next;
    m3.lemma_feed_flush(r3);
    let m4 = m3.flushed();
    assert(m4 == (Machine {
        state: State::HeaderStart,
        content_length: 0,
        span_len: 0,
        flags: Flags { trailers: true, ..m.flags },
        ..m
    }));
    m4.lemma_transition_header_start(CR);
    lemma_first_byte(m4, CR, r4);
    let m5 = m4.goto(State::HeadersLf);
    assert(m4.step(CR).next == m5);
    m5.lemma_transition_expect_lf(LF);
    lemma_first_byte(m5, LF, rest);
    let m6 = m5.step(LF).next;
    assert(m6 == m4.announce(State::MessageDone, Notice::ChunkComplete));
    m6.lemma_feed_flush(rest);
    let m7 = m6.flushed();
    lemma_message_done(m7, rest);
    assert(m7.goto(State::AfterMessage) == m4.goto(State::AfterMessage));
    assert(m.trace(last_chunk() + rest) =~= chunked_marks(Seq::empty())
        + after_chunked_body(m).trace(rest));
}

/// The round trip of the chunked coding. A machine before the first
/// chunk's size, fed a body that was encoded as chunks, none of them empty
/// and none over the limit, announces for each chunk its header, its data
/// and its completion, then the header and the completion of the last
/// chunk and the completion of the message; and it reads all of the body.
pub proof fn lemma_chunked_round_trip(m: Machine, chunks: Seq<Seq<u8>>, rest: Seq<u8>)
    requires
        m.ready(),
        m.state == State::ChunkSizeStart,
        forall|i: int|
            0 <= i < chunks.len() ==> 0 < (#[trigger] chunks[i]).len()
                <= m.options.max_chunk_size,
    ensures
        m.feed(chunked(chunks) + rest) == after_chunked_body(m).feed(rest),
        m.trace(chunked(chunks) + rest) == chunked_marks(chunks) + after_chunked_body(m).trace(
            rest,
        ),
        m.consumed(chunked(chunks) + rest) == chunked(chunks).len()
            + after_chunked_body(m).consumed(rest),
    decreases chunks.len(),
{
    if chunks.len() == 0 {
        lemma_last_chunk(m, rest);
    } else {
        let first = chunks[0];
        let others = chunks.drop_first();
        let next = Machine { content_length: 0, ..m };
        assert(chunked(chunks) + rest =~= chunk(first) + (chunked(others) + rest));
        lemma_chunk(m, first, chunked(others) + rest);
        assert forall|i: int| 0 <= i < others.len() implies 0 < (#[trigger] others[i]).len()
            <= next.options.max_chunk_size by {
            assert(others[i] == chunks[i + 1]);
        }
        lemma_chunked_round_trip(next, others, rest);
        assert(after_chunked_body(next) == after_chunked_body(m)) by {
            reveal(after_chunked_body);
        }
        assert(m.trace(chunked(chunks) + rest) =~= chunked_marks(chunks)
            + after_chunked_body(m).trace(rest));
    }
}

} // verus!
