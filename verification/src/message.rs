//! Whole messages: that a message written as the grammar has it, with a
//! body framed in one of the ways that the headers can declare, is read
//! as what was written.

use vstd::prelude::*;
use crate::body::Strategy;
use crate::chunked::{after_chunked_body, chunked, chunked_marks, lemma_chunked_round_trip};
use crate::consts::{Method, Type};
use crate::header_line::{
    after_chunked_line, after_content_length_line, after_header_line, header_line, header_marks,
    is_field_value, lemma_chunked_line, lemma_content_length_line, lemma_end_of_headers,
    lemma_header_line, lowered,
};
use crate::identity::{after_identity_body, decimal, lemma_content_length_message};
use crate::laws::lemma_message_done;
use crate::lexer::{bytes_of, is_token_string, pack, CR, LF};
use crate::machine::{DataKind, Header, Machine, Notice, State};
use crate::run::{span_marks, Mark};
use crate::start_line::{
    after_request_line, after_status_line, is_target, is_text_string, lemma_request_line,
    lemma_status_line, request_line, status_line,
};

verus! {

/// A header field as a pair of a name and a value.
pub type Field = (Seq<u8>, Seq<u8>);

/// A field that the machine announces and does not read itself, with a
/// name and a value that are as long as the limit of the options allows.
pub open spec fn is_plain_field(m: Machine, field: Field) -> bool {
    &&& is_token_string(field.0)
    &&& field.0.len() <= m.options.max_header_len
    &&& Header::classify(pack(lowered(field.0))) == Header::Other
    &&& is_field_value(field.1)
    &&& field.1.len() <= m.options.max_header_len
}

/// Every one of `fields` is a plain field.
pub open spec fn are_plain_fields(m: Machine, fields: Seq<Field>) -> bool {
    forall|i: int| 0 <= i < fields.len() ==> is_plain_field(m, #[trigger] fields[i])
}

/// The header lines of `fields`, one after another.
pub open spec fn header_lines(fields: Seq<Field>) -> Seq<u8>
    decreases fields.len(),
{
    if fields.len() == 0 {
        seq![]
    } else {
        header_line(fields[0].0, fields[0].1) + header_lines(fields.drop_first())
    }
}

/// The events of the header lines of `fields`.
pub open spec fn fields_marks(fields: Seq<Field>) -> Seq<Mark>
    decreases fields.len(),
{
    if fields.len() == 0 {
        seq![]
    } else {
        header_marks(fields[0].0, fields[0].1) + fields_marks(fields.drop_first())
    }
}

/// The machine after the header lines of plain fields.
pub open spec fn after_fields(m: Machine, fields: Seq<Field>) -> Machine {
    if fields.len() == 0 {
        m
    } else {
        after_header_line(m)
    }
}

/// Header lines of plain fields are read one after another, each as what
/// was written, and declare nothing.
pub proof fn lemma_header_lines(m: Machine, fields: Seq<Field>, rest: Seq<u8>)
    requires
        m.ready(),
        m.state == State::HeaderStart,
        !m.flags.trailers,
        are_plain_fields(m, fields),
    ensures
        m.feed(header_lines(fields) + rest) == after_fields(m, fields).feed(rest),
        m.trace(header_lines(fields) + rest) == fields_marks(fields)
            + after_fields(m, fields).trace(rest),
        m.consumed(header_lines(fields) + rest) == header_lines(fields).len()
            + after_fields(m, fields).consumed(rest),
    decreases fields.len(),
{
    if fields.len() == 0 {
        assert(header_lines(fields) + rest =~= rest);
        assert(m.trace(rest) =~= fields_marks(fields) + m.trace(rest));
    } else {
        let first = fields[0];
        let others = fields.drop_first();
        let line = header_line(first.0, first.1);
        assert(is_plain_field(m, first));
        assert(header_lines(fields) + rest =~= line + (header_lines(others) + rest));
        lemma_header_line(m, first.0, first.1, header_lines(others) + rest);
        let next = after_header_line(m);
        assert forall|i: int| 0 <= i < others.len() implies is_plain_field(
            next,
            #[trigger] others[i],
        ) by {
            assert(others[i] == fields[i + 1]);
            assert(is_plain_field(m, fields[i + 1]));
        }
        lemma_header_lines(next, others, rest);
        assert(after_fields(next, others) == after_header_line(m));
        assert(m.trace(header_lines(fields) + rest) =~= fields_marks(fields)
            + after_fields(m, fields).trace(rest));
    }
}

/// A message without a body is complete when its headers are.
proof fn lemma_no_body(m: Machine, rest: Seq<u8>)
    requires
        !m.halted(),
        m.pending is None,
        m.state == State::HeadersDone,
        m.strategy() == Strategy::NoBody,
    ensures
        m.feed(rest) == m.goto(State::AfterMessage).conclude().feed(rest),
        m.trace(rest) == seq![Mark::Notice(Notice::MessageComplete)]
            + m.goto(State::AfterMessage).conclude().trace(rest),
        m.consumed(rest) == m.goto(State::AfterMessage).conclude().consumed(rest),
{
    reveal(Machine::spec_relay);
    m.lemma_feed_relay(rest);
    let done = m.goto(State::MessageDone);
    lemma_message_done(done, rest);
    assert(done.goto(State::AfterMessage) == m.goto(State::AfterMessage));
}

/// A message whose headers declare chunks goes on with the size of the
/// first chunk.
proof fn lemma_chunked_selected(m: Machine, rest: Seq<u8>)
    requires
        !m.halted(),
        m.pending is None,
        m.state == State::HeadersDone,
        m.strategy() == Strategy::Chunked,
    ensures
        m.feed(rest) == (Machine {
            state: State::ChunkSizeStart,
            content_length: 0,
            ..m
        }).feed(rest),
        m.trace(rest)
            == (Machine { state: State::ChunkSizeStart, content_length: 0, ..m }).trace(rest),
        m.consumed(rest) == (Machine {
            state: State::ChunkSizeStart,
            content_length: 0,
            ..m
        }).consumed(rest),
{
    reveal(Machine::spec_relay);
    m.lemma_feed_relay(rest);
}

/// A request without a body: the request line, header lines, the empty
/// line.
pub open spec fn request_without_body(
    method: Method,
    target: Seq<u8>,
    major: u8,
    minor: u8,
    fields: Seq<Field>,
) -> Seq<u8> {
    request_line(method, target, major, minor) + header_lines(fields) + seq![CR, LF]
}

/// The machine when the headers of a request without a declared length
/// are complete.
pub open spec fn at_request_headers(
    m: Machine,
    method: Method,
    major: u8,
    minor: u8,
    fields: Seq<Field>,
) -> Machine {
    after_fields(after_request_line(m, method, major, minor), fields).goto(State::HeadersDone)
}

/// The machine after a request without a body: ready for the next
/// message, or closed.
pub open spec fn after_request_without_body(
    m: Machine,
    method: Method,
    major: u8,
    minor: u8,
    fields: Seq<Field>,
) -> Machine {
    at_request_headers(m, method, major, minor, fields).goto(State::AfterMessage).conclude()
}

/// A request without a body is read as what was written. A machine
/// between messages that accepts requests, fed the request line of any
/// method but `CONNECT`, header lines of plain fields and the empty line,
/// announces the message, the target and its completion, each field in
/// the order of its events, the completion of the headers and the
/// completion of the message, and no body data.
pub proof fn lemma_request_without_body(
    m: Machine,
    method: Method,
    target: Seq<u8>,
    major: u8,
    minor: u8,
    fields: Seq<Field>,
    rest: Seq<u8>,
)
    requires
        m.ready(),
        m.state == State::Start,
        m.mode != Type::HTTP_RESPONSE,
        !m.flags.skip_body,
        method != Method::HTTP_CONNECT,
        is_target(target),
        major < 10,
        minor < 10,
        are_plain_fields(m, fields),
    ensures
        m.feed(request_without_body(method, target, major, minor, fields) + rest)
            == after_request_without_body(m, method, major, minor, fields).feed(rest),
        m.trace(request_without_body(method, target, major, minor, fields) + rest) == seq![
            Mark::Notice(Notice::MessageBegin),
        ] + span_marks(DataKind::Url, target) + seq![Mark::Notice(Notice::UrlComplete)]
            + fields_marks(fields) + seq![
            Mark::Notice(Notice::HeadersComplete),
            Mark::Notice(Notice::MessageComplete),
        ] + after_request_without_body(m, method, major, minor, fields).trace(rest),
        m.consumed(request_without_body(method, target, major, minor, fields) + rest)
            == request_without_body(method, target, major, minor, fields).len()
            + after_request_without_body(m, method, major, minor, fields).consumed(rest),
{
    let line = request_line(method, target, major, minor);
    let lines = header_lines(fields);
    let eol = seq![CR, LF];
    assert(request_without_body(method, target, major, minor, fields) + rest =~= line + (lines + (
    eol + rest)));
    lemma_request_line(m, method, target, major, minor, lines + (eol + rest));
    let m1 = after_request_line(m, method, major, minor);
    assert(are_plain_fields(m1, fields)) by {
        assert forall|i: int| 0 <= i < fields.len() implies is_plain_field(
            m1,
            #[trigger] fields[i],
        ) by {
            assert(is_plain_field(m, fields[i]));
        }
    }
    lemma_header_lines(m1, fields, eol + rest);
    let m2 = after_fields(m1, fields);
    lemma_end_of_headers(m2, rest);
    let m3 = at_request_headers(m, method, major, minor, fields);
    lemma_no_body(m3, rest);
    let end = after_request_without_body(m, method, major, minor, fields);
    let head = seq![Mark::Notice(Notice::MessageBegin)] + span_marks(DataKind::Url, target)
        + seq![Mark::Notice(Notice::UrlComplete)];
    assert(m.trace(line + (lines + (eol + rest))) =~= head + m1.trace(lines + (eol + rest)));
    assert(m1.trace(lines + (eol + rest)) =~= fields_marks(fields) + (seq![
        Mark::Notice(Notice::HeadersComplete),
    ] + (seq![Mark::Notice(Notice::MessageComplete)] + end.trace(rest))));
    assert(m.trace(request_without_body(method, target, major, minor, fields) + rest) =~= head
        + fields_marks(fields) + seq![
        Mark::Notice(Notice::HeadersComplete),
        Mark::Notice(Notice::MessageComplete),
    ] + end.trace(rest));
}

/// A request with a body of declared length: the request line, header
/// lines, the line `Content-Length:` with the length of the body, the
/// empty line, the body.
pub open spec fn request_with_body(
    method: Method,
    target: Seq<u8>,
    major: u8,
    minor: u8,
    fields: Seq<Field>,
    body: Seq<u8>,
) -> Seq<u8> {
    request_line(method, target, major, minor) + header_lines(fields) + header_line(
        bytes_of("Content-Length"@),
        decimal(body.len()),
    ) + seq![CR, LF] + body
}

/// The machine when the headers of a request that declare the length `n`
/// are complete.
pub open spec fn at_sized_request_headers(
    m: Machine,
    method: Method,
    major: u8,
    minor: u8,
    fields: Seq<Field>,
    n: nat,
) -> Machine {
    after_content_length_line(
        after_fields(after_request_line(m, method, major, minor), fields),
        n,
    ).goto(State::HeadersDone)
}

/// A request with a body of declared length is read as what was written.
/// A machine between messages that accepts requests, fed the request line
/// of any method but `CONNECT`, header lines of plain fields, the line
/// `Content-Length:` with the length of the body, the empty line and the
/// body, announces the message, the target, each field, the completion of
/// the headers, then exactly the bytes of the body as body data, and the
/// completion of the message after the last of them.
pub proof fn lemma_request_with_body(
    m: Machine,
    method: Method,
    target: Seq<u8>,
    major: u8,
    minor: u8,
    fields: Seq<Field>,
    body: Seq<u8>,
    rest: Seq<u8>,
)
    requires
        m.ready(),
        m.state == State::Start,
        m.mode != Type::HTTP_RESPONSE,
        !m.flags.skip_body,
        method != Method::HTTP_CONNECT,
        is_target(target),
        major < 10,
        minor < 10,
        are_plain_fields(m, fields),
        body.len() <= u64::MAX,
        14 <= m.options.max_header_len,
        decimal(body.len()).len() <= m.options.max_header_len,
    ensures
        m.feed(request_with_body(method, target, major, minor, fields, body) + rest)
            == after_identity_body(
            at_sized_request_headers(m, method, major, minor, fields, body.len()),
        ).feed(rest),
        m.trace(request_with_body(method, target, major, minor, fields, body) + rest) == seq![
            Mark::Notice(Notice::MessageBegin),
        ] + span_marks(DataKind::Url, target) + seq![Mark::Notice(Notice::UrlComplete)]
            + fields_marks(fields) + header_marks(
            bytes_of("Content-Length"@),
            decimal(body.len()),
        ) + seq![Mark::Notice(Notice::HeadersComplete)] + span_marks(DataKind::Body, body)
            + seq![Mark::Notice(Notice::MessageComplete)] + after_identity_body(
            at_sized_request_headers(m, method, major, minor, fields, body.len()),
        ).trace(rest),
        m.consumed(request_with_body(method, target, major, minor, fields, body) + rest)
            == request_with_body(method, target, major, minor, fields, body).len()
            + after_identity_body(
            at_sized_request_headers(m, method, major, minor, fields, body.len()),
        ).consumed(rest),
{
    let n = body.len();
    let line = request_line(method, target, major, minor);
    let lines = header_lines(fields);
    let length = header_line(bytes_of("Content-Length"@), decimal(n));
    let eol = seq![CR, LF];
    assert(request_with_body(method, target, major, minor, fields, body) + rest =~= line + (lines
        + (length + (eol + (body + rest)))));
    lemma_request_line(m, method, target, major, minor, lines + (length + (eol + (body + rest))));
    let m1 = after_request_line(m, method, major, minor);
    assert(are_plain_fields(m1, fields)) by {
        assert forall|i: int| 0 <= i < fields.len() implies is_plain_field(
            m1,
            #[trigger] fields[i],
        ) by {
            assert(is_plain_field(m, fields[i]));
        }
    }
    lemma_header_lines(m1, fields, length + (eol + (body + rest)));
    let m2 = after_fields(m1, fields);
    lemma_content_length_line(m2, n, eol + (body + rest));
    let m3 = after_content_length_line(m2, n);
    lemma_end_of_headers(m3, body + rest);
    let m4 = at_sized_request_headers(m, method, major, minor, fields, n);
    lemma_content_length_message(m4, body, rest);
    let end = after_identity_body(m4);
    let head = seq![Mark::Notice(Notice::MessageBegin)] + span_marks(DataKind::Url, target)
        + seq![Mark::Notice(Notice::UrlComplete)];
    let tail = span_marks(DataKind::Body, body) + seq![Mark::Notice(Notice::MessageComplete)]
        + end.trace(rest);
    assert(m3.trace(eol + (body + rest)) =~= seq![Mark::Notice(Notice::HeadersComplete)] + tail);
    assert(m1.trace(lines + (length + (eol + (body + rest)))) =~= fields_marks(fields) + (
    header_marks(bytes_of("Content-Length"@), decimal(n)) + (seq![
        Mark::Notice(Notice::HeadersComplete),
    ] + tail)));
    assert(m.trace(request_with_body(method, target, major, minor, fields, body) + rest) =~= head
        + fields_marks(fields) + header_marks(bytes_of("Content-Length"@), decimal(n))
        + seq![Mark::Notice(Notice::HeadersComplete)] + span_marks(DataKind::Body, body)
        + seq![Mark::Notice(Notice::MessageComplete)] + end.trace(rest));
}

/// A response with a chunked body: the status line, header lines, the
/// line `Transfer-Encoding: chunked`, the empty line, the chunks.
pub open spec fn chunked_response(
    major: u8,
    minor: u8,
    code: u16,
    reason: Seq<u8>,
    fields: Seq<Field>,
    chunks: Seq<Seq<u8>>,
) -> Seq<u8> {
    status_line(major, minor, code, reason) + header_lines(fields) + header_line(
        bytes_of("Transfer-Encoding"@),
        bytes_of("chunked"@),
    ) + seq![CR, LF] + chunked(chunks)
}

/// The machine before the first chunk of a chunked response.
pub open spec fn at_response_chunks(
    m: Machine,
    major: u8,
    minor: u8,
    code: u16,
    fields: Seq<Field>,
) -> Machine {
    Machine {
        state: State::ChunkSizeStart,
        content_length: 0,
        ..after_chunked_line(after_fields(after_status_line(m, major, minor, code), fields))
    }
}

/// From the line `Transfer-Encoding: chunked` on: the line, the empty line
/// and the chunks, in a message that may have a body and has declared no
/// length.
proof fn lemma_chunked_from_coding(m: Machine, chunks: Seq<Seq<u8>>, rest: Seq<u8>)
    requires
        m.ready(),
        m.state == State::HeaderStart,
        !m.flags.trailers,
        !m.flags.content_length,
        !m.bodiless(),
        17 <= m.options.max_header_len,
        forall|i: int|
            0 <= i < chunks.len() ==> 0 < (#[trigger] chunks[i]).len()
                <= m.options.max_chunk_size,
    ensures
        m.feed(
            header_line(bytes_of("Transfer-Encoding"@), bytes_of("chunked"@)) + (seq![CR, LF] + (
            chunked(chunks) + rest)),
        ) == after_chunked_body(
            Machine { state: State::ChunkSizeStart, content_length: 0, ..after_chunked_line(m) },
        ).feed(rest),
        m.trace(
            header_line(bytes_of("Transfer-Encoding"@), bytes_of("chunked"@)) + (seq![CR, LF] + (
            chunked(chunks) + rest)),
        ) == header_marks(bytes_of("Transfer-Encoding"@), bytes_of("chunked"@))
            + seq![Mark::Notice(Notice::HeadersComplete)] + chunked_marks(chunks)
            + after_chunked_body(
            Machine { state: State::ChunkSizeStart, content_length: 0, ..after_chunked_line(m) },
        ).trace(rest),
        m.consumed(
            header_line(bytes_of("Transfer-Encoding"@), bytes_of("chunked"@)) + (seq![CR, LF] + (
            chunked(chunks) + rest)),
        ) == header_line(bytes_of("Transfer-Encoding"@), bytes_of("chunked"@)).len() + 2 + chunked(
            chunks,
        ).len() + after_chunked_body(
            Machine { state: State::ChunkSizeStart, content_length: 0, ..after_chunked_line(m) },
        ).consumed(rest),
{
    let eol = seq![CR, LF];
    let body = chunked(chunks);
    lemma_chunked_line(m, eol + (body + rest));
    let m1 = after_chunked_line(m);
    lemma_end_of_headers(m1, body + rest);
    let m2 = m1.goto(State::HeadersDone);
    assert(m2.bodiless() == m.bodiless());
    lemma_chunked_selected(m2, body + rest);
    let m3 = Machine { state: State::ChunkSizeStart, content_length: 0, ..m1 };
    lemma_chunked_round_trip(m3, chunks, rest);
    let end = after_chunked_body(m3);
    assert(m.trace(
        header_line(bytes_of("Transfer-Encoding"@), bytes_of("chunked"@)) + (eol + (body + rest)),
    ) =~= header_marks(bytes_of("Transfer-Encoding"@), bytes_of("chunked"@))
        + seq![Mark::Notice(Notice::HeadersComplete)] + chunked_marks(chunks) + end.trace(rest));
}

/// A response with a chunked body is read as what was written. A machine
/// between messages that accepts responses, fed the status line of a
/// status that allows a body, header lines of plain fields, the line
/// `Transfer-Encoding: chunked`, the empty line and a body encoded as
/// chunks, announces the message, the reason phrase, each field, the
/// completion of the headers, then each chunk with its header, its data
/// and its completion, the last chunk, and the completion of the message.
/// The body data announced is the data of the chunks, in order.
pub proof fn lemma_chunked_response(
    m: Machine,
    major: u8,
    minor: u8,
    code: u16,
    reason: Seq<u8>,
    fields: Seq<Field>,
    chunks: Seq<Seq<u8>>,
    rest: Seq<u8>,
)
    requires
        m.ready(),
        m.state == State::Start,
        m.mode != Type::HTTP_REQUEST,
        !m.flags.skip_body,
        major < 10,
        minor < 10,
        200 <= code <= 999,
        code != 204,
        code != 304,
        is_text_string(reason),
        are_plain_fields(m, fields),
        17 <= m.options.max_header_len,
        forall|i: int|
            0 <= i < chunks.len() ==> 0 < (#[trigger] chunks[i]).len()
                <= m.options.max_chunk_size,
    ensures
        m.feed(chunked_response(major, minor, code, reason, fields, chunks) + rest)
            == after_chunked_body(at_response_chunks(m, major, minor, code, fields)).feed(rest),
        m.trace(chunked_response(major, minor, code, reason, fields, chunks) + rest) == seq![
            Mark::Notice(Notice::MessageBegin),
        ] + span_marks(DataKind::Status, reason) + seq![Mark::Notice(Notice::StatusComplete)]
            + fields_marks(fields) + header_marks(
            bytes_of("Transfer-Encoding"@),
            bytes_of("chunked"@),
        ) + seq![Mark::Notice(Notice::HeadersComplete)] + chunked_marks(chunks)
            + after_chunked_body(at_response_chunks(m, major, minor, code, fields)).trace(rest),
        m.consumed(chunked_response(major, minor, code, reason, fields, chunks) + rest)
            == chunked_response(major, minor, code, reason, fields, chunks).len()
            + after_chunked_body(at_response_chunks(m, major, minor, code, fields)).consumed(rest),
{
    let line = status_line(major, minor, code, reason);
    let lines = header_lines(fields);
    let coding = header_line(bytes_of("Transfer-Encoding"@), bytes_of("chunked"@));
    let eol = seq![CR, LF];
    let body = chunked(chunks);
    let later = coding + (eol + (body + rest));
    assert(chunked_response(major, minor, code, reason, fields, chunks) + rest =~= line + (lines
        + later));
    lemma_status_line(m, major, minor, code, reason, lines + later);
    let m1 = after_status_line(m, major, minor, code);
    assert(are_plain_fields(m1, fields)) by {
        assert forall|i: int| 0 <= i < fields.len() implies is_plain_field(
            m1,
            #[trigger] fields[i],
        ) by {
            assert(is_plain_field(m, fields[i]));
        }
    }
    lemma_header_lines(m1, fields, later);
    let m2 = after_fields(m1, fields);
    assert(!m2.bodiless());
    lemma_chunked_from_coding(m2, chunks, rest);
    let m5 = at_response_chunks(m, major, minor, code, fields);
    let end = after_chunked_body(m5);
    let head = seq![Mark::Notice(Notice::MessageBegin)] + span_marks(DataKind::Status, reason)
        + seq![Mark::Notice(Notice::StatusComplete)];
    let tail = header_marks(bytes_of("Transfer-Encoding"@), bytes_of("chunked"@))
        + seq![Mark::Notice(Notice::HeadersComplete)] + chunked_marks(chunks) + end.trace(rest);
    assert(m.trace(line + (lines + later)) =~= head + (fields_marks(fields) + tail));
    assert(head + (fields_marks(fields) + tail) =~= head + fields_marks(fields) + header_marks(
        bytes_of("Transfer-Encoding"@),
        bytes_of("chunked"@),
    ) + seq![Mark::Notice(Notice::HeadersComplete)] + chunked_marks(chunks) + end.trace(rest));
}

} // verus!
