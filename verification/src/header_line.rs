//! Header lines: that a field name and a field value, written as the
//! grammar has them, are read as what was written, in the order name,
//! completion of the name, value, completion of the value.

use vstd::prelude::*;
use crate::consts::{lemma_token_constants, TOKEN_CHUNKED};
use crate::identity::{counted, decimal, lemma_content_length_value};
use crate::laws::{lemma_first_byte, lemma_span_marks_first};
use crate::lexer::{
    all_tokens_upto, bytes_of, is_blank, is_text, is_token_string, lemma_all_tokens, lower, pack,
    pack_upto, push7, COLON, CR, LF, SP,
};
use crate::machine::{DataKind, Flags, Header, Machine, Notice, State};
use crate::run::{span_marks, Mark};
use crate::start_line::is_text_string;

verus! {

/// The bytes of `s`, upper-case letters made lower case.
pub open spec fn lowered(s: Seq<u8>) -> Seq<u8> {
    Seq::new(s.len(), |i: int| lower(s[i]))
}

/// A field value as it stands on a header line: text that does not begin
/// with a blank. It may be empty.
pub open spec fn is_field_value(s: Seq<u8>) -> bool {
    is_text_string(s) && (s.len() > 0 ==> !is_blank(s[0]))
}

/// A header line: the name, a colon, a space, the value, a line end.
pub open spec fn header_line(name: Seq<u8>, value: Seq<u8>) -> Seq<u8> {
    name + seq![COLON, SP] + value + seq![CR, LF]
}

/// The events of a header line: the name, its completion, the value, its
/// completion.
pub open spec fn header_marks(name: Seq<u8>, value: Seq<u8>) -> Seq<Mark> {
    span_marks(DataKind::HeaderField, name) + seq![Mark::Notice(Notice::HeaderFieldComplete)]
        + span_marks(DataKind::HeaderValue, value)
        + seq![Mark::Notice(Notice::HeaderValueComplete)]
}

/// The header that the machine takes a field of this name for.
pub open spec fn named(m: Machine, name: Seq<u8>) -> Header {
    if m.flags.trailers {
        Header::Other
    } else {
        Header::classify(pack(lowered(name)))
    }
}

/// The machine after a field name and its colon, before the value.
pub open spec fn after_field_name(m: Machine, name: Seq<u8>) -> Machine {
    Machine {
        state: State::ValueStart,
        header: named(m, name),
        gap: false,
        acc: 0,
        span_len: 0,
        ..m
    }
}

/// The machine after the line of a field that it does not read itself.
pub open spec fn after_header_line(m: Machine) -> Machine {
    Machine { header: Header::Other, gap: false, acc: 0, span_len: 0, ..m }
}

/// The bytes of a field name from the `k`th on are data of the name, and
/// the colon after them completes it.
proof fn lemma_field_name_run(m: Machine, start: Machine, name: Seq<u8>, k: int, rest: Seq<u8>)
    requires
        m.ready(),
        m.state == State::HeaderField,
        all_tokens_upto(name, name.len() as int),
        1 <= k <= name.len() <= m.options.max_header_len,
        m.acc == pack_upto(lowered(name), k),
        m.span_len == k,
        m == (Machine { state: m.state, acc: m.acc, span_len: m.span_len, ..start }),
    ensures
        m.feed(name.skip(k) + seq![COLON] + rest) == after_field_name(start, name).feed(rest),
        m.trace(name.skip(k) + seq![COLON] + rest) == span_marks(
            DataKind::HeaderField,
            name.skip(k),
        ) + seq![Mark::Notice(Notice::HeaderFieldComplete)]
            + after_field_name(start, name).trace(rest),
        m.consumed(name.skip(k) + seq![COLON] + rest) == (name.len() - k) + 1
            + after_field_name(start, name).consumed(rest),
    decreases name.len() - k,
{
    let end = after_field_name(start, name);
    let tail = name.skip(k);
    if k == name.len() {
        assert(tail + seq![COLON] + rest =~= seq![COLON] + rest);
        m.lemma_transition_header_field(COLON);
        lemma_first_byte(m, COLON, rest);
        let due = m.step(COLON).next;
        due.lemma_feed_flush(rest);
        assert(due.flushed() == end);
        assert(span_marks(DataKind::HeaderField, tail) =~= Seq::<Mark>::empty());
        assert(m.trace(tail + seq![COLON] + rest) =~= span_marks(DataKind::HeaderField, tail)
            + seq![Mark::Notice(Notice::HeaderFieldComplete)] + end.trace(rest));
    } else {
        let b = name[k];
        lemma_all_tokens(name, name.len() as int, k);
        assert(tail + seq![COLON] + rest =~= seq![b] + (name.skip(k + 1) + seq![COLON] + rest));
        m.lemma_transition_header_field(b);
        lemma_first_byte(m, b, name.skip(k + 1) + seq![COLON] + rest);
        let next = Machine { acc: push7(m.acc, lower(b)), span_len: (k + 1) as u64, ..m };
        assert(m.step(b).next == next);
        lemma_field_name_run(next, start, name, k + 1, rest);
        lemma_span_marks_first(DataKind::HeaderField, tail);
        assert(tail.drop_first() =~= name.skip(k + 1));
        assert(m.trace(tail + seq![COLON] + rest) =~= span_marks(DataKind::HeaderField, tail)
            + seq![Mark::Notice(Notice::HeaderFieldComplete)] + end.trace(rest));
    }
}

/// A field name is read as what was written. A machine at the start of a
/// header line, fed a token as long as the limit of the options allows
/// and a colon, announces the bytes of the token as the data of the name
/// and its completion, and knows which header it reads.
pub proof fn lemma_field_name(m: Machine, name: Seq<u8>, rest: Seq<u8>)
    requires
        m.ready(),
        m.state == State::HeaderStart,
        is_token_string(name),
        name.len() <= m.options.max_header_len,
    ensures
        m.feed(name + seq![COLON] + rest) == after_field_name(m, name).feed(rest),
        m.trace(name + seq![COLON] + rest) == span_marks(DataKind::HeaderField, name)
            + seq![Mark::Notice(Notice::HeaderFieldComplete)]
                + after_field_name(m, name).trace(rest),
        m.consumed(name + seq![COLON] + rest) == name.len() + 1
            + after_field_name(m, name).consumed(rest),
{
    let b = name[0];
    let end = after_field_name(m, name);
    lemma_all_tokens(name, name.len() as int, 0);
    assert(name + seq![COLON] + rest =~= seq![b] + (name.skip(1) + seq![COLON] + rest));
    m.lemma_transition_header_start(b);
    lemma_first_byte(m, b, name.skip(1) + seq![COLON] + rest);
    let next = Machine { state: State::HeaderField, acc: push7(0, lower(b)), span_len: 1, ..m };
    assert(m.step(b).next == next);
    assert(pack_upto(lowered(name), 1) == push7(0, lower(b))) by {
        reveal_with_fuel(pack_upto, 2);
    }
    lemma_field_name_run(next, m, name, 1, rest);
    lemma_span_marks_first(DataKind::HeaderField, name);
    assert(name.drop_first() =~= name.skip(1));
    assert(m.trace(name + seq![COLON] + rest) =~= span_marks(DataKind::HeaderField, name)
        + seq![Mark::Notice(Notice::HeaderFieldComplete)] + end.trace(rest));
}

/// The bytes of a field value from the `k`th on, in a field that the
/// machine does not read itself, are data of the value, and the line end
/// after them completes it.
proof fn lemma_field_value_run(m: Machine, value: Seq<u8>, k: int, rest: Seq<u8>)
    requires
        m.ready(),
        is_field_value(value),
        0 <= k <= value.len() <= m.options.max_header_len,
        k == 0 ==> m.state == State::ValueStart,
        k > 0 ==> m.state == State::Value,
        m.header == Header::Other,
        m.span_len == k,
    ensures
        m.feed(value.skip(k) + seq![CR, LF] + rest) == (Machine {
            state: State::HeaderStart,
            span_len: 0,
            ..m
        }).feed(rest),
        m.trace(value.skip(k) + seq![CR, LF] + rest) == span_marks(
            DataKind::HeaderValue,
            value.skip(k),
        ) + seq![Mark::Notice(Notice::HeaderValueComplete)] + (Machine {
            state: State::HeaderStart,
            span_len: 0,
            ..m
        }).trace(rest),
        m.consumed(value.skip(k) + seq![CR, LF] + rest) == (value.len() - k) + 2 + (Machine {
            state: State::HeaderStart,
            span_len: 0,
            ..m
        }).consumed(rest),
    decreases value.len() - k,
{
    let end = Machine { state: State::HeaderStart, span_len: 0, ..m };
    let tail = value.skip(k);
    if k == value.len() {
        assert(tail + seq![CR, LF] + rest =~= seq![CR] + (seq![LF] + rest));
        m.lemma_transition_header_value(CR);
        lemma_first_byte(m, CR, seq![LF] + rest);
        let m1 = m.goto(State::ValueLf);
        assert(m.step(CR).next == m1);
        m1.lemma_transition_expect_lf(LF);
        lemma_first_byte(m1, LF, rest);
        let due = m1.step(LF).next;
        due.lemma_feed_flush(rest);
        assert(due.flushed() == end);
        assert(span_marks(DataKind::HeaderValue, tail) =~= Seq::<Mark>::empty());
        assert(m.trace(tail + seq![CR, LF] + rest) =~= span_marks(DataKind::HeaderValue, tail)
            + seq![Mark::Notice(Notice::HeaderValueComplete)] + end.trace(rest));
    } else {
        let b = value[k];
        assert(is_text(b));
        assert(tail + seq![CR, LF] + rest =~= seq![b] + (value.skip(k + 1) + seq![CR, LF] + rest));
        m.lemma_transition_header_value(b);
        lemma_first_byte(m, b, value.skip(k + 1) + seq![CR, LF] + rest);
        let next = Machine { state: State::Value, span_len: (k + 1) as u64, ..m };
        assert(m.step(b).next == next);
        lemma_field_value_run(next, value, k + 1, rest);
        lemma_span_marks_first(DataKind::HeaderValue, tail);
        assert(tail.drop_first() =~= value.skip(k + 1));
        assert(m.trace(tail + seq![CR, LF] + rest) =~= span_marks(DataKind::HeaderValue, tail)
            + seq![Mark::Notice(Notice::HeaderValueComplete)] + end.trace(rest));
    }
}

/// The space between the colon and the value is skipped.
proof fn lemma_space_before_value(m: Machine, rest: Seq<u8>)
    requires
        m.ready(),
        m.state == State::ValueStart,
    ensures
        m.feed(seq![SP] + rest) == m.feed(rest),
        m.trace(seq![SP] + rest) == m.trace(rest),
        m.consumed(seq![SP] + rest) == 1 + m.consumed(rest),
{
    m.lemma_transition_header_value(SP);
    lemma_first_byte(m, SP, rest);
    assert(m.trace(seq![SP] + rest) =~= m.trace(rest));
}

/// A header line is read as what was written, in the order that the
/// events of a field have: the bytes of the name, the completion of the
/// name, the bytes of the value, the completion of the value. This holds
/// of a field that the machine does not read itself, and of every field
/// among the trailers; name and value are as long as the limit of the
/// options allows.
pub proof fn lemma_header_line(m: Machine, name: Seq<u8>, value: Seq<u8>, rest: Seq<u8>)
    requires
        m.ready(),
        m.state == State::HeaderStart,
        is_token_string(name),
        name.len() <= m.options.max_header_len,
        named(m, name) == Header::Other,
        is_field_value(value),
        value.len() <= m.options.max_header_len,
    ensures
        m.feed(header_line(name, value) + rest) == after_header_line(m).feed(rest),
        m.trace(header_line(name, value) + rest) == header_marks(name, value)
            + after_header_line(m).trace(rest),
        m.consumed(header_line(name, value) + rest) == header_line(name, value).len()
            + after_header_line(m).consumed(rest),
{
    let eol = seq![CR, LF];
    assert(header_line(name, value) + rest =~= name + seq![COLON] + (seq![SP] + (value.skip(0)
        + eol + rest)));
    lemma_field_name(m, name, seq![SP] + (value.skip(0) + eol + rest));
    let m1 = after_field_name(m, name);
    lemma_space_before_value(m1, value.skip(0) + eol + rest);
    lemma_field_value_run(m1, value, 0, rest);
    assert((Machine { state: State::HeaderStart, span_len: 0, ..m1 }) == after_header_line(m));
    assert(value.skip(0) =~= value);
    assert(m.trace(header_line(name, value) + rest) =~= header_marks(name, value)
        + after_header_line(m).trace(rest));
}

/// The empty line after the header lines completes the headers.
pub proof fn lemma_end_of_headers(m: Machine, rest: Seq<u8>)
    requires
        m.ready(),
        m.state == State::HeaderStart,
        !m.flags.trailers,
    ensures
        m.feed(seq![CR, LF] + rest) == m.goto(State::HeadersDone).feed(rest),
        m.trace(seq![CR, LF] + rest) == seq![Mark::Notice(Notice::HeadersComplete)] + m.goto(
            State::HeadersDone,
        ).trace(rest),
        m.consumed(seq![CR, LF] + rest) == 2 + m.goto(State::HeadersDone).consumed(rest),
{
    assert(seq![CR, LF] + rest =~= seq![CR] + (seq![LF] + rest));
    m.lemma_transition_header_start(CR);
    lemma_first_byte(m, CR, seq![LF] + rest);
    let m1 = m.goto(State::HeadersLf);
    assert(m.step(CR).next == m1);
    m1.lemma_transition_expect_lf(LF);
    lemma_first_byte(m1, LF, rest);
    let due = m1.step(LF).next;
    due.lemma_feed_flush(rest);
    assert(due.flushed() == m.goto(State::HeadersDone));
    assert(m.trace(seq![CR, LF] + rest) =~= seq![Mark::Notice(Notice::HeadersComplete)] + m.goto(
        State::HeadersDone,
    ).trace(rest));
}

/// The names of the two fields that frame a body are tokens, and the
/// machine knows them.
pub proof fn lemma_framing_names()
    ensures
        is_token_string(bytes_of("Content-Length"@)),
        is_token_string(bytes_of("Transfer-Encoding"@)),
        Header::classify(pack(lowered(bytes_of("Content-Length"@)))) == Header::ContentLength,
        Header::classify(pack(lowered(bytes_of("Transfer-Encoding"@))))
            == Header::TransferEncoding,
        bytes_of("Content-Length"@).len() == 14,
        bytes_of("Transfer-Encoding"@).len() == 17,
{
    reveal_with_fuel(pack_upto, 18);
    reveal_with_fuel(all_tokens_upto, 18);
    reveal_strlit("Content-Length");
    reveal_strlit("Transfer-Encoding");
}

/// The machine after the line `Content-Length:` with the numeral of `n`.
pub open spec fn after_content_length_line(m: Machine, n: nat) -> Machine {
    Machine {
        header: Header::ContentLength,
        gap: false,
        acc: n as u128,
        span_len: 0,
        content_length: n as u64,
        flags: Flags { content_length: true, ..m.flags },
        ..m
    }
}

/// The line `Content-Length:` with the decimal numeral of a number is read
/// as a header line and declares the number as the length of the body.
pub proof fn lemma_content_length_line(m: Machine, n: nat, rest: Seq<u8>)
    requires
        m.ready(),
        m.state == State::HeaderStart,
        !m.flags.trailers,
        14 <= m.options.max_header_len,
        decimal(n).len() <= m.options.max_header_len,
        n <= u64::MAX,
        m.flags.content_length ==> m.content_length == n,
    ensures
        m.feed(header_line(bytes_of("Content-Length"@), decimal(n)) + rest)
            == after_content_length_line(m, n).feed(rest),
        m.trace(header_line(bytes_of("Content-Length"@), decimal(n)) + rest) == header_marks(
            bytes_of("Content-Length"@),
            decimal(n),
        ) + after_content_length_line(m, n).trace(rest),
        m.consumed(header_line(bytes_of("Content-Length"@), decimal(n)) + rest) == header_line(
            bytes_of("Content-Length"@),
            decimal(n),
        ).len() + after_content_length_line(m, n).consumed(rest),
{
    let name = bytes_of("Content-Length"@);
    let value = decimal(n);
    let eol = seq![CR, LF];
    lemma_framing_names();
    assert(header_line(name, value) + rest =~= name + seq![COLON] + (seq![SP] + (value + eol
        + rest)));
    lemma_field_name(m, name, seq![SP] + (value + eol + rest));
    let m1 = after_field_name(m, name);
    lemma_space_before_value(m1, value + eol + rest);
    lemma_content_length_value(m1, n, rest);
    assert(counted(m1, n) == after_content_length_line(m, n));
    assert(m.trace(header_line(name, value) + rest) =~= header_marks(name, value)
        + after_content_length_line(m, n).trace(rest));
}

/// The bytes of a transfer coding from the `k`th on are data of the
/// value, and the coding is packed byte by byte.
proof fn lemma_coding_run(m: Machine, coding: Seq<u8>, k: int, rest: Seq<u8>)
    requires
        m.ready(),
        all_tokens_upto(coding, coding.len() as int),
        0 <= k <= coding.len() <= m.options.max_header_len,
        k == 0 ==> m.state == State::ValueStart,
        k > 0 ==> m.state == State::Value,
        m.header == Header::TransferEncoding,
        m.span_len == k,
        m.acc == pack_upto(lowered(coding), k),
    ensures
        m.feed(coding.skip(k) + rest) == (Machine {
            state: if coding.len() == 0 {
                m.state
            } else {
                State::Value
            },
            span_len: coding.len() as u64,
            acc: pack(lowered(coding)),
            ..m
        }).feed(rest),
        m.trace(coding.skip(k) + rest) == span_marks(DataKind::HeaderValue, coding.skip(k)) + (
        Machine {
            state: if coding.len() == 0 {
                m.state
            } else {
                State::Value
            },
            span_len: coding.len() as u64,
            acc: pack(lowered(coding)),
            ..m
        }).trace(rest),
        m.consumed(coding.skip(k) + rest) == (coding.len() - k) + (Machine {
            state: if coding.len() == 0 {
                m.state
            } else {
                State::Value
            },
            span_len: coding.len() as u64,
            acc: pack(lowered(coding)),
            ..m
        }).consumed(rest),
    decreases coding.len() - k,
{
    let end = Machine {
        state: if coding.len() == 0 {
            m.state
        } else {
            State::Value
        },
        span_len: coding.len() as u64,
        acc: pack(lowered(coding)),
        ..m
    };
    let tail = coding.skip(k);
    if k == coding.len() {
        assert(tail + rest =~= rest);
        assert(end == m);
        assert(span_marks(DataKind::HeaderValue, tail) =~= Seq::<Mark>::empty());
        assert(m.trace(tail + rest) =~= span_marks(DataKind::HeaderValue, tail) + end.trace(rest));
    } else {
        let b = coding[k];
        lemma_all_tokens(coding, coding.len() as int, k);
        assert(tail + rest =~= seq![b] + (coding.skip(k + 1) + rest));
        m.lemma_transition_header_value(b);
        lemma_first_byte(m, b, coding.skip(k + 1) + rest);
        let next = Machine {
            state: State::Value,
            acc: push7(m.acc, lower(b)),
            span_len: (k + 1) as u64,
            ..m
        };
        assert(m.step(b).next == next);
        lemma_coding_run(next, coding, k + 1, rest);
        lemma_span_marks_first(DataKind::HeaderValue, tail);
        assert(tail.drop_first() =~= coding.skip(k + 1));
        assert(m.trace(tail + rest) =~= span_marks(DataKind::HeaderValue, tail) + end.trace(rest));
    }
}

/// The machine after the line `Transfer-Encoding: chunked`.
pub open spec fn after_chunked_line(m: Machine) -> Machine {
    Machine {
        header: Header::TransferEncoding,
        gap: false,
        acc: TOKEN_CHUNKED,
        span_len: 0,
        flags: Flags { chunked: true, transfer_encoding: true, ..m.flags },
        ..m
    }
}

/// The coding `chunked` is a token in lower case, and the machine knows
/// it.
proof fn lemma_chunked_coding()
    ensures
        bytes_of("chunked"@).len() == 7,
        all_tokens_upto(bytes_of("chunked"@), 7),
        pack(lowered(bytes_of("chunked"@))) == TOKEN_CHUNKED,
{
    lemma_token_constants();
    reveal_strlit("chunked");
    assert(lowered(bytes_of("chunked"@)) =~= bytes_of("chunked"@));
}

/// The line end after the coding `chunked` declares the body to be
/// chunked.
proof fn lemma_chunked_line_end(m: Machine, rest: Seq<u8>)
    requires
        m.ready(),
        m.state == State::Value,
        m.header == Header::TransferEncoding,
        m.acc == TOKEN_CHUNKED,
    ensures
        m.feed(seq![CR, LF] + rest) == (Machine {
            state: State::HeaderStart,
            span_len: 0,
            flags: Flags { chunked: true, transfer_encoding: true, ..m.flags },
            ..m
        }).feed(rest),
        m.trace(seq![CR, LF] + rest) == seq![Mark::Notice(Notice::HeaderValueComplete)] + (
        Machine {
            state: State::HeaderStart,
            span_len: 0,
            flags: Flags { chunked: true, transfer_encoding: true, ..m.flags },
            ..m
        }).trace(rest),
        m.consumed(seq![CR, LF] + rest) == 2 + (Machine {
            state: State::HeaderStart,
            span_len: 0,
            flags: Flags { chunked: true, transfer_encoding: true, ..m.flags },
            ..m
        }).consumed(rest),
{
    let end = Machine {
        state: State::HeaderStart,
        span_len: 0,
        flags: Flags { chunked: true, transfer_encoding: true, ..m.flags },
        ..m
    };
    assert(seq![CR, LF] + rest =~= seq![CR] + (seq![LF] + rest));
    m.lemma_transition_header_value(CR);
    lemma_first_byte(m, CR, seq![LF] + rest);
    let m1 = m.step(CR).next;
    assert(m1 == (Machine {
        state: State::ValueLf,
        flags: Flags { chunked: true, transfer_encoding: true, ..m.flags },
        ..m
    }));
    m1.lemma_transition_expect_lf(LF);
    lemma_first_byte(m1, LF, rest);
    let due = m1.step(LF).next;
    due.lemma_feed_flush(rest);
    assert(due.flushed() == end);
    assert(m.trace(seq![CR, LF] + rest) =~= seq![Mark::Notice(Notice::HeaderValueComplete)]
        + end.trace(rest));
}

/// The line `Transfer-Encoding: chunked` is read as a header line and
/// declares the body to be chunked.
pub proof fn lemma_chunked_line(m: Machine, rest: Seq<u8>)
    requires
        m.ready(),
        m.state == State::HeaderStart,
        !m.flags.trailers,
        17 <= m.options.max_header_len,
    ensures
        m.feed(header_line(bytes_of("Transfer-Encoding"@), bytes_of("chunked"@)) + rest)
            == after_chunked_line(m).feed(rest),
        m.trace(header_line(bytes_of("Transfer-Encoding"@), bytes_of("chunked"@)) + rest)
            == header_marks(bytes_of("Transfer-Encoding"@), bytes_of("chunked"@))
            + after_chunked_line(m).trace(rest),
        m.consumed(header_line(bytes_of("Transfer-Encoding"@), bytes_of("chunked"@)) + rest)
            == header_line(bytes_of("Transfer-Encoding"@), bytes_of("chunked"@)).len()
            + after_chunked_line(m).consumed(rest),
{
    let name = bytes_of("Transfer-Encoding"@);
    let value = bytes_of("chunked"@);
    let eol = seq![CR, LF];
    lemma_framing_names();
    lemma_chunked_coding();
    assert(header_line(name, value) + rest =~= name + seq![COLON] + (seq![SP] + (value.skip(0) + (
    eol + rest))));
    lemma_field_name(m, name, seq![SP] + (value.skip(0) + (eol + rest)));
    let m1 = after_field_name(m, name);
    lemma_space_before_value(m1, value.skip(0) + (eol + rest));
    assert(pack_upto(lowered(value), 0) == 0);
    lemma_coding_run(m1, value, 0, eol + rest);
    let m2 = Machine { state: State::Value, span_len: 7, acc: TOKEN_CHUNKED, ..m1 };
    lemma_chunked_line_end(m2, rest);
    assert((Machine {
        state: State::HeaderStart,
        span_len: 0,
        flags: Flags { chunked: true, transfer_encoding: true, ..m2.flags },
        ..m2
    }) == after_chunked_line(m));
    assert(value.skip(0) =~= value);
    assert(m.trace(header_line(name, value) + rest) =~= header_marks(name, value)
        + after_chunked_line(m).trace(rest));
}

} // verus!
