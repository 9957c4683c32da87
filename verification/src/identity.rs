//! Bodies of a declared length: how a `Content-Length` value is read, and
//! that the body it announces is read to the byte.

use vstd::prelude::*;
use crate::body::Strategy;
use crate::laws::{lemma_first_byte, lemma_message_done, lemma_span_marks_first};
use crate::lexer::{digit_value, CR, LF};
use crate::machine::{DataKind, Flags, Header, Machine, Notice, State};
use crate::run::{span_marks, Mark};

verus! {

/// A byte of a body of known length that is not its last.
proof fn lemma_identity_byte(m: Machine, b: u8, rest: Seq<u8>)
    requires
        m.ready(),
        m.state == State::BodyIdentity,
        m.content_length > 1,
    ensures
        m.feed(seq![b] + rest) == (Machine {
            content_length: (m.content_length - 1) as u64,
            ..m
        }).feed(rest),
        m.trace(seq![b] + rest) == seq![Mark::Byte(DataKind::Body, b)] + (Machine {
            content_length: (m.content_length - 1) as u64,
            ..m
        }).trace(rest),
        m.consumed(seq![b] + rest) == 1 + (Machine {
            content_length: (m.content_length - 1) as u64,
            ..m
        }).consumed(rest),
{
    m.lemma_transition_body_byte(b);
    lemma_first_byte(m, b, rest);
}

/// The last byte of a body of known length.
proof fn lemma_identity_last_byte(m: Machine, b: u8, rest: Seq<u8>)
    requires
        m.ready(),
        m.state == State::BodyIdentity,
        m.content_length <= 1,
    ensures
        m.feed(seq![b] + rest) == after_identity_body(m).feed(rest),
        m.trace(seq![b] + rest) == seq![Mark::Byte(DataKind::Body, b)]
            + seq![Mark::Notice(Notice::MessageComplete)] + after_identity_body(m).trace(rest),
        m.consumed(seq![b] + rest) == 1 + after_identity_body(m).consumed(rest),
{
    m.lemma_transition_body_byte(b);
    lemma_first_byte(m, b, rest);
    let done = Machine { state: State::MessageDone, content_length: 0, ..m };
    assert(m.step(b).next == done);
    lemma_message_done(done, rest);
    reveal(after_identity_body);
    assert(done.goto(State::AfterMessage) == (Machine {
        state: State::AfterMessage,
        content_length: 0,
        ..m
    }));
    assert(m.trace(seq![b] + rest) =~= seq![Mark::Byte(DataKind::Body, b)]
        + seq![Mark::Notice(Notice::MessageComplete)] + after_identity_body(m).trace(rest));
}

/// A body of the length that `Content-Length` gave: each of its bytes is
/// body data, the message is complete after the last of them, and the
/// bytes still expected go down by one with each byte. What follows the
/// body belongs to the next message, if the connection allows one.
pub proof fn lemma_identity_body(m: Machine, body: Seq<u8>, rest: Seq<u8>)
    requires
        m.ready(),
        m.state == State::BodyIdentity,
        m.content_length == body.len(),
        body.len() > 0,
    ensures
        m.feed(body + rest) == after_identity_body(m).feed(rest),
        m.trace(body + rest) == span_marks(DataKind::Body, body)
            + seq![Mark::Notice(Notice::MessageComplete)] + after_identity_body(m).trace(rest),
        m.consumed(body + rest) == body.len() + after_identity_body(m).consumed(rest),
    decreases body.len(),
{
    let b = body[0];
    let tail = body.drop_first();
    let end = seq![Mark::Notice(Notice::MessageComplete)] + after_identity_body(m).trace(rest);
    assert(body + rest =~= seq![b] + (tail + rest));
    lemma_span_marks_first(DataKind::Body, body);
    if body.len() == 1 {
        assert(tail + rest =~= rest);
        lemma_identity_last_byte(m, b, rest);
        assert(span_marks(DataKind::Body, tail) =~= Seq::<Mark>::empty());
        assert(m.trace(body + rest) =~= span_marks(DataKind::Body, body) + end);
    } else {
        let next = Machine { content_length: (m.content_length - 1) as u64, ..m };
        lemma_identity_byte(m, b, tail + rest);
        lemma_identity_body(next, tail, rest);
        assert(after_identity_body(next) == after_identity_body(m)) by {
            reveal(after_identity_body);
        }
        assert(m.trace(body + rest) =~= span_marks(DataKind::Body, body) + end);
    }
    assert(span_marks(DataKind::Body, body) + end =~= span_marks(DataKind::Body, body)
        + seq![Mark::Notice(Notice::MessageComplete)] + after_identity_body(m).trace(rest));
}

/// The machine after a body of known length: paused in a tunnel, ready
/// for the next message, or closed.
#[verifier::opaque]
pub open spec fn after_identity_body(m: Machine) -> Machine {
    (Machine { state: State::AfterMessage, content_length: 0, ..m }).conclude()
}

/// Headers that declare a length and no chunked coding, in a message that
/// may have a body, give a body of exactly that length; a length of zero
/// completes the message at once.
pub proof fn lemma_content_length_selected(m: Machine)
    requires
        m.flags.content_length,
        !m.flags.chunked,
        !m.bodiless(),
    ensures
        m.strategy() == Strategy::Identity,
        m.content_length > 0 ==> m.select_body() == m.goto(State::BodyIdentity),
        m.content_length == 0 ==> m.select_body() == m.goto(State::MessageDone),
{
}

/// A message whose headers declare a length and no chunked coding, and
/// which is not without a body by its kind, has a body of exactly that
/// length. Once the headers are complete, each of the next `body.len()`
/// bytes is body data, the message is complete after the last of them,
/// and none of what follows is data of this body. A length of zero
/// completes the message at once.
pub proof fn lemma_content_length_message(m: Machine, body: Seq<u8>, rest: Seq<u8>)
    requires
        !m.halted(),
        m.pending is None,
        m.state == State::HeadersDone,
        m.flags.content_length,
        !m.flags.chunked,
        !m.bodiless(),
        m.content_length == body.len(),
    ensures
        m.feed(body + rest) == after_identity_body(m).feed(rest),
        m.trace(body + rest) == span_marks(DataKind::Body, body)
            + seq![Mark::Notice(Notice::MessageComplete)] + after_identity_body(m).trace(rest),
        m.consumed(body + rest) == body.len() + after_identity_body(m).consumed(rest),
{
    reveal(Machine::spec_relay);
    lemma_content_length_selected(m);
    m.lemma_feed_relay(body + rest);
    if body.len() == 0 {
        assert(body + rest =~= rest);
        let done = m.goto(State::MessageDone);
        lemma_message_done(done, rest);
        assert(done.goto(State::AfterMessage).conclude() == after_identity_body(m)) by {
            reveal(after_identity_body);
        }
        assert(span_marks(DataKind::Body, body) =~= Seq::<Mark>::empty());
        assert(m.trace(body + rest) =~= span_marks(DataKind::Body, body)
            + seq![Mark::Notice(Notice::MessageComplete)] + after_identity_body(m).trace(rest));
    } else {
        let reading = m.goto(State::BodyIdentity);
        lemma_identity_body(reading, body, rest);
        assert(after_identity_body(reading) == after_identity_body(m)) by {
            reveal(after_identity_body);
        }
    }
}

/// The digit of a value below ten.
pub open spec fn decimal_digit(d: nat) -> u8 {
    (0x30 + d) as u8
}

/// The decimal numeral of `n`, without leading zeros.
pub open spec fn decimal(n: nat) -> Seq<u8>
    decreases n,
{
    if n < 10 {
        seq![decimal_digit(n)]
    } else {
        decimal(n / 10).push(decimal_digit(n % 10))
    }
}

/// The machine in a `Content-Length` value, having read `k` digits that
/// spell `n`.
pub open spec fn counting(m: Machine, n: nat, k: nat) -> Machine {
    Machine { state: State::Value, acc: n as u128, span_len: k as u64, ..m }
}

/// The machine after the line of a `Content-Length` value that spells `n`.
pub open spec fn counted(m: Machine, n: nat) -> Machine {
    Machine {
        state: State::HeaderStart,
        acc: n as u128,
        span_len: 0,
        content_length: n as u64,
        flags: Flags { content_length: true, ..m.flags },
        ..m
    }
}

/// One more digit of a `Content-Length` value.
proof fn lemma_length_digit(m: Machine, n: nat, k: nat, rest: Seq<u8>)
    requires
        m.ready(),
        m.state == State::ValueStart || m.state == State::Value,
        m.header == Header::ContentLength,
        !m.gap,
        m.acc == n / 10,
        m.span_len == k,
        k < m.options.max_header_len,
        n <= u64::MAX,
    ensures
        m.feed(seq![decimal_digit(n % 10)] + rest) == counting(m, n, k + 1).feed(rest),
        m.trace(seq![decimal_digit(n % 10)] + rest) == seq![
            Mark::Byte(DataKind::HeaderValue, decimal_digit(n % 10)),
        ] + counting(m, n, k + 1).trace(rest),
        m.consumed(seq![decimal_digit(n % 10)] + rest) == 1 + counting(m, n, k + 1).consumed(
            rest,
        ),
{
    let d = n % 10;
    let b = decimal_digit(d);
    assert(digit_value(b) == Some(d as u8));
    m.lemma_transition_header_value(b);
    lemma_first_byte(m, b, rest);
    assert(m.acc * 10 + d == n);
    assert(m.step(b).next == counting(m, n, k + 1));
}

/// The numeral of a `Content-Length` value is read as the number that it
/// stands for, and each of its digits is data of the value.
proof fn lemma_length_digits(m: Machine, n: nat, rest: Seq<u8>)
    requires
        m.ready(),
        m.state == State::ValueStart,
        m.header == Header::ContentLength,
        !m.gap,
        m.acc == 0,
        m.span_len == 0,
        decimal(n).len() <= m.options.max_header_len,
        n <= u64::MAX,
    ensures
        m.feed(decimal(n) + rest) == counting(m, n, decimal(n).len()).feed(rest),
        m.trace(decimal(n) + rest) == span_marks(DataKind::HeaderValue, decimal(n)) + counting(
            m,
            n,
            decimal(n).len(),
        ).trace(rest),
        m.consumed(decimal(n) + rest) == decimal(n).len() + counting(
            m,
            n,
            decimal(n).len(),
        ).consumed(rest),
    decreases n,
{
    if n < 10 {
        lemma_length_digit(m, n, 0, rest);
        assert(span_marks(DataKind::HeaderValue, decimal(n)) =~= seq![
            Mark::Byte(DataKind::HeaderValue, decimal_digit(n % 10)),
        ]);
    } else {
        let last = seq![decimal_digit(n % 10)];
        let k = decimal(n / 10).len();
        assert(decimal(n) + rest =~= decimal(n / 10) + (last + rest));
        lemma_length_digits(m, n / 10, last + rest);
        let before = counting(m, n / 10, k);
        lemma_length_digit(before, n, k, rest);
        assert(counting(before, n, k + 1) == counting(m, n, decimal(n).len()));
        assert(span_marks(DataKind::HeaderValue, decimal(n / 10)) + seq![
            Mark::Byte(DataKind::HeaderValue, decimal_digit(n % 10)),
        ] =~= span_marks(DataKind::HeaderValue, decimal(n)));
        assert(m.trace(decimal(n) + rest) =~= span_marks(DataKind::HeaderValue, decimal(n))
            + counting(m, n, decimal(n).len()).trace(rest));
    }
}

/// The line end after a `Content-Length` value records the length.
proof fn lemma_length_line_end(m: Machine, n: nat, rest: Seq<u8>)
    requires
        m.ready(),
        m.state == State::Value,
        m.header == Header::ContentLength,
        m.acc == n,
        m.span_len > 0,
        n <= u64::MAX,
        m.flags.content_length ==> m.content_length == n,
    ensures
        m.feed(seq![CR, LF] + rest) == counted(m, n).feed(rest),
        m.trace(seq![CR, LF] + rest) == seq![Mark::Notice(Notice::HeaderValueComplete)]
            + counted(m, n).trace(rest),
        m.consumed(seq![CR, LF] + rest) == 2 + counted(m, n).consumed(rest),
{
    assert(seq![CR, LF] + rest =~= seq![CR] + (seq![LF] + rest));
    m.lemma_transition_header_value(CR);
    lemma_first_byte(m, CR, seq![LF] + rest);
    let at_lf = m.step(CR).next;
    assert(at_lf == m.finish_value().goto(State::ValueLf));
    at_lf.lemma_transition_expect_lf(LF);
    lemma_first_byte(at_lf, LF, rest);
    let due = at_lf.step(LF).next;
    due.lemma_feed_flush(rest);
    assert(due.flushed() == counted(m, n));
    assert(m.trace(seq![CR, LF] + rest) =~= seq![Mark::Notice(Notice::HeaderValueComplete)]
        + counted(m, n).trace(rest));
}

/// The value of a `Content-Length` field. A machine after the colon of
/// that field, fed the decimal numeral of a number that fits 64 bits and
/// a line end, announces the digits as the data of the value and then its
/// completion, and records the number as the length of the body; unless
/// an earlier `Content-Length` field gave another number, or the numeral
/// is longer than the limit of the options.
pub proof fn lemma_content_length_value(m: Machine, n: nat, rest: Seq<u8>)
    requires
        m.ready(),
        m.state == State::ValueStart,
        m.header == Header::ContentLength,
        !m.gap,
        m.acc == 0,
        m.span_len == 0,
        decimal(n).len() <= m.options.max_header_len,
        n <= u64::MAX,
        m.flags.content_length ==> m.content_length == n,
    ensures
        m.feed(decimal(n) + seq![CR, LF] + rest) == counted(m, n).feed(rest),
        m.trace(decimal(n) + seq![CR, LF] + rest) == span_marks(DataKind::HeaderValue, decimal(n))
            + seq![Mark::Notice(Notice::HeaderValueComplete)] + counted(m, n).trace(rest),
        m.consumed(decimal(n) + seq![CR, LF] + rest) == decimal(n).len() + 2
            + counted(m, n).consumed(rest),
        counted(m, n).flags.content_length,
        counted(m, n).content_length == n,
{
    let eol = seq![CR, LF];
    assert(decimal(n) + eol + rest =~= decimal(n) + (eol + rest));
    lemma_length_digits(m, n, eol + rest);
    let read = counting(m, n, decimal(n).len());
    lemma_length_line_end(read, n, rest);
    assert(counted(read, n) == counted(m, n));
    assert(m.trace(decimal(n) + eol + rest) =~= span_marks(DataKind::HeaderValue, decimal(n))
        + seq![Mark::Notice(Notice::HeaderValueComplete)] + counted(m, n).trace(rest));
}

} // verus!
