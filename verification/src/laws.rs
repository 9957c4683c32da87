//! What holds of every machine and every input: the laws that the
//! transitions obey together.

use vstd::prelude::*;
use crate::body::Strategy;
use crate::consts::Error;
use crate::lexer::{hex_value, is_blank, is_text, is_token, COLON, LF};
use crate::machine::{DataKind, Machine, Notice, State};
use crate::events::Answer;
use crate::run::{byte_marks, span_marks, Mark, Signal};

verus! {

/// Feeding is blind to where the input is cut: the machine after `a`
/// followed by `b` is the machine after `a`, fed `b`.
pub proof fn lemma_feed_concat(m: Machine, a: Seq<u8>, b: Seq<u8>)
    ensures
        m.feed(a + b) == m.feed(a).feed(b),
    decreases a.len(),
{
    m.lemma_settle_settled();
    if a.len() == 0 {
        assert(a + b =~= b);
    } else {
        assert((a + b).drop_first() =~= a.drop_first() + b);
        lemma_feed_concat(m.settle().step(a[0]).next, a.drop_first(), b);
    }
}

/// The events are blind to where the input is cut: those of `a` followed
/// by `b` are those of `a`, then those that `b` gives the machine that `a`
/// left.
pub proof fn lemma_trace_concat(m: Machine, a: Seq<u8>, b: Seq<u8>)
    ensures
        m.trace(a + b) == m.trace(a) + m.feed(a).trace(b),
    decreases a.len(),
{
    m.lemma_settle_settled();
    if a.len() == 0 {
        assert(a + b =~= b);
        if b.len() == 0 {
            assert(m.trace(b) =~= m.trace(a) + m.settle().trace(b));
        } else {
            let mv = m.settle().step(b[0]);
            assert(m.trace(b) =~= m.trace(a) + m.settle().trace(b));
        }
    } else {
        let mv = m.settle().step(a[0]);
        assert((a + b).drop_first() =~= a.drop_first() + b);
        lemma_trace_concat(mv.next, a.drop_first(), b);
        assert(m.trace(a + b) =~= m.trace(a) + m.feed(a).trace(b));
    }
}

/// A machine only moves forward through a message. No byte takes it back
/// to an earlier part, and neither do the moves that it makes by itself,
/// but for the one that follows a complete message: there a machine whose
/// connection persists is between messages again. An error leaves the
/// machine in the part where it was found.
pub proof fn lemma_moves_forward(m: Machine, b: u8)
    ensures
        m.step(b).next.phase() >= m.phase(),
        m.state.is_relay() && m.state != State::AfterMessage ==> m.relay().phase() > m.phase() || (
        m.relay().phase() == m.phase() && m.relay().halted()),
        m.state == State::AfterMessage ==> m.relay().state == State::Start || m.relay().phase()
            > m.phase(),
        forall|e: Error| (#[trigger] m.fail(e)).phase() == m.phase(),
        m.cleared().phase() == 0,
{
    reveal(Machine::spec_step);
    reveal(Machine::spec_relay);
    m.lemma_transition_moves_forward(b);
}

/// A byte of a body of known length, or of a chunk, is body data and
/// takes one off the bytes still expected, which never go below zero: the
/// last of them ends the body or the chunk.
pub proof fn lemma_body_byte_counts(m: Machine, b: u8)
    requires
        m.ready(),
        m.state == State::BodyIdentity || m.state == State::ChunkData,
    ensures
        m.step(b).data == Some(DataKind::Body),
        !m.step(b).next.halted(),
        m.content_length > 0 ==> m.step(b).next.content_length == m.content_length - 1,
        m.content_length > 1 ==> m.step(b).next.state == m.state,
        m.content_length <= 1 ==> m.step(b).next.content_length == 0 && m.step(b).next.state
            != m.state,
{
    reveal(Machine::spec_step);
    m.lemma_transition_body_byte(b);
}

/// The number of bytes read is blind to where the input is cut: a machine
/// that reads all of `a` reads of `b` what the machine that `a` left
/// reads of it, and one that stops in `a` reads nothing of `b`.
pub proof fn lemma_consumed_concat(m: Machine, a: Seq<u8>, b: Seq<u8>)
    ensures
        m.consumed(a) <= a.len(),
        m.consumed(a + b) == if m.consumed(a) == a.len() {
            a.len() + m.feed(a).consumed(b)
        } else {
            m.consumed(a)
        },
    decreases a.len(),
{
    m.lemma_settle_settled();
    if a.len() == 0 {
        assert(a + b =~= b);
    } else {
        let next = m.settle().step(a[0]).next;
        assert((a + b).drop_first() =~= a.drop_first() + b);
        assert((a + b)[0] == a[0]);
        lemma_consumed_concat(next, a.drop_first(), b);
    }
}

/// No byte changes the mode or the options.
pub proof fn lemma_step_keeps_setup(m: Machine, b: u8)
    ensures
        m.step(b).next.mode == m.mode,
        m.step(b).next.options == m.options,
{
    reveal(Machine::spec_step);
    m.lemma_transition_keeps_setup(b);
}

/// The moves that a machine makes by itself change neither the mode nor
/// the options.
pub proof fn lemma_settle_keeps_setup(m: Machine)
    ensures
        m.settle().mode == m.mode,
        m.settle().options == m.options,
    decreases m.rank(),
{
    reveal(Machine::spec_relay);
    if m.halted() {
    } else if m.pending is Some {
        lemma_settle_keeps_setup(m.flushed());
    } else if m.state.is_relay() {
        m.lemma_relay_rank();
        lemma_settle_keeps_setup(m.relay());
    }
}

/// The mode and the options are fixed: no input changes them.
pub proof fn lemma_feed_keeps_setup(m: Machine, s: Seq<u8>)
    ensures
        m.feed(s).mode == m.mode,
        m.feed(s).options == m.options,
    decreases s.len(),
{
    lemma_settle_keeps_setup(m);
    if s.len() > 0 {
        lemma_step_keeps_setup(m.settle(), s[0]);
        lemma_feed_keeps_setup(m.settle().step(s[0]).next, s.drop_first());
    }
}

/// The end of the stream changes neither the mode nor the options.
pub proof fn lemma_finished_keeps_setup(m: Machine)
    ensures
        m.finished().mode == m.mode,
        m.finished().options == m.options,
{
    lemma_settle_keeps_setup(m);
    lemma_settle_keeps_setup(m.settle().at_eof());
}

/// A message that declares both `Transfer-Encoding: chunked` and
/// `Content-Length`, and is not without a body by its kind, is refused
/// when its headers are complete: the machine stops with
/// `HPE_AMBIGUOUS_BODY_LENGTH`, reads no byte more and announces nothing.
pub proof fn lemma_ambiguous_length_refused(m: Machine, rest: Seq<u8>)
    requires
        !m.halted(),
        m.pending is None,
        m.state == State::HeadersDone,
        m.flags.chunked,
        m.flags.content_length,
        !m.bodiless(),
    ensures
        m.strategy() == Strategy::Ambiguous,
        m.feed(rest) == m.fail(Error::HPE_AMBIGUOUS_BODY_LENGTH),
        m.trace(rest) == Seq::<Mark>::empty(),
        m.consumed(rest) == 0,
{
    reveal(Machine::spec_relay);
    m.lemma_feed_relay(rest);
    m.relay().lemma_feed_halted(rest);
}

/// A message of HTTP/1.0 that does not ask to keep the connection alive
/// ends it.
pub proof fn lemma_keep_alive_http_1_0(m: Machine)
    requires
        m.http_major == 1,
        m.http_minor == 0,
        !m.flags.keep_alive,
    ensures
        !m.keep_alive(),
{
}

/// A message of HTTP/1.1 that does not ask to close the connection keeps
/// it, unless only the end of the stream can end its body.
pub proof fn lemma_keep_alive_http_1_1(m: Machine)
    requires
        m.http_major == 1,
        m.http_minor == 1,
        !m.flags.close,
        !m.flags.eof_delimited,
        !m.needs_eof(),
    ensures
        m.keep_alive(),
{
}

/// A paused machine reads no byte and announces nothing, whatever it is
/// fed; resumed, it is the machine that was paused.
pub proof fn lemma_pause_resume(m: Machine, s: Seq<u8>)
    requires
        !m.halted(),
    ensures
        m.paused().feed(s) == m.paused(),
        m.paused().trace(s) == Seq::<Mark>::empty(),
        m.paused().consumed(s) == 0,
        m.paused().resumed() == m,
{
    m.paused().lemma_feed_halted(s);
}

/// A hook that does not let an event through stops a running machine with
/// an error that only a hook gives, and changes nothing else.
pub proof fn lemma_stopped(m: Machine, signal: Signal, answer: Answer)
    requires
        !m.halted(),
        answer != Answer::Continue,
    ensures
        m.answered(signal, answer).halted(),
        m.answered(signal, answer).error.from_hook(),
        m.answered(signal, answer).fail(Error::HPE_OK) == m,
{
    let e = m.answered(signal, answer).error;
    assert(m.answered(signal, answer) == m.fail(e));
    assert(e.from_hook() && e != Error::HPE_OK) by {
        lemma_refusal(signal);
    }
    assert(m.fail(e).fail(Error::HPE_OK) == m);
}

/// The refusal of an event is an error that only a hook gives.
pub proof fn lemma_refusal(signal: Signal)
    ensures
        signal.refusal().from_hook(),
        signal.refusal() != Error::HPE_OK,
{
}

/// A hook's pause is the pause of the parser: the machine stops where the
/// event was announced, and resumed it is the machine that let the event
/// through.
pub proof fn lemma_pause_in_hook(m: Machine, signal: Signal, s: Seq<u8>)
    requires
        !m.halted(),
    ensures
        m.answered(signal, Answer::Pause) == m.paused(),
        m.answered(signal, Answer::Pause).consumed(s) == 0,
        m.answered(signal, Answer::Pause).resumed() == m.answered(
            signal,
            Answer::Continue,
        ),
{
    lemma_pause_resume(m, s);
}

/// Once a machine has stopped on an error, it stays as it is until it is
/// cleared: it reads nothing, and neither resume operation moves it.
pub proof fn lemma_error_is_final(m: Machine, s: Seq<u8>)
    requires
        m.halted(),
        m.error != Error::HPE_PAUSED,
        m.error != Error::HPE_PAUSED_UPGRADE,
    ensures
        m.feed(s) == m,
        m.consumed(s) == 0,
        m.resumed() == m,
        m.resumed_after_upgrade() == m,
        m.paused() == m,
        m.at_eof() == m,
{
    m.lemma_feed_halted(s);
}

/// What a machine does with one byte, for a machine that waits for a byte:
/// the byte's move, then the rest.
pub proof fn lemma_first_byte(m: Machine, b: u8, rest: Seq<u8>)
    requires
        m.ready(),
    ensures
        m.step(b) == if m.transition(b).next.halted() {
            m.transition(b).next.quiet()
        } else {
            m.transition(b)
        },
        m.feed(seq![b] + rest) == m.step(b).next.feed(rest),
        m.trace(seq![b] + rest) == byte_marks(m.step(b).data, b) + m.step(b).next.trace(rest),
        m.consumed(seq![b] + rest) == if m.step(b).next.halted() {
            0nat
        } else {
            1 + m.step(b).next.consumed(rest)
        },
{
    reveal(Machine::spec_step);
    let s = seq![b] + rest;
    assert(s.drop_first() =~= rest);
    m.lemma_feed_step(s);
}

/// A complete message is announced, and what follows is chosen.
pub proof fn lemma_message_done(m: Machine, rest: Seq<u8>)
    requires
        !m.halted(),
        m.pending is None,
        m.state == State::MessageDone,
    ensures
        m.feed(rest) == m.goto(State::AfterMessage).conclude().feed(rest),
        m.trace(rest) == seq![Mark::Notice(Notice::MessageComplete)] + m.goto(
            State::AfterMessage,
        ).conclude().trace(rest),
        m.consumed(rest) == m.goto(State::AfterMessage).conclude().consumed(rest),
{
    reveal(Machine::spec_relay);
    m.lemma_feed_relay(rest);
    let due = m.announce(State::AfterMessage, Notice::MessageComplete);
    due.lemma_feed_flush(rest);
    assert(due.flushed() == m.goto(State::AfterMessage));
    m.goto(State::AfterMessage).lemma_feed_relay(rest);
}

/// The marks of a run of data bytes: that of the first byte, then those
/// of the rest.
pub proof fn lemma_span_marks_first(k: DataKind, bytes: Seq<u8>)
    requires
        bytes.len() > 0,
    ensures
        span_marks(k, bytes) == seq![Mark::Byte(k, bytes[0])] + span_marks(k, bytes.drop_first()),
{
    assert(span_marks(k, bytes) =~= seq![Mark::Byte(k, bytes[0])] + span_marks(
        k,
        bytes.drop_first(),
    ));
}

/// A body that only the end of the stream ends: every byte is body data
/// and none ends the body; the end of the stream completes the message,
/// after which the connection is not kept.
pub proof fn lemma_until_close_body(m: Machine, s: Seq<u8>)
    requires
        m.ready(),
        m.state == State::BodyUntilClose,
    ensures
        m.feed(s) == m,
        m.trace(s) == span_marks(DataKind::Body, s),
        m.consumed(s) == s.len(),
        m.needs_eof(),
        !m.keep_alive(),
        m.finished_trace() == seq![Mark::Notice(Notice::MessageComplete)],
        m.finished() == m.goto(State::AfterMessage).conclude(),
        !m.finished().needs_eof(),
    decreases s.len(),
{
    m.lemma_settle_ready();
    if s.len() == 0 {
        assert(m.trace(s) =~= span_marks(DataKind::Body, s));
    } else {
        assert(s =~= seq![s[0]] + s.drop_first());
        m.lemma_transition_body_byte(s[0]);
        lemma_first_byte(m, s[0], s.drop_first());
        lemma_until_close_body(m, s.drop_first());
        lemma_span_marks_first(DataKind::Body, s);
    }
    let done = m.goto(State::MessageDone);
    let none = Seq::<u8>::empty();
    lemma_message_done(done, none);
    let end = m.goto(State::AfterMessage).conclude();
    assert(done.goto(State::AfterMessage) == m.goto(State::AfterMessage));
    if end.halted() {
        end.lemma_settle_halted();
    } else {
        end.lemma_settle_ready();
    }
    assert(m.finished_trace() =~= seq![Mark::Notice(Notice::MessageComplete)]);
}

/// After an upgrade the bytes belong to another protocol: the machine
/// lets them pass and announces nothing.
pub proof fn lemma_tunnel(m: Machine, s: Seq<u8>)
    requires
        m.ready(),
        m.state == State::Tunnel,
    ensures
        m.feed(s) == m,
        m.trace(s) == Seq::<Mark>::empty(),
        m.consumed(s) == s.len(),
        m.finished() == m,
    decreases s.len(),
{
    m.lemma_settle_ready();
    if s.len() > 0 {
        assert(s =~= seq![s[0]] + s.drop_first());
        m.lemma_transition_tunnel(s[0]);
        lemma_first_byte(m, s[0], s.drop_first());
        lemma_tunnel(m, s.drop_first());
        assert(m.trace(s) =~= Seq::<Mark>::empty());
    }
}

/// No control character, NUL included, no space and no byte from `0x7f`
/// up is a token byte; nor is the colon.
pub proof fn lemma_token_bytes(b: u8)
    requires
        is_token(b),
    ensures
        0x20 < b < 0x7f,
        b != COLON,
{
}

/// In a field name every byte that is neither a token byte nor the colon
/// is refused; the options can let a blank pass, but no other byte: no
/// control character, NUL included, is ever read as part of a field name.
pub proof fn lemma_field_name_refuses(m: Machine, b: u8)
    requires
        m.ready(),
        m.state == State::HeaderField,
        !is_token(b),
        b != COLON,
        !(is_blank(b) && m.options.lenient_header_space),
    ensures
        m.step(b) == m.fail(Error::HPE_INVALID_HEADER_TOKEN).quiet(),
{
    reveal(Machine::spec_step);
    m.lemma_transition_header_field(b);
}

/// The length of a field name is capped by the limit of the options and
/// by nothing else: a token byte is data of the name below the limit, and
/// an error at it.
pub proof fn lemma_field_name_limit(m: Machine, b: u8)
    requires
        m.ready(),
        m.state == State::HeaderField,
        is_token(b),
    ensures
        m.span_len >= m.options.max_header_len ==> m.step(b) == m.fail(
            Error::HPE_HEADER_OVERFLOW,
        ).quiet(),
        m.span_len < m.options.max_header_len ==> m.step(b).data == Some(DataKind::HeaderField)
            && m.step(b).next.span_len == m.span_len + 1 && !m.step(b).next.halted(),
{
    reveal(Machine::spec_step);
    m.lemma_transition_header_field(b);
}

/// The length of a field value is capped by the limit of the options: at
/// the limit a further byte of the value is an error.
pub proof fn lemma_field_value_limit(m: Machine, b: u8)
    requires
        m.ready(),
        m.state == State::Value,
        is_text(b),
        m.span_len >= m.options.max_header_len,
    ensures
        m.step(b) == m.fail(Error::HPE_HEADER_OVERFLOW).quiet(),
{
    reveal(Machine::spec_step);
    m.lemma_transition_header_value(b);
}

/// A bare LF where a line should end is an error, unless the options
/// allow it.
pub proof fn lemma_bare_lf_is_refused(m: Machine)
    requires
        m.ready(),
        !m.options.lenient_lf,
        m.state == State::RequestEnd || m.state == State::StatusEnd || m.state == State::Reason
            || m.state == State::HeaderStart || m.state == State::ValueStart || m.state
            == State::Value || m.state == State::ChunkSize || m.state == State::ChunkExtension
            || m.state == State::ChunkDataCr,
    ensures
        m.step(LF).next.halted(),
        m.step(LF).next.error != Error::HPE_PAUSED,
        m.step(LF).next.error != Error::HPE_PAUSED_UPGRADE,
{
    reveal(Machine::spec_step);
    match m.state {
        State::RequestEnd => {
            m.lemma_transition_request_end(LF);
        },
        State::StatusEnd | State::Reason => {
            m.lemma_transition_reason(LF);
        },
        State::HeaderStart => {
            m.lemma_transition_header_start(LF);
        },
        State::ValueStart | State::Value => {
            m.lemma_transition_header_value(LF);
        },
        State::ChunkSize => {
            m.lemma_transition_chunk_size(LF);
        },
        State::ChunkExtension => {
            m.lemma_transition_chunk_extension(LF);
        },
        _ => {
            m.lemma_transition_chunk_data_end(LF);
        },
    }
}

/// A chunk size over the limit of the options is an error at the digit
/// that takes it there.
pub proof fn lemma_chunk_size_limit(m: Machine, b: u8)
    requires
        m.ready(),
        m.state == State::ChunkSize,
        hex_value(b) is Some,
        m.content_length * 16 + hex_value(b)->0 > m.options.max_chunk_size,
    ensures
        m.step(b) == m.fail(Error::HPE_CHUNK_TOO_LARGE).quiet(),
{
    reveal(Machine::spec_step);
    m.lemma_transition_chunk_size(b);
}

} // verus!
