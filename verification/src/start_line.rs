//! The start line: that a request line and a status line, written as the
//! grammar has them, are read as what was written.

use vstd::prelude::*;
use crate::consts::{lemma_token_constants, Method, Type, TOKEN_HTTP};
use crate::identity::decimal_digit;
use crate::laws::{lemma_first_byte, lemma_span_marks_first};
use crate::lexer::{
    all_tokens_upto, bytes_of, digit_value, is_text, is_token, is_url_char,
    lemma_all_tokens, pack, pack_upto, push7, CR, DOT, LF, SLASH, SP,
};
use crate::machine::{DataKind, Flags, Header, Machine, Notice, State};
use crate::run::{span_marks, Mark};

verus! {

/// Every byte of `s` is a byte of a request target, and there is one.
pub open spec fn is_target(s: Seq<u8>) -> bool {
    s.len() > 0 && forall|i: int| 0 <= i < s.len() ==> is_url_char(#[trigger] s[i])
}

/// Every byte of `s` is a byte of text.
pub open spec fn is_text_string(s: Seq<u8>) -> bool {
    forall|i: int| 0 <= i < s.len() ==> is_text(#[trigger] s[i])
}

/// The protocol name and version: `HTTP/`, a digit, a dot, a digit.
pub open spec fn http_version(major: u8, minor: u8) -> Seq<u8> {
    bytes_of("HTTP"@) + seq![SLASH, decimal_digit(major as nat), DOT, decimal_digit(minor as nat)]
}

/// A request line: the method, the target and the version, with single
/// spaces between them and a line end after them.
pub open spec fn request_line(method: Method, target: Seq<u8>, major: u8, minor: u8) -> Seq<u8> {
    bytes_of(method.spec_name()) + seq![SP] + target + seq![SP] + http_version(major, minor)
        + seq![CR, LF]
}

/// A status line: the version, the three digits of the status code and
/// the reason phrase, with single spaces between them and a line end
/// after them.
pub open spec fn status_line(major: u8, minor: u8, code: u16, reason: Seq<u8>) -> Seq<u8> {
    http_version(major, minor) + seq![
        SP,
        decimal_digit((code / 100) as nat),
        decimal_digit((code / 10 % 10) as nat),
        decimal_digit((code % 10) as nat),
        SP,
    ] + reason + seq![CR, LF]
}

/// The machine that has begun a message, after the first byte of the
/// start line.
pub open spec fn begun(m: Machine, b: u8) -> Machine {
    Machine {
        kind: m.mode,
        state: State::Token,
        method: Method::HTTP_DELETE,
        http_major: 0,
        http_minor: 0,
        status_code: 0,
        flags: Flags::fresh(m.flags.skip_body),
        header: Header::Other,
        gap: false,
        acc: push7(0, b),
        span_len: 0,
        content_length: 0,
        ..m
    }
}

/// The machine after a request line, before the first header line.
pub open spec fn after_request_line(m: Machine, method: Method, major: u8, minor: u8) -> Machine {
    Machine {
        kind: Type::HTTP_REQUEST,
        state: State::HeaderStart,
        method,
        http_major: major,
        http_minor: minor,
        acc: TOKEN_HTTP,
        ..begun(m, 0)
    }
}

/// The machine after a status line, before the first header line.
pub open spec fn after_status_line(m: Machine, major: u8, minor: u8, code: u16) -> Machine {
    Machine {
        kind: Type::HTTP_RESPONSE,
        state: State::HeaderStart,
        http_major: major,
        http_minor: minor,
        status_code: code,
        acc: 3,
        ..begun(m, 0)
    }
}

/// The first byte of a message announces the message.
proof fn lemma_begin(m: Machine, b: u8, rest: Seq<u8>)
    requires
        m.ready(),
        m.state == State::Start,
        is_token(b),
    ensures
        m.feed(seq![b] + rest) == begun(m, b).feed(rest),
        m.trace(seq![b] + rest) == seq![Mark::Notice(Notice::MessageBegin)] + begun(m, b).trace(
            rest,
        ),
        m.consumed(seq![b] + rest) == 1 + begun(m, b).consumed(rest),
{
    m.lemma_transition_begin(b);
    lemma_first_byte(m, b, rest);
    let due = m.step(b).next;
    due.lemma_feed_flush(rest);
    assert(due.flushed() == begun(m, b));
    assert(m.trace(seq![b] + rest) =~= seq![Mark::Notice(Notice::MessageBegin)]
        + begun(m, b).trace(rest));
}

/// The bytes of a token from the `k`th on, in the first token of a start
/// line or in the protocol name: the token is packed byte by byte.
proof fn lemma_token_run(m: Machine, s: Seq<u8>, k: int, rest: Seq<u8>)
    requires
        m.ready(),
        m.state == State::Token || m.state == State::Protocol,
        all_tokens_upto(s, s.len() as int),
        0 <= k <= s.len(),
        m.acc == pack_upto(s, k),
    ensures
        m.feed(s.skip(k) + rest) == (Machine { acc: pack(s), ..m }).feed(rest),
        m.trace(s.skip(k) + rest) == (Machine { acc: pack(s), ..m }).trace(rest),
        m.consumed(s.skip(k) + rest) == (s.len() - k)
            + (Machine { acc: pack(s), ..m }).consumed(rest),
    decreases s.len() - k,
{
    if k == s.len() {
        assert(s.skip(k) + rest =~= rest);
        assert((Machine { acc: pack(s), ..m }) == m);
    } else {
        let b = s[k];
        lemma_all_tokens(s, s.len() as int, k);
        assert(s.skip(k) + rest =~= seq![b] + (s.skip(k + 1) + rest));
        if m.state == State::Token {
            m.lemma_transition_first_token(b);
        } else {
            m.lemma_transition_protocol(b);
        }
        lemma_first_byte(m, b, s.skip(k + 1) + rest);
        let next = Machine { acc: push7(m.acc, b), ..m };
        assert(m.step(b).next == next);
        lemma_token_run(next, s, k + 1, rest);
        assert(m.trace(s.skip(k) + rest) =~= (Machine { acc: pack(s), ..m }).trace(rest));
    }
}

/// A method and the space after it make the message a request of that
/// method.
proof fn lemma_method(m: Machine, method: Method, rest: Seq<u8>)
    requires
        m.ready(),
        m.state == State::Start,
        m.mode != Type::HTTP_RESPONSE,
    ensures
        m.feed(bytes_of(method.spec_name()) + seq![SP] + rest) == (Machine {
            kind: Type::HTTP_REQUEST,
            state: State::UrlStart,
            method,
            acc: method.code(),
            ..begun(m, 0)
        }).feed(rest),
        m.trace(bytes_of(method.spec_name()) + seq![SP] + rest) == seq![
            Mark::Notice(Notice::MessageBegin),
        ] + (Machine {
            kind: Type::HTTP_REQUEST,
            state: State::UrlStart,
            method,
            acc: method.code(),
            ..begun(m, 0)
        }).trace(rest),
        m.consumed(bytes_of(method.spec_name()) + seq![SP] + rest) == method.spec_name().len() + 1
            + (Machine {
            kind: Type::HTTP_REQUEST,
            state: State::UrlStart,
            method,
            acc: method.code(),
            ..begun(m, 0)
        }).consumed(rest),
{
    let name = bytes_of(method.spec_name());
    let end = Machine {
        kind: Type::HTTP_REQUEST,
        state: State::UrlStart,
        method,
        acc: method.code(),
        ..begun(m, 0)
    };
    method.lemma_name_is_token();
    method.lemma_code_is_packed_name();
    method.lemma_from_code(method.code());
    lemma_all_tokens(name, name.len() as int, 0);
    assert(name + seq![SP] + rest =~= seq![name[0]] + (name.skip(1) + (seq![SP] + rest)));
    lemma_begin(m, name[0], name.skip(1) + (seq![SP] + rest));
    let m1 = begun(m, name[0]);
    assert(pack_upto(name, 1) == push7(0, name[0])) by {
        reveal_with_fuel(pack_upto, 2);
    }
    lemma_token_run(m1, name, 1, seq![SP] + rest);
    let m2 = Machine { acc: pack(name), ..m1 };
    m2.lemma_transition_first_token(SP);
    lemma_first_byte(m2, SP, rest);
    assert(m2.step(SP).next == end);
    assert(m.trace(name + seq![SP] + rest) =~= seq![Mark::Notice(Notice::MessageBegin)]
        + end.trace(rest));
}

/// The bytes of a request target from the `k`th on are data of the
/// target, and the space after them completes it.
proof fn lemma_target_run(m: Machine, target: Seq<u8>, k: int, rest: Seq<u8>)
    requires
        m.ready(),
        is_target(target),
        0 <= k <= target.len(),
        k == 0 ==> m.state == State::UrlStart,
        k > 0 ==> m.state == State::Url,
    ensures
        m.feed(target.skip(k) + seq![SP] + rest) == (Machine {
            state: State::Protocol,
            acc: 0,
            ..m
        }).feed(rest),
        m.trace(target.skip(k) + seq![SP] + rest) == span_marks(DataKind::Url, target.skip(k))
            + seq![Mark::Notice(Notice::UrlComplete)] + (Machine {
            state: State::Protocol,
            acc: 0,
            ..m
        }).trace(rest),
        m.consumed(target.skip(k) + seq![SP] + rest) == (target.len() - k) + 1 + (Machine {
            state: State::Protocol,
            acc: 0,
            ..m
        }).consumed(rest),
    decreases target.len() - k,
{
    let end = Machine { state: State::Protocol, acc: 0, ..m };
    let tail = target.skip(k);
    m.lemma_transition_url(if k == target.len() {
        SP
    } else {
        target[k]
    });
    if k == target.len() {
        assert(tail + seq![SP] + rest =~= seq![SP] + rest);
        lemma_first_byte(m, SP, rest);
        let due = m.step(SP).next;
        due.lemma_feed_flush(rest);
        assert(due.flushed() == end);
        assert(span_marks(DataKind::Url, tail) =~= Seq::<Mark>::empty());
        assert(m.trace(tail + seq![SP] + rest) =~= span_marks(DataKind::Url, tail)
            + seq![Mark::Notice(Notice::UrlComplete)] + end.trace(rest));
    } else {
        let b = target[k];
        assert(tail + seq![SP] + rest =~= seq![b] + (target.skip(k + 1) + seq![SP] + rest));
        lemma_first_byte(m, b, target.skip(k + 1) + seq![SP] + rest);
        let next = m.goto(State::Url);
        assert(m.step(b).next == next);
        lemma_target_run(next, target, k + 1, rest);
        lemma_span_marks_first(DataKind::Url, tail);
        assert(tail.drop_first() =~= target.skip(k + 1));
        assert(m.trace(tail + seq![SP] + rest) =~= span_marks(DataKind::Url, tail)
            + seq![Mark::Notice(Notice::UrlComplete)] + end.trace(rest));
    }
}

/// A slash, a digit, a dot and a digit give the version.
proof fn lemma_version_digits(m: Machine, major: u8, minor: u8, rest: Seq<u8>)
    requires
        m.ready(),
        m.state == State::VersionMajor,
        major < 10,
        minor < 10,
    ensures
        m.feed(seq![decimal_digit(major as nat), DOT, decimal_digit(minor as nat)] + rest) == (
        Machine {
            http_major: major,
            http_minor: minor,
            state: if m.kind == Type::HTTP_REQUEST {
                State::RequestEnd
            } else {
                State::StatusSpace
            },
            ..m
        }).feed(rest),
        m.trace(seq![decimal_digit(major as nat), DOT, decimal_digit(minor as nat)] + rest) == (
        Machine {
            http_major: major,
            http_minor: minor,
            state: if m.kind == Type::HTTP_REQUEST {
                State::RequestEnd
            } else {
                State::StatusSpace
            },
            ..m
        }).trace(rest),
        m.consumed(seq![decimal_digit(major as nat), DOT, decimal_digit(minor as nat)] + rest)
            == 3 + (Machine {
            http_major: major,
            http_minor: minor,
            state: if m.kind == Type::HTTP_REQUEST {
                State::RequestEnd
            } else {
                State::StatusSpace
            },
            ..m
        }).consumed(rest),
{
    let a = decimal_digit(major as nat);
    let b = decimal_digit(minor as nat);
    assert(digit_value(a) == Some(major));
    assert(digit_value(b) == Some(minor));
    assert(seq![a, DOT, b] + rest =~= seq![a] + (seq![DOT] + (seq![b] + rest)));
    m.lemma_transition_version(a);
    lemma_first_byte(m, a, seq![DOT] + (seq![b] + rest));
    let m1 = Machine { http_major: major, state: State::VersionDot, ..m };
    assert(m.step(a).next == m1);
    m1.lemma_transition_version(DOT);
    lemma_first_byte(m1, DOT, seq![b] + rest);
    let m2 = m1.goto(State::VersionMinor);
    assert(m1.step(DOT).next == m2);
    m2.lemma_transition_version(b);
    lemma_first_byte(m2, b, rest);
    assert(m.trace(seq![a, DOT, b] + rest) =~= m2.step(b).next.trace(rest));
}

/// The protocol name and the version of a request line.
proof fn lemma_request_version(m: Machine, major: u8, minor: u8, rest: Seq<u8>)
    requires
        m.ready(),
        m.state == State::Protocol,
        m.kind == Type::HTTP_REQUEST,
        m.acc == 0,
        major < 10,
        minor < 10,
    ensures
        m.feed(http_version(major, minor) + rest) == (Machine {
            http_major: major,
            http_minor: minor,
            state: State::RequestEnd,
            acc: TOKEN_HTTP,
            ..m
        }).feed(rest),
        m.trace(http_version(major, minor) + rest) == (Machine {
            http_major: major,
            http_minor: minor,
            state: State::RequestEnd,
            acc: TOKEN_HTTP,
            ..m
        }).trace(rest),
        m.consumed(http_version(major, minor) + rest) == 8 + (Machine {
            http_major: major,
            http_minor: minor,
            state: State::RequestEnd,
            acc: TOKEN_HTTP,
            ..m
        }).consumed(rest),
{
    let name = bytes_of("HTTP"@);
    let digits = seq![decimal_digit(major as nat), DOT, decimal_digit(minor as nat)];
    lemma_token_constants();
    reveal_strlit("HTTP");
    assert(name.len() == 4);
    assert(http_version(major, minor) + rest =~= name.skip(0) + (seq![SLASH] + (digits + rest)));
    lemma_token_run(m, name, 0, seq![SLASH] + (digits + rest));
    let m1 = Machine { acc: TOKEN_HTTP, ..m };
    m1.lemma_transition_protocol(SLASH);
    lemma_first_byte(m1, SLASH, digits + rest);
    let m2 = m1.goto(State::VersionMajor);
    assert(m1.step(SLASH).next == m2);
    lemma_version_digits(m2, major, minor, rest);
}

/// The line end after the version of a request line.
proof fn lemma_request_line_end(m: Machine, rest: Seq<u8>)
    requires
        m.ready(),
        m.state == State::RequestEnd,
    ensures
        m.feed(seq![CR, LF] + rest) == (Machine {
            state: State::HeaderStart,
            span_len: 0,
            ..m
        }).feed(rest),
        m.trace(seq![CR, LF] + rest) == (Machine {
            state: State::HeaderStart,
            span_len: 0,
            ..m
        }).trace(rest),
        m.consumed(seq![CR, LF] + rest) == 2 + (Machine {
            state: State::HeaderStart,
            span_len: 0,
            ..m
        }).consumed(rest),
{
    assert(seq![CR, LF] + rest =~= seq![CR] + (seq![LF] + rest));
    m.lemma_transition_request_end(CR);
    lemma_first_byte(m, CR, seq![LF] + rest);
    let m1 = m.goto(State::LineLf);
    assert(m.step(CR).next == m1);
    m1.lemma_transition_expect_lf(LF);
    lemma_first_byte(m1, LF, rest);
    assert(m.trace(seq![CR, LF] + rest) =~= m1.step(LF).next.trace(rest));
}

/// A request line is read as what was written. A machine between
/// messages that accepts requests, fed the request line of a method, a
/// target and a version, announces the message, the bytes of the target
/// as its data and its completion, and then stands before the first
/// header line, knowing the method and the version.
pub proof fn lemma_request_line(
    m: Machine,
    method: Method,
    target: Seq<u8>,
    major: u8,
    minor: u8,
    rest: Seq<u8>,
)
    requires
        m.ready(),
        m.state == State::Start,
        m.mode != Type::HTTP_RESPONSE,
        is_target(target),
        major < 10,
        minor < 10,
    ensures
        m.feed(request_line(method, target, major, minor) + rest) == after_request_line(
            m,
            method,
            major,
            minor,
        ).feed(rest),
        m.trace(request_line(method, target, major, minor) + rest) == seq![
            Mark::Notice(Notice::MessageBegin),
        ] + span_marks(DataKind::Url, target) + seq![Mark::Notice(Notice::UrlComplete)]
            + after_request_line(m, method, major, minor).trace(rest),
        m.consumed(request_line(method, target, major, minor) + rest) == request_line(
            method,
            target,
            major,
            minor,
        ).len() + after_request_line(m, method, major, minor).consumed(rest),
{
    let name = bytes_of(method.spec_name());
    let version = http_version(major, minor);
    let eol = seq![CR, LF];
    let end = after_request_line(m, method, major, minor);
    assert(request_line(method, target, major, minor) + rest =~= name + seq![SP] + (target.skip(0)
        + seq![SP] + (version + (eol + rest))));
    lemma_method(m, method, target.skip(0) + seq![SP] + (version + (eol + rest)));
    let m1 = Machine {
        kind: Type::HTTP_REQUEST,
        state: State::UrlStart,
        method,
        acc: method.code(),
        ..begun(m, 0)
    };
    lemma_target_run(m1, target, 0, version + (eol + rest));
    let m2 = Machine { state: State::Protocol, acc: 0, ..m1 };
    lemma_request_version(m2, major, minor, eol + rest);
    let m3 = Machine {
        http_major: major,
        http_minor: minor,
        state: State::RequestEnd,
        acc: TOKEN_HTTP,
        ..m2
    };
    lemma_request_line_end(m3, rest);
    assert((Machine { state: State::HeaderStart, span_len: 0, ..m3 }) == end);
    assert(target.skip(0) =~= target);
    reveal_strlit("HTTP");
    assert(version.len() == 8);
    assert(m.trace(request_line(method, target, major, minor) + rest) =~= seq![
        Mark::Notice(Notice::MessageBegin),
    ] + span_marks(DataKind::Url, target) + seq![Mark::Notice(Notice::UrlComplete)]
        + end.trace(rest));
}

/// The protocol name and the slash at the start of a status line make the
/// message a response.
proof fn lemma_response_protocol(m: Machine, rest: Seq<u8>)
    requires
        m.ready(),
        m.state == State::Start,
        m.mode != Type::HTTP_REQUEST,
    ensures
        m.feed(bytes_of("HTTP"@) + seq![SLASH] + rest) == (Machine {
            kind: Type::HTTP_RESPONSE,
            state: State::VersionMajor,
            acc: TOKEN_HTTP,
            ..begun(m, 0)
        }).feed(rest),
        m.trace(bytes_of("HTTP"@) + seq![SLASH] + rest) == seq![Mark::Notice(Notice::MessageBegin)]
            + (Machine {
            kind: Type::HTTP_RESPONSE,
            state: State::VersionMajor,
            acc: TOKEN_HTTP,
            ..begun(m, 0)
        }).trace(rest),
        m.consumed(bytes_of("HTTP"@) + seq![SLASH] + rest) == 5 + (Machine {
            kind: Type::HTTP_RESPONSE,
            state: State::VersionMajor,
            acc: TOKEN_HTTP,
            ..begun(m, 0)
        }).consumed(rest),
{
    let name = bytes_of("HTTP"@);
    let end = Machine {
        kind: Type::HTTP_RESPONSE,
        state: State::VersionMajor,
        acc: TOKEN_HTTP,
        ..begun(m, 0)
    };
    lemma_token_constants();
    reveal_strlit("HTTP");
    assert(name.len() == 4);
    lemma_all_tokens(name, name.len() as int, 0);
    assert(name + seq![SLASH] + rest =~= seq![name[0]] + (name.skip(1) + (seq![SLASH] + rest)));
    lemma_begin(m, name[0], name.skip(1) + (seq![SLASH] + rest));
    let m1 = begun(m, name[0]);
    assert(pack_upto(name, 1) == push7(0, name[0])) by {
        reveal_with_fuel(pack_upto, 2);
    }
    lemma_token_run(m1, name, 1, seq![SLASH] + rest);
    let m2 = Machine { acc: pack(name), ..m1 };
    m2.lemma_transition_first_token(SLASH);
    lemma_first_byte(m2, SLASH, rest);
    assert(m2.step(SLASH).next == end);
    assert(m.trace(name + seq![SLASH] + rest) =~= seq![Mark::Notice(Notice::MessageBegin)]
        + end.trace(rest));
}

/// One digit of a status code.
proof fn lemma_status_digit(m: Machine, d: u8, rest: Seq<u8>)
    requires
        m.ready(),
        m.state == State::StatusCode,
        m.status_code < 100,
        m.acc < 3,
        d < 10,
    ensures
        m.feed(seq![decimal_digit(d as nat)] + rest) == (Machine {
            status_code: (m.status_code * 10 + d) as u16,
            acc: (m.acc + 1) as u128,
            state: if m.acc == 2 {
                State::StatusEnd
            } else {
                State::StatusCode
            },
            ..m
        }).feed(rest),
        m.trace(seq![decimal_digit(d as nat)] + rest) == (Machine {
            status_code: (m.status_code * 10 + d) as u16,
            acc: (m.acc + 1) as u128,
            state: if m.acc == 2 {
                State::StatusEnd
            } else {
                State::StatusCode
            },
            ..m
        }).trace(rest),
        m.consumed(seq![decimal_digit(d as nat)] + rest) == 1 + (Machine {
            status_code: (m.status_code * 10 + d) as u16,
            acc: (m.acc + 1) as u128,
            state: if m.acc == 2 {
                State::StatusEnd
            } else {
                State::StatusCode
            },
            ..m
        }).consumed(rest),
{
    let b = decimal_digit(d as nat);
    assert(digit_value(b) == Some(d));
    m.lemma_transition_status_digits(b);
    lemma_first_byte(m, b, rest);
    assert(m.trace(seq![b] + rest) =~= m.step(b).next.trace(rest));
}

/// The space and the three digits of a status code.
proof fn lemma_status_code(m: Machine, code: u16, rest: Seq<u8>)
    requires
        m.ready(),
        m.state == State::StatusSpace,
        100 <= code <= 999,
    ensures
        m.feed(
            seq![
                SP,
                decimal_digit((code / 100) as nat),
                decimal_digit((code / 10 % 10) as nat),
                decimal_digit((code % 10) as nat),
            ] + rest,
        ) == (Machine { state: State::StatusEnd, status_code: code, acc: 3, ..m }).feed(rest),
        m.trace(
            seq![
                SP,
                decimal_digit((code / 100) as nat),
                decimal_digit((code / 10 % 10) as nat),
                decimal_digit((code % 10) as nat),
            ] + rest,
        ) == (Machine { state: State::StatusEnd, status_code: code, acc: 3, ..m }).trace(rest),
        m.consumed(
            seq![
                SP,
                decimal_digit((code / 100) as nat),
                decimal_digit((code / 10 % 10) as nat),
                decimal_digit((code % 10) as nat),
            ] + rest,
        ) == 4
            + (Machine { state: State::StatusEnd, status_code: code, acc: 3, ..m }).consumed(rest),
{
    let d1 = (code / 100) as u8;
    let d2 = (code / 10 % 10) as u8;
    let d3 = (code % 10) as u8;
    let b1 = decimal_digit(d1 as nat);
    let b2 = decimal_digit(d2 as nat);
    let b3 = decimal_digit(d3 as nat);
    assert(seq![SP, b1, b2, b3] + rest =~= seq![SP] + (seq![b1] + (seq![b2] + (seq![b3] + rest))));
    m.lemma_transition_status_digits(SP);
    lemma_first_byte(m, SP, seq![b1] + (seq![b2] + (seq![b3] + rest)));
    let m0 = Machine { acc: 0, status_code: 0, state: State::StatusCode, ..m };
    assert(m.step(SP).next == m0);
    lemma_status_digit(m0, d1, seq![b2] + (seq![b3] + rest));
    let m1 = Machine { status_code: d1 as u16, acc: 1, ..m0 };
    lemma_status_digit(m1, d2, seq![b3] + rest);
    let m2 = Machine { status_code: (d1 * 10 + d2) as u16, acc: 2, ..m0 };
    lemma_status_digit(m2, d3, rest);
    assert((d1 * 10 + d2) * 10 + d3 == code);
    assert(m.trace(seq![SP, b1, b2, b3] + rest) =~= (Machine {
        state: State::StatusEnd,
        status_code: code,
        acc: 3,
        ..m
    }).trace(rest));
}

/// The bytes of a reason phrase from the `k`th on are data of the status,
/// and the line end after them completes it.
proof fn lemma_reason_run(m: Machine, reason: Seq<u8>, k: int, rest: Seq<u8>)
    requires
        m.ready(),
        m.state == State::Reason,
        is_text_string(reason),
        0 <= k <= reason.len(),
    ensures
        m.feed(reason.skip(k) + seq![CR, LF] + rest) == (Machine {
            state: State::HeaderStart,
            span_len: 0,
            ..m
        }).feed(rest),
        m.trace(reason.skip(k) + seq![CR, LF] + rest) == span_marks(
            DataKind::Status,
            reason.skip(k),
        ) + seq![Mark::Notice(Notice::StatusComplete)] + (Machine {
            state: State::HeaderStart,
            span_len: 0,
            ..m
        }).trace(rest),
        m.consumed(reason.skip(k) + seq![CR, LF] + rest) == (reason.len() - k) + 2 + (Machine {
            state: State::HeaderStart,
            span_len: 0,
            ..m
        }).consumed(rest),
    decreases reason.len() - k,
{
    let end = Machine { state: State::HeaderStart, span_len: 0, ..m };
    let tail = reason.skip(k);
    if k == reason.len() {
        assert(tail + seq![CR, LF] + rest =~= seq![CR] + (seq![LF] + rest));
        m.lemma_transition_reason(CR);
        lemma_first_byte(m, CR, seq![LF] + rest);
        let due = m.step(CR).next;
        due.lemma_feed_flush(seq![LF] + rest);
        let m1 = m.goto(State::LineLf);
        assert(due.flushed() == m1);
        m1.lemma_transition_expect_lf(LF);
        lemma_first_byte(m1, LF, rest);
        assert(m1.step(LF).next == end);
        assert(span_marks(DataKind::Status, tail) =~= Seq::<Mark>::empty());
        assert(m.trace(tail + seq![CR, LF] + rest) =~= span_marks(DataKind::Status, tail)
            + seq![Mark::Notice(Notice::StatusComplete)] + end.trace(rest));
    } else {
        let b = reason[k];
        assert(is_text(b));
        assert(tail + seq![CR, LF] + rest =~= seq![b] + (reason.skip(k + 1) + seq![CR, LF] + rest));
        m.lemma_transition_reason(b);
        lemma_first_byte(m, b, reason.skip(k + 1) + seq![CR, LF] + rest);
        assert(m.step(b).next == m);
        lemma_reason_run(m, reason, k + 1, rest);
        lemma_span_marks_first(DataKind::Status, tail);
        assert(tail.drop_first() =~= reason.skip(k + 1));
        assert(m.trace(tail + seq![CR, LF] + rest) =~= span_marks(DataKind::Status, tail)
            + seq![Mark::Notice(Notice::StatusComplete)] + end.trace(rest));
    }
}

/// A status line is read as what was written. A machine between messages
/// that accepts responses, fed the status line of a version, a status
/// code and a reason phrase, announces the message, the bytes of the
/// reason phrase as the data of the status and its completion, and then
/// stands before the first header line, knowing the version and the
/// status code.
pub proof fn lemma_status_line(
    m: Machine,
    major: u8,
    minor: u8,
    code: u16,
    reason: Seq<u8>,
    rest: Seq<u8>,
)
    requires
        m.ready(),
        m.state == State::Start,
        m.mode != Type::HTTP_REQUEST,
        major < 10,
        minor < 10,
        100 <= code <= 999,
        is_text_string(reason),
    ensures
        m.feed(status_line(major, minor, code, reason) + rest) == after_status_line(
            m,
            major,
            minor,
            code,
        ).feed(rest),
        m.trace(status_line(major, minor, code, reason) + rest) == seq![
            Mark::Notice(Notice::MessageBegin),
        ] + span_marks(DataKind::Status, reason) + seq![Mark::Notice(Notice::StatusComplete)]
            + after_status_line(m, major, minor, code).trace(rest),
        m.consumed(status_line(major, minor, code, reason) + rest) == status_line(
            major,
            minor,
            code,
            reason,
        ).len() + after_status_line(m, major, minor, code).consumed(rest),
{
    let name = bytes_of("HTTP"@);
    let version = seq![decimal_digit(major as nat), DOT, decimal_digit(minor as nat)];
    let digits = seq![
        SP,
        decimal_digit((code / 100) as nat),
        decimal_digit((code / 10 % 10) as nat),
        decimal_digit((code % 10) as nat),
    ];
    let eol = seq![CR, LF];
    let end = after_status_line(m, major, minor, code);
    reveal_strlit("HTTP");
    assert(name.len() == 4);
    assert(status_line(major, minor, code, reason) + rest =~= name + seq![SLASH] + (version + (
    digits + (seq![SP] + (reason.skip(0) + eol + rest)))));
    lemma_response_protocol(m, version + (digits + (seq![SP] + (reason.skip(0) + eol + rest))));
    let m1 = Machine {
        kind: Type::HTTP_RESPONSE,
        state: State::VersionMajor,
        acc: TOKEN_HTTP,
        ..begun(m, 0)
    };
    lemma_version_digits(m1, major, minor, digits + (seq![SP] + (reason.skip(0) + eol + rest)));
    let m2 = Machine { http_major: major, http_minor: minor, state: State::StatusSpace, ..m1 };
    lemma_status_code(m2, code, seq![SP] + (reason.skip(0) + eol + rest));
    let m3 = Machine { state: State::StatusEnd, status_code: code, acc: 3, ..m2 };
    m3.lemma_transition_reason(SP);
    lemma_first_byte(m3, SP, reason.skip(0) + eol + rest);
    let m4 = m3.goto(State::Reason);
    assert(m3.step(SP).next == m4);
    lemma_reason_run(m4, reason, 0, rest);
    assert((Machine { state: State::HeaderStart, span_len: 0, ..m4 }) == end);
    assert(reason.skip(0) =~= reason);
    assert(m.trace(status_line(major, minor, code, reason) + rest) =~= seq![
        Mark::Notice(Notice::MessageBegin),
    ] + span_marks(DataKind::Status, reason) + seq![Mark::Notice(Notice::StatusComplete)]
        + end.trace(rest));
}

} // verus!
