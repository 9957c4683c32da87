//! The transitions of the machine on one byte: the start line, the header
//! lines, and the body under each framing.

use vstd::prelude::*;
use crate::consts::{
    Error, Method, Type, TOKEN_CHUNKED, TOKEN_CLOSE, TOKEN_CONNECTION, TOKEN_CONTENT_LENGTH,
    TOKEN_HTTP, TOKEN_KEEP_ALIVE, TOKEN_TRANSFER_ENCODING, TOKEN_UPGRADE,
};
use crate::lexer::{
    digit_value, hex_value, is_blank, is_text, is_token, is_url_char, lower, push7, COLON,
    COMMA, CR, DOT, LF, PACK_NONE, SEMICOLON, SLASH, SP,
};
use crate::machine::{DataKind, Flags, Header, Machine, Move, Notice, State};

verus! {

impl Header {
    /// The header field that a packed lower-case name names.
    pub open spec fn spec_classify(name: u128) -> Header {
        if name == TOKEN_CONTENT_LENGTH {
            Header::ContentLength
        } else if name == TOKEN_TRANSFER_ENCODING {
            Header::TransferEncoding
        } else if name == TOKEN_CONNECTION {
            Header::Connection
        } else if name == TOKEN_UPGRADE {
            Header::Upgrade
        } else {
            Header::Other
        }
    }

    /// Computes `spec_classify`.
    #[verifier::when_used_as_spec(spec_classify)]
    pub fn classify(name: u128) -> (r: Header)
        ensures
            r == Self::spec_classify(name),
    {
        if name == TOKEN_CONTENT_LENGTH {
            Header::ContentLength
        } else if name == TOKEN_TRANSFER_ENCODING {
            Header::TransferEncoding
        } else if name == TOKEN_CONNECTION {
            Header::Connection
        } else if name == TOKEN_UPGRADE {
            Header::Upgrade
        } else {
            Header::Other
        }
    }
}

impl Machine {
    /// Between messages. CR and LF are skipped; a token byte begins a
    /// message, of which nothing is known yet but the consumer's request to
    /// skip its body.
    pub open spec fn spec_begin(self, b: u8) -> Move {
        if b == CR || b == LF {
            self.quiet()
        } else if is_token(b) {
            Machine {
                kind: self.mode,
                state: State::Token,
                pending: Some(Notice::MessageBegin),
                method: Method::HTTP_DELETE,
                http_major: 0,
                http_minor: 0,
                status_code: 0,
                flags: Flags::fresh(self.flags.skip_body),
                header: Header::Other,
                gap: false,
                acc: push7(0, b),
                span_len: 0,
                content_length: 0,
                ..self
            }.quiet()
        } else if self.mode == Type::HTTP_RESPONSE {
            self.fail(Error::HPE_INVALID_CONSTANT).quiet()
        } else {
            self.fail(Error::HPE_INVALID_METHOD).quiet()
        }
    }

    /// Computes `spec_begin`.
    #[verifier::when_used_as_spec(spec_begin)]
    pub fn begin(self, b: u8) -> (r: Move)
        ensures
            r == self.spec_begin(b),
    {
        if b == CR || b == LF {
            self.quiet()
        } else if is_token(b) {
            Machine {
                kind: self.mode,
                state: State::Token,
                pending: Some(Notice::MessageBegin),
                method: Method::HTTP_DELETE,
                http_major: 0,
                http_minor: 0,
                status_code: 0,
                flags: Flags::fresh(self.flags.skip_body),
                header: Header::Other,
                gap: false,
                acc: push7(0, b),
                span_len: 0,
                content_length: 0,
                ..self
            }.quiet()
        } else if self.mode == Type::HTTP_RESPONSE {
            self.fail(Error::HPE_INVALID_CONSTANT).quiet()
        } else {
            self.fail(Error::HPE_INVALID_METHOD).quiet()
        }
    }

    /// In the first token. A space ends a method and makes the message a
    /// request; a slash ends `HTTP` and makes it a response.
    pub open spec fn spec_first_token(self, b: u8) -> Move {
        if is_token(b) {
            Machine { acc: push7(self.acc, b), ..self }.quiet()
        } else if b == SP && self.mode != Type::HTTP_RESPONSE {
            match Method::from_code(self.acc) {
                Some(method) => Machine {
                    kind: Type::HTTP_REQUEST,
                    state: State::UrlStart,
                    method,
                    ..self
                }.quiet(),
                None => self.fail(Error::HPE_INVALID_METHOD).quiet(),
            }
        } else if b == SLASH && self.mode != Type::HTTP_REQUEST && self.acc == TOKEN_HTTP {
            Machine { kind: Type::HTTP_RESPONSE, state: State::VersionMajor, ..self }.quiet()
        } else if self.mode == Type::HTTP_RESPONSE {
            self.fail(Error::HPE_INVALID_CONSTANT).quiet()
        } else {
            self.fail(Error::HPE_INVALID_METHOD).quiet()
        }
    }

    /// Computes `spec_first_token`.
    #[verifier::when_used_as_spec(spec_first_token)]
    pub fn first_token(self, b: u8) -> (r: Move)
        ensures
            r == self.spec_first_token(b),
    {
        if is_token(b) {
            Machine { acc: push7(self.acc, b), ..self }.quiet()
        } else if b == SP && self.mode != Type::HTTP_RESPONSE {
            match Method::from_code(self.acc) {
                Some(method) => Machine {
                    kind: Type::HTTP_REQUEST,
                    state: State::UrlStart,
                    method,
                    ..self
                }.quiet(),
                None => self.fail(Error::HPE_INVALID_METHOD).quiet(),
            }
        } else if b == SLASH && self.mode != Type::HTTP_REQUEST && self.acc == TOKEN_HTTP {
            Machine { kind: Type::HTTP_RESPONSE, state: State::VersionMajor, ..self }.quiet()
        } else if self.mode == Type::HTTP_RESPONSE {
            self.fail(Error::HPE_INVALID_CONSTANT).quiet()
        } else {
            self.fail(Error::HPE_INVALID_METHOD).quiet()
        }
    }

    /// In the request target, or before its first byte. The space that
    /// ends it may not be its first byte.
    pub open spec fn spec_url(self, b: u8) -> Move {
        if is_url_char(b) {
            self.goto(State::Url).carry(DataKind::Url)
        } else if b == SP && self.state == State::Url {
            Machine { acc: 0, ..self.announce(State::Protocol, Notice::UrlComplete) }.quiet()
        } else {
            self.fail(Error::HPE_INVALID_URL).quiet()
        }
    }

    /// Computes `spec_url`.
    #[verifier::when_used_as_spec(spec_url)]
    pub fn url(self, b: u8) -> (r: Move)
        ensures
            r == self.spec_url(b),
    {
        if is_url_char(b) {
            self.goto(State::Url).carry(DataKind::Url)
        } else if b == SP && self.state == State::Url {
            Machine { acc: 0, ..self.announce(State::Protocol, Notice::UrlComplete) }.quiet()
        } else {
            self.fail(Error::HPE_INVALID_URL).quiet()
        }
    }

    /// In the protocol name of a request line.
    pub open spec fn spec_protocol(self, b: u8) -> Move {
        if is_token(b) {
            Machine { acc: push7(self.acc, b), ..self }.quiet()
        } else if b == SLASH && self.acc == TOKEN_HTTP {
            self.goto(State::VersionMajor).quiet()
        } else {
            self.fail(Error::HPE_INVALID_CONSTANT).quiet()
        }
    }

    /// Computes `spec_protocol`.
    #[verifier::when_used_as_spec(spec_protocol)]
    pub fn protocol(self, b: u8) -> (r: Move)
        ensures
            r == self.spec_protocol(b),
    {
        if is_token(b) {
            Machine { acc: push7(self.acc, b), ..self }.quiet()
        } else if b == SLASH && self.acc == TOKEN_HTTP {
            self.goto(State::VersionMajor).quiet()
        } else {
            self.fail(Error::HPE_INVALID_CONSTANT).quiet()
        }
    }

    /// In the version: a digit, a dot, a digit.
    pub open spec fn spec_version(self, b: u8) -> Move {
        match self.state {
            State::VersionMajor => match digit_value(b) {
                Some(d) => Machine { http_major: d, state: State::VersionDot, ..self }.quiet(),
                None => self.fail(Error::HPE_INVALID_VERSION).quiet(),
            },
            State::VersionDot => if b == DOT {
                self.goto(State::VersionMinor).quiet()
            } else {
                self.fail(Error::HPE_INVALID_VERSION).quiet()
            },
            _ => match digit_value(b) {
                Some(d) => Machine {
                    http_minor: d,
                    state: if self.kind == Type::HTTP_REQUEST {
                        State::RequestEnd
                    } else {
                        State::StatusSpace
                    },
                    ..self
                }.quiet(),
                None => self.fail(Error::HPE_INVALID_VERSION).quiet(),
            },
        }
    }

    /// Computes `spec_version`.
    #[verifier::when_used_as_spec(spec_version)]
    pub fn version(self, b: u8) -> (r: Move)
        ensures
            r == self.spec_version(b),
    {
        match self.state {
            State::VersionMajor => match digit_value(b) {
                Some(d) => Machine { http_major: d, state: State::VersionDot, ..self }.quiet(),
                None => self.fail(Error::HPE_INVALID_VERSION).quiet(),
            },
            State::VersionDot => if b == DOT {
                self.goto(State::VersionMinor).quiet()
            } else {
                self.fail(Error::HPE_INVALID_VERSION).quiet()
            },
            _ => match digit_value(b) {
                Some(d) => Machine {
                    http_minor: d,
                    state: if self.kind == Type::HTTP_REQUEST {
                        State::RequestEnd
                    } else {
                        State::StatusSpace
                    },
                    ..self
                }.quiet(),
                None => self.fail(Error::HPE_INVALID_VERSION).quiet(),
            },
        }
    }

    /// After the version of a request line.
    pub open spec fn spec_request_end(self, b: u8) -> Move {
        if b == CR {
            self.goto(State::LineLf).quiet()
        } else if b == LF && self.options.lenient_lf {
            Machine { span_len: 0, ..self.goto(State::HeaderStart) }.quiet()
        } else {
            self.fail(Error::HPE_CR_EXPECTED).quiet()
        }
    }

    /// Computes `spec_request_end`.
    #[verifier::when_used_as_spec(spec_request_end)]
    pub fn request_end(self, b: u8) -> (r: Move)
        ensures
            r == self.spec_request_end(b),
    {
        if b == CR {
            self.goto(State::LineLf).quiet()
        } else if b == LF && self.options.lenient_lf {
            Machine { span_len: 0, ..self.goto(State::HeaderStart) }.quiet()
        } else {
            self.fail(Error::HPE_CR_EXPECTED).quiet()
        }
    }

    /// In the status code: a space, then three digits, of which `acc`
    /// counts those read.
    pub open spec fn spec_status_digits(self, b: u8) -> Move {
        if self.state == State::StatusSpace {
            if b == SP {
                Machine { acc: 0, status_code: 0, ..self.goto(State::StatusCode) }.quiet()
            } else {
                self.fail(Error::HPE_INVALID_VERSION).quiet()
            }
        } else {
            match digit_value(b) {
                Some(d) => if self.status_code < 100 && self.acc < 3 {
                    Machine {
                        status_code: (self.status_code * 10 + (d as u16)) as u16,
                        acc: (self.acc + 1) as u128,
                        state: if self.acc == 2 {
                            State::StatusEnd
                        } else {
                            State::StatusCode
                        },
                        ..self
                    }.quiet()
                } else {
                    self.fail(Error::HPE_INVALID_STATUS).quiet()
                },
                None => self.fail(Error::HPE_INVALID_STATUS).quiet(),
            }
        }
    }

    /// Computes `spec_status_digits`.
    #[verifier::when_used_as_spec(spec_status_digits)]
    pub fn status_digits(self, b: u8) -> (r: Move)
        ensures
            r == self.spec_status_digits(b),
    {
        if self.state == State::StatusSpace {
            if b == SP {
                Machine { acc: 0, status_code: 0, ..self.goto(State::StatusCode) }.quiet()
            } else {
                self.fail(Error::HPE_INVALID_VERSION).quiet()
            }
        } else {
            match digit_value(b) {
                Some(d) => if self.status_code < 100 && self.acc < 3 {
                    Machine {
                        status_code: (self.status_code * 10 + (d as u16)) as u16,
                        acc: (self.acc + 1) as u128,
                        state: if self.acc == 2 {
                            State::StatusEnd
                        } else {
                            State::StatusCode
                        },
                        ..self
                    }.quiet()
                } else {
                    self.fail(Error::HPE_INVALID_STATUS).quiet()
                },
                None => self.fail(Error::HPE_INVALID_STATUS).quiet(),
            }
        }
    }

    /// After the status code, or in the reason phrase.
    pub open spec fn spec_reason(self, b: u8) -> Move {
        if b == CR {
            self.announce(State::LineLf, Notice::StatusComplete).quiet()
        } else if b == LF && self.options.lenient_lf {
            Machine {
                span_len: 0,
                ..self.announce(State::HeaderStart, Notice::StatusComplete)
            }.quiet()
        } else if self.state == State::StatusEnd {
            if b == SP {
                self.goto(State::Reason).quiet()
            } else {
                self.fail(Error::HPE_INVALID_STATUS).quiet()
            }
        } else if is_text(b) {
            self.carry(DataKind::Status)
        } else {
            self.fail(Error::HPE_INVALID_STATUS).quiet()
        }
    }

    /// Computes `spec_reason`.
    #[verifier::when_used_as_spec(spec_reason)]
    pub fn reason(self, b: u8) -> (r: Move)
        ensures
            r == self.spec_reason(b),
    {
        if b == CR {
            self.announce(State::LineLf, Notice::StatusComplete).quiet()
        } else if b == LF && self.options.lenient_lf {
            Machine {
                span_len: 0,
                ..self.announce(State::HeaderStart, Notice::StatusComplete)
            }.quiet()
        } else if self.state == State::StatusEnd {
            if b == SP {
                self.goto(State::Reason).quiet()
            } else {
                self.fail(Error::HPE_INVALID_STATUS).quiet()
            }
        } else if is_text(b) {
            self.carry(DataKind::Status)
        } else {
            self.fail(Error::HPE_INVALID_STATUS).quiet()
        }
    }

    /// After a CR, where only LF may follow.
    pub open spec fn spec_expect_lf(self, b: u8) -> Move {
        if b != LF {
            self.fail(Error::HPE_LF_EXPECTED).quiet()
        } else {
            match self.state {
                State::LineLf => Machine { span_len: 0, ..self.goto(State::HeaderStart) }.quiet(),
                State::ValueLf => self.end_of_value().quiet(),
                State::HeadersLf => self.end_of_headers().quiet(),
                State::ChunkSizeLf => self.end_of_chunk_size().quiet(),
                _ => self.end_of_chunk().quiet(),
            }
        }
    }

    /// Computes `spec_expect_lf`.
    #[verifier::when_used_as_spec(spec_expect_lf)]
    pub fn expect_lf(self, b: u8) -> (r: Move)
        ensures
            r == self.spec_expect_lf(b),
    {
        if b != LF {
            self.fail(Error::HPE_LF_EXPECTED).quiet()
        } else {
            match self.state {
                State::LineLf => Machine { span_len: 0, ..self.goto(State::HeaderStart) }.quiet(),
                State::ValueLf => self.end_of_value().quiet(),
                State::HeadersLf => self.end_of_headers().quiet(),
                State::ChunkSizeLf => self.end_of_chunk_size().quiet(),
                _ => self.end_of_chunk().quiet(),
            }
        }
    }

    /// The empty line was read: the headers are complete, or the trailers
    /// and with them the last chunk and the message.
    pub open spec fn spec_end_of_headers(self) -> Machine {
        if self.flags.trailers {
            self.announce(State::MessageDone, Notice::ChunkComplete)
        } else {
            self.announce(State::HeadersDone, Notice::HeadersComplete)
        }
    }

    /// Computes `spec_end_of_headers`.
    #[verifier::when_used_as_spec(spec_end_of_headers)]
    pub fn end_of_headers(self) -> (r: Machine)
        ensures
            r == self.spec_end_of_headers(),
    {
        if self.flags.trailers {
            self.announce(State::MessageDone, Notice::ChunkComplete)
        } else {
            self.announce(State::HeadersDone, Notice::HeadersComplete)
        }
    }

    /// The line of a field value was read.
    pub open spec fn spec_end_of_value(self) -> Machine {
        Machine { span_len: 0, ..self.announce(State::HeaderStart, Notice::HeaderValueComplete) }
    }

    /// Computes `spec_end_of_value`.
    #[verifier::when_used_as_spec(spec_end_of_value)]
    pub fn end_of_value(self) -> (r: Machine)
        ensures
            r == self.spec_end_of_value(),
    {
        Machine { span_len: 0, ..self.announce(State::HeaderStart, Notice::HeaderValueComplete) }
    }

    /// At the start of a header line. A token byte begins a field name; CR
    /// begins the empty line. A blank here would continue the line before,
    /// which is not accepted.
    pub open spec fn spec_header_start(self, b: u8) -> Move {
        if b == CR {
            self.goto(State::HeadersLf).quiet()
        } else if b == LF && self.options.lenient_lf {
            self.end_of_headers().quiet()
        } else if is_token(b) {
            if self.options.max_header_len == 0 {
                self.fail(Error::HPE_HEADER_OVERFLOW).quiet()
            } else {
                Machine {
                    state: State::HeaderField,
                    acc: push7(0, lower(b)),
                    span_len: 1,
                    ..self
                }.carry(DataKind::HeaderField)
            }
        } else {
            self.fail(Error::HPE_INVALID_HEADER_TOKEN).quiet()
        }
    }

    /// Computes `spec_header_start`.
    #[verifier::when_used_as_spec(spec_header_start)]
    pub fn header_start(self, b: u8) -> (r: Move)
        ensures
            r == self.spec_header_start(b),
    {
        if b == CR {
            self.goto(State::HeadersLf).quiet()
        } else if b == LF && self.options.lenient_lf {
            self.end_of_headers().quiet()
        } else if is_token(b) {
            if self.options.max_header_len == 0 {
                self.fail(Error::HPE_HEADER_OVERFLOW).quiet()
            } else {
                Machine {
                    state: State::HeaderField,
                    acc: push7(0, lower(b)),
                    span_len: 1,
                    ..self
                }.carry(DataKind::HeaderField)
            }
        } else {
            self.fail(Error::HPE_INVALID_HEADER_TOKEN).quiet()
        }
    }

    /// In a field name, or after it. The colon ends it and tells, outside
    /// the trailers, whether the parser reads the value itself. A blank
    /// after the name is an error unless the options say to skip it.
    pub open spec fn spec_header_field(self, b: u8) -> Move {
        if b == COLON {
            Machine {
                header: if self.flags.trailers {
                    Header::Other
                } else {
                    Header::classify(self.acc)
                },
                gap: false,
                acc: 0,
                span_len: 0,
                ..self.announce(State::ValueStart, Notice::HeaderFieldComplete)
            }.quiet()
        } else if is_blank(b) && self.options.lenient_header_space {
            self.goto(State::HeaderFieldEnd).quiet()
        } else if is_token(b) && self.state == State::HeaderField {
            if self.span_len >= self.options.max_header_len {
                self.fail(Error::HPE_HEADER_OVERFLOW).quiet()
            } else {
                Machine {
                    acc: push7(self.acc, lower(b)),
                    span_len: (self.span_len + 1) as u64,
                    ..self
                }.carry(DataKind::HeaderField)
            }
        } else {
            self.fail(Error::HPE_INVALID_HEADER_TOKEN).quiet()
        }
    }

    /// Computes `spec_header_field`.
    #[verifier::when_used_as_spec(spec_header_field)]
    pub fn header_field(self, b: u8) -> (r: Move)
        ensures
            r == self.spec_header_field(b),
    {
        if b == COLON {
            Machine {
                header: if self.flags.trailers {
                    Header::Other
                } else {
                    Header::classify(self.acc)
                },
                gap: false,
                acc: 0,
                span_len: 0,
                ..self.announce(State::ValueStart, Notice::HeaderFieldComplete)
            }.quiet()
        } else if is_blank(b) && self.options.lenient_header_space {
            self.goto(State::HeaderFieldEnd).quiet()
        } else if is_token(b) && self.state == State::HeaderField {
            if self.span_len >= self.options.max_header_len {
                self.fail(Error::HPE_HEADER_OVERFLOW).quiet()
            } else {
                Machine {
                    acc: push7(self.acc, lower(b)),
                    span_len: (self.span_len + 1) as u64,
                    ..self
                }.carry(DataKind::HeaderField)
            }
        } else {
            self.fail(Error::HPE_INVALID_HEADER_TOKEN).quiet()
        }
    }

    /// A token of a `Connection` or `Transfer-Encoding` value has ended.
    /// The last transfer coding named decides whether the body is chunked.
    pub open spec fn spec_end_token(self) -> Machine {
        match self.header {
            Header::Connection => if self.acc == TOKEN_KEEP_ALIVE {
                Machine { flags: Flags { keep_alive: true, ..self.flags }, ..self }
            } else if self.acc == TOKEN_CLOSE {
                Machine { flags: Flags { close: true, ..self.flags }, ..self }
            } else if self.acc == TOKEN_UPGRADE {
                Machine { flags: Flags { connection_upgrade: true, ..self.flags }, ..self }
            } else {
                self
            },
            Header::TransferEncoding => if self.acc == 0 {
                self
            } else {
                Machine { flags: Flags { chunked: self.acc
                    == TOKEN_CHUNKED, ..self.flags }, ..self }
            },
            _ => self,
        }
    }

    /// Computes `spec_end_token`.
    #[verifier::when_used_as_spec(spec_end_token)]
    pub fn end_token(self) -> (r: Machine)
        ensures
            r == self.spec_end_token(),
    {
        match self.header {
            Header::Connection => if self.acc == TOKEN_KEEP_ALIVE {
                Machine { flags: Flags { keep_alive: true, ..self.flags }, ..self }
            } else if self.acc == TOKEN_CLOSE {
                Machine { flags: Flags { close: true, ..self.flags }, ..self }
            } else if self.acc == TOKEN_UPGRADE {
                Machine { flags: Flags { connection_upgrade: true, ..self.flags }, ..self }
            } else {
                self
            },
            Header::TransferEncoding => if self.acc == 0 {
                self
            } else {
                Machine { flags: Flags { chunked: self.acc
                    == TOKEN_CHUNKED, ..self.flags }, ..self }
            },
            _ => self,
        }
    }

    /// A field value has ended: what it declares is recorded. A
    /// `Content-Length` value must hold a number that fits 64 bits, and the
    /// same number as an earlier one.
    pub open spec fn spec_finish_value(self) -> Machine {
        match self.header {
            Header::ContentLength => if self.span_len == 0 || self.acc > 0xffff_ffff_ffff_ffffu128 {
                self.fail(Error::HPE_INVALID_CONTENT_LENGTH)
            } else if self.flags.content_length && (self.content_length as u128) != self.acc {
                self.fail(Error::HPE_UNEXPECTED_CONTENT_LENGTH)
            } else {
                Machine {
                    content_length: self.acc as u64,
                    flags: Flags { content_length: true, ..self.flags },
                    ..self
                }
            },
            Header::TransferEncoding => Machine {
                flags: Flags { transfer_encoding: true, ..self.end_token().flags },
                ..self
            },
            Header::Connection => self.end_token(),
            Header::Upgrade => Machine { flags: Flags { upgrade: true, ..self.flags }, ..self },
            Header::Other => self,
        }
    }

    /// Computes `spec_finish_value`.
    #[verifier::when_used_as_spec(spec_finish_value)]
    pub fn finish_value(self) -> (r: Machine)
        ensures
            r == self.spec_finish_value(),
    {
        match self.header {
            Header::ContentLength => if self.span_len == 0 || self.acc > 0xffff_ffff_ffff_ffffu128 {
                self.fail(Error::HPE_INVALID_CONTENT_LENGTH)
            } else if self.flags.content_length && (self.content_length as u128) != self.acc {
                self.fail(Error::HPE_UNEXPECTED_CONTENT_LENGTH)
            } else {
                Machine {
                    content_length: self.acc as u64,
                    flags: Flags { content_length: true, ..self.flags },
                    ..self
                }
            },
            Header::TransferEncoding => Machine {
                flags: Flags { transfer_encoding: true, ..self.end_token().flags },
                ..self
            },
            Header::Connection => self.end_token(),
            Header::Upgrade => Machine { flags: Flags { upgrade: true, ..self.flags }, ..self },
            Header::Other => self,
        }
    }

    /// A byte of a field value. In a `Content-Length` value only digits and
    /// blanks after them are accepted; in a list of tokens a comma or a
    /// blank ends a token.
    pub open spec fn spec_value_byte(self, b: u8) -> Move {
        if self.span_len >= self.options.max_header_len {
            self.fail(Error::HPE_HEADER_OVERFLOW).quiet()
        } else {
            match self.header {
                Header::ContentLength => match digit_value(b) {
                    Some(d) => if self.gap
                        || self.acc > (0xffff_ffff_ffff_ffffu128 - (d as u128)) / 10 {
                        self.fail(Error::HPE_INVALID_CONTENT_LENGTH).quiet()
                    } else {
                        Machine {
                            state: State::Value,
                            acc: (self.acc * 10 + (d as u128)) as u128,
                            span_len: (self.span_len + 1) as u64,
                            ..self
                        }.carry(DataKind::HeaderValue)
                    },
                    None => if is_blank(b) {
                        Machine {
                            state: State::Value,
                            gap: true,
                            span_len: (self.span_len + 1) as u64,
                            ..self
                        }.carry(DataKind::HeaderValue)
                    } else {
                        self.fail(Error::HPE_INVALID_CONTENT_LENGTH).quiet()
                    },
                },
                Header::Connection | Header::TransferEncoding => if is_token(b) {
                    Machine {
                        state: State::Value,
                        acc: push7(self.acc, lower(b)),
                        span_len: (self.span_len + 1) as u64,
                        ..self
                    }.carry(DataKind::HeaderValue)
                } else if is_blank(b) || b == COMMA {
                    Machine {
                        state: State::Value,
                        acc: 0,
                        span_len: (self.span_len + 1) as u64,
                        ..self.end_token()
                    }.carry(DataKind::HeaderValue)
                } else {
                    Machine {
                        state: State::Value,
                        acc: PACK_NONE,
                        span_len: (self.span_len + 1) as u64,
                        ..self
                    }.carry(DataKind::HeaderValue)
                },
                _ => Machine {
                    state: State::Value,
                    span_len: (self.span_len + 1) as u64,
                    ..self
                }.carry(DataKind::HeaderValue),
            }
        }
    }

    /// Computes `spec_value_byte`.
    #[verifier::when_used_as_spec(spec_value_byte)]
    pub fn value_byte(self, b: u8) -> (r: Move)
        ensures
            r == self.spec_value_byte(b),
    {
        if self.span_len >= self.options.max_header_len {
            self.fail(Error::HPE_HEADER_OVERFLOW).quiet()
        } else {
            match self.header {
                Header::ContentLength => match digit_value(b) {
                    Some(d) => if self.gap
                        || self.acc > (0xffff_ffff_ffff_ffffu128 - (d as u128)) / 10 {
                        self.fail(Error::HPE_INVALID_CONTENT_LENGTH).quiet()
                    } else {
                        Machine {
                            state: State::Value,
                            acc: (self.acc * 10 + (d as u128)) as u128,
                            span_len: (self.span_len + 1) as u64,
                            ..self
                        }.carry(DataKind::HeaderValue)
                    },
                    None => if is_blank(b) {
                        Machine {
                            state: State::Value,
                            gap: true,
                            span_len: (self.span_len + 1) as u64,
                            ..self
                        }.carry(DataKind::HeaderValue)
                    } else {
                        self.fail(Error::HPE_INVALID_CONTENT_LENGTH).quiet()
                    },
                },
                Header::Connection | Header::TransferEncoding => if is_token(b) {
                    Machine {
                        state: State::Value,
                        acc: push7(self.acc, lower(b)),
                        span_len: (self.span_len + 1) as u64,
                        ..self
                    }.carry(DataKind::HeaderValue)
                } else if is_blank(b) || b == COMMA {
                    Machine {
                        state: State::Value,
                        acc: 0,
                        span_len: (self.span_len + 1) as u64,
                        ..self.end_token()
                    }.carry(DataKind::HeaderValue)
                } else {
                    Machine {
                        state: State::Value,
                        acc: PACK_NONE,
                        span_len: (self.span_len + 1) as u64,
                        ..self
                    }.carry(DataKind::HeaderValue)
                },
                _ => Machine {
                    state: State::Value,
                    span_len: (self.span_len + 1) as u64,
                    ..self
                }.carry(DataKind::HeaderValue),
            }
        }
    }

    /// After the colon, or in the field value. Blanks before the value are
    /// skipped; the end of the line ends the value.
    pub open spec fn spec_header_value(self, b: u8) -> Move {
        if b == CR {
            if self.finish_value().halted() {
                self.finish_value().quiet()
            } else {
                self.finish_value().goto(State::ValueLf).quiet()
            }
        } else if b == LF && self.options.lenient_lf {
            if self.finish_value().halted() {
                self.finish_value().quiet()
            } else {
                self.finish_value().end_of_value().quiet()
            }
        } else if self.state == State::ValueStart && is_blank(b) {
            self.quiet()
        } else if is_text(b) {
            self.value_byte(b)
        } else {
            self.fail(Error::HPE_INVALID_HEADER_TOKEN).quiet()
        }
    }

    /// Computes `spec_header_value`.
    #[verifier::when_used_as_spec(spec_header_value)]
    pub fn header_value(self, b: u8) -> (r: Move)
        ensures
            r == self.spec_header_value(b),
    {
        if b == CR {
            if self.finish_value().halted() {
                self.finish_value().quiet()
            } else {
                self.finish_value().goto(State::ValueLf).quiet()
            }
        } else if b == LF && self.options.lenient_lf {
            if self.finish_value().halted() {
                self.finish_value().quiet()
            } else {
                self.finish_value().end_of_value().quiet()
            }
        } else if self.state == State::ValueStart && is_blank(b) {
            self.quiet()
        } else if is_text(b) {
            self.value_byte(b)
        } else {
            self.fail(Error::HPE_INVALID_HEADER_TOKEN).quiet()
        }
    }

    /// In a body. Under `Content-Length` and in a chunk the bytes still
    /// expected are counted down, and the last one ends the body or the
    /// chunk's data.
    pub open spec fn spec_body_byte(self) -> Move {
        match self.state {
            State::BodyUntilClose => self.carry(DataKind::Body),
            State::BodyIdentity => if self.content_length <= 1 {
                Machine { content_length: 0, ..self.goto(State::MessageDone) }.carry(DataKind::Body)
            } else {
                Machine { content_length: (self.content_length - 1) as u64, ..self }.carry(
                    DataKind::Body,
                )
            },
            _ => if self.content_length <= 1 {
                Machine { content_length: 0, ..self.goto(State::ChunkDataCr) }.carry(DataKind::Body)
            } else {
                Machine { content_length: (self.content_length - 1) as u64, ..self }.carry(
                    DataKind::Body,
                )
            },
        }
    }

    /// Computes `spec_body_byte`.
    #[verifier::when_used_as_spec(spec_body_byte)]
    pub fn body_byte(self) -> (r: Move)
        ensures
            r == self.spec_body_byte(),
    {
        match self.state {
            State::BodyUntilClose => self.carry(DataKind::Body),
            State::BodyIdentity => if self.content_length <= 1 {
                Machine { content_length: 0, ..self.goto(State::MessageDone) }.carry(DataKind::Body)
            } else {
                Machine { content_length: (self.content_length - 1) as u64, ..self }.carry(
                    DataKind::Body,
                )
            },
            _ => if self.content_length <= 1 {
                Machine { content_length: 0, ..self.goto(State::ChunkDataCr) }.carry(DataKind::Body)
            } else {
                Machine { content_length: (self.content_length - 1) as u64, ..self }.carry(
                    DataKind::Body,
                )
            },
        }
    }

    /// The line of a chunk size was read. The chunk of size 0 is the last:
    /// header lines that follow are trailers.
    pub open spec fn spec_end_of_chunk_size(self) -> Machine {
        if self.content_length == 0 {
            Machine {
                flags: Flags { trailers: true, ..self.flags },
                span_len: 0,
                ..self.announce(State::HeaderStart, Notice::ChunkHeader)
            }
        } else {
            self.announce(State::ChunkData, Notice::ChunkHeader)
        }
    }

    /// Computes `spec_end_of_chunk_size`.
    #[verifier::when_used_as_spec(spec_end_of_chunk_size)]
    pub fn end_of_chunk_size(self) -> (r: Machine)
        ensures
            r == self.spec_end_of_chunk_size(),
    {
        if self.content_length == 0 {
            Machine {
                flags: Flags { trailers: true, ..self.flags },
                span_len: 0,
                ..self.announce(State::HeaderStart, Notice::ChunkHeader)
            }
        } else {
            self.announce(State::ChunkData, Notice::ChunkHeader)
        }
    }

    /// The line end after a chunk's data was read.
    pub open spec fn spec_end_of_chunk(self) -> Machine {
        self.announce(State::ChunkSizeStart, Notice::ChunkComplete)
    }

    /// Computes `spec_end_of_chunk`.
    #[verifier::when_used_as_spec(spec_end_of_chunk)]
    pub fn end_of_chunk(self) -> (r: Machine)
        ensures
            r == self.spec_end_of_chunk(),
    {
        self.announce(State::ChunkSizeStart, Notice::ChunkComplete)
    }

    /// In the size of a chunk: hexadecimal digits, of which there is at
    /// least one, up to the limit.
    pub open spec fn spec_chunk_size(self, b: u8) -> Move {
        match hex_value(b) {
            Some(d) => if self.state == State::ChunkSizeStart {
                if (d as u64) > self.options.max_chunk_size {
                    self.fail(Error::HPE_CHUNK_TOO_LARGE).quiet()
                } else {
                    Machine { content_length: d as u64, ..self.goto(State::ChunkSize) }.quiet()
                }
            } else if (d as u64) > self.options.max_chunk_size || self.content_length > (
            self.options.max_chunk_size - (d as u64)) / 16 {
                self.fail(Error::HPE_CHUNK_TOO_LARGE).quiet()
            } else {
                Machine {
                    content_length: (self.content_length * 16 + (d as u64)) as u64,
                    ..self
                }.quiet()
            },
            None => if self.state == State::ChunkSizeStart {
                self.fail(Error::HPE_INVALID_CHUNK_SIZE).quiet()
            } else if b == CR {
                self.goto(State::ChunkSizeLf).quiet()
            } else if b == LF && self.options.lenient_lf {
                self.end_of_chunk_size().quiet()
            } else if b == SEMICOLON && !self.options.reject_chunk_extensions {
                self.goto(State::ChunkExtension).quiet()
            } else {
                self.fail(Error::HPE_INVALID_CHUNK_SIZE).quiet()
            },
        }
    }

    /// Computes `spec_chunk_size`.
    #[verifier::when_used_as_spec(spec_chunk_size)]
    pub fn chunk_size(self, b: u8) -> (r: Move)
        ensures
            r == self.spec_chunk_size(b),
    {
        match hex_value(b) {
            Some(d) => if self.state == State::ChunkSizeStart {
                if (d as u64) > self.options.max_chunk_size {
                    self.fail(Error::HPE_CHUNK_TOO_LARGE).quiet()
                } else {
                    Machine { content_length: d as u64, ..self.goto(State::ChunkSize) }.quiet()
                }
            } else if (d as u64) > self.options.max_chunk_size || self.content_length > (
            self.options.max_chunk_size - (d as u64)) / 16 {
                self.fail(Error::HPE_CHUNK_TOO_LARGE).quiet()
            } else {
                Machine {
                    content_length: (self.content_length * 16 + (d as u64)) as u64,
                    ..self
                }.quiet()
            },
            None => if self.state == State::ChunkSizeStart {
                self.fail(Error::HPE_INVALID_CHUNK_SIZE).quiet()
            } else if b == CR {
                self.goto(State::ChunkSizeLf).quiet()
            } else if b == LF && self.options.lenient_lf {
                self.end_of_chunk_size().quiet()
            } else if b == SEMICOLON && !self.options.reject_chunk_extensions {
                self.goto(State::ChunkExtension).quiet()
            } else {
                self.fail(Error::HPE_INVALID_CHUNK_SIZE).quiet()
            },
        }
    }

    /// In a chunk extension, which is skipped.
    pub open spec fn spec_chunk_extension(self, b: u8) -> Move {
        if b == CR {
            self.goto(State::ChunkSizeLf).quiet()
        } else if b == LF && self.options.lenient_lf {
            self.end_of_chunk_size().quiet()
        } else if is_text(b) {
            self.quiet()
        } else {
            self.fail(Error::HPE_INVALID_CHUNK_SIZE).quiet()
        }
    }

    /// Computes `spec_chunk_extension`.
    #[verifier::when_used_as_spec(spec_chunk_extension)]
    pub fn chunk_extension(self, b: u8) -> (r: Move)
        ensures
            r == self.spec_chunk_extension(b),
    {
        if b == CR {
            self.goto(State::ChunkSizeLf).quiet()
        } else if b == LF && self.options.lenient_lf {
            self.end_of_chunk_size().quiet()
        } else if is_text(b) {
            self.quiet()
        } else {
            self.fail(Error::HPE_INVALID_CHUNK_SIZE).quiet()
        }
    }

    /// After the data of a chunk.
    pub open spec fn spec_chunk_data_end(self, b: u8) -> Move {
        if b == CR {
            self.goto(State::ChunkDataLf).quiet()
        } else if b == LF && self.options.lenient_lf {
            self.end_of_chunk().quiet()
        } else {
            self.fail(Error::HPE_CR_EXPECTED).quiet()
        }
    }

    /// Computes `spec_chunk_data_end`.
    #[verifier::when_used_as_spec(spec_chunk_data_end)]
    pub fn chunk_data_end(self, b: u8) -> (r: Move)
        ensures
            r == self.spec_chunk_data_end(b),
    {
        if b == CR {
            self.goto(State::ChunkDataLf).quiet()
        } else if b == LF && self.options.lenient_lf {
            self.end_of_chunk().quiet()
        } else {
            self.fail(Error::HPE_CR_EXPECTED).quiet()
        }
    }

    /// After a message that ends the connection: line ends are skipped,
    /// and anything else is an error unless the options say to skip it.
    pub open spec fn spec_after_close(self, b: u8) -> Move {
        if b == CR || b == LF || self.options.lenient_data_after_close {
            self.quiet()
        } else {
            self.fail(Error::HPE_CLOSED_CONNECTION).quiet()
        }
    }

    /// Computes `spec_after_close`.
    #[verifier::when_used_as_spec(spec_after_close)]
    pub fn after_close(self, b: u8) -> (r: Move)
        ensures
            r == self.spec_after_close(b),
    {
        if b == CR || b == LF || self.options.lenient_data_after_close {
            self.quiet()
        } else {
            self.fail(Error::HPE_CLOSED_CONNECTION).quiet()
        }
    }

    /// What the byte `b` does in the state that the machine is in.
    #[verifier::opaque]
    pub open spec fn spec_transition(self, b: u8) -> Move {
        match self.state {
            State::Start => self.begin(b),
            State::Token => self.first_token(b),
            State::UrlStart | State::Url => self.url(b),
            State::Protocol => self.protocol(b),
            State::VersionMajor | State::VersionDot | State::VersionMinor => self.version(b),
            State::RequestEnd => self.request_end(b),
            State::StatusSpace | State::StatusCode => self.status_digits(b),
            State::StatusEnd | State::Reason => self.reason(b),
            State::LineLf | State::ValueLf | State::HeadersLf | State::ChunkSizeLf
            | State::ChunkDataLf => self.expect_lf(b),
            State::HeaderStart => self.header_start(b),
            State::HeaderField | State::HeaderFieldEnd => self.header_field(b),
            State::ValueStart | State::Value => self.header_value(b),
            State::BodyIdentity | State::BodyUntilClose | State::ChunkData => self.body_byte(),
            State::ChunkSizeStart | State::ChunkSize => self.chunk_size(b),
            State::ChunkExtension => self.chunk_extension(b),
            State::ChunkDataCr => self.chunk_data_end(b),
            State::Closed => self.after_close(b),
            _ => self.quiet(),
        }
    }

    /// Computes `spec_transition`.
    #[verifier::when_used_as_spec(spec_transition)]
    pub fn transition(self, b: u8) -> (r: Move)
        ensures
            r == self.spec_transition(b),
    {
        proof {
            reveal(Machine::spec_transition);
        }
        match self.state {
            State::Start => self.begin(b),
            State::Token => self.first_token(b),
            State::UrlStart | State::Url => self.url(b),
            State::Protocol => self.protocol(b),
            State::VersionMajor | State::VersionDot | State::VersionMinor => self.version(b),
            State::RequestEnd => self.request_end(b),
            State::StatusSpace | State::StatusCode => self.status_digits(b),
            State::StatusEnd | State::Reason => self.reason(b),
            State::LineLf | State::ValueLf | State::HeadersLf | State::ChunkSizeLf
            | State::ChunkDataLf => self.expect_lf(b),
            State::HeaderStart => self.header_start(b),
            State::HeaderField | State::HeaderFieldEnd => self.header_field(b),
            State::ValueStart | State::Value => self.header_value(b),
            State::BodyIdentity | State::BodyUntilClose | State::ChunkData => self.body_byte(),
            State::ChunkSizeStart | State::ChunkSize => self.chunk_size(b),
            State::ChunkExtension => self.chunk_extension(b),
            State::ChunkDataCr => self.chunk_data_end(b),
            State::Closed => self.after_close(b),
            _ => self.quiet(),
        }
    }

    /// What the byte `b` does to a machine that waits for a byte. A machine
    /// that does not wait is left as it is, and a byte on which the machine
    /// stops is no data.
    #[verifier::opaque]
    pub open spec fn spec_step(self, b: u8) -> Move {
        if !self.ready() {
            self.quiet()
        } else if self.transition(b).next.halted() {
            self.transition(b).next.quiet()
        } else {
            self.transition(b)
        }
    }

    /// Computes `spec_step`.
    #[verifier::when_used_as_spec(spec_step)]
    pub fn step(self, b: u8) -> (r: Move)
        ensures
            r == self.spec_step(b),
    {
        proof {
            reveal(Machine::spec_step);
        }
        if !self.ready() {
            self.quiet()
        } else if self.transition(b).next.halted() {
            self.transition(b).next.quiet()
        } else {
            self.transition(b)
        }
    }
}

impl Machine {
    /// The part of a message that the machine is in, as a number that
    /// grows along the message: between messages, the start line, the
    /// headers, the choice of the framing, the body with its trailers,
    /// the completion, and what follows the message.
    pub open spec fn phase(self) -> nat {
        match self.state {
            State::Start => 0,
            State::Token
            | State::UrlStart
            | State::Url
            | State::Protocol
            | State::VersionMajor
            | State::VersionDot
            | State::VersionMinor
            | State::RequestEnd
            | State::StatusSpace
            | State::StatusCode
            | State::StatusEnd
            | State::Reason
            | State::LineLf => 1,
            State::HeaderStart
            | State::HeaderField
            | State::HeaderFieldEnd
            | State::ValueStart
            | State::Value
            | State::ValueLf
            | State::HeadersLf => if self.flags.trailers {
                4
            } else {
                2
            },
            State::HeadersDone => 3,
            State::BodyIdentity
            | State::BodyUntilClose
            | State::ChunkSizeStart
            | State::ChunkSize
            | State::ChunkExtension
            | State::ChunkSizeLf
            | State::ChunkData
            | State::ChunkDataCr
            | State::ChunkDataLf => 4,
            State::MessageDone => 5,
            State::AfterMessage => 6,
            State::Closed | State::Tunnel => 7,
        }
    }

    /// A machine that does not wait for a byte is left as it is.
    pub proof fn lemma_step_idle(self, b: u8)
        requires
            !self.ready(),
        ensures
            self.step(b) == self.quiet(),
    {
        reveal(Machine::spec_step);
    }

    /// A byte that is data is read without an error.
    pub proof fn lemma_step_data(self, b: u8)
        requires
            self.step(b).data is Some,
        ensures
            self.ready(),
            !self.step(b).next.halted(),
    {
        reveal(Machine::spec_step);
    }
}

impl Machine {
    /// The transition of a machine in `Start`.
    pub proof fn lemma_transition_begin(self, b: u8)
        requires
            self.state == State::Start,
        ensures
            self.transition(b) == self.begin(b),
    {
        reveal(Machine::spec_transition);
    }

    /// The transition of a machine in `Token`.
    pub proof fn lemma_transition_first_token(self, b: u8)
        requires
            self.state == State::Token,
        ensures
            self.transition(b) == self.first_token(b),
    {
        reveal(Machine::spec_transition);
    }

    /// The transition of a machine in `UrlStart` or `Url`.
    pub proof fn lemma_transition_url(self, b: u8)
        requires
            self.state == State::UrlStart || self.state == State::Url,
        ensures
            self.transition(b) == self.url(b),
    {
        reveal(Machine::spec_transition);
    }

    /// The transition of a machine in `Protocol`.
    pub proof fn lemma_transition_protocol(self, b: u8)
        requires
            self.state == State::Protocol,
        ensures
            self.transition(b) == self.protocol(b),
    {
        reveal(Machine::spec_transition);
    }

    /// The transition of a machine in `VersionMajor` or `VersionDot` or `VersionMinor`.
    pub proof fn lemma_transition_version(self, b: u8)
        requires
            self.state == State::VersionMajor || self.state == State::VersionDot || self.state
                == State::VersionMinor,
        ensures
            self.transition(b) == self.version(b),
    {
        reveal(Machine::spec_transition);
    }

    /// The transition of a machine in `RequestEnd`.
    pub proof fn lemma_transition_request_end(self, b: u8)
        requires
            self.state == State::RequestEnd,
        ensures
            self.transition(b) == self.request_end(b),
    {
        reveal(Machine::spec_transition);
    }

    /// The transition of a machine in `StatusSpace` or `StatusCode`.
    pub proof fn lemma_transition_status_digits(self, b: u8)
        requires
            self.state == State::StatusSpace || self.state == State::StatusCode,
        ensures
            self.transition(b) == self.status_digits(b),
    {
        reveal(Machine::spec_transition);
    }

    /// The transition of a machine in `StatusEnd` or `Reason`.
    pub proof fn lemma_transition_reason(self, b: u8)
        requires
            self.state == State::StatusEnd || self.state == State::Reason,
        ensures
            self.transition(b) == self.reason(b),
    {
        reveal(Machine::spec_transition);
    }

    /// The transition of a machine in one of `LineLf`, `ValueLf`, `HeadersLf`,
    /// `ChunkSizeLf`, `ChunkDataLf`.
    pub proof fn lemma_transition_expect_lf(self, b: u8)
        requires
            self.state == State::LineLf || self.state == State::ValueLf || self.state
                == State::HeadersLf || self.state == State::ChunkSizeLf || self.state
                    == State::ChunkDataLf,
        ensures
            self.transition(b) == self.expect_lf(b),
    {
        reveal(Machine::spec_transition);
    }

    /// The transition of a machine in `HeaderStart`.
    pub proof fn lemma_transition_header_start(self, b: u8)
        requires
            self.state == State::HeaderStart,
        ensures
            self.transition(b) == self.header_start(b),
    {
        reveal(Machine::spec_transition);
    }

    /// The transition of a machine in `HeaderField` or `HeaderFieldEnd`.
    pub proof fn lemma_transition_header_field(self, b: u8)
        requires
            self.state == State::HeaderField || self.state == State::HeaderFieldEnd,
        ensures
            self.transition(b) == self.header_field(b),
    {
        reveal(Machine::spec_transition);
    }

    /// The transition of a machine in `ValueStart` or `Value`.
    pub proof fn lemma_transition_header_value(self, b: u8)
        requires
            self.state == State::ValueStart || self.state == State::Value,
        ensures
            self.transition(b) == self.header_value(b),
    {
        reveal(Machine::spec_transition);
    }

    /// The transition of a machine in `BodyIdentity` or `BodyUntilClose` or `ChunkData`.
    pub proof fn lemma_transition_body_byte(self, b: u8)
        requires
            self.state == State::BodyIdentity || self.state == State::BodyUntilClose || self.state
                == State::ChunkData,
        ensures
            self.transition(b) == self.body_byte(),
    {
        reveal(Machine::spec_transition);
    }

    /// The transition of a machine in `ChunkSizeStart` or `ChunkSize`.
    pub proof fn lemma_transition_chunk_size(self, b: u8)
        requires
            self.state == State::ChunkSizeStart || self.state == State::ChunkSize,
        ensures
            self.transition(b) == self.chunk_size(b),
    {
        reveal(Machine::spec_transition);
    }

    /// The transition of a machine in `ChunkExtension`.
    pub proof fn lemma_transition_chunk_extension(self, b: u8)
        requires
            self.state == State::ChunkExtension,
        ensures
            self.transition(b) == self.chunk_extension(b),
    {
        reveal(Machine::spec_transition);
    }

    /// The transition of a machine in `ChunkDataCr`.
    pub proof fn lemma_transition_chunk_data_end(self, b: u8)
        requires
            self.state == State::ChunkDataCr,
        ensures
            self.transition(b) == self.chunk_data_end(b),
    {
        reveal(Machine::spec_transition);
    }

    /// The transition of a machine in `Closed`.
    pub proof fn lemma_transition_after_close(self, b: u8)
        requires
            self.state == State::Closed,
        ensures
            self.transition(b) == self.after_close(b),
    {
        reveal(Machine::spec_transition);
    }

    proof fn lemma_setup_begin(self, b: u8)
        requires
            self.state == State::Start,
        ensures
            self.transition(b).next.mode == self.mode,
            self.transition(b).next.options == self.options,
    {
        self.lemma_transition_begin(b);
    }

    proof fn lemma_setup_first_token(self, b: u8)
        requires
            self.state == State::Token,
        ensures
            self.transition(b).next.mode == self.mode,
            self.transition(b).next.options == self.options,
    {
        self.lemma_transition_first_token(b);
    }

    proof fn lemma_setup_url(self, b: u8)
        requires
            self.state == State::UrlStart || self.state == State::Url,
        ensures
            self.transition(b).next.mode == self.mode,
            self.transition(b).next.options == self.options,
    {
        self.lemma_transition_url(b);
    }

    proof fn lemma_setup_protocol(self, b: u8)
        requires
            self.state == State::Protocol,
        ensures
            self.transition(b).next.mode == self.mode,
            self.transition(b).next.options == self.options,
    {
        self.lemma_transition_protocol(b);
    }

    proof fn lemma_setup_version(self, b: u8)
        requires
            self.state == State::VersionMajor || self.state == State::VersionDot || self.state
                == State::VersionMinor,
        ensures
            self.transition(b).next.mode == self.mode,
            self.transition(b).next.options == self.options,
    {
        self.lemma_transition_version(b);
    }

    proof fn lemma_setup_request_end(self, b: u8)
        requires
            self.state == State::RequestEnd,
        ensures
            self.transition(b).next.mode == self.mode,
            self.transition(b).next.options == self.options,
    {
        self.lemma_transition_request_end(b);
    }

    proof fn lemma_setup_status_digits(self, b: u8)
        requires
            self.state == State::StatusSpace || self.state == State::StatusCode,
        ensures
            self.transition(b).next.mode == self.mode,
            self.transition(b).next.options == self.options,
    {
        self.lemma_transition_status_digits(b);
    }

    proof fn lemma_setup_reason(self, b: u8)
        requires
            self.state == State::StatusEnd || self.state == State::Reason,
        ensures
            self.transition(b).next.mode == self.mode,
            self.transition(b).next.options == self.options,
    {
        self.lemma_transition_reason(b);
    }

    proof fn lemma_setup_expect_lf(self, b: u8)
        requires
            self.state == State::LineLf || self.state == State::ValueLf || self.state
                == State::HeadersLf || self.state == State::ChunkSizeLf || self.state
                    == State::ChunkDataLf,
        ensures
            self.transition(b).next.mode == self.mode,
            self.transition(b).next.options == self.options,
    {
        self.lemma_transition_expect_lf(b);
    }

    proof fn lemma_setup_header_start(self, b: u8)
        requires
            self.state == State::HeaderStart,
        ensures
            self.transition(b).next.mode == self.mode,
            self.transition(b).next.options == self.options,
    {
        self.lemma_transition_header_start(b);
    }

    proof fn lemma_setup_header_field(self, b: u8)
        requires
            self.state == State::HeaderField || self.state == State::HeaderFieldEnd,
        ensures
            self.transition(b).next.mode == self.mode,
            self.transition(b).next.options == self.options,
    {
        self.lemma_transition_header_field(b);
    }

    proof fn lemma_setup_header_value(self, b: u8)
        requires
            self.state == State::ValueStart || self.state == State::Value,
        ensures
            self.transition(b).next.mode == self.mode,
            self.transition(b).next.options == self.options,
    {
        self.lemma_transition_header_value(b);
    }

    proof fn lemma_setup_body_byte(self, b: u8)
        requires
            self.state == State::BodyIdentity || self.state == State::BodyUntilClose || self.state
                == State::ChunkData,
        ensures
            self.transition(b).next.mode == self.mode,
            self.transition(b).next.options == self.options,
    {
        self.lemma_transition_body_byte(b);
    }

    proof fn lemma_setup_chunk_size(self, b: u8)
        requires
            self.state == State::ChunkSizeStart || self.state == State::ChunkSize,
        ensures
            self.transition(b).next.mode == self.mode,
            self.transition(b).next.options == self.options,
    {
        self.lemma_transition_chunk_size(b);
    }

    proof fn lemma_setup_chunk_extension(self, b: u8)
        requires
            self.state == State::ChunkExtension,
        ensures
            self.transition(b).next.mode == self.mode,
            self.transition(b).next.options == self.options,
    {
        self.lemma_transition_chunk_extension(b);
    }

    proof fn lemma_setup_chunk_data_end(self, b: u8)
        requires
            self.state == State::ChunkDataCr,
        ensures
            self.transition(b).next.mode == self.mode,
            self.transition(b).next.options == self.options,
    {
        self.lemma_transition_chunk_data_end(b);
    }

    proof fn lemma_setup_after_close(self, b: u8)
        requires
            self.state == State::Closed,
        ensures
            self.transition(b).next.mode == self.mode,
            self.transition(b).next.options == self.options,
    {
        self.lemma_transition_after_close(b);
    }

    proof fn lemma_forward_begin(self, b: u8)
        requires
            self.state == State::Start,
        ensures
            self.transition(b).next.phase() >= self.phase(),
    {
        self.lemma_transition_begin(b);
    }

    proof fn lemma_forward_first_token(self, b: u8)
        requires
            self.state == State::Token,
        ensures
            self.transition(b).next.phase() >= self.phase(),
    {
        self.lemma_transition_first_token(b);
    }

    proof fn lemma_forward_url(self, b: u8)
        requires
            self.state == State::UrlStart || self.state == State::Url,
        ensures
            self.transition(b).next.phase() >= self.phase(),
    {
        self.lemma_transition_url(b);
    }

    proof fn lemma_forward_protocol(self, b: u8)
        requires
            self.state == State::Protocol,
        ensures
            self.transition(b).next.phase() >= self.phase(),
    {
        self.lemma_transition_protocol(b);
    }

    proof fn lemma_forward_version(self, b: u8)
        requires
            self.state == State::VersionMajor || self.state == State::VersionDot || self.state
                == State::VersionMinor,
        ensures
            self.transition(b).next.phase() >= self.phase(),
    {
        self.lemma_transition_version(b);
    }

    proof fn lemma_forward_request_end(self, b: u8)
        requires
            self.state == State::RequestEnd,
        ensures
            self.transition(b).next.phase() >= self.phase(),
    {
        self.lemma_transition_request_end(b);
    }

    proof fn lemma_forward_status_digits(self, b: u8)
        requires
            self.state == State::StatusSpace || self.state == State::StatusCode,
        ensures
            self.transition(b).next.phase() >= self.phase(),
    {
        self.lemma_transition_status_digits(b);
    }

    proof fn lemma_forward_reason(self, b: u8)
        requires
            self.state == State::StatusEnd || self.state == State::Reason,
        ensures
            self.transition(b).next.phase() >= self.phase(),
    {
        self.lemma_transition_reason(b);
    }

    proof fn lemma_forward_expect_lf(self, b: u8)
        requires
            self.state == State::LineLf || self.state == State::ValueLf || self.state
                == State::HeadersLf || self.state == State::ChunkSizeLf || self.state
                    == State::ChunkDataLf,
        ensures
            self.transition(b).next.phase() >= self.phase(),
    {
        self.lemma_transition_expect_lf(b);
    }

    proof fn lemma_forward_header_start(self, b: u8)
        requires
            self.state == State::HeaderStart,
        ensures
            self.transition(b).next.phase() >= self.phase(),
    {
        self.lemma_transition_header_start(b);
    }

    proof fn lemma_forward_header_field(self, b: u8)
        requires
            self.state == State::HeaderField || self.state == State::HeaderFieldEnd,
        ensures
            self.transition(b).next.phase() >= self.phase(),
    {
        self.lemma_transition_header_field(b);
    }

    proof fn lemma_forward_header_value(self, b: u8)
        requires
            self.state == State::ValueStart || self.state == State::Value,
        ensures
            self.transition(b).next.phase() >= self.phase(),
    {
        self.lemma_transition_header_value(b);
    }

    proof fn lemma_forward_body_byte(self, b: u8)
        requires
            self.state == State::BodyIdentity || self.state == State::BodyUntilClose || self.state
                == State::ChunkData,
        ensures
            self.transition(b).next.phase() >= self.phase(),
    {
        self.lemma_transition_body_byte(b);
    }

    proof fn lemma_forward_chunk_size(self, b: u8)
        requires
            self.state == State::ChunkSizeStart || self.state == State::ChunkSize,
        ensures
            self.transition(b).next.phase() >= self.phase(),
    {
        self.lemma_transition_chunk_size(b);
    }

    proof fn lemma_forward_chunk_extension(self, b: u8)
        requires
            self.state == State::ChunkExtension,
        ensures
            self.transition(b).next.phase() >= self.phase(),
    {
        self.lemma_transition_chunk_extension(b);
    }

    proof fn lemma_forward_chunk_data_end(self, b: u8)
        requires
            self.state == State::ChunkDataCr,
        ensures
            self.transition(b).next.phase() >= self.phase(),
    {
        self.lemma_transition_chunk_data_end(b);
    }

    proof fn lemma_forward_after_close(self, b: u8)
        requires
            self.state == State::Closed,
        ensures
            self.transition(b).next.phase() >= self.phase(),
    {
        self.lemma_transition_after_close(b);
    }

    /// No byte takes a machine back in the message: the state after it
    /// is in the same part of the message or in a later one.
    pub proof fn lemma_transition_moves_forward(self, b: u8)
        ensures
            self.transition(b).next.phase() >= self.phase(),
    {
        match self.state {
            State::Start => {
                self.lemma_forward_begin(b);
            },
            State::Token => {
                self.lemma_forward_first_token(b);
            },
            State::UrlStart | State::Url => {
                self.lemma_forward_url(b);
            },
            State::Protocol => {
                self.lemma_forward_protocol(b);
            },
            State::VersionMajor | State::VersionDot | State::VersionMinor => {
                self.lemma_forward_version(b);
            },
            State::RequestEnd => {
                self.lemma_forward_request_end(b);
            },
            State::StatusSpace | State::StatusCode => {
                self.lemma_forward_status_digits(b);
            },
            State::StatusEnd | State::Reason => {
                self.lemma_forward_reason(b);
            },
            State::LineLf | State::ValueLf | State::HeadersLf | State::ChunkSizeLf
                | State::ChunkDataLf => {
                self.lemma_forward_expect_lf(b);
            },
            State::HeaderStart => {
                self.lemma_forward_header_start(b);
            },
            State::HeaderField | State::HeaderFieldEnd => {
                self.lemma_forward_header_field(b);
            },
            State::ValueStart | State::Value => {
                self.lemma_forward_header_value(b);
            },
            State::BodyIdentity | State::BodyUntilClose | State::ChunkData => {
                self.lemma_forward_body_byte(b);
            },
            State::ChunkSizeStart | State::ChunkSize => {
                self.lemma_forward_chunk_size(b);
            },
            State::ChunkExtension => {
                self.lemma_forward_chunk_extension(b);
            },
            State::ChunkDataCr => {
                self.lemma_forward_chunk_data_end(b);
            },
            State::Closed => {
                self.lemma_forward_after_close(b);
            },
            State::Tunnel => {
                self.lemma_transition_tunnel(b);
            },
            _ => {
                self.lemma_transition_relay(b);
            },
        }
    }

    /// No transition changes the mode or the options.
    pub proof fn lemma_transition_keeps_setup(self, b: u8)
        ensures
            self.transition(b).next.mode == self.mode,
            self.transition(b).next.options == self.options,
    {
        match self.state {
            State::Start => {
                self.lemma_setup_begin(b);
            },
            State::Token => {
                self.lemma_setup_first_token(b);
            },
            State::UrlStart | State::Url => {
                self.lemma_setup_url(b);
            },
            State::Protocol => {
                self.lemma_setup_protocol(b);
            },
            State::VersionMajor | State::VersionDot | State::VersionMinor => {
                self.lemma_setup_version(b);
            },
            State::RequestEnd => {
                self.lemma_setup_request_end(b);
            },
            State::StatusSpace | State::StatusCode => {
                self.lemma_setup_status_digits(b);
            },
            State::StatusEnd | State::Reason => {
                self.lemma_setup_reason(b);
            },
            State::LineLf | State::ValueLf | State::HeadersLf | State::ChunkSizeLf
                | State::ChunkDataLf => {
                self.lemma_setup_expect_lf(b);
            },
            State::HeaderStart => {
                self.lemma_setup_header_start(b);
            },
            State::HeaderField | State::HeaderFieldEnd => {
                self.lemma_setup_header_field(b);
            },
            State::ValueStart | State::Value => {
                self.lemma_setup_header_value(b);
            },
            State::BodyIdentity | State::BodyUntilClose | State::ChunkData => {
                self.lemma_setup_body_byte(b);
            },
            State::ChunkSizeStart | State::ChunkSize => {
                self.lemma_setup_chunk_size(b);
            },
            State::ChunkExtension => {
                self.lemma_setup_chunk_extension(b);
            },
            State::ChunkDataCr => {
                self.lemma_setup_chunk_data_end(b);
            },
            State::Closed => {
                self.lemma_setup_after_close(b);
            },
            State::Tunnel => {
                self.lemma_transition_tunnel(b);
            },
            _ => {
                self.lemma_transition_relay(b);
            },
        }
    }

    /// A machine in a relay state reads no byte.
    pub proof fn lemma_transition_relay(self, b: u8)
        requires
            self.state.is_relay(),
        ensures
            self.transition(b) == self.quiet(),
    {
        reveal(Machine::spec_transition);
    }

    /// A machine in a tunnel lets every byte pass.
    pub proof fn lemma_transition_tunnel(self, b: u8)
        requires
            self.state == State::Tunnel,
        ensures
            self.transition(b) == self.quiet(),
    {
        reveal(Machine::spec_transition);
    }
}

} // verus!
