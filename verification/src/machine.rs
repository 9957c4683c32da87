//! The state of one parser: what it has read of the current message, what
//! it will read next, and why it stopped if it did.

use vstd::prelude::*;
use crate::consts::{Error, Method, Type};

verus! {

/// Where in a message the machine stands. In every state but the three
/// marked as relays the machine waits for the next byte.
#[derive(Clone, Copy, Debug, PartialEq, Eq, Structural)]
pub enum State {
    /// Between messages.
    Start,
    /// In the first token of a start line: a method, or `HTTP`.
    Token,
    /// After the method's space.
    UrlStart,
    Url,
    /// In the `HTTP` of a request line.
    Protocol,
    VersionMajor,
    VersionDot,
    VersionMinor,
    /// After the version of a request line.
    RequestEnd,
    /// After the version of a status line.
    StatusSpace,
    StatusCode,
    /// After the three digits of a status code.
    StatusEnd,
    Reason,
    /// After the CR that ends a start line.
    LineLf,
    /// At the start of a header line, or of the empty line.
    HeaderStart,
    HeaderField,
    /// After a field name and blanks, where only the colon may follow.
    HeaderFieldEnd,
    /// After the colon, before the value's first byte.
    ValueStart,
    Value,
    /// After the CR that ends a field value.
    ValueLf,
    /// After the CR of the empty line.
    HeadersLf,
    /// Relay: the headers are complete, and the body's framing is chosen.
    HeadersDone,
    /// In a body whose length `Content-Length` gave.
    BodyIdentity,
    /// In a body that the end of the stream ends.
    BodyUntilClose,
    ChunkSizeStart,
    ChunkSize,
    ChunkExtension,
    /// After the CR that ends a chunk's size line.
    ChunkSizeLf,
    ChunkData,
    /// After a chunk's last data byte.
    ChunkDataCr,
    ChunkDataLf,
    /// Relay: the message is complete, which is announced next.
    MessageDone,
    /// Relay: the completion was announced, and what follows is chosen.
    AfterMessage,
    /// After a message that ends the connection.
    Closed,
    /// After an upgrade: the bytes belong to another protocol.
    Tunnel,
}

/// An event without data.
#[derive(Clone, Copy, Debug, PartialEq, Eq, Structural)]
pub enum Notice {
    MessageBegin,
    UrlComplete,
    StatusComplete,
    HeaderFieldComplete,
    HeaderValueComplete,
    HeadersComplete,
    ChunkHeader,
    ChunkComplete,
    MessageComplete,
}

/// The element that a data byte belongs to.
#[derive(Clone, Copy, Debug, PartialEq, Eq, Structural)]
pub enum DataKind {
    Url,
    Status,
    HeaderField,
    HeaderValue,
    Body,
}

/// The header fields whose values the parser itself reads.
#[derive(Clone, Copy, Debug, PartialEq, Eq, Structural)]
pub enum Header {
    Other,
    ContentLength,
    TransferEncoding,
    Connection,
    Upgrade,
}

/// What the headers of the current message have declared.
#[derive(Clone, Copy, Debug, PartialEq, Eq, Structural)]
pub struct Flags {
    /// The last transfer coding named is `chunked`.
    pub chunked: bool,
    /// A `Transfer-Encoding` field was read.
    pub transfer_encoding: bool,
    /// A `Content-Length` field was read.
    pub content_length: bool,
    /// `Connection: keep-alive`.
    pub keep_alive: bool,
    /// `Connection: close`.
    pub close: bool,
    /// `Connection: upgrade`.
    pub connection_upgrade: bool,
    /// An `Upgrade` field was read.
    pub upgrade: bool,
    /// The last chunk was read: header lines are trailers now.
    pub trailers: bool,
    /// The consumer asked for the coming message to have no body.
    pub skip_body: bool,
    /// The body is ended by the end of the stream.
    pub eof_delimited: bool,
}

/// The grammar's relaxations and limits. Every relaxation is off and no
/// limit is set unless the consumer says otherwise.
#[derive(Clone, Copy, Debug, PartialEq, Eq, Structural)]
pub struct Options {
    /// A bare LF ends a line as CR LF does.
    pub lenient_lf: bool,
    /// Blanks between a field name and its colon are skipped.
    pub lenient_header_space: bool,
    /// Bytes after a message that closes the connection are skipped.
    pub lenient_data_after_close: bool,
    /// A chunk extension is an error instead of being skipped.
    pub reject_chunk_extensions: bool,
    /// The most bytes a header field name, or a field value, may have.
    pub max_header_len: u64,
    /// The largest chunk size accepted.
    pub max_chunk_size: u64,
}

/// The whole state of a parser, as plain values.
#[derive(Clone, Copy, Debug, PartialEq, Eq)]
pub struct Machine {
    /// The kinds of message accepted.
    pub mode: Type,
    pub options: Options,
    /// The kind of the current message; `mode` until the start line tells.
    pub kind: Type,
    pub state: State,
    /// An event that is due before the next byte is read.
    pub pending: Option<Notice>,
    /// `HPE_OK` while the machine runs.
    pub error: Error,
    /// The method of the current request; the first method until one is read.
    pub method: Method,
    pub http_major: u8,
    pub http_minor: u8,
    /// The status code of the current response; 0 until one is read.
    pub status_code: u16,
    pub flags: Flags,
    /// The header field whose value is being read.
    pub header: Header,
    /// A blank has ended the number of a `Content-Length` value.
    pub gap: bool,
    /// The token being read, packed; or the digits read of a number.
    pub acc: u128,
    /// The bytes read of the current field name or field value.
    pub span_len: u64,
    /// The body bytes still expected, or the chunk size being read.
    pub content_length: u64,
}

/// What one byte does: the machine after it, and whether the byte is data
/// of some element.
#[derive(Clone, Copy, Debug, PartialEq, Eq)]
pub struct Move {
    pub next: Machine,
    pub data: Option<DataKind>,
}

impl Flags {
    /// No declaration yet; `skip_body` is the consumer's and is kept.
    pub open spec fn spec_fresh(skip_body: bool) -> Flags {
        Flags {
            chunked: false,
            transfer_encoding: false,
            content_length: false,
            keep_alive: false,
            close: false,
            connection_upgrade: false,
            upgrade: false,
            trailers: false,
            skip_body,
            eof_delimited: false,
        }
    }

    /// Computes `spec_fresh`.
    #[verifier::when_used_as_spec(spec_fresh)]
    pub fn fresh(skip_body: bool) -> (r: Flags)
        ensures
            r == Self::spec_fresh(skip_body),
    {
        Flags {
            chunked: false,
            transfer_encoding: false,
            content_length: false,
            keep_alive: false,
            close: false,
            connection_upgrade: false,
            upgrade: false,
            trailers: false,
            skip_body,
            eof_delimited: false,
        }
    }
}

impl Options {
    /// The strict grammar without limits.
    pub open spec fn spec_strict() -> Options {
        Options {
            lenient_lf: false,
            lenient_header_space: false,
            lenient_data_after_close: false,
            reject_chunk_extensions: false,
            max_header_len: 0xffff_ffff_ffff_ffff,
            max_chunk_size: 0xffff_ffff_ffff_ffff,
        }
    }

    /// Computes `spec_strict`.
    #[verifier::when_used_as_spec(spec_strict)]
    pub fn strict() -> (r: Options)
        ensures
            r == Self::spec_strict(),
    {
        Options {
            lenient_lf: false,
            lenient_header_space: false,
            lenient_data_after_close: false,
            reject_chunk_extensions: false,
            max_header_len: 0xffff_ffff_ffff_ffff,
            max_chunk_size: 0xffff_ffff_ffff_ffff,
        }
    }
}

impl State {
    /// A relay state consumes no byte: the machine moves on by itself.
    pub open spec fn spec_is_relay(self) -> bool {
        match self {
            State::HeadersDone | State::MessageDone | State::AfterMessage => true,
            _ => false,
        }
    }

    /// Computes `spec_is_relay`.
    #[verifier::when_used_as_spec(spec_is_relay)]
    pub fn is_relay(self) -> (r: bool)
        ensures
            r == self.spec_is_relay(),
    {
        match self {
            State::HeadersDone | State::MessageDone | State::AfterMessage => true,
            _ => false,
        }
    }
}

impl Machine {
    /// A machine between messages.
    pub open spec fn spec_new(mode: Type, options: Options) -> Machine {
        Machine {
            mode,
            options,
            kind: mode,
            state: State::Start,
            pending: None,
            error: Error::HPE_OK,
            method: Method::HTTP_DELETE,
            http_major: 0,
            http_minor: 0,
            status_code: 0,
            flags: Flags::fresh(false),
            header: Header::Other,
            gap: false,
            acc: 0,
            span_len: 0,
            content_length: 0,
        }
    }

    /// Computes `spec_new`.
    #[verifier::when_used_as_spec(spec_new)]
    pub fn new(mode: Type, options: Options) -> (r: Machine)
        ensures
            r == Self::spec_new(mode, options),
    {
        Machine {
            mode,
            options,
            kind: mode,
            state: State::Start,
            pending: None,
            error: Error::HPE_OK,
            method: Method::HTTP_DELETE,
            http_major: 0,
            http_minor: 0,
            status_code: 0,
            flags: Flags::fresh(false),
            header: Header::Other,
            gap: false,
            acc: 0,
            span_len: 0,
            content_length: 0,
        }
    }

    /// The machine has stopped: it is paused, or an error was recorded.
    pub open spec fn spec_halted(self) -> bool {
        !self.error.is_ok()
    }

    /// Computes `spec_halted`.
    #[verifier::when_used_as_spec(spec_halted)]
    pub fn halted(self) -> (r: bool)
        ensures
            r == self.spec_halted(),
    {
        !self.error.is_ok()
    }

    /// The machine waits for a byte: it has not stopped, no event is due
    /// and it is in no relay state.
    pub open spec fn spec_ready(self) -> bool {
        !self.halted() && self.pending.is_none() && !self.state.is_relay()
    }

    /// Computes `spec_ready`.
    #[verifier::when_used_as_spec(spec_ready)]
    pub fn ready(self) -> (r: bool)
        ensures
            r == self.spec_ready(),
    {
        !self.halted() && self.pending.is_none() && !self.state.is_relay()
    }

    /// Records an error.
    pub open spec fn spec_fail(self, e: Error) -> Machine {
        Machine { error: e, ..self }
    }

    /// Computes `spec_fail`.
    #[verifier::when_used_as_spec(spec_fail)]
    pub fn fail(self, e: Error) -> (r: Machine)
        ensures
            r == self.spec_fail(e),
    {
        Machine { error: e, ..self }
    }

    /// Moves to another state.
    pub open spec fn spec_goto(self, s: State) -> Machine {
        Machine { state: s, ..self }
    }

    /// Computes `spec_goto`.
    #[verifier::when_used_as_spec(spec_goto)]
    pub fn goto(self, s: State) -> (r: Machine)
        ensures
            r == self.spec_goto(s),
    {
        Machine { state: s, ..self }
    }

    /// Moves to another state, with an event due before the next byte.
    pub open spec fn spec_announce(self, s: State, n: Notice) -> Machine {
        Machine { state: s, pending: Some(n), ..self }
    }

    /// Computes `spec_announce`.
    #[verifier::when_used_as_spec(spec_announce)]
    pub fn announce(self, s: State, n: Notice) -> (r: Machine)
        ensures
            r == self.spec_announce(s, n),
    {
        Machine { state: s, pending: Some(n), ..self }
    }

    /// The byte read was no data.
    pub open spec fn spec_quiet(self) -> Move {
        Move { next: self, data: None }
    }

    /// Computes `spec_quiet`.
    #[verifier::when_used_as_spec(spec_quiet)]
    pub fn quiet(self) -> (r: Move)
        ensures
            r == self.spec_quiet(),
    {
        Move { next: self, data: None }
    }

    /// The byte read was data of `k`.
    pub open spec fn spec_carry(self, k: DataKind) -> Move {
        Move { next: self, data: Some(k) }
    }

    /// Computes `spec_carry`.
    #[verifier::when_used_as_spec(spec_carry)]
    pub fn carry(self, k: DataKind) -> (r: Move)
        ensures
            r == self.spec_carry(k),
    {
        Move { next: self, data: Some(k) }
    }

    /// Pauses a running machine; one that has stopped stays as it is.
    pub open spec fn spec_paused(self) -> Machine {
        if self.halted() {
            self
        } else {
            self.fail(Error::HPE_PAUSED)
        }
    }

    /// Computes `spec_paused`.
    #[verifier::when_used_as_spec(spec_paused)]
    pub fn paused(self) -> (r: Machine)
        ensures
            r == self.spec_paused(),
    {
        if self.halted() {
            self
        } else {
            self.fail(Error::HPE_PAUSED)
        }
    }

    /// Lifts a pause; any other machine stays as it is.
    pub open spec fn spec_resumed(self) -> Machine {
        if self.error == Error::HPE_PAUSED {
            self.fail(Error::HPE_OK)
        } else {
            self
        }
    }

    /// Computes `spec_resumed`.
    #[verifier::when_used_as_spec(spec_resumed)]
    pub fn resumed(self) -> (r: Machine)
        ensures
            r == self.spec_resumed(),
    {
        if self.error == Error::HPE_PAUSED {
            self.fail(Error::HPE_OK)
        } else {
            self
        }
    }

    /// Lifts the pause that follows an upgrade; any other machine stays as
    /// it is.
    pub open spec fn spec_resumed_after_upgrade(self) -> Machine {
        if self.error == Error::HPE_PAUSED_UPGRADE {
            self.fail(Error::HPE_OK)
        } else {
            self
        }
    }

    /// Computes `spec_resumed_after_upgrade`.
    #[verifier::when_used_as_spec(spec_resumed_after_upgrade)]
    pub fn resumed_after_upgrade(self) -> (r: Machine)
        ensures
            r == self.spec_resumed_after_upgrade(),
    {
        if self.error == Error::HPE_PAUSED_UPGRADE {
            self.fail(Error::HPE_OK)
        } else {
            self
        }
    }

    /// Back between messages, with everything read forgotten; the mode and
    /// the options stay.
    pub open spec fn spec_cleared(self) -> Machine {
        Machine::new(self.mode, self.options)
    }

    /// Computes `spec_cleared`.
    #[verifier::when_used_as_spec(spec_cleared)]
    pub fn cleared(self) -> (r: Machine)
        ensures
            r == self.spec_cleared(),
    {
        Machine::new(self.mode, self.options)
    }

    /// Asks for the coming message, or the one whose headers are being read,
    /// to have no body.
    pub open spec fn spec_with_skip_body(self, on: bool) -> Machine {
        Machine { flags: Flags { skip_body: on, ..self.flags }, ..self }
    }

    /// Computes `spec_with_skip_body`.
    #[verifier::when_used_as_spec(spec_with_skip_body)]
    pub fn with_skip_body(self, on: bool) -> (r: Machine)
        ensures
            r == self.spec_with_skip_body(on),
    {
        Machine { flags: Flags { skip_body: on, ..self.flags }, ..self }
    }
}

} // verus!
