//! What the headers of a message say of its body and of the connection,
//! and the moves that the machine makes by itself once the headers or the
//! message are complete.

use vstd::prelude::*;
use crate::consts::{Error, Method, Type};
use crate::machine::{Flags, Machine, Notice, State};

verus! {

/// How the body of a message ends.
#[derive(Clone, Copy, Debug, PartialEq, Eq, Structural)]
pub enum Strategy {
    /// The message has no body.
    NoBody,
    /// Both `Transfer-Encoding: chunked` and `Content-Length` were
    /// declared: the message is refused.
    Ambiguous,
    /// The body is a sequence of chunks.
    Chunked,
    /// The body has the length that `Content-Length` gave.
    Identity,
    /// A request declared transfer codings of which the last is not
    /// `chunked`: its length cannot be known, and it is refused.
    Unframed,
    /// The body ends where the stream ends.
    UntilClose,
}

impl Machine {
    /// The message has no body whatever its headers say of a length: the
    /// consumer asked so, or it is a response with a status of 1xx, 204 or
    /// 304, or a `CONNECT` request.
    pub open spec fn spec_bodiless(self) -> bool {
        self.flags.skip_body || (self.kind == Type::HTTP_RESPONSE && ((100 <= self.status_code
            && self.status_code < 200) || self.status_code == 204 || self.status_code == 304))
            || (self.kind == Type::HTTP_REQUEST && self.method == Method::HTTP_CONNECT)
    }

    /// Computes `spec_bodiless`.
    #[verifier::when_used_as_spec(spec_bodiless)]
    pub fn bodiless(self) -> (r: bool)
        ensures
            r == self.spec_bodiless(),
    {
        self.flags.skip_body || (self.kind == Type::HTTP_RESPONSE && ((100 <= self.status_code
            && self.status_code < 200) || self.status_code == 204 || self.status_code == 304))
            || (self.kind == Type::HTTP_REQUEST && self.method == Method::HTTP_CONNECT)
    }

    /// How the body ends, by the headers read so far. The first rule that
    /// applies decides.
    pub open spec fn spec_strategy(self) -> Strategy {
        if self.bodiless() {
            Strategy::NoBody
        } else if self.flags.chunked && self.flags.content_length {
            Strategy::Ambiguous
        } else if self.flags.chunked {
            Strategy::Chunked
        } else if self.flags.content_length {
            Strategy::Identity
        } else if self.kind == Type::HTTP_RESPONSE {
            Strategy::UntilClose
        } else if self.flags.transfer_encoding {
            Strategy::Unframed
        } else {
            Strategy::NoBody
        }
    }

    /// Computes `spec_strategy`.
    #[verifier::when_used_as_spec(spec_strategy)]
    pub fn strategy(self) -> (r: Strategy)
        ensures
            r == self.spec_strategy(),
    {
        if self.bodiless() {
            Strategy::NoBody
        } else if self.flags.chunked && self.flags.content_length {
            Strategy::Ambiguous
        } else if self.flags.chunked {
            Strategy::Chunked
        } else if self.flags.content_length {
            Strategy::Identity
        } else if self.kind == Type::HTTP_RESPONSE {
            Strategy::UntilClose
        } else if self.flags.transfer_encoding {
            Strategy::Unframed
        } else {
            Strategy::NoBody
        }
    }

    /// The message asks to leave HTTP: a `CONNECT` request, or `Upgrade`
    /// with `Connection: upgrade` in a request or in a 101 response.
    pub open spec fn spec_upgrade_requested(self) -> bool {
        (self.kind == Type::HTTP_REQUEST && self.method == Method::HTTP_CONNECT)
            || (self.flags.upgrade
            && self.flags.connection_upgrade && (self.kind == Type::HTTP_REQUEST || self.status_code
            == 101))
    }

    /// Computes `spec_upgrade_requested`.
    #[verifier::when_used_as_spec(spec_upgrade_requested)]
    pub fn upgrade_requested(self) -> (r: bool)
        ensures
            r == self.spec_upgrade_requested(),
    {
        (self.kind == Type::HTTP_REQUEST && self.method == Method::HTTP_CONNECT)
            || (self.flags.upgrade
            && self.flags.connection_upgrade && (self.kind == Type::HTTP_REQUEST || self.status_code
            == 101))
    }

    /// Only the end of the stream can end the current message.
    pub open spec fn spec_needs_eof(self) -> bool {
        self.state == State::BodyUntilClose || (self.state == State::HeadersDone && self.strategy()
            == Strategy::UntilClose)
    }

    /// Computes `spec_needs_eof`.
    #[verifier::when_used_as_spec(spec_needs_eof)]
    pub fn needs_eof(self) -> (r: bool)
        ensures
            r == self.spec_needs_eof(),
    {
        self.state == State::BodyUntilClose || (self.state == State::HeadersDone && self.strategy()
            == Strategy::UntilClose)
    }

    /// The version is HTTP/1.1 or later, where connections persist unless
    /// told otherwise.
    pub open spec fn spec_persistent_version(self) -> bool {
        self.http_major > 1 || (self.http_major == 1 && self.http_minor >= 1)
    }

    /// Computes `spec_persistent_version`.
    #[verifier::when_used_as_spec(spec_persistent_version)]
    pub fn persistent_version(self) -> (r: bool)
        ensures
            r == self.spec_persistent_version(),
    {
        self.http_major > 1 || (self.http_major == 1 && self.http_minor >= 1)
    }

    /// The connection can carry another message after this one: no
    /// `Connection: close`; HTTP/1.1 or later, or `Connection: keep-alive`;
    /// and a body that does not need the end of the stream.
    pub open spec fn spec_keep_alive(self) -> bool {
        !self.flags.close && (self.persistent_version() || self.flags.keep_alive)
            && !self.flags.eof_delimited && !self.needs_eof()
    }

    /// Computes `spec_keep_alive`.
    #[verifier::when_used_as_spec(spec_keep_alive)]
    pub fn keep_alive(self) -> (r: bool)
        ensures
            r == self.spec_keep_alive(),
    {
        !self.flags.close && (self.persistent_version() || self.flags.keep_alive)
            && !self.flags.eof_delimited && !self.needs_eof()
    }

    /// The machine after the choice of the body's framing.
    pub open spec fn spec_select_body(self) -> Machine {
        match self.strategy() {
            Strategy::NoBody => self.goto(State::MessageDone),
            Strategy::Ambiguous => self.fail(Error::HPE_AMBIGUOUS_BODY_LENGTH),
            Strategy::Chunked =>
                Machine { state: State::ChunkSizeStart, content_length: 0, ..self },
            Strategy::Identity => if self.content_length == 0 {
                self.goto(State::MessageDone)
            } else {
                self.goto(State::BodyIdentity)
            },
            Strategy::Unframed => self.fail(Error::HPE_INVALID_TRANSFER_ENCODING),
            Strategy::UntilClose => Machine {
                state: State::BodyUntilClose,
                flags: Flags { eof_delimited: true, ..self.flags },
                ..self
            },
        }
    }

    /// Computes `spec_select_body`.
    #[verifier::when_used_as_spec(spec_select_body)]
    pub fn select_body(self) -> (r: Machine)
        ensures
            r == self.spec_select_body(),
    {
        match self.strategy() {
            Strategy::NoBody => self.goto(State::MessageDone),
            Strategy::Ambiguous => self.fail(Error::HPE_AMBIGUOUS_BODY_LENGTH),
            Strategy::Chunked =>
                Machine { state: State::ChunkSizeStart, content_length: 0, ..self },
            Strategy::Identity => if self.content_length == 0 {
                self.goto(State::MessageDone)
            } else {
                self.goto(State::BodyIdentity)
            },
            Strategy::Unframed => self.fail(Error::HPE_INVALID_TRANSFER_ENCODING),
            Strategy::UntilClose => Machine {
                state: State::BodyUntilClose,
                flags: Flags { eof_delimited: true, ..self.flags },
                ..self
            },
        }
    }

    /// The machine after a message: paused in a tunnel if the message asked
    /// for an upgrade, ready for the next message if the connection
    /// persists, closed otherwise. The consumer's request to skip a body is
    /// used up.
    pub open spec fn spec_conclude(self) -> Machine {
        if self.upgrade_requested() {
            Machine {
                state: State::Tunnel,
                error: Error::HPE_PAUSED_UPGRADE,
                flags: Flags { skip_body: false, ..self.flags },
                ..self
            }
        } else {
            Machine {
                state: if self.keep_alive() {
                    State::Start
                } else {
                    State::Closed
                },
                flags: Flags { skip_body: false, ..self.flags },
                ..self
            }
        }
    }

    /// Computes `spec_conclude`.
    #[verifier::when_used_as_spec(spec_conclude)]
    pub fn conclude(self) -> (r: Machine)
        ensures
            r == self.spec_conclude(),
    {
        if self.upgrade_requested() {
            Machine {
                state: State::Tunnel,
                error: Error::HPE_PAUSED_UPGRADE,
                flags: Flags { skip_body: false, ..self.flags },
                ..self
            }
        } else {
            Machine {
                state: if self.keep_alive() {
                    State::Start
                } else {
                    State::Closed
                },
                flags: Flags { skip_body: false, ..self.flags },
                ..self
            }
        }
    }

    /// The move that a machine in a relay state makes by itself; in any
    /// other state it stays.
    #[verifier::opaque]
    pub open spec fn spec_relay(self) -> Machine {
        match self.state {
            State::HeadersDone => self.select_body(),
            State::MessageDone => self.announce(State::AfterMessage, Notice::MessageComplete),
            State::AfterMessage => self.conclude(),
            _ => self,
        }
    }

    /// Computes `spec_relay`.
    #[verifier::when_used_as_spec(spec_relay)]
    pub fn relay(self) -> (r: Machine)
        ensures
            r == self.spec_relay(),
    {
        proof {
            reveal(Machine::spec_relay);
        }
        match self.state {
            State::HeadersDone => self.select_body(),
            State::MessageDone => self.announce(State::AfterMessage, Notice::MessageComplete),
            State::AfterMessage => self.conclude(),
            _ => self,
        }
    }

    /// The end of the stream. It ends a body that only the end of the
    /// stream can end and changes nothing between messages. Inside a body
    /// of known length or in chunks it is an error of its own, for the
    /// message is cut short; anywhere else in a message it is the error of
    /// an operation out of place. A machine that has stopped stays as it is.
    pub open spec fn spec_at_eof(self) -> Machine {
        if self.halted() {
            self
        } else {
            match self.state {
                State::BodyUntilClose => self.goto(State::MessageDone),
                State::Start | State::Closed | State::Tunnel => self,
                State::BodyIdentity | State::ChunkSizeStart | State::ChunkSize
                    | State::ChunkExtension
                | State::ChunkSizeLf | State::ChunkData | State::ChunkDataCr
                    | State::ChunkDataLf => {
                    self.fail(Error::HPE_UNEXPECTED_EOF)
                },
                _ => self.fail(Error::HPE_INVALID_EOF_STATE),
            }
        }
    }

    /// Computes `spec_at_eof`.
    #[verifier::when_used_as_spec(spec_at_eof)]
    pub fn at_eof(self) -> (r: Machine)
        ensures
            r == self.spec_at_eof(),
    {
        if self.halted() {
            self
        } else {
            match self.state {
                State::BodyUntilClose => self.goto(State::MessageDone),
                State::Start | State::Closed | State::Tunnel => self,
                State::BodyIdentity | State::ChunkSizeStart | State::ChunkSize
                    | State::ChunkExtension
                | State::ChunkSizeLf | State::ChunkData | State::ChunkDataCr
                    | State::ChunkDataLf => {
                    self.fail(Error::HPE_UNEXPECTED_EOF)
                },
                _ => self.fail(Error::HPE_INVALID_EOF_STATE),
            }
        }
    }
}

} // verus!
