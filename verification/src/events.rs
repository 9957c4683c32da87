//! The consumer's side of the parser: the hooks that it may listen on,
//! the switch that turns each of them on, and what a hook may answer.

use vstd::prelude::*;
use crate::consts::Error;
use crate::machine::{DataKind, Machine, Notice};
use crate::run::Signal;

verus! {

/// What a hook tells the parser.
#[derive(Clone, Copy, Debug, PartialEq, Eq, Structural)]
pub enum Answer {
    /// Go on.
    Continue,
    /// Stop before the next event and the next byte, until resumed.
    Pause,
    /// Refuse the message: the parser stops with the hook's error.
    Abort,
}

/// The hooks that are switched on. It is made apart from any parser and
/// may serve many; a parser copies it when it is initialised.
#[derive(Clone, Copy, Debug, PartialEq, Eq, Structural)]
pub struct Settings {
    pub message_begin: bool,
    pub url: bool,
    pub status: bool,
    pub header_field: bool,
    pub header_value: bool,
    pub headers_complete: bool,
    pub body: bool,
    pub message_complete: bool,
    pub chunk_header: bool,
    pub chunk_complete: bool,
    pub url_complete: bool,
    pub status_complete: bool,
    pub header_field_complete: bool,
    pub header_value_complete: bool,
}

/// The hooks of a consumer, one for each event. A hook sees the machine as
/// it stands when the event is announced. The data of an element may come
/// in several calls; the bytes of all of them, in order, are the element.
/// A hook that is not written lets the event through and leaves the
/// consumer as it was.
pub trait Callbacks: Sized {
    /// A message begins.
    fn on_message_begin(&mut self, _machine: &Machine) -> (answer: Answer)
        default_ensures
            answer == Answer::Continue,
            *final(self) == *old(self),
    {
        Answer::Continue
    }

    /// Bytes of the request target.
    fn on_url(&mut self, _machine: &Machine, _data: &[u8]) -> (answer: Answer)
        default_ensures
            answer == Answer::Continue,
            *final(self) == *old(self),
    {
        Answer::Continue
    }

    /// Bytes of the reason phrase.
    fn on_status(&mut self, _machine: &Machine, _data: &[u8]) -> (answer: Answer)
        default_ensures
            answer == Answer::Continue,
            *final(self) == *old(self),
    {
        Answer::Continue
    }

    /// Bytes of a header field name.
    fn on_header_field(&mut self, _machine: &Machine, _data: &[u8]) -> (answer: Answer)
        default_ensures
            answer == Answer::Continue,
            *final(self) == *old(self),
    {
        Answer::Continue
    }

    /// Bytes of a header field value.
    fn on_header_value(&mut self, _machine: &Machine, _data: &[u8]) -> (answer: Answer)
        default_ensures
            answer == Answer::Continue,
            *final(self) == *old(self),
    {
        Answer::Continue
    }

    /// The headers are complete.
    fn on_headers_complete(&mut self, _machine: &Machine) -> (answer: Answer)
        default_ensures
            answer == Answer::Continue,
            *final(self) == *old(self),
    {
        Answer::Continue
    }

    /// Bytes of the body.
    fn on_body(&mut self, _machine: &Machine, _data: &[u8]) -> (answer: Answer)
        default_ensures
            answer == Answer::Continue,
            *final(self) == *old(self),
    {
        Answer::Continue
    }

    /// The message is complete.
    fn on_message_complete(&mut self, _machine: &Machine) -> (answer: Answer)
        default_ensures
            answer == Answer::Continue,
            *final(self) == *old(self),
    {
        Answer::Continue
    }

    /// The size line of a chunk was read.
    fn on_chunk_header(&mut self, _machine: &Machine) -> (answer: Answer)
        default_ensures
            answer == Answer::Continue,
            *final(self) == *old(self),
    {
        Answer::Continue
    }

    /// A chunk is complete.
    fn on_chunk_complete(&mut self, _machine: &Machine) -> (answer: Answer)
        default_ensures
            answer == Answer::Continue,
            *final(self) == *old(self),
    {
        Answer::Continue
    }

    /// The request target is complete.
    fn on_url_complete(&mut self, _machine: &Machine) -> (answer: Answer)
        default_ensures
            answer == Answer::Continue,
            *final(self) == *old(self),
    {
        Answer::Continue
    }

    /// The reason phrase is complete.
    fn on_status_complete(&mut self, _machine: &Machine) -> (answer: Answer)
        default_ensures
            answer == Answer::Continue,
            *final(self) == *old(self),
    {
        Answer::Continue
    }

    /// A header field name is complete.
    fn on_header_field_complete(&mut self, _machine: &Machine) -> (answer: Answer)
        default_ensures
            answer == Answer::Continue,
            *final(self) == *old(self),
    {
        Answer::Continue
    }

    /// A header field value is complete.
    fn on_header_value_complete(&mut self, _machine: &Machine) -> (answer: Answer)
        default_ensures
            answer == Answer::Continue,
            *final(self) == *old(self),
    {
        Answer::Continue
    }
}

/// The consumer that listens to nothing.
impl Callbacks for () {
}

impl Settings {
    /// No hook is switched on.
    pub open spec fn spec_new() -> Settings {
        Settings {
            message_begin: false,
            url: false,
            status: false,
            header_field: false,
            header_value: false,
            headers_complete: false,
            body: false,
            message_complete: false,
            chunk_header: false,
            chunk_complete: false,
            url_complete: false,
            status_complete: false,
            header_field_complete: false,
            header_value_complete: false,
        }
    }

    /// Computes `spec_new`.
    #[verifier::when_used_as_spec(spec_new)]
    pub fn new() -> (r: Settings)
        ensures
            r == Self::spec_new(),
    {
        Settings {
            message_begin: false,
            url: false,
            status: false,
            header_field: false,
            header_value: false,
            headers_complete: false,
            body: false,
            message_complete: false,
            chunk_header: false,
            chunk_complete: false,
            url_complete: false,
            status_complete: false,
            header_field_complete: false,
            header_value_complete: false,
        }
    }

    /// The hook of this signal is switched on.
    pub open spec fn spec_wants(self, signal: Signal) -> bool {
        match signal {
            Signal::Notice(Notice::MessageBegin) => self.message_begin,
            Signal::Notice(Notice::HeadersComplete) => self.headers_complete,
            Signal::Notice(Notice::MessageComplete) => self.message_complete,
            Signal::Notice(Notice::ChunkHeader) => self.chunk_header,
            Signal::Notice(Notice::ChunkComplete) => self.chunk_complete,
            Signal::Notice(Notice::UrlComplete) => self.url_complete,
            Signal::Notice(Notice::StatusComplete) => self.status_complete,
            Signal::Notice(Notice::HeaderFieldComplete) => self.header_field_complete,
            Signal::Notice(Notice::HeaderValueComplete) => self.header_value_complete,
            Signal::Data(DataKind::Url, _, _) => self.url,
            Signal::Data(DataKind::Status, _, _) => self.status,
            Signal::Data(DataKind::HeaderField, _, _) => self.header_field,
            Signal::Data(DataKind::HeaderValue, _, _) => self.header_value,
            Signal::Data(DataKind::Body, _, _) => self.body,
        }
    }

    /// Computes `spec_wants`.
    #[verifier::when_used_as_spec(spec_wants)]
    pub fn wants(self, signal: Signal) -> (r: bool)
        ensures
            r == self.spec_wants(signal),
    {
        match signal {
            Signal::Notice(Notice::MessageBegin) => self.message_begin,
            Signal::Notice(Notice::HeadersComplete) => self.headers_complete,
            Signal::Notice(Notice::MessageComplete) => self.message_complete,
            Signal::Notice(Notice::ChunkHeader) => self.chunk_header,
            Signal::Notice(Notice::ChunkComplete) => self.chunk_complete,
            Signal::Notice(Notice::UrlComplete) => self.url_complete,
            Signal::Notice(Notice::StatusComplete) => self.status_complete,
            Signal::Notice(Notice::HeaderFieldComplete) => self.header_field_complete,
            Signal::Notice(Notice::HeaderValueComplete) => self.header_value_complete,
            Signal::Data(DataKind::Url, _, _) => self.url,
            Signal::Data(DataKind::Status, _, _) => self.status,
            Signal::Data(DataKind::HeaderField, _, _) => self.header_field,
            Signal::Data(DataKind::HeaderValue, _, _) => self.header_value,
            Signal::Data(DataKind::Body, _, _) => self.body,
        }
    }

    /// No hook is switched on.
    pub open spec fn spec_silent(self) -> bool {
        !self.message_begin && !self.url && !self.status && !self.header_field
            && !self.header_value && !self.headers_complete
            && !self.body && !self.message_complete && !self.chunk_header && !self.chunk_complete
            && !self.url_complete && !self.status_complete && !self.header_field_complete
                && !self.header_value_complete
    }

    /// Computes `spec_silent`.
    #[verifier::when_used_as_spec(spec_silent)]
    pub fn silent(self) -> (r: bool)
        ensures
            r == self.spec_silent(),
    {
        !self.message_begin && !self.url && !self.status && !self.header_field
            && !self.header_value && !self.headers_complete
            && !self.body && !self.message_complete && !self.chunk_header && !self.chunk_complete
            && !self.url_complete && !self.status_complete && !self.header_field_complete
                && !self.header_value_complete
    }
}

impl Settings {
    /// Switches the hook `on_message_begin` on or off.
    pub fn on_message_begin(&mut self, on: bool)
        ensures
            *final(self) == (Settings { message_begin: on, ..*old(self) }),
    {
        self.message_begin = on;
    }

    /// Switches the hook `on_url` on or off.
    pub fn on_url(&mut self, on: bool)
        ensures
            *final(self) == (Settings { url: on, ..*old(self) }),
    {
        self.url = on;
    }

    /// Switches the hook `on_status` on or off.
    pub fn on_status(&mut self, on: bool)
        ensures
            *final(self) == (Settings { status: on, ..*old(self) }),
    {
        self.status = on;
    }

    /// Switches the hook `on_header_field` on or off.
    pub fn on_header_field(&mut self, on: bool)
        ensures
            *final(self) == (Settings { header_field: on, ..*old(self) }),
    {
        self.header_field = on;
    }

    /// Switches the hook `on_header_value` on or off.
    pub fn on_header_value(&mut self, on: bool)
        ensures
            *final(self) == (Settings { header_value: on, ..*old(self) }),
    {
        self.header_value = on;
    }

    /// Switches the hook `on_headers_complete` on or off.
    pub fn on_headers_complete(&mut self, on: bool)
        ensures
            *final(self) == (Settings { headers_complete: on, ..*old(self) }),
    {
        self.headers_complete = on;
    }

    /// Switches the hook `on_body` on or off.
    pub fn on_body(&mut self, on: bool)
        ensures
            *final(self) == (Settings { body: on, ..*old(self) }),
    {
        self.body = on;
    }

    /// Switches the hook `on_message_complete` on or off.
    pub fn on_message_complete(&mut self, on: bool)
        ensures
            *final(self) == (Settings { message_complete: on, ..*old(self) }),
    {
        self.message_complete = on;
    }

    /// Switches the hook `on_chunk_header` on or off.
    pub fn on_chunk_header(&mut self, on: bool)
        ensures
            *final(self) == (Settings { chunk_header: on, ..*old(self) }),
    {
        self.chunk_header = on;
    }

    /// Switches the hook `on_chunk_complete` on or off.
    pub fn on_chunk_complete(&mut self, on: bool)
        ensures
            *final(self) == (Settings { chunk_complete: on, ..*old(self) }),
    {
        self.chunk_complete = on;
    }

    /// Switches the hook `on_url_complete` on or off.
    pub fn on_url_complete(&mut self, on: bool)
        ensures
            *final(self) == (Settings { url_complete: on, ..*old(self) }),
    {
        self.url_complete = on;
    }

    /// Switches the hook `on_status_complete` on or off.
    pub fn on_status_complete(&mut self, on: bool)
        ensures
            *final(self) == (Settings { status_complete: on, ..*old(self) }),
    {
        self.status_complete = on;
    }

    /// Switches the hook `on_header_field_complete` on or off.
    pub fn on_header_field_complete(&mut self, on: bool)
        ensures
            *final(self) == (Settings { header_field_complete: on, ..*old(self) }),
    {
        self.header_field_complete = on;
    }

    /// Switches the hook `on_header_value_complete` on or off.
    pub fn on_header_value_complete(&mut self, on: bool)
        ensures
            *final(self) == (Settings { header_value_complete: on, ..*old(self) }),
    {
        self.header_value_complete = on;
    }
}

impl Default for Settings {
    fn default() -> (r: Settings)
        ensures
            r == Settings::new(),
    {
        Settings::new()
    }
}

impl Signal {
    /// The error that stands for a hook's refusal of this signal.
    pub open spec fn spec_refusal(self) -> Error {
        match self {
            Signal::Notice(Notice::MessageBegin) => Error::HPE_CB_MESSAGE_BEGIN,
            Signal::Notice(Notice::UrlComplete) => Error::HPE_CB_URL_COMPLETE,
            Signal::Notice(Notice::StatusComplete) => Error::HPE_CB_STATUS_COMPLETE,
            Signal::Notice(Notice::HeaderFieldComplete) => Error::HPE_CB_HEADER_FIELD_COMPLETE,
            Signal::Notice(Notice::HeaderValueComplete) => Error::HPE_CB_HEADER_VALUE_COMPLETE,
            Signal::Notice(Notice::HeadersComplete) => Error::HPE_CB_HEADERS_COMPLETE,
            Signal::Notice(Notice::ChunkHeader) => Error::HPE_CB_CHUNK_HEADER,
            Signal::Notice(Notice::ChunkComplete) => Error::HPE_CB_CHUNK_COMPLETE,
            Signal::Notice(Notice::MessageComplete) => Error::HPE_CB_MESSAGE_COMPLETE,
            Signal::Data(_, _, _) => Error::HPE_USER,
        }
    }

    /// Computes `spec_refusal`.
    #[verifier::when_used_as_spec(spec_refusal)]
    pub fn refusal(self) -> (r: Error)
        ensures
            r == self.spec_refusal(),
    {
        match self {
            Signal::Notice(Notice::MessageBegin) => Error::HPE_CB_MESSAGE_BEGIN,
            Signal::Notice(Notice::UrlComplete) => Error::HPE_CB_URL_COMPLETE,
            Signal::Notice(Notice::StatusComplete) => Error::HPE_CB_STATUS_COMPLETE,
            Signal::Notice(Notice::HeaderFieldComplete) => Error::HPE_CB_HEADER_FIELD_COMPLETE,
            Signal::Notice(Notice::HeaderValueComplete) => Error::HPE_CB_HEADER_VALUE_COMPLETE,
            Signal::Notice(Notice::HeadersComplete) => Error::HPE_CB_HEADERS_COMPLETE,
            Signal::Notice(Notice::ChunkHeader) => Error::HPE_CB_CHUNK_HEADER,
            Signal::Notice(Notice::ChunkComplete) => Error::HPE_CB_CHUNK_COMPLETE,
            Signal::Notice(Notice::MessageComplete) => Error::HPE_CB_MESSAGE_COMPLETE,
            Signal::Data(_, _, _) => Error::HPE_USER,
        }
    }
}

impl Machine {
    /// The machine after a hook's answer to `signal`. A pause or a refusal
    /// stops a running machine; a machine that has stopped stays as it is.
    pub open spec fn spec_answered(self, signal: Signal, answer: Answer) -> Machine {
        if self.halted() {
            self
        } else {
            match answer {
                Answer::Continue => self,
                Answer::Pause => self.fail(Error::HPE_PAUSED),
                Answer::Abort => self.fail(signal.refusal()),
            }
        }
    }

    /// Computes `spec_answered`.
    #[verifier::when_used_as_spec(spec_answered)]
    pub fn answered(self, signal: Signal, answer: Answer) -> (r: Machine)
        ensures
            r == self.spec_answered(signal, answer),
    {
        if self.halted() {
            self
        } else {
            match answer {
                Answer::Continue => self,
                Answer::Pause => self.fail(Error::HPE_PAUSED),
                Answer::Abort => self.fail(signal.refusal()),
            }
        }
    }
}

} // verus!
