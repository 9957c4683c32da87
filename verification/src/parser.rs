//! The parser as a consumer holds it: a machine, the hooks that are
//! switched on, and the consumer's context, on which the hooks are called.

use vstd::prelude::*;
use crate::consts::{Error, Method, Type};
use crate::events::{Answer, Callbacks, Settings};
use crate::machine::{DataKind, Machine, Notice, Options};
use crate::laws::{lemma_feed_keeps_setup, lemma_stopped};
use crate::run::{signal_marks, Mark, Signal};
use vstd::slice::slice_subrange;

verus! {

/// An HTTP/1.x parser with the context of its consumer. Its view is the
/// machine.
pub struct Parser<T> {
    machine: Machine,
    settings: Settings,
    data: Option<Box<T>>,
    error_pos: usize,
    announced: Ghost<Seq<Mark>>,
}

impl<T> View for Parser<T> {
    type V = Machine;

    closed spec fn view(&self) -> Machine {
        self.machine
    }
}

impl<T> Default for Parser<T> {
    /// A parser for requests and responses, strict, with no hook switched
    /// on and no context.
    fn default() -> (r: Parser<T>)
        ensures
            r@ == Machine::new(Type::HTTP_BOTH, Options::strict()),
            r.settings() == Settings::new(),
            r.context() is None,
            r.error_pos() == 0,
            r.announced() == Seq::<Mark>::empty(),
    {
        Parser {
            machine: Machine::new(Type::HTTP_BOTH, Options::strict()),
            settings: Settings::new(),
            data: None,
            error_pos: 0,
            announced: Ghost(Seq::empty()),
        }
    }
}

impl<T> Parser<T> {
    /// The hooks that are switched on.
    pub closed spec fn settings(&self) -> Settings {
        self.settings
    }

    /// The context that the parser holds for its consumer.
    pub closed spec fn context(&self) -> Option<Box<T>> {
        self.data
    }

    /// How many bytes the last call read of what it was handed.
    pub closed spec fn error_pos(&self) -> usize {
        self.error_pos
    }

    /// The events that the parser has found since it was made. Each was
    /// handed to its hook when it was found, if the hook was switched on
    /// and there was a context to call it on.
    pub closed spec fn announced(&self) -> Seq<Mark> {
        self.announced@
    }

    /// No hook will be called: none is switched on, or there is no context
    /// to call it on.
    pub open spec fn unheard(&self) -> bool {
        self.context() is None || self.settings().silent()
    }

    /// Makes the parser ready for the first message of a stream of the
    /// kind `lltype`, with the hooks of `settings` and the strict grammar.
    /// The context stays.
    pub fn init(&mut self, settings: &Settings, lltype: Type)
        ensures
            final(self)@ == Machine::new(lltype, Options::strict()),
            final(self).settings() == *settings,
            final(self).context() == old(self).context(),
            final(self).error_pos() == 0,
            final(self).announced() == old(self).announced(),
    {
        self.machine = Machine::new(lltype, Options::strict());
        self.settings = *settings;
        self.error_pos = 0;
    }

    /// Sets the relaxations and limits of the grammar. They hold from the
    /// next byte on and outlast a reset.
    pub fn set_options(&mut self, options: Options)
        ensures
            final(self)@ == (Machine { options, ..old(self)@ }),
            final(self).settings() == old(self).settings(),
            final(self).context() == old(self).context(),
            final(self).error_pos() == old(self).error_pos(),
            final(self).announced() == old(self).announced(),
    {
        self.machine.options = options;
    }

    /// Asks for the coming message, or the one whose headers are being
    /// read, to have no body: a response to `HEAD`, for one. The request
    /// is used up by that message.
    pub fn set_skip_body(&mut self, on: bool)
        ensures
            final(self)@ == old(self)@.with_skip_body(on),
            final(self).settings() == old(self).settings(),
            final(self).context() == old(self).context(),
            final(self).error_pos() == old(self).error_pos(),
            final(self).announced() == old(self).announced(),
    {
        self.machine = self.machine.with_skip_body(on);
    }

    /// Only the end of the stream can end the current message.
    pub fn message_needs_eof(&self) -> (r: bool)
        ensures
            r == self@.needs_eof(),
    {
        self.machine.needs_eof()
    }

    /// The connection can carry another message after the current one.
    pub fn should_keep_alive(&self) -> (r: bool)
        ensures
            r == self@.keep_alive(),
    {
        self.machine.keep_alive()
    }

    /// Stops a running parser until `resume`: it reads no byte and
    /// announces no event. A parser that has stopped stays as it is.
    pub fn pause(&mut self)
        ensures
            final(self)@ == old(self)@.paused(),
            final(self).settings() == old(self).settings(),
            final(self).context() == old(self).context(),
            final(self).error_pos() == old(self).error_pos(),
            final(self).announced() == old(self).announced(),
    {
        self.machine = self.machine.paused();
    }

    /// Lifts a pause: the parser goes on where it stopped. Any other
    /// parser stays as it is.
    pub fn resume(&mut self)
        ensures
            final(self)@ == old(self)@.resumed(),
            final(self).settings() == old(self).settings(),
            final(self).context() == old(self).context(),
            final(self).error_pos() == old(self).error_pos(),
            final(self).announced() == old(self).announced(),
    {
        self.machine = self.machine.resumed();
    }

    /// Lifts the pause that follows an upgrade. The bytes that follow
    /// belong to another protocol: the parser lets them pass and announces
    /// nothing. Any other parser stays as it is.
    pub fn resume_after_upgrade(&mut self)
        ensures
            final(self)@ == old(self)@.resumed_after_upgrade(),
            final(self).settings() == old(self).settings(),
            final(self).context() == old(self).context(),
            final(self).error_pos() == old(self).error_pos(),
            final(self).announced() == old(self).announced(),
    {
        self.machine = self.machine.resumed_after_upgrade();
    }

    /// Why the parser has stopped; `HPE_OK` if it has not.
    pub fn errno(&self) -> (r: Error)
        ensures
            r == self@.error,
    {
        self.machine.error
    }

    /// A short description of `errno`.
    pub fn get_error_reason(&self) -> (r: &'static str)
        ensures
            r@ == self@.error.spec_reason(),
    {
        self.machine.error.reason()
    }

    /// How many bytes the last call read of what it was handed. Where the
    /// parser stopped on an error, this is the index of the byte on which
    /// the error was found.
    pub fn get_error_pos(&self) -> (r: usize)
        ensures
            r == self.error_pos(),
    {
        self.error_pos
    }

    /// The status code of the current response; 0 until one is read.
    pub fn status_code(&self) -> (r: u16)
        ensures
            r == self@.status_code,
    {
        self.machine.status_code
    }

    /// The consumer's context, if the parser holds one.
    pub fn data(&self) -> (r: Option<&T>)
        ensures
            match self.context() {
                Some(held) => r == Some(&*held),
                None => r is None,
            },
    {
        match &self.data {
            Some(held) => Some(&**held),
            None => None,
        }
    }

    /// Hands the parser a context, or none, and returns the one that it
    /// held.
    pub fn set_data(&mut self, data: Option<Box<T>>) -> (r: Option<Box<T>>)
        ensures
            r == old(self).context(),
            final(self).context() == data,
            final(self)@ == old(self)@,
            final(self).settings() == old(self).settings(),
            final(self).error_pos() == old(self).error_pos(),
            final(self).announced() == old(self).announced(),
    {
        let mut held = data;
        std::mem::swap(&mut self.data, &mut held);
        held
    }

    /// The method of the current request; the first method until one is
    /// read.
    pub fn method(&self) -> (r: Method)
        ensures
            r == self@.method,
    {
        self.machine.method
    }

    /// The name of `method`.
    pub fn method_name(&self) -> (r: &'static str)
        ensures
            r@ == self@.method.spec_name(),
    {
        self.machine.method.name()
    }

    /// The kind of the current message: the parser's mode until a start
    /// line has told a request from a response.
    pub fn lltype(&self) -> (r: Type)
        ensures
            r == self@.kind,
    {
        self.machine.kind
    }

    /// Brings the parser back between messages and forgets what it read
    /// and why it stopped. The mode, the options, the hooks and the
    /// context stay.
    pub fn reset(&mut self)
        ensures
            final(self)@ == Machine::new(old(self)@.mode, old(self)@.options),
            final(self).settings() == old(self).settings(),
            final(self).context() == old(self).context(),
            final(self).error_pos() == 0,
            final(self).announced() == old(self).announced(),
    {
        self.machine = self.machine.cleared();
        self.error_pos = 0;
    }

    /// The major version of the current message.
    pub fn major(&self) -> (r: u8)
        ensures
            r == self@.http_major,
    {
        self.machine.http_major
    }

    /// The minor version of the current message.
    pub fn minor(&self) -> (r: u8)
        ensures
            r == self@.http_minor,
    {
        self.machine.http_minor
    }
}

impl<T: Callbacks> Parser<T> {
    /// Calls the hook of `signal` on the context, if the hook is switched
    /// on and there is a context, and returns its answer.
    fn dispatch(&mut self, signal: Signal, data: &[u8]) -> (answer: Answer)
        requires
            match signal {
                Signal::Data(_, a, b) => a <= b <= data@.len(),
                Signal::Notice(_) => true,
            },
        ensures
            final(self)@ == old(self)@,
            final(self).settings() == old(self).settings(),
            final(self).error_pos() == old(self).error_pos(),
            final(self).announced() == old(self).announced(),
            (final(self).context() is None) == (old(self).context() is None),
            old(self).context() is None || !old(self).settings().wants(signal) ==> answer
                == Answer::Continue && final(self).context() == old(self).context(),
    {
        if !self.settings.wants(signal) {
            return Answer::Continue;
        }
        match &mut self.data {
            None => Answer::Continue,
            Some(held) => match signal {
                Signal::Notice(Notice::MessageBegin) => held.on_message_begin(&self.machine),
                Signal::Notice(Notice::UrlComplete) => held.on_url_complete(&self.machine),
                Signal::Notice(Notice::StatusComplete) => held.on_status_complete(&self.machine),
                Signal::Notice(Notice::HeaderFieldComplete) => held.on_header_field_complete(
                    &self.machine,
                ),
                Signal::Notice(Notice::HeaderValueComplete) => held.on_header_value_complete(
                    &self.machine,
                ),
                Signal::Notice(Notice::HeadersComplete) => held.on_headers_complete(
                    &self.machine,
                ),
                Signal::Notice(Notice::ChunkHeader) => held.on_chunk_header(&self.machine),
                Signal::Notice(Notice::ChunkComplete) => held.on_chunk_complete(&self.machine),
                Signal::Notice(Notice::MessageComplete) => held.on_message_complete(
                    &self.machine,
                ),
                Signal::Data(DataKind::Url, a, b) => held.on_url(
                    &self.machine,
                    slice_subrange(data, a, b),
                ),
                Signal::Data(DataKind::Status, a, b) => held.on_status(
                    &self.machine,
                    slice_subrange(data, a, b),
                ),
                Signal::Data(DataKind::HeaderField, a, b) => held.on_header_field(
                    &self.machine,
                    slice_subrange(data, a, b),
                ),
                Signal::Data(DataKind::HeaderValue, a, b) => held.on_header_value(
                    &self.machine,
                    slice_subrange(data, a, b),
                ),
                Signal::Data(DataKind::Body, a, b) => held.on_body(
                    &self.machine,
                    slice_subrange(data, a, b),
                ),
            },
        }
    }

    /// Reads `data` and calls the hooks, until the end of `data`, until
    /// the machine stops, or until a hook stops it.
    fn drive(&mut self, data: &[u8])
        ensures
            final(self).settings() == old(self).settings(),
            final(self).error_pos() <= data@.len(),
            (final(self).context() is None) == (old(self).context() is None),
            final(self)@.mode == old(self)@.mode,
            final(self)@.options == old(self)@.options,
            final(self)@.halted() || (final(self)@.ready() && final(self).error_pos()
                == data@.len()),
            old(self).unheard() ==> final(self).context() == old(self).context(),
            old(self).unheard() || old(self)@.halted() ==> final(self)@ == old(self)@.feed(data@),
            ({
                ||| final(self)@ == old(self)@.feed(data@) && final(self).error_pos()
                    == old(self)@.consumed(data@)
                    && final(self).announced() == old(self).announced() + old(self)@.trace(data@)
                ||| old(self)@.stopped_by_hook(
                    data@,
                    final(self)@,
                    final(self).error_pos() as int,
                ) && final(self).announced() + final(self)@.fail(Error::HPE_OK).trace(
                    data@.skip(final(self).error_pos() as int),
                ) == old(self).announced() + old(self)@.trace(data@)
            }),
    {
        let mut pos: usize = 0;
        proof {
            assert(data@.skip(0) =~= data@);
        }
        loop
            invariant
                pos <= data@.len(),
                self.settings() == old(self).settings(),
                (self.context() is None) == (old(self).context() is None),
                self@.mode == old(self)@.mode,
                self@.options == old(self)@.options,
                old(self).unheard() ==> self.context() == old(self).context(),
                old(self)@.halted() ==> self@ == old(self)@,
                self@.feed(data@.skip(pos as int)) == old(self)@.feed(data@),
                old(self)@.consumed(data@) == pos + self@.consumed(data@.skip(pos as int)),
                self.announced() + self@.trace(data@.skip(pos as int)) == old(self).announced()
                    + old(self)@.trace(data@),
            decreases data@.len() - pos, self@.rank(),
        {
            let ghost before = self.machine;
            let found = self.machine.advance(data, pos);
            proof {
                before.lemma_advances(data@, pos, found, self.machine);
                lemma_feed_keeps_setup(before, data@.skip(pos as int));
                lemma_feed_keeps_setup(self.machine, data@.skip(found.pos as int));
                let found_marks = signal_marks(found.signal, data@);
                let later = self.machine.trace(data@.skip(found.pos as int));
                assert((self.announced@ + found_marks) + later =~= self.announced@ + (found_marks
                    + later));
                self.announced = Ghost(self.announced@ + found_marks);
            }
            pos = found.pos;
            match found.signal {
                None => {
                    proof {
                        assert(self.announced@ + Seq::<Mark>::empty() =~= self.announced@);
                    }
                    self.error_pos = pos;
                    return ;
                },
                Some(signal) => {
                    let answer = self.dispatch(signal, data);
                    match answer {
                        Answer::Continue => {},
                        _ => {
                            proof {
                                lemma_stopped(self.machine, signal, answer);
                            }
                            self.machine = self.machine.answered(signal, answer);
                            self.error_pos = pos;
                            return ;
                        },
                    }
                },
            }
        }
    }

    /// Reads `data`, calls the hooks that are switched on, each on the
    /// context, and returns why the parser stopped, or `HPE_OK`. A parser
    /// that had stopped reads nothing. Where no hook stops the parser, the
    /// machine after the call is the machine before it, fed `data`; where
    /// one does, the machine would, resumed, go on to there. An empty
    /// `data` tells a parser that needs the end of the stream that the
    /// stream has ended, as `finish` does.
    pub fn parse(&mut self, data: &[u8]) -> (r: Error)
        ensures
            r == final(self)@.error,
            final(self).settings() == old(self).settings(),
            final(self).error_pos() <= data@.len(),
            (final(self).context() is None) == (old(self).context() is None),
            final(self)@.mode == old(self)@.mode,
            final(self)@.options == old(self)@.options,
            r == Error::HPE_OK ==> final(self).error_pos() == data@.len() && final(self)@.ready(),
            old(self)@.halted() ==> final(self)@ == old(self)@ && final(self).error_pos() == 0,
            old(self).unheard() ==> final(self)@ == old(self)@.fed(data@) && final(self).context()
                == old(self).context(),
            ({
                ||| final(self)@ == old(self)@.fed(data@) && final(self).error_pos()
                    == old(self)@.consumed(data@)
                    && final(self).announced() == old(self).announced()
                        + old(self)@.fed_trace(data@)
                ||| old(self)@.stopped_by_hook(
                    data@,
                    final(self)@,
                    final(self).error_pos() as int,
                ) && final(self).announced() + final(self)@.fail(Error::HPE_OK).trace(
                    data@.skip(final(self).error_pos() as int),
                ) == old(self).announced() + old(self)@.trace(data@)
                ||| data@.len() == 0 && old(self)@.stopped_at_eof(final(self)@)
            }),
    {
        proof {
            if self.machine.halted() {
                self.machine.lemma_feed_halted(data@);
            }
        }
        if data.len() == 0 && !self.machine.halted() && self.machine.needs_eof() {
            self.finish()
        } else {
            self.drive(data);
            self.machine.error
        }
    }

    /// Tells the parser that the stream has ended, and returns why the
    /// parser stopped, or `HPE_OK`. The end of the stream completes a
    /// message that only it can end, is an error inside any other message,
    /// and changes nothing between messages. A parser that had stopped
    /// stays as it is.
    pub fn finish(&mut self) -> (r: Error)
        ensures
            r == final(self)@.error,
            final(self).settings() == old(self).settings(),
            final(self).error_pos() == 0,
            (final(self).context() is None) == (old(self).context() is None),
            final(self)@.mode == old(self)@.mode,
            final(self)@.options == old(self)@.options,
            final(self)@.halted() || final(self)@.ready(),
            old(self)@.halted() ==> final(self)@ == old(self)@,
            old(self).unheard() ==> final(self)@ == old(self)@.finished() && final(self).context()
                == old(self).context(),
            ({
                ||| final(self)@ == old(self)@.finished() && final(self).announced()
                    == old(self).announced() + old(self)@.finished_trace()
                ||| old(self)@.stopped_at_eof(final(self)@)
            }),
    {
        let nothing: Vec<u8> = Vec::new();
        proof {
            assert(nothing@.skip(0) =~= nothing@);
            if self.machine.halted() {
                self.machine.lemma_settle_halted();
            }
        }
        self.drive(nothing.as_slice());
        let ghost first = self.machine;
        self.machine = self.machine.at_eof();
        proof {
            if first.halted() {
                first.lemma_settle_halted();
            }
        }
        self.drive(nothing.as_slice());
        self.machine.error
    }
}

} // verus!
