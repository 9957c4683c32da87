//! What a machine does with a sequence of bytes: the moves it makes by
//! itself, the bytes it reads one by one, and the events that both give.

use vstd::prelude::*;
use crate::consts::Error;
use crate::machine::{DataKind, Machine, Notice, State};
use vstd::slice::{slice_subrange, slice_to_vec};

verus! {

/// One element of the sequence of events: an event without data, or one
/// byte of an element's data.
pub enum Mark {
    Notice(Notice),
    Byte(DataKind, u8),
}

/// The marks of a run of data bytes of one element.
pub open spec fn span_marks(k: DataKind, bytes: Seq<u8>) -> Seq<Mark> {
    Seq::new(bytes.len(), |i: int| Mark::Byte(k, bytes[i]))
}

/// The mark of one byte read, if it was data.
pub open spec fn byte_marks(data: Option<DataKind>, b: u8) -> Seq<Mark> {
    match data {
        Some(k) => seq![Mark::Byte(k, b)],
        None => seq![],
    }
}

impl Machine {
    /// How many moves the machine can still make by itself, at most.
    pub open spec fn rank(self) -> nat {
        if self.halted() {
            0
        } else {
            let relays: nat = match self.state {
                State::HeadersDone => 3,
                State::MessageDone => 2,
                State::AfterMessage => 1,
                _ => 0,
            };
            let due: nat = if self.pending is Some {
                1
            } else {
                0
            };
            2 * relays + due
        }
    }

    /// Leaving a relay state brings the machine nearer to rest.
    pub proof fn lemma_relay_rank(self)
        requires
            !self.halted(),
            self.pending is None,
            self.state.is_relay(),
        ensures
            self.relay().rank() < self.rank(),
    {
        reveal(Machine::spec_relay);
    }

    /// The machine after the event that was due.
    pub open spec fn flushed(self) -> Machine {
        Machine { pending: None, ..self }
    }

    /// The machine after all the moves that it makes by itself: the events
    /// that are due are announced and the relay states are left. The result
    /// waits for a byte, or has stopped.
    pub open spec fn settle(self) -> Machine
        decreases self.rank(),
    {
        if self.halted() {
            self
        } else if self.pending is Some {
            self.flushed().settle()
        } else if self.state.is_relay() {
            proof {
                self.lemma_relay_rank();
            }
            self.relay().settle()
        } else {
            self
        }
    }

    /// The events announced on the way to `settle`.
    pub open spec fn settle_trace(self) -> Seq<Mark>
        decreases self.rank(),
    {
        if self.halted() {
            seq![]
        } else if self.pending is Some {
            seq![Mark::Notice(self.pending->0)] + self.flushed().settle_trace()
        } else if self.state.is_relay() {
            proof {
                self.lemma_relay_rank();
            }
            self.relay().settle_trace()
        } else {
            seq![]
        }
    }

    /// The machine after the bytes `s`, every event being let through. A
    /// machine that has stopped, or stops on the way, reads no further.
    pub open spec fn feed(self, s: Seq<u8>) -> Machine
        decreases s.len(),
    {
        if s.len() == 0 {
            self.settle()
        } else {
            self.settle().step(s[0]).next.feed(s.drop_first())
        }
    }

    /// The events that the bytes `s` give, in order, every event being let
    /// through.
    pub open spec fn trace(self, s: Seq<u8>) -> Seq<Mark>
        decreases s.len(),
    {
        if s.len() == 0 {
            self.settle_trace()
        } else {
            let m = self.settle().step(s[0]);
            self.settle_trace() + byte_marks(m.data, s[0]) + m.next.trace(s.drop_first())
        }
    }

    /// How many of the bytes `s` the machine reads before it stops. The
    /// byte on which an error is found is not read.
    pub open spec fn consumed(self, s: Seq<u8>) -> nat
        decreases s.len(),
    {
        if s.len() == 0 {
            0
        } else {
            let next = self.settle().step(s[0]).next;
            if next.halted() {
                0
            } else {
                1 + next.consumed(s.drop_first())
            }
        }
    }

    /// The machine after the end of the stream, every event being let
    /// through.
    pub open spec fn finished(self) -> Machine {
        self.settle().at_eof().settle()
    }

    /// The events that the end of the stream gives, every event being let
    /// through.
    pub open spec fn finished_trace(self) -> Seq<Mark> {
        self.settle_trace() + self.settle().at_eof().settle_trace()
    }

    /// The machine after one call that hands it `s`: an empty `s` tells a
    /// machine that needs the end of the stream that the stream has ended.
    pub open spec fn fed(self, s: Seq<u8>) -> Machine {
        if s.len() == 0 && !self.halted() && self.needs_eof() {
            self.finished()
        } else {
            self.feed(s)
        }
    }

    /// The events that one call gives that hands the machine `s`.
    pub open spec fn fed_trace(self, s: Seq<u8>) -> Seq<Mark> {
        if s.len() == 0 && !self.halted() && self.needs_eof() {
            self.finished_trace()
        } else {
            self.trace(s)
        }
    }

    /// A hook stopped the machine on its way from `self` through `data`:
    /// `end` is the machine as the hook left it, `pos` the number of bytes
    /// read. With the hook's error lifted, `end` goes on through the rest
    /// of `data` to where `self` goes through all of it.
    pub open spec fn stopped_by_hook(self, data: Seq<u8>, end: Machine, pos: int) -> bool {
        &&& !self.halted()
        &&& end.error.from_hook()
        &&& 0 <= pos <= data.len()
        &&& end.fail(Error::HPE_OK).feed(data.skip(pos)) == self.feed(data)
    }

    /// A hook stopped the machine on its way from `self` through the end
    /// of the stream, before the end was taken note of or after it. With
    /// the hook's error lifted, `end` comes to rest where `self` does.
    pub open spec fn stopped_at_eof(self, end: Machine) -> bool {
        &&& !self.halted()
        &&& end.error.from_hook()
        &&& (end.fail(Error::HPE_OK).settle() == self.settle() || end.fail(
            Error::HPE_OK,
        ).settle() == self.finished())
    }

    /// A machine that has stopped makes no move by itself.
    pub proof fn lemma_settle_halted(self)
        requires
            self.halted(),
        ensures
            self.settle() == self,
            self.settle_trace() == Seq::<Mark>::empty(),
    {
    }

    /// A machine that waits for a byte makes no move by itself.
    pub proof fn lemma_settle_ready(self)
        requires
            self.ready(),
        ensures
            self.settle() == self,
            self.settle_trace() == Seq::<Mark>::empty(),
    {
    }

    /// After its own moves a machine has stopped or waits for a byte, and
    /// has no further move of its own to make.
    pub proof fn lemma_settle_settled(self)
        ensures
            self.settle().halted() || self.settle().ready(),
            self.settle().settle() == self.settle(),
            self.settle().settle_trace() == Seq::<Mark>::empty(),
        decreases self.rank(),
    {
        if self.halted() {
        } else if self.pending is Some {
            self.flushed().lemma_settle_settled();
        } else if self.state.is_relay() {
            self.lemma_relay_rank();
            self.relay().lemma_settle_settled();
        } else {
        }
    }

    /// A machine that has stopped reads nothing and announces nothing.
    pub proof fn lemma_feed_halted(self, s: Seq<u8>)
        requires
            self.halted(),
        ensures
            self.feed(s) == self,
            self.trace(s) == Seq::<Mark>::empty(),
            self.consumed(s) == 0,
        decreases s.len(),
    {
        if s.len() > 0 {
            self.lemma_step_idle(s[0]);
            self.lemma_feed_halted(s.drop_first());
            assert(self.trace(s) =~= Seq::<Mark>::empty());
        }
    }

    /// Announcing the event that is due changes nothing of what follows.
    pub proof fn lemma_feed_flush(self, s: Seq<u8>)
        requires
            !self.halted(),
            self.pending is Some,
        ensures
            self.feed(s) == self.flushed().feed(s),
            self.trace(s) == seq![Mark::Notice(self.pending->0)] + self.flushed().trace(s),
            self.consumed(s) == self.flushed().consumed(s),
    {
        let head = seq![Mark::Notice(self.pending->0)];
        if s.len() == 0 {
        } else {
            let m = self.settle().step(s[0]);
            assert(self.trace(s) =~= head + self.flushed().trace(s));
        }
    }

    /// Leaving a relay state changes nothing of what follows.
    pub proof fn lemma_feed_relay(self, s: Seq<u8>)
        requires
            !self.halted(),
            self.pending is None,
            self.state.is_relay(),
        ensures
            self.feed(s) == self.relay().feed(s),
            self.trace(s) == self.relay().trace(s),
            self.consumed(s) == self.relay().consumed(s),
    {
    }

    /// What a machine that waits for a byte does with the first byte.
    pub proof fn lemma_feed_step(self, s: Seq<u8>)
        requires
            self.ready(),
            s.len() > 0,
        ensures
            self.feed(s) == self.step(s[0]).next.feed(s.drop_first()),
            self.trace(s) == byte_marks(self.step(s[0]).data, s[0]) + self.step(s[0]).next.trace(
                s.drop_first(),
            ),
            self.consumed(s) == if self.step(s[0]).next.halted() {
                0nat
            } else {
                1 + self.step(s[0]).next.consumed(s.drop_first())
            },
    {
        self.lemma_settle_ready();
        let m = self.step(s[0]);
        assert(self.trace(s) =~= byte_marks(m.data, s[0]) + m.next.trace(s.drop_first()));
    }
}

/// What `Machine::advance` found: an event without data, or a run of data
/// bytes of one element, from the first index up to the second.
#[derive(Clone, Copy, Debug, PartialEq, Eq)]
pub enum Signal {
    Notice(Notice),
    Data(DataKind, usize, usize),
}

/// Where `Machine::advance` stopped, and what it found there.
#[derive(Clone, Copy, Debug, PartialEq, Eq)]
pub struct Progress {
    /// The index of the first byte not read.
    pub pos: usize,
    pub signal: Option<Signal>,
}

/// The marks that a signal stands for, the bytes taken from `data`.
pub open spec fn signal_marks(signal: Option<Signal>, data: Seq<u8>) -> Seq<Mark> {
    match signal {
        None => seq![],
        Some(Signal::Notice(n)) => seq![Mark::Notice(n)],
        Some(Signal::Data(k, a, b)) => span_marks(k, data.subrange(a as int, b as int)),
    }
}

/// An event as a consumer sees it: the data bytes of one element that
/// were read in one run come together.
#[derive(Debug, PartialEq, Eq)]
pub enum Event {
    Notice(Notice),
    Data(DataKind, Vec<u8>),
}

/// The marks that an event stands for.
pub open spec fn event_marks(e: Event) -> Seq<Mark> {
    match e {
        Event::Notice(n) => seq![Mark::Notice(n)],
        Event::Data(k, bytes) => span_marks(k, bytes@),
    }
}

/// The marks that a sequence of events stands for.
pub open spec fn events_marks(es: Seq<Event>) -> Seq<Mark>
    decreases es.len(),
{
    if es.len() == 0 {
        seq![]
    } else {
        events_marks(es.drop_last()) + event_marks(es.last())
    }
}

impl Machine {
    /// What `advance` does. From `self` and `data` read from `pos` on, it
    /// comes to `r` and leaves the machine `after`. What `r` hands out,
    /// followed by what `after` does with the rest of `data`, is what
    /// `self` does with `data` from `pos` on. Nothing is handed out only
    /// where `after` has stopped or `data` is read to its end. A run of
    /// data bytes is not empty, and as long as it can be.
    #[verifier::opaque]
    pub open spec fn advances(
        self,
        data: Seq<u8>,
        pos: usize,
        r: Progress,
        after: Machine,
    ) -> bool {
        &&& pos <= r.pos <= data.len()
        &&& after.feed(data.skip(r.pos as int)) == self.feed(data.skip(pos as int))
        &&& self.trace(data.skip(pos as int)) == signal_marks(r.signal, data) + after.trace(
            data.skip(r.pos as int),
        )
        &&& self.consumed(data.skip(pos as int)) == (r.pos - pos) + after.consumed(
            data.skip(r.pos as int),
        )
        &&& (r.signal is Some ==> r.pos > pos || after.rank() < self.rank())
        &&& match r.signal {
            None => after.halted() || (r.pos == data.len() && after.ready()),
            Some(Signal::Notice(_)) => !after.halted(),
            Some(Signal::Data(k, a, b)) => {
                &&& pos <= a < b == r.pos
                &&& !after.halted()
                &&& (b == data.len() || !after.ready() || after.step(data[b as int]).data
                    != Some(k) || after.step(data[b as int]).next.halted())
            },
        }
    }

    /// What follows from `advances` for one who drives a machine. The
    /// rest of the input still leads to the same end. Where something is
    /// handed out, the machine was running and still is, and it has read
    /// a byte or come nearer to rest; where nothing is, the machine is at
    /// rest: it has stopped, or waits for a byte at the end of `data`.
    pub proof fn lemma_advances(self, data: Seq<u8>, pos: usize, r: Progress, after: Machine)
        requires
            self.advances(data, pos, r, after),
        ensures
            pos <= r.pos <= data.len(),
            after.feed(data.skip(r.pos as int)) == self.feed(data.skip(pos as int)),
            self.trace(data.skip(pos as int)) == signal_marks(r.signal, data) + after.trace(
                data.skip(r.pos as int),
            ),
            self.consumed(data.skip(pos as int)) == (r.pos - pos) + after.consumed(
                data.skip(r.pos as int),
            ),
            r.signal is Some ==> !self.halted() && !after.halted() && (r.pos > pos
                || after.rank() < self.rank()),
            r.signal matches Some(Signal::Data(_, a, b)) ==> pos <= a < b == r.pos,
            r.signal is None ==> (after.halted() || (r.pos == data.len() && after.ready()))
                && after.feed(data.skip(r.pos as int)) == after && after.trace(
                data.skip(r.pos as int),
            ) == Seq::<Mark>::empty() && after.consumed(data.skip(r.pos as int)) == 0,
            self.halted() ==> after == self && r.pos == pos && r.signal is None,
    {
        reveal(Machine::advances);
        if self.halted() {
            self.lemma_feed_halted(data.skip(pos as int));
            if r.signal is Some {
                match r.signal->0 {
                    Signal::Notice(n) => {
                        assert(signal_marks(r.signal, data)[0] == Mark::Notice(n));
                    },
                    Signal::Data(k, a, b) => {
                        assert(signal_marks(r.signal, data).len() == b - a);
                    },
                }
                assert(false);
            }
        }
        if r.signal is None {
            if after.halted() {
                after.lemma_feed_halted(data.skip(r.pos as int));
            } else {
                after.lemma_settle_ready();
            }
        }
    }

    /// Reads `data` from `pos` on, up to the next event or run of data
    /// bytes, which is handed out; or to the end of `data`; or until the
    /// machine stops. What is handed out, followed by what the machine
    /// does with the rest of `data`, is what the machine as it was does
    /// with `data` from `pos` on. A run of data bytes is as long as it can
    /// be.
    pub fn advance(&mut self, data: &[u8], pos: usize) -> (r: Progress)
        requires
            pos <= data@.len(),
        ensures
            old(self).advances(data@, pos, r, *final(self)),
    {
        let mut p: usize = pos;
        loop
            invariant
                pos <= p <= data@.len(),
                self.feed(data@.skip(p as int)) == old(self).feed(data@.skip(pos as int)),
                self.trace(data@.skip(p as int)) == old(self).trace(data@.skip(pos as int)),
                old(self).consumed(data@.skip(pos as int)) == (p - pos) + self.consumed(
                    data@.skip(p as int),
                ),
                p > pos || self.rank() <= old(self).rank(),
            decreases data@.len() - p, self.rank(),
        {
            proof {
                reveal(Machine::advances);
            }
            if self.halted() {
                return Progress { pos: p, signal: None };
            }
            match self.pending {
                Some(n) => {
                    proof {
                        self.lemma_feed_flush(data@.skip(p as int));
                    }
                    self.pending = None;
                    return Progress { pos: p, signal: Some(Signal::Notice(n)) };
                },
                None => {},
            }
            if self.state.is_relay() {
                proof {
                    self.lemma_feed_relay(data@.skip(p as int));
                    self.lemma_relay_rank();
                }
                *self = self.relay();
                continue ;
            }
            if p == data.len() {
                return Progress { pos: p, signal: None };
            }
            let b = data[p];
            let mv = self.step(b);
            proof {
                self.lemma_feed_step(data@.skip(p as int));
                assert(data@.skip(p as int).drop_first() =~= data@.skip(p + 1));
            }
            if mv.next.halted() {
                proof {
                    mv.next.lemma_feed_halted(data@.skip(p + 1));
                    mv.next.lemma_feed_halted(data@.skip(p as int));
                    if mv.data is Some {
                        self.lemma_step_data(b);
                    }
                }
                *self = mv.next;
                return Progress { pos: p, signal: None };
            }
            *self = mv.next;
            match mv.data {
                None => {
                    p += 1;
                },
                Some(k) => {
                    let start: usize = p;
                    p += 1;
                    proof {
                        assert(data@.subrange(start as int, p as int) =~= seq![b]);
                        assert(span_marks(k, seq![b]) =~= seq![Mark::Byte(k, b)]);
                    }
                    while p < data.len() && self.ready()
                        invariant
                            pos <= start < p <= data@.len(),
                            !self.halted(),
                            self.feed(data@.skip(p as int)) == old(self).feed(
                                data@.skip(pos as int),
                            ),
                            old(self).trace(data@.skip(pos as int)) == span_marks(
                                k,
                                data@.subrange(start as int, p as int),
                            ) + self.trace(data@.skip(p as int)),
                            old(self).consumed(data@.skip(pos as int)) == (p - pos)
                                + self.consumed(data@.skip(p as int)),
                        ensures
                            p == data@.len() || !self.ready() || self.step(data@[p as int]).data
                                != Some(k) || self.step(data@[p as int]).next.halted(),
                        decreases data@.len() - p,
                    {
                        let c = data[p];
                        let more = self.step(c);
                        let same = match more.data {
                            Some(k2) => k2 == k,
                            None => false,
                        };
                        if !same || more.next.halted() {
                            break ;
                        }
                        proof {
                            self.lemma_feed_step(data@.skip(p as int));
                            assert(data@.skip(p as int).drop_first() =~= data@.skip(p + 1));
                            assert(span_marks(k, data@.subrange(start as int, p as int))
                                + seq![Mark::Byte(k, c)] =~= span_marks(
                                k,
                                data@.subrange(start as int, p + 1),
                            ));
                            assert(old(self).trace(data@.skip(pos as int)) =~= span_marks(
                                k,
                                data@.subrange(start as int, p + 1),
                            ) + more.next.trace(data@.skip(p + 1)));
                        }
                        *self = more.next;
                        p += 1;
                    }
                    proof {
                        reveal(Machine::advances);
                    }
                    return Progress { pos: p, signal: Some(Signal::Data(k, start, p)) };
                },
            }
        }
    }
}

/// One more event adds its marks.
pub proof fn lemma_events_marks_push(es: Seq<Event>, e: Event)
    ensures
        events_marks(es.push(e)) == events_marks(es) + event_marks(e),
{
    assert(es.push(e).drop_last() =~= es);
}

impl Machine {
    /// Reads `data`, letting every event through, and returns the events
    /// in order, with the number of bytes read. The data bytes of an
    /// element that follow one another come in one event.
    pub fn collect(&mut self, data: &[u8]) -> (r: (Vec<Event>, usize))
        ensures
            *final(self) == old(self).feed(data@),
            events_marks(r.0@) == old(self).trace(data@),
            r.1 == old(self).consumed(data@),
            forall|i: int|
                0 <= i < r.0@.len() ==> (#[trigger] r.0@[i] matches Event::Data(_, bytes)
                    ==> bytes@.len() > 0),
    {
        let mut events: Vec<Event> = Vec::new();
        let mut pos: usize = 0;
        proof {
            assert(data@.skip(0) =~= data@);
        }
        loop
            invariant
                pos <= data@.len(),
                self.feed(data@.skip(pos as int)) == old(self).feed(data@),
                old(self).trace(data@) == events_marks(events@) + self.trace(
                    data@.skip(pos as int),
                ),
                old(self).consumed(data@) == pos + self.consumed(data@.skip(pos as int)),
                forall|i: int|
                    0 <= i < events@.len() ==> (#[trigger] events@[i] matches Event::Data(
                        _,
                        bytes,
                    ) ==> bytes@.len() > 0),
            decreases data@.len() - pos, self.rank(),
        {
            let ghost before = *self;
            let ghost seen = events@;
            let found = self.advance(data, pos);
            proof {
                before.lemma_advances(data@, pos, found, *self);
            }
            pos = found.pos;
            let event = match found.signal {
                None => {
                    return (events, pos);
                },
                Some(Signal::Notice(n)) => Event::Notice(n),
                Some(Signal::Data(k, a, b)) => Event::Data(
                    k,
                    slice_to_vec(slice_subrange(data, a, b)),
                ),
            };
            events.push(event);
            proof {
                lemma_events_marks_push(seen, event);
                assert(event_marks(event) == signal_marks(found.signal, data@));
                assert(events_marks(seen) + (event_marks(event) + self.trace(
                    data@.skip(pos as int),
                )) =~= events_marks(events@) + self.trace(data@.skip(pos as int)));
                assert(old(self).trace(data@) =~= events_marks(events@) + self.trace(
                    data@.skip(pos as int),
                ));
            }
        }
    }
}

} // verus!
