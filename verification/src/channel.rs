//! The control channel, seen from the client's side.
//!
//! The renderer is the server of a named pipe; the player connects to it,
//! writes commands and reads events. Opening the pipe, reading and writing
//! are the caller's part. What is decided here is what follows each of these
//! steps: whether to try connecting again and after how long, where to go on
//! after a short write, and which events the bytes read so far make up.

use vstd::prelude::*;
use crate::wire::{
    complete_lines, decode_record, event_records, has_no_newline, lemma_split, lemma_split_push,
    records_in, splits_into, unfinished_line, EventRecord, IncomingEvent, NEWLINE,
};

verus! {

/// How often a connection is tried before the channel is given up.
pub const MAX_CONNECT_ATTEMPTS: u32 = 10;

/// The wait after the first failed attempt, in milliseconds.
pub const CONNECT_BACKOFF_BASE_MS: u64 = 10;

/// The longest wait between two attempts, in milliseconds.
pub const CONNECT_BACKOFF_CAP_MS: u64 = 1000;

/// How one attempt to open the pipe ended.
#[derive(Clone, Copy, Debug, PartialEq, Eq, Structural)]
pub enum ConnectOutcome {
    /// The pipe is open.
    Connected,
    /// The renderer has not created the pipe yet, or all its instances are
    /// busy.
    NotListening,
    /// The pipe exists and cannot be opened.
    Rejected,
}

/// Why no channel could be had.
#[derive(Clone, Copy, Debug, PartialEq, Eq, Structural)]
pub enum ConnectFailure {
    /// The renderer was still not listening at the last attempt.
    NotListening,
    /// Opening the pipe failed for another reason.
    Rejected,
}

/// What follows an attempt to connect.
#[derive(Clone, Copy, Debug, PartialEq, Eq, Structural)]
pub enum ConnectStep {
    /// The channel is open.
    Connected,
    /// Wait this many milliseconds, then try again.
    RetryAfter(u64),
    /// Give up.
    Failed(ConnectFailure),
}

/// The wait after the `failures`-th failed attempt in a row: the base wait
/// after the first, doubling with each further one, at most the cap.
pub open spec fn backoff_ms(failures: nat) -> nat
    decreases failures,
{
    if failures <= 1 {
        CONNECT_BACKOFF_BASE_MS as nat
    } else if 2 * backoff_ms((failures - 1) as nat) > CONNECT_BACKOFF_CAP_MS {
        CONNECT_BACKOFF_CAP_MS as nat
    } else {
        2 * backoff_ms((failures - 1) as nat)
    }
}

/// What follows the `attempts_made`-th attempt, which ended in `outcome`.
pub open spec fn connect_step(attempts_made: nat, outcome: ConnectOutcome) -> ConnectStep {
    match outcome {
        ConnectOutcome::Connected => ConnectStep::Connected,
        ConnectOutcome::Rejected => ConnectStep::Failed(ConnectFailure::Rejected),
        ConnectOutcome::NotListening => if attempts_made >= MAX_CONNECT_ATTEMPTS {
            ConnectStep::Failed(ConnectFailure::NotListening)
        } else {
            ConnectStep::RetryAfter(backoff_ms(attempts_made) as u64)
        },
    }
}

/// The wait never leaves the range from the base to the cap, and once it has
/// reached the cap it stays there.
pub proof fn lemma_backoff_bounds(failures: nat, later: nat)
    requires
        failures <= later,
    ensures
        CONNECT_BACKOFF_BASE_MS <= backoff_ms(failures) <= CONNECT_BACKOFF_CAP_MS,
        backoff_ms(failures) <= backoff_ms(later),
    decreases later,
{
    if failures > 1 {
        lemma_backoff_bounds((failures - 1) as nat, (failures - 1) as nat);
    }
    if later > failures {
        lemma_backoff_bounds(failures, (later - 1) as nat);
        lemma_backoff_bounds((later - 1) as nat, (later - 1) as nat);
    }
}

/// The wait after the `failures`-th failed attempt in a row.
pub fn connect_backoff(failures: u32) -> (ms: u64)
    ensures
        ms == backoff_ms(failures as nat),
{
    let mut ms: u64 = CONNECT_BACKOFF_BASE_MS;
    let mut counted: u32 = 1;
    while counted < failures && ms < CONNECT_BACKOFF_CAP_MS
        invariant
            1 <= counted,
            counted <= failures || counted == 1,
            ms == backoff_ms(counted as nat),
            ms <= CONNECT_BACKOFF_CAP_MS,
        decreases failures - counted,
    {
        ms = if 2 * ms > CONNECT_BACKOFF_CAP_MS {
            CONNECT_BACKOFF_CAP_MS
        } else {
            2 * ms
        };
        counted += 1;
    }
    proof {
        if counted < failures {
            lemma_backoff_bounds(counted as nat, failures as nat);
            lemma_backoff_bounds(failures as nat, failures as nat);
        } else if failures == 0 {
            assert(backoff_ms(0) == backoff_ms(1));
        }
    }
    ms
}

/// Decides what follows the `attempts_made`-th attempt to connect.
///
/// Only a renderer that is not listening yet is tried again, and only while
/// fewer than [`MAX_CONNECT_ATTEMPTS`] attempts have been made.
pub fn after_connect_attempt(attempts_made: u32, outcome: ConnectOutcome) -> (step: ConnectStep)
    ensures
        step == connect_step(attempts_made as nat, outcome),
{
    match outcome {
        ConnectOutcome::Connected => ConnectStep::Connected,
        ConnectOutcome::Rejected => ConnectStep::Failed(ConnectFailure::Rejected),
        ConnectOutcome::NotListening => {
            if attempts_made >= MAX_CONNECT_ATTEMPTS {
                ConnectStep::Failed(ConnectFailure::NotListening)
            } else {
                ConnectStep::RetryAfter(connect_backoff(attempts_made))
            }
        },
    }
}

/// How one write to the pipe ended.
#[derive(Clone, Copy, Debug, PartialEq, Eq, Structural)]
pub enum WriteOutcome {
    /// This many bytes were taken.
    Wrote(usize),
    /// The pipe cannot take bytes now.
    WouldBlock,
    /// The write failed.
    Failed,
}

/// Why a command was not sent.
#[derive(Clone, Copy, Debug, PartialEq, Eq, Structural)]
pub enum SendFailure {
    /// The pipe took no byte, or reported more than it was given.
    ChannelClosed,
    /// The write failed.
    Io,
}

/// What follows a write.
#[derive(Clone, Copy, Debug, PartialEq, Eq, Structural)]
pub enum SendStep {
    /// The whole command has been written.
    Done,
    /// Write again, from this offset of the command's bytes.
    WriteFrom(usize),
    /// Wait until the pipe can be written, then write from this offset.
    AwaitWritable(usize),
    /// The command was not sent.
    Failed(SendFailure),
}

/// What follows a write that ended in `outcome`, when `sent` of the
/// command's `frame_len` bytes had been written before it.
pub open spec fn send_step(frame_len: nat, sent: nat, outcome: WriteOutcome) -> SendStep {
    match outcome {
        WriteOutcome::Failed => SendStep::Failed(SendFailure::Io),
        WriteOutcome::WouldBlock => if sent < frame_len {
            SendStep::AwaitWritable(sent as usize)
        } else {
            SendStep::Failed(SendFailure::ChannelClosed)
        },
        WriteOutcome::Wrote(count) => if count == 0 || sent + count > frame_len {
            SendStep::Failed(SendFailure::ChannelClosed)
        } else if sent + count == frame_len {
            SendStep::Done
        } else {
            SendStep::WriteFrom((sent + count) as usize)
        },
    }
}

/// Decides what follows a write. A command is sent when all of its bytes
/// have been written, and not before.
pub fn after_write(frame_len: usize, sent: usize, outcome: WriteOutcome) -> (step: SendStep)
    ensures
        step == send_step(frame_len as nat, sent as nat, outcome),
        step is Done ==> (outcome matches WriteOutcome::Wrote(count) && sent + count == frame_len),
        step matches SendStep::WriteFrom(offset) ==> sent < offset < frame_len,
{
    match outcome {
        WriteOutcome::Failed => SendStep::Failed(SendFailure::Io),
        WriteOutcome::WouldBlock => {
            if sent < frame_len {
                SendStep::AwaitWritable(sent)
            } else {
                SendStep::Failed(SendFailure::ChannelClosed)
            }
        },
        WriteOutcome::Wrote(count) => {
            if count == 0 || sent > frame_len || count > frame_len - sent {
                SendStep::Failed(SendFailure::ChannelClosed)
            } else if count == frame_len - sent {
                SendStep::Done
            } else {
                SendStep::WriteFrom(sent + count)
            }
        },
    }
}

/// How one read from the pipe ended.
#[derive(Debug)]
pub enum ReadOutcome {
    /// These bytes were read; none means that the renderer closed the pipe.
    Data(Vec<u8>),
    /// Nothing is there to read now.
    WouldBlock,
    /// The read failed.
    Failed,
}

/// Why the channel was closed.
#[derive(Clone, Copy, Debug, PartialEq, Eq, Structural)]
pub enum ReadFailure {
    /// The renderer closed the pipe.
    EndOfStream,
    /// A read failed.
    Io,
}

/// What a read brought.
#[derive(Debug)]
pub struct ReadStep {
    /// The events that the bytes read so far completed, oldest first.
    pub events: Vec<IncomingEvent>,
    /// Set when the channel is closed: reading stops.
    pub closed: Option<ReadFailure>,
}

/// What a channel is, as plain values.
pub struct ChannelView {
    /// The beginning of a line whose newline has not been read yet.
    pub pending: Seq<u8>,
    /// Why the channel is closed, if it is.
    pub closed: Option<ReadFailure>,
}

/// The channel after a read that ended in `outcome`, and the events the read
/// completed.
pub open spec fn read_step(channel: ChannelView, outcome: ReadOutcome) -> (
    ChannelView,
    Seq<EventRecord>,
) {
    if channel.closed is Some {
        (channel, Seq::empty())
    } else {
        match outcome {
            ReadOutcome::Data(bytes) => if bytes@.len() == 0 {
                (
                    ChannelView { closed: Some(ReadFailure::EndOfStream), ..channel },
                    Seq::empty(),
                )
            } else {
                (
                    ChannelView {
                        pending: unfinished_line(channel.pending + bytes@),
                        closed: None,
                    },
                    records_in(complete_lines(channel.pending + bytes@)),
                )
            },
            ReadOutcome::WouldBlock => (channel, Seq::empty()),
            ReadOutcome::Failed => (
                ChannelView { closed: Some(ReadFailure::Io), ..channel },
                Seq::empty(),
            ),
        }
    }
}

/// The reading side of an open control channel.
pub struct ControlChannel {
    pending: Vec<u8>,
    closed: Option<ReadFailure>,
}

impl View for ControlChannel {
    type V = ChannelView;

    closed spec fn view(&self) -> ChannelView {
        ChannelView { pending: self.pending@, closed: self.closed }
    }
}

impl ControlChannel {
    #[verifier::type_invariant]
    closed spec fn pending_is_one_line(self) -> bool {
        has_no_newline(self.pending@)
    }

    /// A channel that has just been opened: nothing read yet.
    pub fn new() -> (channel: Self)
        ensures
            channel@.pending == Seq::<u8>::empty(),
            channel@.closed is None,
    {
        ControlChannel { pending: Vec::new(), closed: None }
    }

    /// Why the channel is closed, or `None` while it is open.
    pub fn closed(&self) -> (closed: Option<ReadFailure>)
        ensures
            closed == self@.closed,
    {
        self.closed
    }

    /// Takes in bytes that were read and hands out the events they complete.
    ///
    /// The bytes are appended to what was left of the last line. Every line
    /// that is now complete is read as a record; lines that are no records
    /// are dropped. What follows the last newline is kept for the next call.
    pub fn receive(&mut self, chunk: &[u8]) -> (events: Vec<IncomingEvent>)
        ensures
            event_records(events@) == records_in(complete_lines(old(self)@.pending + chunk@)),
            final(self)@.pending == unfinished_line(old(self)@.pending + chunk@),
            final(self)@.closed == old(self)@.closed,
    {
        proof {
            use_type_invariant(&*self);
        }
        let ghost before = self.pending@;
        let mut pending: Vec<u8> = Vec::new();
        core::mem::swap(&mut self.pending, &mut pending);
        let mut events: Vec<IncomingEvent> = Vec::new();
        let ghost mut lines: Seq<Seq<u8>> = Seq::empty();
        proof {
            assert(before + chunk@.take(0) =~= before);
            assert(splits_into(before, lines, pending@)) by {
                assert(before =~= crate::wire::joined_lines(lines) + before);
            }
            assert(event_records(events@) =~= records_in(lines));
        }
        let mut i: usize = 0;
        while i < chunk.len()
            invariant
                i <= chunk.len(),
                splits_into(before + chunk@.take(i as int), lines, pending@),
                event_records(events@) == records_in(lines),
            decreases chunk.len() - i,
        {
            let byte = chunk[i];
            proof {
                lemma_split_push(before + chunk@.take(i as int), lines, pending@, byte);
                assert((before + chunk@.take(i as int)).push(byte) =~= before + chunk@.take(
                    i + 1,
                ));
            }
            if byte == NEWLINE {
                let ghost earlier = event_records(events@);
                match decode_record(pending.as_slice()) {
                    Some(event) => {
                        events.push(event);
                        proof {
                            assert(event_records(events@) =~= earlier.push(event@));
                        }
                    },
                    None => {},
                }
                proof {
                    assert(lines.push(pending@).drop_last() =~= lines);
                    lines = lines.push(pending@);
                }
                pending.clear();
            } else {
                pending.push(byte);
            }
            i += 1;
        }
        proof {
            assert(chunk@.take(chunk@.len() as int) =~= chunk@);
            lemma_split(before + chunk@);
        }
        self.pending = pending;
        events
    }

    /// Takes in the outcome of one read.
    ///
    /// Bytes go through [`ControlChannel::receive`]. A read that would block
    /// changes nothing: the caller waits until the pipe can be read and reads
    /// again. A read of no bytes, or a failed one, closes the channel; once
    /// closed, it stays closed for the reason it was closed for, and takes
    /// in nothing more.
    pub fn on_read(&mut self, outcome: ReadOutcome) -> (step: ReadStep)
        ensures
            final(self)@ == read_step(old(self)@, outcome).0,
            event_records(step.events@) == read_step(old(self)@, outcome).1,
            step.closed == final(self)@.closed,
    {
        proof {
            use_type_invariant(&*self);
        }
        if self.closed.is_some() {
            let step = ReadStep { events: Vec::new(), closed: self.closed };
            assert(event_records(step.events@) =~= Seq::<EventRecord>::empty());
            return step;
        }
        match outcome {
            ReadOutcome::Data(bytes) => {
                if bytes.len() == 0 {
                    self.closed = Some(ReadFailure::EndOfStream);
                    let step = ReadStep { events: Vec::new(), closed: self.closed };
                    assert(event_records(step.events@) =~= Seq::<EventRecord>::empty());
                    step
                } else {
                    let events = self.receive(bytes.as_slice());
                    ReadStep { events, closed: None }
                }
            },
            ReadOutcome::WouldBlock => {
                let step = ReadStep { events: Vec::new(), closed: None };
                assert(event_records(step.events@) =~= Seq::<EventRecord>::empty());
                step
            },
            ReadOutcome::Failed => {
                self.closed = Some(ReadFailure::Io);
                let step = ReadStep { events: Vec::new(), closed: self.closed };
                assert(event_records(step.events@) =~= Seq::<EventRecord>::empty());
                step
            },
        }
    }
}

} // verus!
