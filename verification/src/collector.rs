//! Subprocess stream collection.
//!
//! The external transcoder's standard output arrives as an asynchronous
//! sequence of discrete events. The host owns the channel and the await loop;
//! it hands each event to a [`ByteBuffer`], which appends the bytes of
//! standard-output data chunks in arrival order and ignores every other
//! event. When the channel closes, the accumulated buffer is the complete
//! result — chunk boundaries carry no meaning, the buffer is one flat byte
//! stream.

use vstd::prelude::*;

verus! {

/// One discrete event received from the subprocess output channel.
pub enum StreamEvent {
    /// A chunk of bytes from the process's standard output.
    Stdout(Vec<u8>),
    /// A chunk of bytes from the process's standard error.
    Stderr(Vec<u8>),
    /// A line the channel reported as an error.
    ChannelError(String),
    /// The process terminated.
    Terminated,
}

/// The bytes an event contributes to the collected buffer: the payload of a
/// standard-output chunk, and nothing from any other event.
pub open spec fn event_bytes(e: StreamEvent) -> Seq<u8> {
    match e {
        StreamEvent::Stdout(chunk) => chunk@,
        _ => Seq::empty(),
    }
}

/// The concatenation, in order, of the standard-output bytes of a sequence
/// of events.
pub open spec fn stdout_concat(events: Seq<StreamEvent>) -> Seq<u8>
    decreases events.len(),
{
    if events.len() == 0 {
        Seq::empty()
    } else {
        stdout_concat(events.drop_last()) + event_bytes(events.last())
    }
}

/// An exclusively-owned, growable buffer of collected output bytes.
pub struct ByteBuffer {
    data: Vec<u8>,
}

impl View for ByteBuffer {
    type V = Seq<u8>;

    closed spec fn view(&self) -> Seq<u8> {
        self.data@
    }
}

impl ByteBuffer {
    /// An empty buffer.
    pub fn new() -> (r: ByteBuffer)
        ensures
            r@ == Seq::<u8>::empty(),
    {
        ByteBuffer { data: Vec::new() }
    }

    /// An empty buffer pre-sized to `capacity_hint` bytes, so that typical
    /// single-frame or thumbnail payloads need no reallocation.
    pub fn with_capacity(capacity_hint: usize) -> (r: ByteBuffer)
        ensures
            r@ == Seq::<u8>::empty(),
    {
        ByteBuffer { data: Vec::with_capacity(capacity_hint) }
    }

    /// Absorb one channel event: append the bytes of a standard-output chunk
    /// in place; leave the buffer untouched for every other event.
    pub fn push_event(&mut self, event: &StreamEvent)
        requires
            old(self)@.len() + event_bytes(*event).len() <= usize::MAX,
        ensures
            final(self)@ == old(self)@ + event_bytes(*event),
    {
        match event {
            StreamEvent::Stdout(chunk) => {
                self.data.extend_from_slice(chunk.as_slice());
                proof {
                    assert(final(self)@ =~= old(self)@ + event_bytes(*event));
                }
            },
            _ => {
                proof {
                    assert(final(self)@ =~= old(self)@ + event_bytes(*event));
                }
            },
        }
    }

    /// The number of bytes collected so far.
    pub fn len(&self) -> (r: usize)
        ensures
            r == self@.len(),
    {
        self.data.len()
    }

    /// Hand the collected bytes to the caller; ownership transfers, the
    /// buffer is consumed.
    pub fn into_bytes(self) -> (r: Vec<u8>)
        ensures
            r@ == self@,
    {
        self.data
    }
}

/// Collect a complete, already-received event sequence into one buffer:
/// the result is exactly the in-order concatenation of the standard-output
/// chunks, all other events ignored.
pub fn collect_events(events: &Vec<StreamEvent>) -> (r: Vec<u8>)
    requires
        stdout_concat(events@).len() <= usize::MAX,
    ensures
        r@ == stdout_concat(events@),
{
    let mut buffer = ByteBuffer::with_capacity(64000);
    let n = events.len();
    for i in 0..n
        invariant
            n == events@.len(),
            buffer@ == stdout_concat(events@.take(i as int)),
            stdout_concat(events@).len() <= usize::MAX,
    {
        proof {
            lemma_stdout_concat_take_step(events@, i as int);
            lemma_stdout_concat_prefix(events@, i + 1);
        }
        buffer.push_event(&events[i]);
    }
    proof {
        assert(events@.take(n as int) =~= events@);
    }
    buffer.into_bytes()
}

/// Appending one more event to a prefix extends its concatenation by exactly
/// that event's bytes.
proof fn lemma_stdout_concat_take_step(events: Seq<StreamEvent>, i: int)
    requires
        0 <= i < events.len(),
    ensures
        stdout_concat(events.take(i + 1)) == stdout_concat(events.take(i)) + event_bytes(
            events[i],
        ),
{
    assert(events.take(i + 1).drop_last() =~= events.take(i));
    assert(events.take(i + 1).last() == events[i]);
}

/// The concatenation of a prefix is never longer than that of the whole
/// sequence.
proof fn lemma_stdout_concat_prefix(events: Seq<StreamEvent>, i: int)
    requires
        0 <= i <= events.len(),
    ensures
        stdout_concat(events.take(i)).len() <= stdout_concat(events).len(),
    decreases events.len() - i,
{
    if i < events.len() {
        lemma_stdout_concat_take_step(events, i);
        lemma_stdout_concat_prefix(events, i + 1);
    } else {
        assert(events.take(i) =~= events);
    }
}

} // verus!
