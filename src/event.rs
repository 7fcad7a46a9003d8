use std::collections::VecDeque;
use vstd::prelude::*;

verus! {

/// Milliseconds between two clock ticks.
pub const TICK_RATE_MS: u64 = 1000;

/// The keys the dashboard reacts to; every other keystroke is `Other`.
#[derive(Clone, Copy, Debug, PartialEq, Eq, Structural)]
pub enum Key {
    Quit,
    Up,
    Down,
    Refresh,
    Other,
}

/// A keystroke as the terminal reports it, before decoding.
#[derive(Clone, Copy, Debug, PartialEq, Eq, Structural)]
pub enum RawKey {
    Char(char),
    Ctrl(char),
    Up,
    Down,
    Other,
}

/// One occurrence from one of the two producers: the clock or the keyboard.
#[derive(Clone, Copy, Debug, PartialEq, Eq, Structural)]
pub enum Event {
    Input(Key),
    Tick,
}

/// What the consumer learns when it asks the queue for the next event.
#[derive(Clone, Copy, Debug, PartialEq, Eq, Structural)]
pub enum Delivery {
    /// The oldest event not yet delivered.
    Ready(Event),
    /// Nothing is pending yet; a producer may still send.
    Wait,
    /// Nothing is pending and a producer has stopped: the stream is broken.
    Closed,
}

/// The meaning of a raw keystroke: `q` and Ctrl-C quit, the arrows move,
/// Ctrl-R refreshes.
pub open spec fn key_of(raw: RawKey) -> Key {
    match raw {
        RawKey::Char(c) => if c == 'q' {
            Key::Quit
        } else {
            Key::Other
        },
        RawKey::Ctrl(c) => if c == 'c' {
            Key::Quit
        } else if c == 'r' {
            Key::Refresh
        } else {
            Key::Other
        },
        RawKey::Up => Key::Up,
        RawKey::Down => Key::Down,
        RawKey::Other => Key::Other,
    }
}

/// Decodes one keystroke into the closed set of keys.
pub fn decode_key(raw: RawKey) -> (r: Key)
    ensures
        r == key_of(raw),
{
    match raw {
        RawKey::Char(c) => if c == 'q' {
            Key::Quit
        } else {
            Key::Other
        },
        RawKey::Ctrl(c) => if c == 'c' {
            Key::Quit
        } else if c == 'r' {
            Key::Refresh
        } else {
            Key::Other
        },
        RawKey::Up => Key::Up,
        RawKey::Down => Key::Down,
        RawKey::Other => Key::Other,
    }
}

/// The ordered stream into which the clock and the keyboard both write.
/// Events leave in the order they came in, each exactly once.
pub struct EventQueue {
    pending: VecDeque<Event>,
    closed: bool,
}

impl View for EventQueue {
    type V = (Seq<Event>, bool);

    closed spec fn view(&self) -> (Seq<Event>, bool) {
        (self.pending@, self.closed)
    }
}

impl EventQueue {
    /// An open queue with nothing pending.
    pub fn new() -> (r: EventQueue)
        ensures
            r@ == (Seq::<Event>::empty(), false),
    {
        EventQueue { pending: VecDeque::new(), closed: false }
    }

    /// Appends an event behind every event already pending.
    pub fn push(&mut self, event: Event)
        ensures
            final(self)@ == (old(self)@.0.push(event), old(self)@.1),
    {
        self.pending.push_back(event);
    }

    /// Records that a producer has stopped; what is pending is still delivered.
    pub fn close(&mut self)
        ensures
            final(self)@ == (old(self)@.0, true),
    {
        self.closed = true;
    }

    /// Number of events waiting to be delivered.
    pub fn len(&self) -> (r: usize)
        ensures
            r == self@.0.len(),
    {
        self.pending.len()
    }

    /// Removes and hands out the oldest pending event; when none is pending,
    /// says whether to wait for one or that the stream is broken.
    pub fn take(&mut self) -> (r: Delivery)
        ensures
            old(self)@.0.len() > 0 ==> r == Delivery::Ready(old(self)@.0[0]) && final(self)@ == (
                old(self)@.0.drop_first(),
                old(self)@.1,
            ),
            old(self)@.0.len() == 0 ==> final(self)@ == old(self)@ && r == (if old(self)@.1 {
                Delivery::Closed
            } else {
                Delivery::Wait
            }),
    {
        match self.pending.pop_front() {
            Some(e) => Delivery::Ready(e),
            None => if self.closed {
                Delivery::Closed
            } else {
                Delivery::Wait
            },
        }
    }
}

} // verus!
