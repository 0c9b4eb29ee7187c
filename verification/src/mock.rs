//! Recording implementations of the two capabilities.
//!
//! A `MockInterface` and a `MockDelay` satisfy the capability contracts by
//! appending every call to an ordinary vector, so a caller can inspect
//! afterwards exactly what a `Controller` emitted.

use vstd::prelude::*;

use crate::Delay;
use crate::Event;
use crate::Interface;

verus! {

/// A transport that records every call and answers every read with a fixed,
/// configurable word.
pub struct MockInterface {
    /// Every call made so far, oldest first.
    pub events: Vec<Event>,
    /// The word handed back by each `read_data` call.
    pub read_value: u16,
}

impl MockInterface {
    /// A fresh transport with an empty history that will answer every read
    /// with `read_value`.
    pub fn new(read_value: u16) -> (r: Self)
        ensures
            r.log() == Seq::<Event>::empty(),
            r.next_read() == read_value,
    {
        MockInterface { events: Vec::new(), read_value }
    }
}

impl Interface for MockInterface {
    open spec fn log(&self) -> Seq<Event> {
        self.events@
    }

    open spec fn next_read(&self) -> u16 {
        self.read_value
    }

    fn write_command(&mut self, command: u16) {
        self.events.push(Event::Command(command));
    }

    fn write_data(&mut self, data: u16) {
        self.events.push(Event::Data(data));
    }

    fn read_data(&mut self, data: &mut u16) {
        *data = self.read_value;
        self.events.push(Event::Read);
    }

    fn reset(&mut self) {
        self.events.push(Event::Reset);
    }
}

/// A delay provider that records every requested duration and sleeps not at
/// all.
pub struct MockDelay {
    /// Every requested duration in milliseconds, oldest first.
    pub calls: Vec<u8>,
}

impl MockDelay {
    /// A fresh delay provider with an empty history.
    pub fn new() -> (r: Self)
        ensures
            r.log() == Seq::<u8>::empty(),
    {
        MockDelay { calls: Vec::new() }
    }
}

impl Delay for MockDelay {
    open spec fn log(&self) -> Seq<u8> {
        self.calls@
    }

    fn delay_ms(&mut self, ms: u8) {
        self.calls.push(ms);
    }
}

} // verus!
