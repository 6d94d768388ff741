//! The events of the host.

use vstd::prelude::*;
use crate::interface::Interface;

verus! {

/// A view of an event of the host.
#[derive(Debug, Clone, Copy)]
pub struct IGameEvent {
    base: usize,
}

impl Interface for IGameEvent {
    closed spec fn address(&self) -> usize {
        self.base
    }

    fn from_raw_unchecked(ptr: usize) -> (view: Self) {
        Self { base: ptr }
    }

    fn is_null(&self) -> (null: bool) {
        self.base == 0
    }

    fn as_ptr(&self) -> (ptr: usize) {
        self.base
    }
}

/// What is told of the events of the host that it has asked for.
pub trait GameEventTrait {
    /// Takes note of `event`.
    fn fire_game_event(&self, event: &mut IGameEvent);
}

/// The number that a listener names when the host asks what it is there for.
pub const EVENT_DEBUG_ID: i32 = 42;

} // verus!
