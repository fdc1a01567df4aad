//! The synchronized handoff slot for the hardware register block.
//!
//! Main context configures the block, publishes it into the slot exactly
//! once, and never touches it again; the interrupt handler takes it out,
//! performs its register operations, and restores it before returning.
//! Exclusive access while taken is what makes the take-and-restore span a
//! critical section; the contexts never run the handoff concurrently
//! because the interrupt source is unmasked only after the publish.

use vstd::prelude::*;

use crate::config::RegisterBlock;

verus! {

/// Holds either nothing or the exclusively-owned register-block handle.
pub struct Slot {
    handle: Option<RegisterBlock>,
}

impl View for Slot {
    type V = Option<RegisterBlock>;

    closed spec fn view(&self) -> Option<RegisterBlock> {
        self.handle
    }
}

impl Slot {
    /// The slot before the handoff: empty.
    pub fn empty() -> (s: Slot)
        ensures
            s@ is None,
    {
        Slot { handle: None }
    }

    /// Stores the handle into the slot. Called exactly once, from main
    /// context, after configuration completes; ownership moves into the
    /// slot, so the caller cannot reach the registers afterward.
    pub fn publish(&mut self, rb: RegisterBlock)
        requires
            old(self)@ is None,
        ensures
            final(self)@ == Some(rb),
    {
        self.handle = Some(rb);
    }

    /// Takes the handle out, leaving the slot empty until it is restored.
    pub fn take(&mut self) -> (r: Option<RegisterBlock>)
        ensures
            r == old(self)@,
            final(self)@ is None,
    {
        self.handle.take()
    }

    /// Whether the slot currently holds the handle.
    pub fn is_published(&self) -> (b: bool)
        ensures
            b == (self@ is Some),
    {
        self.handle.is_some()
    }

    /// Puts the handle back, making the slot non-empty again.
    pub fn restore(&mut self, rb: RegisterBlock)
        ensures
            final(self)@ == Some(rb),
    {
        self.handle = Some(rb);
    }
}

} // verus!
