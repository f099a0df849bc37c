//! Control instructions: interrupt enable and disable, and halt.

use vstd::prelude::*;

use crate::i8080::error::EmulateError;
use crate::i8080::I8080;

verus! {

impl I8080 {
    /// `EI`: enables interrupts.
    pub(crate) fn ei(&mut self) -> (r: Result<(), EmulateError>)
        ensures
            r == Ok::<(), EmulateError>(()),
            *final(self) == (I8080 { interrupts_enabled: true, ..*old(self) }),
    {
        self.interrupts_enabled = true;
        Ok(())
    }

    /// `DI`: disables interrupts.
    pub(crate) fn di(&mut self) -> (r: Result<(), EmulateError>)
        ensures
            r == Ok::<(), EmulateError>(()),
            *final(self) == (I8080 { interrupts_enabled: false, ..*old(self) }),
    {
        self.interrupts_enabled = false;
        Ok(())
    }

    /// `HLT`: stops execution until an interrupt is injected.
    pub(crate) fn hlt(&mut self) -> (r: Result<(), EmulateError>)
        ensures
            r == Ok::<(), EmulateError>(()),
            *final(self) == (I8080 { halted: true, ..*old(self) }),
    {
        self.halted = true;
        Ok(())
    }
}

} // verus!
