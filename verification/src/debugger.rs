//! Breakpoint bookkeeping for the debugger: the console front-end around
//! it lives with the host.

use vstd::prelude::*;

verus! {

/// Whether execution is free-running or stopping on every instruction.
#[derive(Clone, Copy, PartialEq, Eq, Structural, Debug)]
pub enum DebuggerState {
    RUN,
    STEP,
}

/// Breakpoints and the stepping mode.
pub struct Debugger {
    pub breakpoints: Vec<u16>,
    pub state: DebuggerState,
    pub activated: bool,
}

impl Debugger {
    /// No breakpoints, free-running, inactive.
    pub fn new() -> (r: Self)
        ensures
            r.breakpoints@.len() == 0,
            r.state == DebuggerState::RUN,
            r.activated == false,
    {
        Debugger { breakpoints: Vec::new(), state: DebuggerState::RUN, activated: false }
    }

    /// Stops on every instruction from now on.
    pub fn enter_debug_mode(&mut self)
        ensures
            final(self).state == DebuggerState::STEP,
            final(self).breakpoints == old(self).breakpoints,
            final(self).activated == old(self).activated,
    {
        self.state = DebuggerState::STEP;
    }

    /// Registers one breakpoint address.
    pub fn add_breakpoint(&mut self, addr: u16)
        ensures
            final(self).breakpoints@ == old(self).breakpoints@.push(addr),
            final(self).state == old(self).state,
            final(self).activated == old(self).activated,
    {
        self.breakpoints.push(addr);
    }

    /// True when a breakpoint is registered at the address.
    pub fn has_breakpoint(&self, addr: u16) -> (r: bool)
        ensures
            r == self.breakpoints@.contains(addr),
    {
        let mut k: usize = 0;
        while k < self.breakpoints.len()
            invariant
                k <= self.breakpoints@.len(),
                forall|i: int| 0 <= i < k ==> self.breakpoints@[i] != addr,
            decreases self.breakpoints@.len() - k,
        {
            if self.breakpoints[k] == addr {
                return true;
            }
            k = k + 1;
        }
        false
    }

    /// True when execution should stop at this address: a breakpoint is
    /// set there, or the stepping mode is on.
    pub fn should_stop(&self, pc: u16) -> (r: bool)
        ensures
            r == (self.breakpoints@.contains(pc) || self.state == DebuggerState::STEP),
    {
        self.has_breakpoint(pc) || match self.state {
            DebuggerState::STEP => true,
            DebuggerState::RUN => false,
        }
    }
}

} // verus!
