//! Heap profiler handle.
//!
//! Same two-state machine as the CPU handle, against the native
//! heap-sampling primitives, plus a `dump` operation. The native heap start
//! primitive reports no status, so confirming a start never maps a native
//! failure. `dump` is deliberately not gated on the handle being active —
//! the native dump primitive may be invoked in either state and the handle's
//! tag never changes — so its outcome depends on the supplied reason bytes
//! alone.

use vstd::prelude::*;

use crate::error::Error;
use crate::machine::{spec_confirm_heap_start, spec_start_request, spec_stop};
use crate::state::ProfilerState;
use crate::validate::{c_path_bytes, spec_validate_bytes};

verus! {

/// Handle that owns the lifecycle tag of the native heap sampler.
#[derive(Debug)]
pub struct HeapProfiler {
    state: ProfilerState,
}

impl View for HeapProfiler {
    type V = ProfilerState;

    closed spec fn view(&self) -> ProfilerState {
        self.state
    }
}

impl HeapProfiler {
    /// A fresh handle; sampling is not active.
    pub fn new() -> (p: Self)
        ensures
            p@ is NotActive,
    {
        HeapProfiler { state: ProfilerState::NotActive }
    }

    /// The handle's current lifecycle tag.
    pub fn state(&self) -> (s: ProfilerState)
        ensures
            s == self@,
    {
        self.state
    }

    /// First half of a start: refuse if the sampler is already active, else
    /// validate `fname` and return the nul-terminated buffer to hand to the
    /// native start primitive. No state changes and no side effects: on any
    /// error here the shell must make no filesystem or native call.
    pub fn start_request(&self, fname: Vec<u8>) -> (r: Result<Vec<u8>, Error>)
        ensures
            (match r {
                Ok(p) => Ok(p@),
                Err(e) => Err(e),
            }) == spec_start_request(self@, fname@),
    {
        match self.state {
            ProfilerState::Active => Err(Error::InvalidState(ProfilerState::Active)),
            ProfilerState::NotActive => c_path_bytes(fname),
        }
    }

    /// Second half of a start: record that the native heap start primitive
    /// was invoked. It reports no status, so an idle handle always
    /// activates. Called on a handle that is already active (which the start
    /// protocol never does under one lock acquisition), it refuses and
    /// changes nothing.
    pub fn confirm_start(&mut self) -> (r: Result<(), Error>)
        ensures
            (final(self)@, r) == spec_confirm_heap_start(old(self)@),
    {
        match self.state {
            ProfilerState::Active => Err(Error::InvalidState(ProfilerState::Active)),
            ProfilerState::NotActive => {
                self.state = ProfilerState::Active;
                Ok(())
            },
        }
    }

    /// Stop the sampler: an active handle deactivates and the shell must
    /// then invoke the native stop primitive; an idle one refuses with
    /// `InvalidState(NotActive)` and changes nothing, and the shell must
    /// make no native call.
    pub fn stop(&mut self) -> (r: Result<(), Error>)
        ensures
            (final(self)@, r) == spec_stop(old(self)@),
    {
        match self.state {
            ProfilerState::Active => {
                self.state = ProfilerState::NotActive;
                Ok(())
            },
            ProfilerState::NotActive => Err(Error::InvalidState(ProfilerState::NotActive)),
        }
    }

    /// Validate `reason` for a snapshot dump and return the nul-terminated
    /// buffer to hand to the native dump primitive. Not gated on the
    /// handle's state and never changes it: the outcome is a function of the
    /// reason bytes alone.
    pub fn dump(&self, reason: Vec<u8>) -> (r: Result<Vec<u8>, Error>)
        ensures
            (match r {
                Ok(p) => Ok(p@),
                Err(e) => Err(e),
            }) == spec_validate_bytes(reason@),
    {
        c_path_bytes(reason)
    }
}

} // verus!
