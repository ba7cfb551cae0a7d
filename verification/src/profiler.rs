//! CPU profiler handle.
//!
//! The native CPU sampler is a process-wide singleton: at most one may run
//! per process. The unverified shell therefore keeps exactly one `Profiler`
//! behind a mutual-exclusion lock and holds that lock across a whole
//! operation. A start is split in two halves around the foreign calls the
//! shell must make: `start_request` decides and validates before any side
//! effect, and `confirm_start` records the status the native start primitive
//! returned. `stop` is a complete decision on its own — when it returns
//! success the shell must invoke the native stop primitive (which reports no
//! status) under the same lock acquisition, so that the handle's tag keeps
//! mirroring the native sampler's true state.

use vstd::prelude::*;

use crate::error::Error;
use crate::machine::{spec_confirm_cpu_start, spec_start_request, spec_stop};
use crate::state::ProfilerState;
use crate::validate::c_path_bytes;

verus! {

/// Handle that owns the lifecycle tag of the native CPU sampler.
#[derive(Debug)]
pub struct Profiler {
    state: ProfilerState,
}

impl View for Profiler {
    type V = ProfilerState;

    closed spec fn view(&self) -> ProfilerState {
        self.state
    }
}

impl Profiler {
    /// A fresh handle; sampling is not active.
    pub fn new() -> (p: Self)
        ensures
            p@ is NotActive,
    {
        Profiler { state: ProfilerState::NotActive }
    }

    /// The handle's current lifecycle tag.
    pub fn state(&self) -> (s: ProfilerState)
        ensures
            s == self@,
    {
        self.state
    }

    /// First half of a start: refuse if the sampler is already active, else
    /// validate `fname` and return the nul-terminated buffer to hand to the
    /// native start primitive. No state changes and no side effects: on any
    /// error here the shell must make no filesystem or native call.
    pub fn start_request(&self, fname: Vec<u8>) -> (r: Result<Vec<u8>, Error>)
        ensures
            (match r {
                Ok(p) => Ok(p@),
                Err(e) => Err(e),
            }) == spec_start_request(self@, fname@),
    {
        match self.state {
            ProfilerState::Active => Err(Error::InvalidState(ProfilerState::Active)),
            ProfilerState::NotActive => c_path_bytes(fname),
        }
    }

    /// Second half of a start: record the status the native CPU start
    /// primitive returned. Zero signals native failure, mapped to
    /// `InternalFailure` with the handle left idle; nonzero activates the
    /// handle. Called on a handle that is already active (which the
    /// start protocol never does under one lock acquisition), it refuses
    /// and changes nothing.
    pub fn confirm_start(&mut self, status: i32) -> (r: Result<(), Error>)
        ensures
            (final(self)@, r) == spec_confirm_cpu_start(old(self)@, status),
    {
        match self.state {
            ProfilerState::Active => Err(Error::InvalidState(ProfilerState::Active)),
            ProfilerState::NotActive => {
                if status == 0 {
                    Err(Error::InternalFailure)
                } else {
                    self.state = ProfilerState::Active;
                    Ok(())
                }
            },
        }
    }

    /// Stop the sampler: an active handle deactivates and the shell must
    /// then invoke the native stop primitive; an idle one refuses with
    /// `InvalidState(NotActive)` and changes nothing, and the shell must
    /// make no native call.
    pub fn stop(&mut self) -> (r: Result<(), Error>)
        ensures
            (final(self)@, r) == spec_stop(old(self)@),
    {
        match self.state {
            ProfilerState::Active => {
                self.state = ProfilerState::NotActive;
                Ok(())
            },
            ProfilerState::NotActive => Err(Error::InvalidState(ProfilerState::NotActive)),
        }
    }
}

} // verus!
