use vstd::prelude::*;

verus! {

/// Lifecycle tag of a profiler handle.
///
/// Exactly one value holds at any instant for a given handle, and it changes
/// only through the handle's explicit start and stop transitions. The tag is
/// the safe mirror of the native sampler's own (unobservable) state: a handle
/// is `Active` exactly while the native library believes its sampler runs.
#[derive(Clone, Copy, Debug, PartialEq, Eq, Structural)]
pub enum ProfilerState {
    /// The sampler is not running.
    NotActive,
    /// The sampler is running and writing to the path given at start.
    Active,
}

impl ProfilerState {
    /// Human-readable rendering of the tag.
    pub fn describe(&self) -> (r: &'static str)
        ensures
            self is NotActive ==> r@ == "NotActive"@,
            self is Active ==> r@ == "Active"@,
    {
        match self {
            ProfilerState::NotActive => "NotActive",
            ProfilerState::Active => "Active",
        }
    }
}

} // verus!
