use vstd::prelude::*;

use crate::error::Error;
use crate::state::ProfilerState;
use crate::validate::{has_nul_byte, spec_validate_bytes, valid_utf8};

verus! {

/// Outcome of requesting a start while the handle is in state `s`: a handle
/// that is already active refuses with `InvalidState(Active)` before any
/// validation, and an idle handle validates the path bytes.
pub open spec fn spec_start_request(s: ProfilerState, fname: Seq<u8>) -> Result<Seq<u8>, Error> {
    if s is Active {
        Err(Error::InvalidState(ProfilerState::Active))
    } else {
        spec_validate_bytes(fname)
    }
}

/// Transition taken when the native CPU start primitive has reported
/// `status` while the handle was in state `s`: a zero status signals native
/// failure and leaves the handle idle; a nonzero status activates it. A
/// handle that is already active refuses and stays unchanged.
pub open spec fn spec_confirm_cpu_start(s: ProfilerState, status: i32) -> (
    ProfilerState,
    Result<(), Error>,
) {
    if s is Active {
        (s, Err(Error::InvalidState(ProfilerState::Active)))
    } else if status == 0 {
        (s, Err(Error::InternalFailure))
    } else {
        (ProfilerState::Active, Ok(()))
    }
}

/// Transition taken when the native heap start primitive has been invoked
/// while the handle was in state `s`: the primitive reports no status, so an
/// idle handle always activates; an active one refuses and stays unchanged.
pub open spec fn spec_confirm_heap_start(s: ProfilerState) -> (ProfilerState, Result<(), Error>) {
    if s is Active {
        (s, Err(Error::InvalidState(ProfilerState::Active)))
    } else {
        (ProfilerState::Active, Ok(()))
    }
}

/// Transition taken by a stop request in state `s`: an active handle always
/// deactivates (the native stop primitive reports no status), and an idle
/// one refuses with `InvalidState(NotActive)` and stays unchanged.
pub open spec fn spec_stop(s: ProfilerState) -> (ProfilerState, Result<(), Error>) {
    if s is Active {
        (ProfilerState::NotActive, Ok(()))
    } else {
        (s, Err(Error::InvalidState(ProfilerState::NotActive)))
    }
}

/// Law: a start request made while a handle is active fails with
/// `InvalidState(Active)` whatever path is asked for, so the request reaches
/// neither the filesystem nor the native library. Together with the
/// serialization of all operations on one handle under its exclusive lock,
/// this is why two concurrent starts can never both succeed.
pub proof fn lemma_start_refused_while_active(fname: Seq<u8>)
    ensures
        spec_start_request(ProfilerState::Active, fname) == Err::<Seq<u8>, Error>(
            Error::InvalidState(ProfilerState::Active),
        ),
{
}

/// Law: of two start attempts serialized on one idle CPU handle, exactly one
/// succeeds. The first (with valid path bytes and a nonzero native status)
/// activates the handle, and the second then observes `InvalidState(Active)`
/// whatever its own path bytes are.
pub proof fn lemma_serialized_starts_exclusive_cpu(f1: Seq<u8>, f2: Seq<u8>, status: i32)
    requires
        !has_nul_byte(f1),
        valid_utf8(f1),
        status != 0,
    ensures
        ({
            let (s1, r1) = spec_confirm_cpu_start(ProfilerState::NotActive, status);
            &&& spec_start_request(ProfilerState::NotActive, f1) is Ok
            &&& r1 == Ok::<(), Error>(())
            &&& s1 == ProfilerState::Active
            &&& spec_start_request(s1, f2) == Err::<Seq<u8>, Error>(
                Error::InvalidState(ProfilerState::Active),
            )
        }),
{
}

/// Law: of two start attempts serialized on one idle heap handle, exactly
/// one succeeds; the second observes `InvalidState(Active)`.
pub proof fn lemma_serialized_starts_exclusive_heap(f1: Seq<u8>, f2: Seq<u8>)
    requires
        !has_nul_byte(f1),
        valid_utf8(f1),
    ensures
        ({
            let (s1, r1) = spec_confirm_heap_start(ProfilerState::NotActive);
            &&& spec_start_request(ProfilerState::NotActive, f1) is Ok
            &&& r1 == Ok::<(), Error>(())
            &&& s1 == ProfilerState::Active
            &&& spec_start_request(s1, f2) == Err::<Seq<u8>, Error>(
                Error::InvalidState(ProfilerState::Active),
            )
        }),
{
}

/// Law: two consecutive start–stop cycles on a CPU handle with the same
/// valid path both succeed in every step, and each cycle returns the handle
/// to `NotActive`.
pub proof fn lemma_repeated_cycles_cpu(fname: Seq<u8>, status1: i32, status2: i32)
    requires
        !has_nul_byte(fname),
        valid_utf8(fname),
        status1 != 0,
        status2 != 0,
    ensures
        ({
            let s0 = ProfilerState::NotActive;
            let (s1, r1) = spec_confirm_cpu_start(s0, status1);
            let (s2, r2) = spec_stop(s1);
            let (s3, r3) = spec_confirm_cpu_start(s2, status2);
            let (s4, r4) = spec_stop(s3);
            &&& spec_start_request(s0, fname) is Ok
            &&& r1 == Ok::<(), Error>(()) && s1 == ProfilerState::Active
            &&& r2 == Ok::<(), Error>(()) && s2 == ProfilerState::NotActive
            &&& spec_start_request(s2, fname) is Ok
            &&& r3 == Ok::<(), Error>(()) && s3 == ProfilerState::Active
            &&& r4 == Ok::<(), Error>(()) && s4 == ProfilerState::NotActive
        }),
{
}

/// Law: two consecutive start–stop cycles on a heap handle with the same
/// valid path both succeed in every step, and each cycle returns the handle
/// to `NotActive`.
pub proof fn lemma_repeated_cycles_heap(fname: Seq<u8>)
    requires
        !has_nul_byte(fname),
        valid_utf8(fname),
    ensures
        ({
            let s0 = ProfilerState::NotActive;
            let (s1, r1) = spec_confirm_heap_start(s0);
            let (s2, r2) = spec_stop(s1);
            let (s3, r3) = spec_confirm_heap_start(s2);
            let (s4, r4) = spec_stop(s3);
            &&& spec_start_request(s0, fname) is Ok
            &&& r1 == Ok::<(), Error>(()) && s1 == ProfilerState::Active
            &&& r2 == Ok::<(), Error>(()) && s2 == ProfilerState::NotActive
            &&& spec_start_request(s2, fname) is Ok
            &&& r3 == Ok::<(), Error>(()) && s3 == ProfilerState::Active
            &&& r4 == Ok::<(), Error>(()) && s4 == ProfilerState::NotActive
        }),
{
}

} // verus!
