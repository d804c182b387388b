//! The raw calling convention: integer handles and status codes.
//!
//! A caller that cannot hold native objects refers to an engine through an
//! opaque integer handle, checked against a table of live engines rather than
//! trusted as a pointer. Every failure is reported as a status code — the raw
//! surface never raises a fault:
//!
//! - `0`: success;
//! - `-1`: the handle is zero, was never issued, or is already destroyed;
//! - `-2`: the input or the output buffer does not hold exactly
//!   [`FRAME_SIZE`] samples.
//!
//! A handle is valid from the moment [`create_denoise_state`] returns it until
//! [`destroy_denoise_state`] consumes it; a destroyed handle is never issued
//! again by the same table, so stale handles are detected, not dereferenced.

use vstd::prelude::*;

use crate::engine::denoise_of;
use crate::engine::DenoiseError;
use crate::engine::WasmDenoiseState;
use crate::engine::FRAME_SIZE;

verus! {

/// The status code each failure is reported as on the raw surface.
pub open spec fn status_of(e: DenoiseError) -> int {
    match e {
        DenoiseError::InvalidHandle => -1,
        DenoiseError::InvalidFrameSize => -2,
    }
}

/// The fault, if any, a raw `process_frame` call must report, checked in
/// order: handle validity first, then the two buffer lengths.
pub open spec fn raw_fault(live: bool, in_len: nat, out_len: nat) -> Option<DenoiseError> {
    if !live {
        Some(DenoiseError::InvalidHandle)
    } else if in_len != FRAME_SIZE || out_len != FRAME_SIZE {
        Some(DenoiseError::InvalidFrameSize)
    } else {
        None
    }
}

/// The status code of a raw `process_frame` call, determined by the handle's
/// liveness and the two buffer lengths alone.
pub open spec fn raw_status(live: bool, in_len: nat, out_len: nat) -> int {
    match raw_fault(live, in_len, out_len) {
        Some(e) => status_of(e),
        None => 0,
    }
}

/// A handle that is not live — never issued, or destroyed since — is rejected:
/// a raw `process_frame` call on it reports status `-1`, whatever the buffer
/// lengths are. Together with `destroy_denoise_state`'s guarantee that the
/// destroyed handle is no longer live and that no handle is reissued, a
/// destroyed handle can never reach an engine again.
pub proof fn lemma_dead_handle_rejected(in_len: nat, out_len: nat)
    ensures
        raw_status(false, in_len, out_len) == -1,
{
}

/// The table of engines the raw surface hands out handles for. Handle `h`
/// (counted from 1; 0 plays the part of a null handle) refers to the `h`-th
/// engine ever created; a destroyed engine leaves an empty slot behind, so its
/// handle value is never reused within the table's lifetime.
pub struct HandleTable {
    slots: Vec<Option<WasmDenoiseState>>,
}

impl HandleTable {
    /// How many handles this table has ever issued.
    pub closed spec fn issued_count(&self) -> nat {
        self.slots@.len()
    }

    /// Whether `handle` was ever issued by this table.
    pub open spec fn issued(&self, handle: u64) -> bool {
        1 <= handle && handle <= self.issued_count()
    }

    /// Whether the slot behind an issued handle still holds its engine.
    pub closed spec fn slot_live(&self, handle: u64) -> bool {
        self.slots@[handle - 1].is_some()
    }

    /// Whether `handle` refers to a live engine: issued and not yet destroyed.
    /// Handle 0 and handles never issued are never live.
    pub open spec fn is_live(&self, handle: u64) -> bool {
        &&& self.issued(handle)
        &&& self.slot_live(handle)
    }

    /// The state of the live engine `handle` refers to.
    pub closed spec fn history_of(&self, handle: u64) -> Seq<Seq<u32>>
        recommends
            self.is_live(handle),
    {
        self.slots@[handle - 1].unwrap().history()
    }

    /// An empty table: no handle has been issued.
    pub fn new() -> (table: Self)
        ensures
            table.issued_count() == 0,
    {
        HandleTable { slots: Vec::new() }
    }

    /// How many handles this table has issued so far, as a value a caller can
    /// test before asking for another one.
    pub fn handle_count(&self) -> (n: u64)
        ensures
            n == self.issued_count(),
    {
        self.slots.len() as u64
    }
}

/// Create a new engine with freshly initialized state and return its handle.
/// The handle is nonzero, was never issued before, and refers to the new
/// engine until it is destroyed; every other handle is left untouched.
///
/// Creation never fails; the precondition leaves out only a table that has
/// already issued every nonzero `u64`, which a caller can rule out by testing
/// `handle_count` first.
pub fn create_denoise_state(table: &mut HandleTable) -> (handle: u64)
    requires
        old(table).issued_count() < 0xffff_ffff_ffff_ffff,
    ensures
        handle != 0,
        !old(table).issued(handle),
        final(table).is_live(handle),
        final(table).history_of(handle) == Seq::<Seq<u32>>::empty(),
        final(table).issued_count() == old(table).issued_count() + 1,
        forall|h: u64| h != handle ==> (final(table).is_live(h) <==> old(table).is_live(h)),
        forall|h: u64|
            h != handle && old(table).is_live(h) ==> final(table).history_of(h) == old(
                table,
            ).history_of(h),
{
    table.slots.push(Some(WasmDenoiseState::new()));
    table.slots.len() as u64
}

/// Release the engine `handle` refers to and invalidate the handle. A zero,
/// never-issued or already-destroyed handle is a no-op, not an error; every
/// other handle is left untouched, and no handle value is ever reissued.
pub fn destroy_denoise_state(table: &mut HandleTable, handle: u64)
    ensures
        !final(table).is_live(handle),
        final(table).issued_count() == old(table).issued_count(),
        forall|h: u64| h != handle ==> (final(table).is_live(h) <==> old(table).is_live(h)),
        forall|h: u64|
            h != handle && old(table).is_live(h) ==> final(table).history_of(h) == old(
                table,
            ).history_of(h),
{
    if 1 <= handle && handle <= table.slots.len() as u64 {
        let idx = (handle - 1) as usize;
        let slot = &mut table.slots[idx];
        *slot = None;
    }
}

/// Denoise one frame through `handle`, writing the denoised samples over
/// `output`. The status code reports the outcome: `0` on success, `-1` for an
/// invalid handle, `-2` for a buffer length other than `FRAME_SIZE`. All
/// validation happens before any engine is touched: on any failure the table,
/// every engine and the output buffer are exactly as they were, and engines
/// behind other handles are never touched at all.
pub fn process_frame(
    table: &mut HandleTable,
    handle: u64,
    input: &Vec<u32>,
    output: &mut Vec<u32>,
) -> (status: i32)
    ensures
        status == raw_status(old(table).is_live(handle), input@.len(), old(output)@.len()),
        status == 0 ==> {
            &&& final(output)@ == denoise_of(old(table).history_of(handle), input@)
            &&& final(output)@.len() == FRAME_SIZE
            &&& final(table).is_live(handle)
            &&& final(table).history_of(handle) == old(table).history_of(handle).push(input@)
        },
        status != 0 ==> final(output)@ == old(output)@ && *final(table) == *old(table),
        final(table).issued_count() == old(table).issued_count(),
        forall|h: u64| h != handle ==> (final(table).is_live(h) <==> old(table).is_live(h)),
        forall|h: u64|
            h != handle && old(table).is_live(h) ==> final(table).history_of(h) == old(
                table,
            ).history_of(h),
{
    if handle == 0 || handle > table.slots.len() as u64 {
        return -1;
    }
    let idx = (handle - 1) as usize;
    let live = match &table.slots[idx] {
        Some(_) => true,
        None => false,
    };
    if !live {
        return -1;
    }
    if input.len() != FRAME_SIZE || output.len() != FRAME_SIZE {
        return -2;
    }
    let denoised = match &mut table.slots[idx] {
        Some(engine) => engine.process_frame(input),
        None => Err(DenoiseError::InvalidHandle),
    };
    match denoised {
        Ok(produced) => {
            output.clear();
            let mut j: usize = 0;
            while j < produced.len()
                invariant
                    j <= produced@.len(),
                    output@ == produced@.subrange(0, j as int),
                decreases produced@.len() - j,
            {
                let sample = produced[j];
                output.push(sample);
                proof {
                    assert(output@ =~= produced@.subrange(0, j + 1 as int));
                }
                j = j + 1;
            }
            proof {
                assert(output@ =~= produced@);
            }
            0
        },
        Err(_) => {
            // Unreachable: the slot was checked live and both lengths were
            // checked before the engine was touched.
            proof {
                assert(false);
            }
            -2
        },
    }
}

} // verus!
