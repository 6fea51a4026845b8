//! What the tracker of allocations is asked to do.
use crate::config::Build;
use vstd::prelude::*;

verus! {

/// A call into the tracker of allocations.
#[derive(Clone, Copy, Debug, PartialEq, Eq, Structural)]
pub enum TrackerCall {
    /// Write out the allocations that nothing has measured.
    DumpUnmeasured,
    /// Stop tracking.
    Disable,
    /// Find the allocation that encloses a pointer: where it starts, and its size.
    EnclosingSize { ptr: usize },
}

/// What is left to do once a size is known.
#[derive(Clone, Copy, Debug, PartialEq, Eq, Structural)]
pub enum FollowUp {
    /// Nothing.
    Nothing,
    /// Tell the tracker that the allocation at `ptr`, of this size, has been measured.
    NoteAllocation { ptr: usize, size: usize },
    /// Record `ptr` as a pointer that the process heap does not own.
    RecordForeign { ptr: usize },
}

/// A measured size, and what is left to do about it.
#[derive(Clone, Copy, Debug, PartialEq, Eq, Structural)]
pub struct Measured {
    pub size: usize,
    pub follow_up: FollowUp,
}

/// What comes of a block of `size` bytes at `ptr`: with tracking, it is noted as measured.
pub open spec fn measured_block(tracking: bool, ptr: usize, size: usize) -> Measured {
    Measured {
        size,
        follow_up: if tracking {
            FollowUp::NoteAllocation { ptr, size }
        } else {
            FollowUp::Nothing
        },
    }
}

/// A block measures as the size that was given for it, whatever it is and with tracking or without;
/// the tracker hears of that very block and that very size.
pub proof fn law_size_is_passed_on(ptr: usize, size: usize)
    ensures
        measured_block(true, ptr, size).size == size,
        measured_block(false, ptr, size).size == size,
        measured_block(true, ptr, size).follow_up == (FollowUp::NoteAllocation { ptr, size }),
        measured_block(false, ptr, size).follow_up == FollowUp::Nothing,
{
}

/// The measurement of a block of `size` bytes at `ptr`.
pub fn measure_block(tracking: bool, ptr: usize, size: usize) -> (measured: Measured)
    ensures
        measured == measured_block(tracking, ptr, size),
        measured.size == size,
        tracking ==> measured.follow_up == (FollowUp::NoteAllocation { ptr, size }),
        !tracking ==> measured.follow_up == FollowUp::Nothing,
{
    let follow_up = if tracking {
        FollowUp::NoteAllocation { ptr, size }
    } else {
        FollowUp::Nothing
    };
    Measured { size, follow_up }
}

/// Lists the allocations that nothing has measured; without tracking, does nothing.
pub fn dump_unmeasured(build: Build) -> (call: Option<TrackerCall>)
    ensures
        build.allocation_tracking ==> call == Some(TrackerCall::DumpUnmeasured),
        !build.allocation_tracking ==> call is None,
{
    if build.allocation_tracking {
        Some(TrackerCall::DumpUnmeasured)
    } else {
        None
    }
}

/// Stops tracking; without tracking, does nothing.
pub fn disable_unmeasured_tracking(build: Build) -> (call: Option<TrackerCall>)
    ensures
        build.allocation_tracking ==> call == Some(TrackerCall::Disable),
        !build.allocation_tracking ==> call is None,
{
    if build.allocation_tracking {
        Some(TrackerCall::Disable)
    } else {
        None
    }
}

/// Looks for the allocation around `ptr`; without tracking, there is no way to find it.
pub fn enclosing_size(build: Build, ptr: usize) -> (call: Option<TrackerCall>)
    ensures
        build.allocation_tracking ==> call == Some(TrackerCall::EnclosingSize { ptr }),
        !build.allocation_tracking ==> call is None,
{
    if build.allocation_tracking {
        Some(TrackerCall::EnclosingSize { ptr })
    } else {
        None
    }
}

/// The size of the enclosing allocation that the tracker found to start at `adjusted`. An
/// allocation that was found is noted as measured; a size of zero says that there is none.
pub fn enclosing_size_impl(adjusted: usize, size: usize) -> (found: Measured)
    ensures
        found.size == size,
        size != 0 ==> found.follow_up == (FollowUp::NoteAllocation { ptr: adjusted, size }),
        size == 0 ==> found.follow_up == FollowUp::Nothing,
{
    let follow_up = if size != 0 {
        FollowUp::NoteAllocation { ptr: adjusted, size }
    } else {
        FollowUp::Nothing
    };
    Measured { size, follow_up }
}

} // verus!
