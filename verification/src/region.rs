//! Regions of pages, as the memory manager describes them.
use vstd::prelude::*;

verus! {

/// The answer of a Windows call that failed or denied something.
pub const FALSE: i32 = 0;

/// The pages of a region are backed by memory.
pub const MEM_COMMIT: u32 = 0x1000;

/// No access to the pages of a region is allowed.
pub const PAGE_NOACCESS: u32 = 0x01;

/// The first access to a page of a region raises an exception.
pub const PAGE_GUARD: u32 = 0x100;

/// A region of pages with equal properties.
#[derive(Clone, Copy, Debug, PartialEq, Eq)]
pub struct Region {
    /// The base of the allocation that the region belongs to.
    pub allocation_base: usize,
    /// The size of the region, in bytes.
    pub region_size: usize,
    /// The state of its pages.
    pub state: u32,
    /// The type of its pages.
    pub kind: u32,
    /// The access protection of its pages.
    pub protect: u32,
}

/// What a query that filled in `written` bytes of `region` tells: nothing, if it wrote nothing.
pub open spec fn queried(written: usize, region: Region) -> Option<Region> {
    if written != 0 {
        Some(region)
    } else {
        None
    }
}

/// Whether the memory of a region can be read: it is there, and no flag forbids or traps access.
pub open spec fn readable(region: Option<Region>) -> bool {
    match region {
        Some(region) => {
            &&& region.state == MEM_COMMIT
            &&& region.protect & PAGE_NOACCESS == 0
            &&& region.protect & PAGE_GUARD == 0
        },
        None => false,
    }
}

/// A query that wrote anything at all shows memory to be readable if its pages are committed and
/// neither of two flags is set, and in no other case: where the region lies, how large it is, of
/// what type, and which further flags it has makes no difference.
pub proof fn law_readable_by_state_and_flags(written: usize, region: Region)
    ensures
        written == 0 ==> !readable(queried(written, region)),
        region.state != MEM_COMMIT ==> !readable(queried(written, region)),
        region.protect & PAGE_NOACCESS != 0 ==> !readable(queried(written, region)),
        region.protect & PAGE_GUARD != 0 ==> !readable(queried(written, region)),
        written != 0 && region.state == MEM_COMMIT && region.protect & PAGE_NOACCESS == 0
            && region.protect & PAGE_GUARD == 0 ==> readable(queried(written, region)),
        written != 0 ==> queried(written, region) == Some(region),
        written == 0 ==> queried(written, region) is None,
{
}

/// The region that a query described, unless it failed.
pub fn query(written: usize, region: Region) -> (answer: Option<Region>)
    ensures
        answer == queried(written, region),
        written != 0 ==> answer == Some(region),
        written == 0 ==> answer is None,
{
    if written != 0 {
        Some(region)
    } else {
        None
    }
}

/// Whether memory of this region may be read.
pub fn is_readable(region: Option<Region>) -> (answer: bool)
    ensures
        answer == readable(region),
        region is None ==> !answer,
        region matches Some(r) ==> (answer <==> r.state == MEM_COMMIT && r.protect & PAGE_NOACCESS
            == 0 && r.protect & PAGE_GUARD == 0),
{
    match region {
        Some(info) => {
            let protect: u32 = info.protect;
            assert(protect & (0x01u32 | 0x100u32) == 0 <==> protect & 0x01u32 == 0 && protect
                & 0x100u32 == 0)
                by (bit_vector);
            info.state == MEM_COMMIT && protect & (PAGE_NOACCESS | PAGE_GUARD) == 0
        },
        None => false,
    }
}

} // verus!
