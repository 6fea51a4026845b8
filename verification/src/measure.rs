//! Measuring the size of a heap block.
//!
//! A measurement asks for one thing at a time: a setting, a heap, the memory manager's view of an
//! address, a word of memory, a size. Whoever runs it finds that out and resumes it with the
//! answer, until it is done.
use crate::address::{carved, over_aligned, Address, MIN_ALIGN, WORD};
use crate::address::{is_carved, natural_alignment};
use crate::config::{Build, Platform};
use crate::region::{is_readable, query, queried, readable, Region, FALSE};
use crate::tracking::{measure_block, measured_block, FollowUp, Measured};
use vstd::prelude::*;

verus! {

/// The function that knows the size of a block where the process heap does not come into it.
#[derive(Clone, Copy, Debug, PartialEq, Eq, Structural)]
pub enum NativeSize {
    /// `usable_size` of jemalloc.
    JemallocUsableSize,
    /// `malloc_size` of Apple's C library.
    MallocSize,
    /// `malloc_usable_size` of any other C library.
    MallocUsableSize,
}

/// Asks whether measuring is switched off, which it is if an environment variable is set.
#[derive(Clone, Copy, Debug, PartialEq, Eq)]
pub struct ReadSwitch {
    pub ptr: Address,
    pub tracking: bool,
}

/// Asks for the heap of the process.
#[derive(Clone, Copy, Debug, PartialEq, Eq)]
pub struct FindHeap {
    pub ptr: Address,
    pub tracking: bool,
}

/// Asks `heap` to validate `ptr` as one of its blocks.
#[derive(Clone, Copy, Debug, PartialEq, Eq)]
pub struct ValidatePointer {
    pub heap: usize,
    pub ptr: Address,
    pub tracking: bool,
}

/// Asks the memory manager about `slot`, the word before `ptr`.
#[derive(Clone, Copy, Debug, PartialEq, Eq)]
pub struct QuerySlot {
    pub heap: usize,
    pub ptr: Address,
    pub slot: usize,
    pub tracking: bool,
}

/// Asks for the word at `slot`, the one before `ptr`.
#[derive(Clone, Copy, Debug, PartialEq, Eq)]
pub struct ReadSlot {
    pub heap: usize,
    pub ptr: Address,
    pub slot: usize,
    pub tracking: bool,
}

/// Asks `heap` to validate `base`, the word before `ptr` and not null, as one of its blocks.
#[derive(Clone, Copy, Debug, PartialEq, Eq)]
pub struct ValidateBase {
    pub heap: usize,
    pub ptr: Address,
    pub base: usize,
    pub tracking: bool,
}

/// Asks `heap` for the size of `block`.
#[derive(Clone, Copy, Debug, PartialEq, Eq)]
pub struct SizeBlock {
    pub heap: usize,
    pub block: usize,
    pub tracking: bool,
}

/// Asks `source` for the size of the block at `ptr`.
#[derive(Clone, Copy, Debug, PartialEq, Eq)]
pub struct SizeNative {
    pub source: NativeSize,
    pub ptr: usize,
    pub tracking: bool,
}

/// A measurement: what it asks for next, or how it ended.
#[derive(Clone, Copy, Debug, PartialEq, Eq)]
pub enum Measurement {
    ReadSwitch(ReadSwitch),
    FindHeap(FindHeap),
    ValidatePointer(ValidatePointer),
    QuerySlot(QuerySlot),
    ReadSlot(ReadSlot),
    ValidateBase(ValidateBase),
    SizeBlock(SizeBlock),
    SizeNative(SizeNative),
    Done(Measured),
}

/// Nothing was measured.
pub open spec fn unmeasured() -> Measured {
    Measured { size: 0, follow_up: FollowUp::Nothing }
}

/// The process heap does not own `ptr`: it measures as zero, and is recorded.
pub open spec fn foreign(ptr: usize) -> Measured {
    Measured { size: 0, follow_up: FollowUp::RecordForeign { ptr } }
}

/// The measurement of nothing.
pub fn measure_nothing() -> (measured: Measured)
    ensures
        measured == unmeasured(),
        measured.size == 0,
        measured.follow_up == FollowUp::Nothing,
{
    Measured { size: 0, follow_up: FollowUp::Nothing }
}

/// The measurement of a pointer that the process heap does not own.
pub fn measure_foreign(ptr: Address) -> (measured: Measured)
    ensures
        measured == foreign(ptr@),
        measured.size == 0,
        measured.follow_up == (FollowUp::RecordForeign { ptr: ptr@ }),
{
    Measured { size: 0, follow_up: FollowUp::RecordForeign { ptr: ptr.get() } }
}

/// The function that measures the blocks of a build that is not for Windows.
pub open spec fn native_size(build: Build) -> NativeSize {
    if build.selects_jemalloc() {
        NativeSize::JemallocUsableSize
    } else if build.apple {
        NativeSize::MallocSize
    } else {
        NativeSize::MallocUsableSize
    }
}

/// Whether `first` is how the measurement of `ptr` begins.
pub open spec fn starts(build: Build, ptr: usize, first: Measurement) -> bool {
    if !build.windows {
        first == Measurement::SizeNative(
            SizeNative {
                source: native_size(build),
                ptr,
                tracking: build.allocation_tracking,
            },
        )
    } else if ptr == 0 {
        first == Measurement::Done(unmeasured())
    } else {
        first matches Measurement::ReadSwitch(s) && s.ptr@ == ptr && s.tracking
            == build.allocation_tracking
    }
}

/// Measures the heap block at `ptr`. On Windows, null measures as zero right away.
pub fn usable_size(build: Build, ptr: usize) -> (first: Measurement)
    ensures
        starts(build, ptr, first),
        build.windows && ptr == 0 ==> (first matches Measurement::Done(m) && m.size == 0
            && m.follow_up == FollowUp::Nothing),
        build.windows && ptr != 0 ==> (first matches Measurement::ReadSwitch(s) && s.ptr@ == ptr
            && s.tracking == build.allocation_tracking),
        !build.windows ==> (first matches Measurement::SizeNative(s) && s.ptr == ptr && s.tracking
            == build.allocation_tracking),
{
    let tracking = build.allocation_tracking;
    match build.platform() {
        Platform::Windows => match Address::new(ptr) {
            Some(ptr) => Measurement::ReadSwitch(ReadSwitch { ptr, tracking }),
            None => Measurement::Done(measure_nothing()),
        },
        Platform::Jemalloc => Measurement::SizeNative(
            SizeNative { source: NativeSize::JemallocUsableSize, ptr, tracking },
        ),
        Platform::System => {
            let source = if build.apple {
                NativeSize::MallocSize
            } else {
                NativeSize::MallocUsableSize
            };
            Measurement::SizeNative(SizeNative { source, ptr, tracking })
        },
    }
}

/// Looks for the block of `heap` that backs `ptr`. A heap trusts the header of a block that it is
/// asked to size, so a pointer that was not validated would bring down the process.
pub fn process_heap_block(heap: usize, ptr: Address, tracking: bool) -> (next: Measurement)
    ensures
        next == Measurement::ValidatePointer(ValidatePointer { heap, ptr, tracking }),
{
    Measurement::ValidatePointer(ValidatePointer { heap, ptr, tracking })
}

/// What follows once `heap` has denied that `ptr` is one of its blocks.
pub open spec fn base_search(heap: usize, ptr: Address, tracking: bool) -> Measurement {
    if over_aligned(ptr@ as nat) {
        Measurement::QuerySlot(
            QuerySlot { heap, ptr, slot: (ptr@ - WORD) as usize, tracking },
        )
    } else {
        Measurement::Done(foreign(ptr@))
    }
}

/// Looks for the base of the block that `ptr` was carved out of: the system allocator
/// over-allocates a block aligned beyond [`MIN_ALIGN`] and stores its base in the preceding word.
/// A pointer of a smaller alignment has no such base.
pub fn over_aligned_base(heap: usize, ptr: Address, tracking: bool) -> (next: Measurement)
    ensures
        next == base_search(heap, ptr, tracking),
{
    let addr: usize = ptr.get();
    let align: usize = natural_alignment(addr);
    if align <= MIN_ALIGN {
        return Measurement::Done(measure_foreign(ptr));
    }
    let slot: usize = addr - WORD;
    Measurement::QuerySlot(QuerySlot { heap, ptr, slot, tracking })
}

impl ReadSwitch {
    /// The environment variable that switches measuring off.
    pub fn variable(&self) -> (name: &'static str)
        ensures
            name@ == "SERVO_DISABLE_USABLE_SIZE"@,
    {
        "SERVO_DISABLE_USABLE_SIZE"
    }

    /// What follows when measuring is switched off, or is not.
    pub open spec fn after(self, disabled: bool) -> Measurement {
        if disabled {
            Measurement::Done(unmeasured())
        } else {
            Measurement::FindHeap(FindHeap { ptr: self.ptr, tracking: self.tracking })
        }
    }

    /// Goes on, told whether measuring is switched off: then everything measures as zero, and the
    /// heap is not touched.
    pub fn resume(self, disabled: bool) -> (next: Measurement)
        ensures
            next == self.after(disabled),
    {
        if disabled {
            Measurement::Done(measure_nothing())
        } else {
            Measurement::FindHeap(FindHeap { ptr: self.ptr, tracking: self.tracking })
        }
    }
}

impl FindHeap {
    /// What follows when `heap` is the heap of the process.
    pub open spec fn after(self, heap: usize) -> Measurement {
        Measurement::ValidatePointer(
            ValidatePointer { heap, ptr: self.ptr, tracking: self.tracking },
        )
    }

    /// Goes on with the heap of the process.
    pub fn resume(self, heap: usize) -> (next: Measurement)
        ensures
            next == self.after(heap),
    {
        process_heap_block(heap, self.ptr, self.tracking)
    }
}

impl ValidatePointer {
    /// What follows when the heap has answered.
    pub open spec fn after(self, answer: i32) -> Measurement {
        if answer != FALSE {
            Measurement::SizeBlock(
                SizeBlock { heap: self.heap, block: self.ptr@, tracking: self.tracking },
            )
        } else {
            base_search(self.heap, self.ptr, self.tracking)
        }
    }

    /// Goes on with the answer of the heap, which is `FALSE` where it does not own the pointer.
    pub fn resume(self, answer: i32) -> (next: Measurement)
        ensures
            next == self.after(answer),
    {
        if answer != FALSE {
            Measurement::SizeBlock(
                SizeBlock { heap: self.heap, block: self.ptr.get(), tracking: self.tracking },
            )
        } else {
            over_aligned_base(self.heap, self.ptr, self.tracking)
        }
    }
}

impl QuerySlot {
    /// What follows when the query has filled in `written` bytes of `region`.
    pub open spec fn after(self, written: usize, region: Region) -> Measurement {
        if readable(queried(written, region)) {
            Measurement::ReadSlot(
                ReadSlot {
                    heap: self.heap,
                    ptr: self.ptr,
                    slot: self.slot,
                    tracking: self.tracking,
                },
            )
        } else {
            Measurement::Done(foreign(self.ptr@))
        }
    }

    /// Goes on with the answer to the query. A slot that cannot be read holds no base.
    pub fn resume(self, written: usize, region: Region) -> (next: Measurement)
        ensures
            next == self.after(written, region),
    {
        if is_readable(query(written, region)) {
            Measurement::ReadSlot(
                ReadSlot {
                    heap: self.heap,
                    ptr: self.ptr,
                    slot: self.slot,
                    tracking: self.tracking,
                },
            )
        } else {
            Measurement::Done(measure_foreign(self.ptr))
        }
    }
}

impl ReadSlot {
    /// What follows when the slot holds `base`.
    pub open spec fn after(self, base: usize) -> Measurement {
        if base != 0 && carved(self.ptr@ as nat, base as nat) {
            Measurement::ValidateBase(
                ValidateBase { heap: self.heap, ptr: self.ptr, base, tracking: self.tracking },
            )
        } else {
            Measurement::Done(foreign(self.ptr@))
        }
    }

    /// Goes on with the word in the slot. A base too far from the pointer is garbage, and some
    /// garbage makes validation fault. Null is garbage too: a heap that is asked to validate null
    /// answers for the heap as a whole, and says nothing of a block.
    pub fn resume(self, base: usize) -> (next: Measurement)
        ensures
            next == self.after(base),
    {
        if base != 0 && is_carved(self.ptr, base) {
            Measurement::ValidateBase(
                ValidateBase { heap: self.heap, ptr: self.ptr, base, tracking: self.tracking },
            )
        } else {
            Measurement::Done(measure_foreign(self.ptr))
        }
    }
}

impl ValidateBase {
    /// What follows when the heap has answered.
    pub open spec fn after(self, answer: i32) -> Measurement {
        if answer != FALSE {
            Measurement::SizeBlock(
                SizeBlock { heap: self.heap, block: self.base, tracking: self.tracking },
            )
        } else {
            Measurement::Done(foreign(self.ptr@))
        }
    }

    /// Goes on with the answer of the heap, which is `FALSE` where it does not own the base.
    pub fn resume(self, answer: i32) -> (next: Measurement)
        ensures
            next == self.after(answer),
    {
        if answer != FALSE {
            Measurement::SizeBlock(
                SizeBlock { heap: self.heap, block: self.base, tracking: self.tracking },
            )
        } else {
            Measurement::Done(measure_foreign(self.ptr))
        }
    }
}

impl SizeBlock {
    /// What follows when the heap has given the size.
    pub open spec fn after(self, size: usize) -> Measurement {
        Measurement::Done(measured_block(self.tracking, self.block, size))
    }

    /// Ends with the size of the block.
    pub fn resume(self, size: usize) -> (next: Measurement)
        ensures
            next == self.after(size),
    {
        Measurement::Done(measure_block(self.tracking, self.block, size))
    }
}

impl SizeNative {
    /// What follows when the size is known.
    pub open spec fn after(self, size: usize) -> Measurement {
        Measurement::Done(measured_block(self.tracking, self.ptr, size))
    }

    /// Ends with the size of the block.
    pub fn resume(self, size: usize) -> (next: Measurement)
        ensures
            next == self.after(size),
    {
        Measurement::Done(measure_block(self.tracking, self.ptr, size))
    }
}

} // verus!
