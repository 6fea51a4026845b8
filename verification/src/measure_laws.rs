//! What holds of every measurement.
use crate::address::{carved, law_alignment_is_largest, law_carved_by_distance};
use crate::address::{law_over_aligned_by_multiple, law_system_base_is_accepted, over_aligned};
use crate::address::{MIN_ALIGN, WORD};
use crate::config::Build;
use crate::measure::{foreign, native_size, starts, unmeasured, Measurement, NativeSize};
use crate::region::{law_readable_by_state_and_flags, queried, readable, Region};
use crate::region::{FALSE, MEM_COMMIT, PAGE_GUARD, PAGE_NOACCESS};
use crate::tracking::{measured_block, FollowUp, Measured};
use vstd::arithmetic::power2::is_pow2;
use vstd::prelude::*;

verus! {

/// One thing that a measurement asked for, and the answer it got.
pub enum Exchange {
    Switch { disabled: bool },
    Heap { heap: usize },
    Validated { heap: usize, block: usize, answer: i32 },
    Queried { addr: usize, written: usize, region: Region },
    Word { addr: usize, word: usize },
    Sized { heap: usize, block: usize, size: usize },
    NativelySized { source: NativeSize, ptr: usize, size: usize },
}

/// Whether `exchange` answers what `m` asks for.
pub open spec fn answers(m: Measurement, exchange: Exchange) -> bool {
    match (m, exchange) {
        (Measurement::ReadSwitch(_), Exchange::Switch { .. }) => true,
        (Measurement::FindHeap(_), Exchange::Heap { .. }) => true,
        (Measurement::ValidatePointer(s), Exchange::Validated { heap, block, .. }) => heap == s.heap
            && block == s.ptr@,
        (Measurement::QuerySlot(s), Exchange::Queried { addr, .. }) => addr == s.slot,
        (Measurement::ReadSlot(s), Exchange::Word { addr, .. }) => addr == s.slot,
        (Measurement::ValidateBase(s), Exchange::Validated { heap, block, .. }) => heap == s.heap
            && block == s.base,
        (Measurement::SizeBlock(s), Exchange::Sized { heap, block, .. }) => heap == s.heap && block
            == s.block,
        (Measurement::SizeNative(s), Exchange::NativelySized { source, ptr, .. }) => source
            == s.source && ptr == s.ptr,
        _ => false,
    }
}

/// What `m` is resumed to by `exchange`.
pub open spec fn advance(m: Measurement, exchange: Exchange) -> Measurement {
    match (m, exchange) {
        (Measurement::ReadSwitch(s), Exchange::Switch { disabled }) => s.after(disabled),
        (Measurement::FindHeap(s), Exchange::Heap { heap }) => s.after(heap),
        (Measurement::ValidatePointer(s), Exchange::Validated { answer, .. }) => s.after(answer),
        (Measurement::QuerySlot(s), Exchange::Queried { written, region, .. }) => s.after(
            written,
            region,
        ),
        (Measurement::ReadSlot(s), Exchange::Word { word, .. }) => s.after(word),
        (Measurement::ValidateBase(s), Exchange::Validated { answer, .. }) => s.after(answer),
        (Measurement::SizeBlock(s), Exchange::Sized { size, .. }) => s.after(size),
        (Measurement::SizeNative(s), Exchange::NativelySized { size, .. }) => s.after(size),
        _ => m,
    }
}

/// Where a measurement that began as `first` stands after `trace`.
pub open spec fn follow(first: Measurement, trace: Seq<Exchange>) -> Measurement
    decreases trace.len(),
{
    if trace.len() == 0 {
        first
    } else {
        advance(follow(first, trace.drop_last()), trace.last())
    }
}

/// Whether each exchange of `trace` answers what the measurement asked for at that point.
pub open spec fn fits(first: Measurement, trace: Seq<Exchange>) -> bool
    decreases trace.len(),
{
    trace.len() == 0 || {
        &&& fits(first, trace.drop_last())
        &&& answers(follow(first, trace.drop_last()), trace.last())
    }
}

/// Whether `exchange` is the positive answer of `heap` to the question if it owns `block`.
pub open spec fn validates(exchange: Exchange, heap: usize, block: usize) -> bool {
    exchange matches Exchange::Validated { heap: h, block: b, answer } && h == heap && b == block
        && answer != FALSE
}

/// What a measurement of `ptr` on Windows knows, by what it asks for.
spec fn knows(build: Build, ptr: usize, m: Measurement) -> bool {
    &&& ptr != 0
    &&& match m {
        Measurement::ReadSwitch(s) => s.ptr@ == ptr && s.tracking == build.allocation_tracking,
        Measurement::FindHeap(s) => s.ptr@ == ptr && s.tracking == build.allocation_tracking,
        Measurement::ValidatePointer(s) => s.ptr@ == ptr && s.tracking
            == build.allocation_tracking,
        Measurement::QuerySlot(s) => s.ptr@ == ptr && s.tracking == build.allocation_tracking
            && over_aligned(ptr as nat) && s.slot == ptr - WORD,
        Measurement::ReadSlot(s) => s.ptr@ == ptr && s.tracking == build.allocation_tracking
            && over_aligned(ptr as nat) && s.slot == ptr - WORD,
        Measurement::ValidateBase(s) => s.ptr@ == ptr && s.tracking == build.allocation_tracking
            && over_aligned(ptr as nat) && s.base != 0 && carved(ptr as nat, s.base as nat),
        Measurement::SizeBlock(s) => s.tracking == build.allocation_tracking && s.block != 0 && (
        s.block == ptr || (over_aligned(ptr as nat) && carved(ptr as nat, s.block as nat))),
        Measurement::SizeNative(_) => false,
        Measurement::Done(measured) => follows_up(build, ptr, measured),
    }
}

/// What may be left to do after a measurement of `ptr`.
pub open spec fn follows_up(build: Build, ptr: usize, measured: Measured) -> bool {
    match measured.follow_up {
        FollowUp::Nothing => true,
        FollowUp::NoteAllocation { ptr: block, size } => {
            &&& build.allocation_tracking
            &&& size == measured.size
            &&& block == ptr || (build.windows && block != 0 && over_aligned(ptr as nat) && carved(
                ptr as nat,
                block as nat,
            ))
        },
        FollowUp::RecordForeign { ptr: p } => build.windows && p == ptr && p != 0
            && measured.size == 0,
    }
}

/// The heap that a measurement has been told of and goes on with.
pub open spec fn heap_in_use(m: Measurement) -> Option<usize> {
    match m {
        Measurement::ValidatePointer(s) => Some(s.heap),
        Measurement::QuerySlot(s) => Some(s.heap),
        Measurement::ReadSlot(s) => Some(s.heap),
        Measurement::ValidateBase(s) => Some(s.heap),
        Measurement::SizeBlock(s) => Some(s.heap),
        _ => None,
    }
}

proof fn lemma_slot_exists(ptr: usize)
    requires
        ptr != 0,
        over_aligned(ptr as nat),
    ensures
        ptr >= WORD,
{
    law_alignment_is_largest(ptr as nat);
}

proof fn lemma_knows(build: Build, ptr: usize, first: Measurement, trace: Seq<Exchange>)
    requires
        build.windows,
        ptr != 0,
        starts(build, ptr, first),
        fits(first, trace),
    ensures
        knows(build, ptr, follow(first, trace)),
    decreases trace.len(),
{
    if trace.len() > 0 {
        lemma_knows(build, ptr, first, trace.drop_last());
        if over_aligned(ptr as nat) {
            lemma_slot_exists(ptr);
        }
    }
}

/// A heap trusts the header of a block that it sizes. So a size is asked only of the heap of the
/// process, and only once it has just validated that very block; the block is not null, and is the
/// pointer itself or the base that the pointer was carved from.
pub proof fn law_only_validated_blocks_are_sized(
    build: Build,
    ptr: usize,
    first: Measurement,
    trace: Seq<Exchange>,
)
    requires
        starts(build, ptr, first),
        fits(first, trace),
    ensures
        follow(first, trace) matches Measurement::SizeBlock(s) ==> {
            &&& trace.len() > 2
            &&& trace[1] == (Exchange::Heap { heap: s.heap })
            &&& validates(trace.last(), s.heap, s.block)
            &&& s.block != 0
            &&& s.block == ptr || (over_aligned(ptr as nat) && carved(ptr as nat, s.block as nat))
        },
{
    law_only_the_process_heap_is_asked(build, ptr, first, trace);
    if build.windows && ptr != 0 {
        lemma_knows(build, ptr, first, trace);
        if trace.len() > 0 {
            lemma_knows(build, ptr, first, trace.drop_last());
        }
    } else {
        lemma_short(build, ptr, first, trace);
    }
}

/// A size is asked for at most once, and last: the answer ends the measurement.
pub proof fn law_at_most_one_size_is_asked(first: Measurement, trace: Seq<Exchange>)
    requires
        fits(first, trace),
    ensures
        forall|i: int|
            0 <= i < trace.len() && (#[trigger] trace[i] is Sized || trace[i] is NativelySized)
                ==> i == trace.len() - 1 && follow(first, trace) is Done,
    decreases trace.len(),
{
    if trace.len() > 0 {
        let before = trace.drop_last();
        law_at_most_one_size_is_asked(first, before);
        assert forall|i: int|
            0 <= i < trace.len() && (#[trigger] trace[i] is Sized || trace[i]
                is NativelySized) implies i == trace.len() - 1 && follow(first, trace) is Done by {
            if i < before.len() {
                assert(before[i] == trace[i]);
            }
        }
    }
}

/// The only heap that is asked anything is the one that was given as the heap of the process.
pub proof fn law_only_the_process_heap_is_asked(
    build: Build,
    ptr: usize,
    first: Measurement,
    trace: Seq<Exchange>,
)
    requires
        starts(build, ptr, first),
        fits(first, trace),
    ensures
        heap_in_use(follow(first, trace)) matches Some(heap) ==> trace.len() >= 2 && trace[1] == (
        Exchange::Heap { heap }),
        follow(first, trace) is FindHeap ==> trace.len() == 1,
        follow(first, trace) is ReadSwitch ==> trace.len() == 0,
    decreases trace.len(),
{
    if trace.len() > 0 {
        law_only_the_process_heap_is_asked(build, ptr, first, trace.drop_last());
    }
}

/// An allocation is noted only with tracking, under its measured size, and a pointer is recorded as
/// foreign only on Windows, only if it is not null and only if it measured as zero.
pub proof fn law_follow_up(build: Build, ptr: usize, first: Measurement, trace: Seq<Exchange>)
    requires
        starts(build, ptr, first),
        fits(first, trace),
    ensures
        follow(first, trace) matches Measurement::Done(measured) ==> follows_up(
            build,
            ptr,
            measured,
        ),
{
    if build.windows && ptr != 0 {
        lemma_knows(build, ptr, first, trace);
    } else {
        lemma_short(build, ptr, first, trace);
        if trace.len() > 0 {
            lemma_short(build, ptr, first, trace.drop_last());
        }
    }
}

/// A measurement that the process heap has no part in, or that is over at once, has at most one
/// exchange.
proof fn lemma_short(build: Build, ptr: usize, first: Measurement, trace: Seq<Exchange>)
    requires
        !build.windows || ptr == 0,
        starts(build, ptr, first),
        fits(first, trace),
    ensures
        trace.len() == 0 ==> follow(first, trace) == first,
        trace.len() > 0 ==> !build.windows && follow(first, trace) is Done,
    decreases trace.len(),
{
    if trace.len() > 0 {
        lemma_short(build, ptr, first, trace.drop_last());
    }
}

/// A word of memory is read only where the memory manager has just said that it may be, and only
/// the word before a pointer that is aligned beyond what the heap gives by itself.
pub proof fn law_only_readable_words_are_read(
    build: Build,
    ptr: usize,
    first: Measurement,
    trace: Seq<Exchange>,
)
    requires
        starts(build, ptr, first),
        fits(first, trace),
    ensures
        follow(first, trace) matches Measurement::ReadSlot(s) ==> {
            &&& trace.len() > 0
            &&& trace.last() matches Exchange::Queried { addr, written, region } && addr == s.slot
                && readable(queried(written, region)) && written != 0 && region.state == MEM_COMMIT
                && region.protect & PAGE_NOACCESS == 0 && region.protect & PAGE_GUARD == 0
            &&& s.slot == ptr - WORD
            &&& over_aligned(ptr as nat)
            &&& ptr % (2 * MIN_ALIGN) as usize == 0
        },
{
    if ptr != 0 {
        law_over_aligned_by_multiple(ptr as nat);
    }
    if build.windows && ptr != 0 {
        lemma_knows(build, ptr, first, trace);
        if trace.len() > 0 {
            lemma_knows(build, ptr, first, trace.drop_last());
        }
    } else {
        lemma_short(build, ptr, first, trace);
    }
}

/// Validating garbage can fault. So the heap is asked about an address other than the pointer only
/// if that address was found in the word before the pointer, is not null, and lies where the base
/// of a block carved for this pointer can lie.
pub proof fn law_only_plausible_bases_are_validated(
    build: Build,
    ptr: usize,
    first: Measurement,
    trace: Seq<Exchange>,
)
    requires
        starts(build, ptr, first),
        fits(first, trace),
    ensures
        follow(first, trace) matches Measurement::ValidatePointer(s) ==> s.ptr@ == ptr,
        follow(first, trace) matches Measurement::ValidateBase(s) ==> {
            &&& trace.len() > 0
            &&& trace.last() == (Exchange::Word { addr: (ptr - WORD) as usize, word: s.base })
            &&& over_aligned(ptr as nat)
            &&& s.base != 0
            &&& carved(ptr as nat, s.base as nat)
            &&& ptr % (2 * MIN_ALIGN) as usize == 0
            &&& ptr - s.base >= WORD
            &&& forall|align: nat|
                #[trigger] is_pow2(align as int) && ptr as nat % (2 * align) != 0 ==> ptr - s.base
                    < align + WORD
        },
{
    if ptr != 0 {
        law_over_aligned_by_multiple(ptr as nat);
        assert forall|base: nat, align: nat|
            #[trigger] is_pow2(align as int) && #[trigger] carved(ptr as nat, base) && ptr as nat % (
            2 * align) != 0 implies ptr - base < align + WORD by {
            law_carved_by_distance(ptr as nat, base, align);
        }
    }
    if build.windows && ptr != 0 {
        lemma_knows(build, ptr, first, trace);
        if trace.len() > 0 {
            lemma_knows(build, ptr, first, trace.drop_last());
        }
    } else {
        lemma_short(build, ptr, first, trace);
    }
}

/// Where measuring is switched off, a pointer measures as zero, and nothing at all is asked beyond
/// the switch: the heap is not touched.
pub proof fn law_switched_off(
    build: Build,
    ptr: usize,
    first: Measurement,
    trace: Seq<Exchange>,
)
    requires
        build.windows,
        starts(build, ptr, first),
        fits(first, trace),
        trace.len() > 0,
        trace[0] == (Exchange::Switch { disabled: true }),
    ensures
        trace.len() == 1,
        follow(first, trace) == Measurement::Done(unmeasured()),
        follow(first, trace) matches Measurement::Done(m) && m.size == 0 && m.follow_up
            == FollowUp::Nothing,
    decreases trace.len(),
{
    if trace.len() > 1 {
        law_switched_off(build, ptr, first, trace.drop_last());
    } else {
        assert(trace.drop_last().len() == 0);
        assert(follow(first, trace.drop_last()) == first);
    }
}

/// How many more things `m` may ask for.
spec fn questions_left(m: Measurement) -> nat {
    match m {
        Measurement::ReadSwitch(_) => 7,
        Measurement::FindHeap(_) => 6,
        Measurement::ValidatePointer(_) => 5,
        Measurement::QuerySlot(_) => 4,
        Measurement::ReadSlot(_) => 3,
        Measurement::ValidateBase(_) => 2,
        Measurement::SizeBlock(_) => 1,
        Measurement::SizeNative(_) => 1,
        Measurement::Done(_) => 0,
    }
}

/// Whatever the answers are, a measurement asks for at most seven things; once it has asked for
/// seven, it is done.
pub proof fn law_measurement_ends(first: Measurement, trace: Seq<Exchange>)
    requires
        fits(first, trace),
    ensures
        trace.len() <= 7,
        trace.len() == 7 ==> follow(first, trace) is Done,
{
    lemma_questions(first, trace);
}

proof fn lemma_questions(first: Measurement, trace: Seq<Exchange>)
    requires
        fits(first, trace),
    ensures
        questions_left(follow(first, trace)) + trace.len() <= 7,
    decreases trace.len(),
{
    if trace.len() > 0 {
        lemma_questions(first, trace.drop_last());
    }
}

/// A process, as far as measurements can see it.
pub struct Process {
    /// Whether measuring is switched off.
    pub disabled: bool,
    /// The heap of the process.
    pub heap: usize,
    /// The answer of a heap to the question if it owns a block.
    pub validate: spec_fn(usize, usize) -> i32,
    /// How many bytes a query of an address fills in, and with what.
    pub query: spec_fn(usize) -> (usize, Region),
    /// The word at an address.
    pub word: spec_fn(usize) -> usize,
    /// The size of a block, according to a heap.
    pub size: spec_fn(usize, usize) -> usize,
    /// The size of a block, according to the allocator in use elsewhere.
    pub native: spec_fn(NativeSize, usize) -> usize,
}

impl Process {
    /// Whether the heap of the process owns `block`.
    pub open spec fn owns(self, block: usize) -> bool {
        (self.validate)(self.heap, block) != FALSE
    }

    /// Whether the word at `addr` may be read.
    pub open spec fn can_read(self, addr: usize) -> bool {
        readable(queried((self.query)(addr).0, (self.query)(addr).1))
    }

    /// Whether the heap of the process owns a block that `ptr` was carved out of.
    pub open spec fn owns_carved(self, ptr: usize) -> bool {
        let slot = (ptr - WORD) as usize;
        let base = (self.word)(slot);
        over_aligned(ptr as nat) && self.can_read(slot) && base != 0 && carved(
            ptr as nat,
            base as nat,
        ) && self.owns(base)
    }

    /// The block of the process heap that backs `ptr`, if there is one.
    pub open spec fn block(self, ptr: usize) -> Option<usize> {
        if self.owns(ptr) {
            Some(ptr)
        } else if self.owns_carved(ptr) {
            Some((self.word)((ptr - WORD) as usize))
        } else {
            None
        }
    }

    /// What a measurement of `ptr` has to come to.
    pub open spec fn measured(self, build: Build, ptr: usize) -> Measured {
        let tracking = build.allocation_tracking;
        if !build.windows {
            measured_block(tracking, ptr, (self.native)(native_size(build), ptr))
        } else if ptr == 0 || self.disabled {
            unmeasured()
        } else {
            match self.block(ptr) {
                Some(block) => measured_block(tracking, block, (self.size)(self.heap, block)),
                None => foreign(ptr),
            }
        }
    }

    /// The measurement, resumed with what this process answers.
    pub open spec fn step(self, m: Measurement) -> Measurement {
        match m {
            Measurement::ReadSwitch(s) => s.after(self.disabled),
            Measurement::FindHeap(s) => s.after(self.heap),
            Measurement::ValidatePointer(s) => s.after((self.validate)(s.heap, s.ptr@)),
            Measurement::QuerySlot(s) => s.after((self.query)(s.slot).0, (self.query)(s.slot).1),
            Measurement::ReadSlot(s) => s.after((self.word)(s.slot)),
            Measurement::ValidateBase(s) => s.after((self.validate)(s.heap, s.base)),
            Measurement::SizeBlock(s) => s.after((self.size)(s.heap, s.block)),
            Measurement::SizeNative(s) => s.after((self.native)(s.source, s.ptr)),
            Measurement::Done(_) => m,
        }
    }

    /// The measurement, resumed up to `steps` times.
    pub open spec fn run(self, m: Measurement, steps: nat) -> Measurement
        decreases steps,
    {
        if steps == 0 {
            m
        } else {
            self.run(self.step(m), (steps - 1) as nat)
        }
    }
}

/// In a process that does not change meanwhile, a measurement is done after seven answers at the
/// most, and comes to the size of the block that backs the pointer: the pointer's own block, or the
/// one that it was carved out of. A pointer that the process heap does not own measures as zero
/// and is recorded.
pub proof fn law_measurement(process: Process, build: Build, ptr: usize, first: Measurement)
    requires
        starts(build, ptr, first),
    ensures
        process.run(first, 7) == Measurement::Done(process.measured(build, ptr)),
{
    reveal_with_fuel(Process::run, 8);
    if over_aligned(ptr as nat) && ptr != 0 {
        lemma_slot_exists(ptr);
    }
}

/// Null and, where measuring is switched off, every pointer measures as zero, and nothing more is
/// done about it; for null, nothing is asked either.
pub proof fn law_nothing_to_measure(
    process: Process,
    build: Build,
    ptr: usize,
    first: Measurement,
)
    requires
        starts(build, ptr, first),
        build.windows,
        ptr == 0 || process.disabled,
    ensures
        ptr == 0 ==> first is Done,
        process.run(first, 7) matches Measurement::Done(m) && m.size == 0 && m.follow_up
            == FollowUp::Nothing,
{
    law_measurement(process, build, ptr, first);
}

/// Where the process heap has no part in it, a block measures as the number that its allocator
/// gives for it: jemalloc where it serves the build, else the C library, by the function that it
/// has for that. The tracker hears of that same block and number, on a build that tracks.
pub proof fn law_native_block_measures_its_size(
    process: Process,
    build: Build,
    ptr: usize,
    first: Measurement,
    source: NativeSize,
)
    requires
        starts(build, ptr, first),
        !build.windows,
        source == NativeSize::JemallocUsableSize <==> build.use_jemalloc && !build.ohos,
        source == NativeSize::MallocSize <==> !(build.use_jemalloc && !build.ohos) && build.apple,
    ensures
        process.run(first, 7) matches Measurement::Done(m) && {
            &&& m.size == (process.native)(source, ptr)
            &&& build.allocation_tracking ==> m.follow_up == (FollowUp::NoteAllocation {
                ptr,
                size: (process.native)(source, ptr),
            })
            &&& !build.allocation_tracking ==> m.follow_up == FollowUp::Nothing
        },
{
    law_measurement(process, build, ptr, first);
}

/// A block of the process heap measures as the number that the heap gives for its size. The tracker
/// hears of that same block and number, on a build that tracks.
pub proof fn law_heap_block_measures_its_size(
    process: Process,
    build: Build,
    ptr: usize,
    first: Measurement,
)
    requires
        starts(build, ptr, first),
        build.windows,
        !process.disabled,
        ptr != 0,
        (process.validate)(process.heap, ptr) != FALSE,
    ensures
        process.run(first, 7) == Measurement::Done(
            measured_block(build.allocation_tracking, ptr, (process.size)(process.heap, ptr)),
        ),
        process.run(first, 7) matches Measurement::Done(m) && {
            &&& m.size == (process.size)(process.heap, ptr)
            &&& build.allocation_tracking ==> m.follow_up == (FollowUp::NoteAllocation {
                ptr,
                size: (process.size)(process.heap, ptr),
            })
            &&& !build.allocation_tracking ==> m.follow_up == FollowUp::Nothing
        },
{
    law_measurement(process, build, ptr, first);
}

/// Memory that is no block of the process heap, nor carved out of one, measures as zero, and the
/// pointer to it is recorded.
pub proof fn law_foreign_memory_measures_zero(
    process: Process,
    build: Build,
    ptr: usize,
    first: Measurement,
)
    requires
        starts(build, ptr, first),
        build.windows,
        !process.disabled,
        ptr != 0,
        !process.owns(ptr),
        !process.owns_carved(ptr),
    ensures
        process.run(first, 7) == Measurement::Done(foreign(ptr)),
        process.run(first, 7) matches Measurement::Done(m) && m.size == 0 && m.follow_up == (
        FollowUp::RecordForeign { ptr }),
{
    law_measurement(process, build, ptr, first);
}

/// A pointer that the process heap denies measures as zero and is recorded wherever one thing is
/// missing for it to be carved out of a block of that heap: it is no multiple of twice `MIN_ALIGN`;
/// or the memory manager does not show the word before it to be committed memory that can be read
/// without a trap; or that word is null, lies too close to the pointer or too far from it, or is
/// denied by the heap too.
pub proof fn law_denied_pointer_measures_zero(
    process: Process,
    build: Build,
    ptr: usize,
    first: Measurement,
    slot: usize,
    align: nat,
)
    requires
        starts(build, ptr, first),
        build.windows,
        !process.disabled,
        ptr != 0,
        (process.validate)(process.heap, ptr) == FALSE,
        ptr >= WORD ==> slot == ptr - WORD,
        is_pow2(align as int),
        ({
            ||| ptr as nat % (2 * MIN_ALIGN as nat) != 0
            ||| (process.query)(slot).0 == 0
            ||| (process.query)(slot).1.state != MEM_COMMIT
            ||| (process.query)(slot).1.protect & PAGE_NOACCESS != 0
            ||| (process.query)(slot).1.protect & PAGE_GUARD != 0
            ||| (process.word)(slot) == 0
            ||| ptr - (process.word)(slot) < WORD
            ||| ptr as nat % (2 * align) != 0 && ptr - (process.word)(slot) >= align + WORD
            ||| (process.validate)(process.heap, (process.word)(slot)) == FALSE
        }),
    ensures
        process.run(first, 7) matches Measurement::Done(m) && m.size == 0 && m.follow_up == (
        FollowUp::RecordForeign { ptr }),
{
    law_measurement(process, build, ptr, first);
    law_over_aligned_by_multiple(ptr as nat);
    if over_aligned(ptr as nat) {
        lemma_slot_exists(ptr);
    }
    law_readable_by_state_and_flags((process.query)(slot).0, (process.query)(slot).1);
    law_carved_by_distance(ptr as nat, (process.word)(slot) as nat, align);
}

/// A pointer that the process heap denies measures as the block that the word before it names, if
/// nothing is missing: the pointer is a multiple of twice `MIN_ALIGN`; a query shows the word before
/// it to lie in committed pages without the flags that forbid or trap access, whatever else is true
/// of them; that word is not null and lies at least one word before the pointer, and less than one
/// word further than a power of two that divides the pointer; and the heap owns the block there. The
/// tracker hears of that block and its size, on a build that tracks.
pub proof fn law_carved_block_measures_its_base(
    process: Process,
    build: Build,
    base: usize,
    align: nat,
    ptr: usize,
    first: Measurement,
)
    requires
        starts(build, ptr, first),
        build.windows,
        !process.disabled,
        ptr != 0,
        (process.validate)(process.heap, ptr) == FALSE,
        ptr as nat % (2 * MIN_ALIGN as nat) == 0,
        (process.query)((ptr - WORD) as usize).0 != 0,
        (process.query)((ptr - WORD) as usize).1.state == MEM_COMMIT,
        (process.query)((ptr - WORD) as usize).1.protect & PAGE_NOACCESS == 0,
        (process.query)((ptr - WORD) as usize).1.protect & PAGE_GUARD == 0,
        (process.word)((ptr - WORD) as usize) == base,
        base != 0,
        is_pow2(align as int),
        ptr as nat % align == 0,
        WORD <= ptr - base < align + WORD,
        (process.validate)(process.heap, base) != FALSE,
    ensures
        process.run(first, 7) matches Measurement::Done(m) && {
            &&& m.size == (process.size)(process.heap, base)
            &&& build.allocation_tracking ==> m.follow_up == (FollowUp::NoteAllocation {
                ptr: base,
                size: (process.size)(process.heap, base),
            })
            &&& !build.allocation_tracking ==> m.follow_up == FollowUp::Nothing
        },
{
    let slot = (ptr - WORD) as usize;
    law_measurement(process, build, ptr, first);
    law_over_aligned_by_multiple(ptr as nat);
    law_readable_by_state_and_flags((process.query)(slot).0, (process.query)(slot).1);
    law_carved_by_distance(ptr as nat, base as nat, align);
}

/// A block that the system allocator carved out of a larger block of the process heap measures as
/// that larger block: it moved forward from the base of that block to the next multiple of the
/// alignment, and stored the base in the word before. All that matters of the pages that hold that
/// word is that they are committed and that access is neither forbidden nor trapped.
pub proof fn law_over_aligned_block_measures_its_size(
    process: Process,
    build: Build,
    base: usize,
    align: nat,
    ptr: usize,
    first: Measurement,
)
    requires
        starts(build, ptr, first),
        build.windows,
        !process.disabled,
        is_pow2(align as int),
        align > MIN_ALIGN,
        base != 0,
        base % MIN_ALIGN == 0,
        ptr == base + (align - base as nat % align),
        (process.validate)(process.heap, ptr) == FALSE,
        (process.query)((ptr - WORD) as usize).0 != 0,
        (process.query)((ptr - WORD) as usize).1.state == MEM_COMMIT,
        (process.query)((ptr - WORD) as usize).1.protect & PAGE_NOACCESS == 0,
        (process.query)((ptr - WORD) as usize).1.protect & PAGE_GUARD == 0,
        (process.word)((ptr - WORD) as usize) == base,
        (process.validate)(process.heap, base) != FALSE,
    ensures
        process.run(first, 7) == Measurement::Done(
            measured_block(build.allocation_tracking, base, (process.size)(process.heap, base)),
        ),
        process.run(first, 7) matches Measurement::Done(m) && {
            &&& m.size == (process.size)(process.heap, base)
            &&& build.allocation_tracking ==> m.follow_up == (FollowUp::NoteAllocation {
                ptr: base,
                size: (process.size)(process.heap, base),
            })
            &&& !build.allocation_tracking ==> m.follow_up == FollowUp::Nothing
        },
{
    let slot = (ptr - WORD) as usize;
    law_readable_by_state_and_flags((process.query)(slot).0, (process.query)(slot).1);
    law_system_base_is_accepted(base as nat, align);
    law_measurement(process, build, ptr, first);
}

/// Tracking makes no difference to a size: it only has measured blocks noted.
pub proof fn law_tracking_leaves_sizes_alone(
    process: Process,
    plain: Build,
    tracking: Build,
    ptr: usize,
    first: Measurement,
    first_tracking: Measurement,
)
    requires
        !plain.allocation_tracking,
        tracking == (Build { allocation_tracking: true, ..plain }),
        starts(plain, ptr, first),
        starts(tracking, ptr, first_tracking),
    ensures
        process.run(first, 7) matches Measurement::Done(m) && process.run(first_tracking, 7)
            matches Measurement::Done(t) && {
            &&& t.size == m.size
            &&& m.follow_up !is NoteAllocation
            &&& t.follow_up == m.follow_up || (t.follow_up is NoteAllocation && m.follow_up
                == FollowUp::Nothing)
        },
{
    law_measurement(process, plain, ptr, first);
    law_measurement(process, tracking, ptr, first_tracking);
}

} // verus!
