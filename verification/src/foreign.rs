//! Pointers that were to be measured and that the process heap does not own.
//!
//! What is found out about such a pointer is recorded as a line of text, up to a limit. Finding it
//! out asks for one thing at a time, as a measurement does.
use crate::config::Build;
use crate::hex::{append_prefixed_hex, prefixed_hex};
use crate::region::{query, queried, Region, FALSE};
use vstd::prelude::*;
use vstd::string::StringExecFns;

verus! {

/// The number of pointers that are recorded until they are taken.
pub const MAX_FOREIGN_POINTERS: usize = 32;

/// The number of heaps that are searched for the owner of a pointer.
pub const MAX_PROCESS_HEAPS: usize = 32;

/// What was found out about a pointer.
#[derive(Clone, Copy, Debug, PartialEq, Eq)]
pub struct ForeignPointer {
    pub ptr: usize,
    /// The heap of this process that owns the pointer.
    pub owner: Option<usize>,
    /// The region that the pointer lies in, if it is mapped.
    pub region: Option<Region>,
}

/// How the owner of a pointer is written.
pub open spec fn owner_text(owner: Option<usize>) -> Seq<char> {
    match owner {
        Some(heap) => "heap "@ + prefixed_hex(heap as nat),
        None => "no heap"@,
    }
}

/// How a region is written.
pub open spec fn region_text(region: Option<Region>) -> Seq<char> {
    match region {
        Some(region) => "base="@ + prefixed_hex(region.allocation_base as nat) + " region="@
            + prefixed_hex(region.region_size as nat) + " state="@ + prefixed_hex(
            region.state as nat,
        ) + " type="@ + prefixed_hex(region.kind as nat) + " protect="@ + prefixed_hex(
            region.protect as nat,
        ),
        None => "unmapped"@,
    }
}

impl ForeignPointer {
    /// The line that records this pointer.
    pub open spec fn text(self) -> Seq<char> {
        prefixed_hex(self.ptr as nat) + ": "@ + region_text(self.region) + ", "@ + owner_text(
            self.owner,
        )
    }

    /// The line that records this pointer.
    pub fn describe(&self) -> (text: String)
        ensures
            text@ == self.text(),
    {
        let mut text = String::new();
        append_prefixed_hex(&mut text, self.ptr);
        text.append(": ");
        match self.region {
            Some(region) => {
                let ghost start = text@;
                text.append("base=");
                append_prefixed_hex(&mut text, region.allocation_base);
                text.append(" region=");
                append_prefixed_hex(&mut text, region.region_size);
                text.append(" state=");
                append_prefixed_hex(&mut text, region.state as usize);
                text.append(" type=");
                append_prefixed_hex(&mut text, region.kind as usize);
                text.append(" protect=");
                append_prefixed_hex(&mut text, region.protect as usize);
                assert(text@ =~= start + region_text(self.region));
            },
            None => text.append("unmapped"),
        }
        text.append(", ");
        let ghost start = text@;
        match self.owner {
            Some(heap) => {
                text.append("heap ");
                append_prefixed_hex(&mut text, heap);
            },
            None => text.append("no heap"),
        }
        assert(text@ =~= start + owner_text(self.owner));
        assert(text@ =~= self.text());
        text
    }
}

/// The lines of a list of strings.
pub open spec fn lines(strings: Seq<String>) -> Seq<Seq<char>> {
    strings.map_values(|s: String| s@)
}

/// What `before` becomes when one more line is to be recorded: a full record stays as it is.
pub open spec fn with_line(before: Seq<Seq<char>>, line: Seq<char>) -> Seq<Seq<char>> {
    if before.len() >= MAX_FOREIGN_POINTERS {
        before
    } else {
        before.push(line)
    }
}

/// The record of foreign pointers.
pub struct ForeignPointers {
    recorded: Vec<String>,
}

impl View for ForeignPointers {
    type V = Seq<Seq<char>>;

    closed spec fn view(&self) -> Seq<Seq<char>> {
        lines(self.recorded@)
    }
}

impl ForeignPointers {
    /// Whether the record is within its limit.
    pub open spec fn wf(self) -> bool {
        self@.len() <= MAX_FOREIGN_POINTERS
    }

    /// An empty record.
    pub fn new() -> (empty: ForeignPointers)
        ensures
            empty.wf(),
            empty@ == Seq::<Seq<char>>::empty(),
    {
        let empty = ForeignPointers { recorded: Vec::new() };
        assert(empty@ =~= Seq::<Seq<char>>::empty());
        empty
    }

    /// Whether nothing more is recorded.
    pub fn is_full(&self) -> (full: bool)
        ensures
            full == (self@.len() >= MAX_FOREIGN_POINTERS),
    {
        self.recorded.len() >= MAX_FOREIGN_POINTERS
    }

    /// Records a pointer, unless the record is full.
    pub fn record(&mut self, pointer: ForeignPointer)
        ensures
            final(self)@ == with_line(old(self)@, pointer.text()),
            old(self)@.len() < MAX_FOREIGN_POINTERS ==> final(self)@ == old(self)@.push(
                pointer.text(),
            ),
            old(self)@.len() >= MAX_FOREIGN_POINTERS ==> final(self)@ == old(self)@,
            old(self).wf() ==> final(self).wf(),
    {
        if self.is_full() {
            return;
        }
        let line = pointer.describe();
        self.recorded.push(line);
        assert(self@ =~= old(self)@.push(pointer.text()));
    }
}

/// Hands out the recorded pointers and starts over. Only a build for Windows records any.
pub fn take_foreign_pointers(build: Build, record: &mut ForeignPointers) -> (taken: Vec<String>)
    ensures
        build.windows ==> lines(taken@) == old(record)@ && final(record)@ == Seq::<
            Seq<char>,
        >::empty(),
        build.windows ==> taken@.len() == old(record)@.len() && forall|i: int|
            0 <= i < taken@.len() ==> (#[trigger] taken@[i])@ == old(record)@[i],
        !build.windows ==> taken@ == Seq::<String>::empty() && *final(record) == *old(record),
        old(record).wf() ==> final(record).wf(),
{
    let mut taken: Vec<String> = Vec::new();
    if build.windows {
        std::mem::swap(&mut taken, &mut record.recorded);
        assert(record@ =~= Seq::<Seq<char>>::empty());
    }
    taken
}

/// Asks for the heaps of the process: how many there are, and up to
/// [`MAX_PROCESS_HEAPS`] of them.
#[derive(Clone, Copy, Debug, PartialEq, Eq)]
pub struct ListHeaps {
    pub ptr: usize,
}

/// Asks `heap` to validate `ptr` as one of its blocks. Of the `listed` heaps in `heaps`, those from
/// `next` on have not been asked yet.
#[derive(Clone, Copy, Debug, PartialEq, Eq)]
pub struct ValidateOwner {
    pub ptr: usize,
    pub heap: usize,
    pub heaps: [usize; MAX_PROCESS_HEAPS],
    pub listed: usize,
    pub next: usize,
}

/// Asks the memory manager about `ptr`, whose owner is known.
#[derive(Clone, Copy, Debug, PartialEq, Eq)]
pub struct QueryPointer {
    pub ptr: usize,
    pub owner: Option<usize>,
}

/// The recording of a pointer: what it asks for next, or how it ended.
#[derive(Clone, Copy, Debug, PartialEq, Eq)]
pub enum Recording {
    ListHeaps(ListHeaps),
    ValidateOwner(ValidateOwner),
    QueryPointer(QueryPointer),
    /// The pointer is not to be recorded.
    Skip,
    /// This is to be recorded.
    Record(ForeignPointer),
}

/// Begins to record `ptr`. A record that could not be locked, or is full, takes no more.
pub fn record_foreign_pointer(locked: Option<&ForeignPointers>, ptr: usize) -> (first: Recording)
    ensures
        first == Recording::Skip <==> (locked is None || locked->0@.len() >= MAX_FOREIGN_POINTERS),
        first != Recording::Skip ==> first == Recording::ListHeaps(ListHeaps { ptr }),
{
    match locked {
        Some(record) => {
            if record.is_full() {
                Recording::Skip
            } else {
                Recording::ListHeaps(ListHeaps { ptr })
            }
        },
        None => Recording::Skip,
    }
}

/// What follows when the heaps before `next` do not own `ptr`.
pub open spec fn owner_search(
    ptr: usize,
    heaps: [usize; MAX_PROCESS_HEAPS],
    listed: usize,
    next: usize,
) -> Recording {
    if next < listed && next < MAX_PROCESS_HEAPS {
        Recording::ValidateOwner(
            ValidateOwner {
                ptr,
                heap: heaps@[next as int],
                heaps,
                listed,
                next: (next + 1) as usize,
            },
        )
    } else {
        Recording::QueryPointer(QueryPointer { ptr, owner: None })
    }
}

/// Looks for the heap of this process that owns `ptr`, which tells a block of some other heap apart
/// from memory that is not heap at all. The heaps before `next` do not own it.
pub fn owning_heap(
    ptr: usize,
    heaps: [usize; MAX_PROCESS_HEAPS],
    listed: usize,
    next: usize,
) -> (search: Recording)
    ensures
        search == owner_search(ptr, heaps, listed, next),
{
    if next < listed && next < MAX_PROCESS_HEAPS {
        let heap: usize = heaps[next];
        Recording::ValidateOwner(ValidateOwner { ptr, heap, heaps, listed, next: next + 1 })
    } else {
        Recording::QueryPointer(QueryPointer { ptr, owner: None })
    }
}

impl ListHeaps {
    /// What follows when there are `count` heaps, and `heaps` holds as many of them as it can.
    pub open spec fn after(self, count: u32, heaps: [usize; MAX_PROCESS_HEAPS]) -> Recording {
        owner_search(self.ptr, heaps, count as usize, 0)
    }

    /// Goes on with the heaps of the process.
    pub fn resume(self, count: u32, heaps: [usize; MAX_PROCESS_HEAPS]) -> (next: Recording)
        ensures
            next == self.after(count, heaps),
    {
        owning_heap(self.ptr, heaps, count as usize, 0)
    }
}

impl ValidateOwner {
    /// What follows when the heap has answered.
    pub open spec fn after(self, answer: i32) -> Recording {
        if answer != FALSE {
            Recording::QueryPointer(QueryPointer { ptr: self.ptr, owner: Some(self.heap) })
        } else {
            owner_search(self.ptr, self.heaps, self.listed, self.next)
        }
    }

    /// Goes on with the answer of the heap, which is `FALSE` where it does not own the pointer.
    pub fn resume(self, answer: i32) -> (next: Recording)
        ensures
            next == self.after(answer),
    {
        if answer != FALSE {
            Recording::QueryPointer(QueryPointer { ptr: self.ptr, owner: Some(self.heap) })
        } else {
            owning_heap(self.ptr, self.heaps, self.listed, self.next)
        }
    }
}

impl QueryPointer {
    /// What follows when the query has filled in `written` bytes of `region`.
    pub open spec fn after(self, written: usize, region: Region) -> Recording {
        Recording::Record(
            ForeignPointer {
                ptr: self.ptr,
                owner: self.owner,
                region: queried(written, region),
            },
        )
    }

    /// Ends with what was found out.
    pub fn resume(self, written: usize, region: Region) -> (next: Recording)
        ensures
            next == self.after(written, region),
    {
        Recording::Record(
            ForeignPointer { ptr: self.ptr, owner: self.owner, region: query(written, region) },
        )
    }
}

} // verus!
