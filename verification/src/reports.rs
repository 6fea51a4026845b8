//! Reports on the heap as a whole.
//!
//! jemalloc keeps statistics on its heap, which are read through its control interface. Reading
//! them asks for one control operation at a time.
use crate::config::{Build, Platform};
use vstd::prelude::*;

verus! {

/// A figure about the heap, under the path by which a memory report shows it.
#[derive(Clone, Copy, Debug, PartialEq, Eq)]
pub struct HeapReport {
    pub path: &'static str,
    /// The figure in bytes, where it could be found out.
    pub size: Option<usize>,
}

/// A statistic of jemalloc.
#[derive(Clone, Copy, Debug, PartialEq, Eq, Structural)]
pub enum Stat {
    /// Bytes allocated by the program.
    Allocated,
    /// Bytes in pages that are in use.
    Active,
    /// Bytes in pages that are mapped.
    Mapped,
}

/// The statistics that have been read so far.
#[derive(Clone, Copy, Debug, PartialEq, Eq, Structural)]
pub struct Sizes {
    pub allocated: Option<usize>,
    pub active: Option<usize>,
    pub mapped: Option<usize>,
}

/// Asks to have the statistics refreshed, by reading and writing the control `epoch`: without that
/// they are those of an earlier time.
#[derive(Clone, Copy, Debug, PartialEq, Eq)]
pub struct RefreshEpoch {
    /// The statistic that is read next.
    pub stat: Stat,
    /// The value to write. Any value refreshes the statistics.
    pub epoch: u64,
    pub sizes: Sizes,
}

/// Asks for the value of a statistic.
#[derive(Clone, Copy, Debug, PartialEq, Eq)]
pub struct ReadStat {
    pub stat: Stat,
    pub sizes: Sizes,
}

/// The making of heap reports: what it asks for next, or how it ended.
#[derive(Debug)]
pub enum Reports {
    Refresh(RefreshEpoch),
    Read(ReadStat),
    Done(Vec<HeapReport>),
}

/// [`Reports`], with the reports as a sequence.
pub enum Stage {
    Refresh(RefreshEpoch),
    Read(ReadStat),
    Done(Seq<HeapReport>),
}

impl View for Reports {
    type V = Stage;

    open spec fn view(&self) -> Stage {
        match *self {
            Reports::Refresh(s) => Stage::Refresh(s),
            Reports::Read(s) => Stage::Read(s),
            Reports::Done(reports) => Stage::Done(reports@),
        }
    }
}

/// No statistic has been read.
pub open spec fn no_sizes() -> Sizes {
    Sizes { allocated: None, active: None, mapped: None }
}

/// The statistics, with `size` for `stat`.
pub open spec fn with_size(sizes: Sizes, stat: Stat, size: Option<usize>) -> Sizes {
    match stat {
        Stat::Allocated => Sizes { allocated: size, ..sizes },
        Stat::Active => Sizes { active: size, ..sizes },
        Stat::Mapped => Sizes { mapped: size, ..sizes },
    }
}

/// The reports on jemalloc's heap.
pub open spec fn jemalloc_reports(sizes: Sizes) -> Seq<HeapReport> {
    seq![
        HeapReport { path: "jemalloc-heap-allocated", size: sizes.allocated },
        HeapReport { path: "jemalloc-heap-active", size: sizes.active },
        HeapReport { path: "jemalloc-heap-mapped", size: sizes.mapped },
    ]
}

/// How the reading of `stat` begins.
pub open spec fn stat_reading(stat: Stat, sizes: Sizes) -> Stage {
    Stage::Refresh(RefreshEpoch { stat, epoch: 0, sizes })
}

/// What follows when `size` has been read for `stat`, or could not be read.
pub open spec fn after_stat(stat: Stat, sizes: Sizes, size: Option<usize>) -> Stage {
    match stat {
        Stat::Allocated => stat_reading(Stat::Active, with_size(sizes, stat, size)),
        Stat::Active => stat_reading(Stat::Mapped, with_size(sizes, stat, size)),
        Stat::Mapped => Stage::Done(jemalloc_reports(with_size(sizes, stat, size))),
    }
}

/// Whether `first` is how the making of reports begins: with the first statistic of jemalloc, and
/// without jemalloc at the end.
pub open spec fn starts(build: Build, first: Stage) -> bool {
    if build.selects_jemalloc() {
        first == stat_reading(Stat::Allocated, no_sizes())
    } else {
        first == Stage::Done(Seq::<HeapReport>::empty())
    }
}

/// Reports on the heap of a build. Only jemalloc has anything to report.
pub fn heap_reports(build: Build) -> (first: Reports)
    ensures
        starts(build, first@),
        build.windows || build.ohos || !build.use_jemalloc ==> (first matches Reports::Done(reports)
            && reports@.len() == 0),
        build.use_jemalloc && !build.windows && !build.ohos ==> first is Refresh,
{
    match build.platform() {
        Platform::Jemalloc => jemalloc_stat(
            Stat::Allocated,
            Sizes { allocated: None, active: None, mapped: None },
        ),
        Platform::System => Reports::Done(Vec::new()),
        Platform::Windows => Reports::Done(Vec::new()),
    }
}

/// Begins to read a statistic, by having the statistics refreshed.
pub fn jemalloc_stat(stat: Stat, sizes: Sizes) -> (next: Reports)
    ensures
        next@ == stat_reading(stat, sizes),
{
    Reports::Refresh(RefreshEpoch { stat, epoch: 0, sizes })
}

/// Goes on to the next statistic, or to the reports, with what was read.
fn stat_read(stat: Stat, sizes: Sizes, size: Option<usize>) -> (next: Reports)
    ensures
        next@ == after_stat(stat, sizes, size),
{
    match stat {
        Stat::Allocated => jemalloc_stat(Stat::Active, Sizes { allocated: size, ..sizes }),
        Stat::Active => jemalloc_stat(Stat::Mapped, Sizes { active: size, ..sizes }),
        Stat::Mapped => {
            let reports = vec![
                HeapReport { path: "jemalloc-heap-allocated", size: sizes.allocated },
                HeapReport { path: "jemalloc-heap-active", size: sizes.active },
                HeapReport { path: "jemalloc-heap-mapped", size },
            ];
            assert(reports@ =~= jemalloc_reports(with_size(sizes, stat, size)));
            Reports::Done(reports)
        },
    }
}

impl RefreshEpoch {
    /// The name of the control to read and write.
    pub fn name(&self) -> (name: &'static str)
        ensures
            name@ == "epoch"@,
    {
        "epoch"
    }

    /// What follows when the operation has returned `status`.
    pub open spec fn after(self, status: i32) -> Stage {
        if status == 0 {
            Stage::Read(ReadStat { stat: self.stat, sizes: self.sizes })
        } else {
            after_stat(self.stat, self.sizes, None)
        }
    }

    /// Goes on with the status of the operation, which is zero if it succeeded. Without refreshed
    /// statistics the size stays unknown.
    pub fn resume(self, status: i32) -> (next: Reports)
        ensures
            next@ == self.after(status),
    {
        if status != 0 {
            return stat_read(self.stat, self.sizes, None);
        }
        Reports::Read(ReadStat { stat: self.stat, sizes: self.sizes })
    }
}

/// The name of the control that holds a statistic.
pub open spec fn stat_name(stat: Stat) -> Seq<char> {
    match stat {
        Stat::Allocated => "stats.allocated"@,
        Stat::Active => "stats.active"@,
        Stat::Mapped => "stats.mapped"@,
    }
}

impl ReadStat {
    /// The name of the control to read.
    pub fn name(&self) -> (name: &'static str)
        ensures
            name@ == stat_name(self.stat),
            self.stat == Stat::Allocated ==> name@ == "stats.allocated"@,
            self.stat == Stat::Active ==> name@ == "stats.active"@,
            self.stat == Stat::Mapped ==> name@ == "stats.mapped"@,
    {
        match self.stat {
            Stat::Allocated => "stats.allocated",
            Stat::Active => "stats.active",
            Stat::Mapped => "stats.mapped",
        }
    }

    /// What follows when the operation has returned `status` and read `value`.
    pub open spec fn after(self, status: i32, value: usize) -> Stage {
        after_stat(
            self.stat,
            self.sizes,
            if status == 0 {
                Some(value)
            } else {
                None
            },
        )
    }

    /// Goes on with the status of the operation, which is zero if it succeeded, and the value.
    pub fn resume(self, status: i32, value: usize) -> (next: Reports)
        ensures
            next@ == self.after(status, value),
    {
        if status != 0 {
            return stat_read(self.stat, self.sizes, None);
        }
        stat_read(self.stat, self.sizes, Some(value))
    }
}

} // verus!
