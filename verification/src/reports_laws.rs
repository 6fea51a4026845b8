//! What holds of every making of heap reports.
use crate::config::Build;
use crate::reports::{jemalloc_reports, starts, HeapReport, RefreshEpoch, Reports};
use crate::reports::{Sizes, Stage, Stat};
use vstd::prelude::*;

verus! {

/// The answer to a control operation.
pub enum Answer {
    Refreshed { status: i32 },
    Value { status: i32, value: usize },
}

/// What `stage` is resumed to by `answer`.
pub open spec fn advance(stage: Stage, answer: Answer) -> Stage {
    match (stage, answer) {
        (Stage::Refresh(s), Answer::Refreshed { status }) => s.after(status),
        (Stage::Read(s), Answer::Value { status, value }) => s.after(status, value),
        _ => stage,
    }
}

/// Where the making of reports that began as `first` stands after `trace`.
pub open spec fn follow(first: Stage, trace: Seq<Answer>) -> Stage
    decreases trace.len(),
{
    if trace.len() == 0 {
        first
    } else {
        advance(follow(first, trace.drop_last()), trace.last())
    }
}

/// Whether `answer` answers what `stage` asks for.
pub open spec fn answers(stage: Stage, answer: Answer) -> bool {
    match stage {
        Stage::Refresh(_) => answer is Refreshed,
        Stage::Read(_) => answer is Value,
        Stage::Done(_) => false,
    }
}

/// Without a refresh, jemalloc gives statistics of an earlier time. So a statistic is asked for
/// only right after a refresh that was made for it and that succeeded.
pub proof fn law_statistics_are_fresh(build: Build, first: Reports, trace: Seq<Answer>)
    requires
        starts(build, first@),
        fits(first@, trace),
    ensures
        follow(first@, trace) matches Stage::Read(read) ==> trace.len() > 0 && trace.last() == (
        Answer::Refreshed { status: 0 }) && follow(first@, trace.drop_last()) == Stage::Refresh(
            RefreshEpoch { stat: read.stat, epoch: 0, sizes: read.sizes },
        ),
{
    if trace.len() > 0 {
        lemma_epoch(build, first@, trace.drop_last());
    }
}

/// Whether the epoch that `stage` writes, if any, is zero.
spec fn writes_zero(stage: Stage) -> bool {
    stage matches Stage::Refresh(s) ==> s.epoch == 0
}

proof fn lemma_epoch(build: Build, first: Stage, trace: Seq<Answer>)
    requires
        starts(build, first),
    ensures
        writes_zero(follow(first, trace)),
    decreases trace.len(),
{
    if trace.len() > 0 {
        lemma_epoch(build, first, trace.drop_last());
    }
}

/// Whether each answer of `trace` answers what was asked for at that point.
pub open spec fn fits(first: Stage, trace: Seq<Answer>) -> bool
    decreases trace.len(),
{
    trace.len() == 0 || {
        &&& fits(first, trace.drop_last())
        &&& answers(follow(first, trace.drop_last()), trace.last())
    }
}

/// How many more things `stage` may ask for.
spec fn questions_left(stage: Stage) -> nat {
    match stage {
        Stage::Refresh(s) => stats_left(s.stat) * 2,
        Stage::Read(s) => (stats_left(s.stat) * 2 - 1) as nat,
        Stage::Done(_) => 0,
    }
}

/// How many statistics there are from `stat` on.
spec fn stats_left(stat: Stat) -> nat {
    match stat {
        Stat::Allocated => 3,
        Stat::Active => 2,
        Stat::Mapped => 1,
    }
}

/// Whatever the answers are, the making of reports asks for at most six things, two for each
/// statistic; once it has asked for six, it is done.
pub proof fn law_reports_end(first: Reports, trace: Seq<Answer>)
    requires
        fits(first@, trace),
    ensures
        trace.len() <= 6,
        trace.len() == 6 ==> follow(first@, trace) is Done,
{
    lemma_questions(first@, trace);
}

proof fn lemma_questions(first: Stage, trace: Seq<Answer>)
    requires
        fits(first, trace),
    ensures
        questions_left(follow(first, trace)) + trace.len() <= 6,
    decreases trace.len(),
{
    if trace.len() > 0 {
        lemma_questions(first, trace.drop_last());
    }
}

/// jemalloc's control interface, as far as reports can see it.
pub struct Controls {
    /// The status of the refresh that is made for a statistic.
    pub refresh: spec_fn(Stat) -> i32,
    /// The status and the value of reading a statistic.
    pub read: spec_fn(Stat) -> (i32, usize),
}

impl Controls {
    /// What can be found out about a statistic: nothing, unless both operations succeed.
    pub open spec fn size(self, stat: Stat) -> Option<usize> {
        if (self.refresh)(stat) == 0 && (self.read)(stat).0 == 0 {
            Some((self.read)(stat).1)
        } else {
            None
        }
    }

    /// The reports that come of it.
    pub open spec fn reports(self, build: Build) -> Seq<HeapReport> {
        if build.selects_jemalloc() {
            jemalloc_reports(
                Sizes {
                    allocated: self.size(Stat::Allocated),
                    active: self.size(Stat::Active),
                    mapped: self.size(Stat::Mapped),
                },
            )
        } else {
            Seq::empty()
        }
    }

    /// The making of reports, resumed with what these controls answer.
    pub open spec fn step(self, stage: Stage) -> Stage {
        match stage {
            Stage::Refresh(s) => s.after((self.refresh)(s.stat)),
            Stage::Read(s) => s.after((self.read)(s.stat).0, (self.read)(s.stat).1),
            Stage::Done(_) => stage,
        }
    }

    /// The making of reports, resumed up to `steps` times.
    pub open spec fn run(self, stage: Stage, steps: nat) -> Stage
        decreases steps,
    {
        if steps == 0 {
            stage
        } else {
            self.run(self.step(stage), (steps - 1) as nat)
        }
    }
}

/// With jemalloc there are three reports, each with the figure of its statistic, or without one if
/// the statistic could not be refreshed or read; otherwise there is no report.
pub proof fn law_reports(controls: Controls, build: Build, first: Reports)
    requires
        starts(build, first@),
    ensures
        controls.run(first@, 6) == Stage::Done(controls.reports(build)),
{
    reveal_with_fuel(Controls::run, 7);
}

/// Where jemalloc serves the build there are three reports: on what is allocated, what is active and
/// what is mapped, under fixed paths and in this order. The figure of each is the value that was
/// read for its own statistic, exactly, if that statistic could be refreshed and read, and there is
/// none if not; the other statistics have no part in it.
pub proof fn law_each_report_has_its_own_statistic(
    controls: Controls,
    build: Build,
    first: Reports,
)
    requires
        starts(build, first@),
        build.use_jemalloc,
        !build.windows,
        !build.ohos,
    ensures
        controls.run(first@, 6) matches Stage::Done(reports) && {
            &&& reports.len() == 3
            &&& reports[0].path@ == "jemalloc-heap-allocated"@
            &&& reports[1].path@ == "jemalloc-heap-active"@
            &&& reports[2].path@ == "jemalloc-heap-mapped"@
            &&& (controls.refresh)(Stat::Allocated) == 0 && (controls.read)(Stat::Allocated).0 == 0
                ==> reports[0].size == Some((controls.read)(Stat::Allocated).1)
            &&& (controls.refresh)(Stat::Allocated) != 0 || (controls.read)(Stat::Allocated).0 != 0
                ==> reports[0].size is None
            &&& (controls.refresh)(Stat::Active) == 0 && (controls.read)(Stat::Active).0 == 0
                ==> reports[1].size == Some((controls.read)(Stat::Active).1)
            &&& (controls.refresh)(Stat::Active) != 0 || (controls.read)(Stat::Active).0 != 0
                ==> reports[1].size is None
            &&& (controls.refresh)(Stat::Mapped) == 0 && (controls.read)(Stat::Mapped).0 == 0
                ==> reports[2].size == Some((controls.read)(Stat::Mapped).1)
            &&& (controls.refresh)(Stat::Mapped) != 0 || (controls.read)(Stat::Mapped).0 != 0
                ==> reports[2].size is None
        },
{
    law_reports(controls, build, first);
}

/// Where jemalloc does not serve the build, there is no report, and nothing is asked.
pub proof fn law_no_reports_without_jemalloc(build: Build, first: Reports)
    requires
        starts(build, first@),
        build.windows || build.ohos || !build.use_jemalloc,
    ensures
        first@ matches Stage::Done(reports) && reports.len() == 0,
{
}

} // verus!
