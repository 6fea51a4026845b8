use servo_allocator::config::Build;
use servo_allocator::reports::{heap_reports, HeapReport, Reports, Stat};

fn build(windows: bool, ohos: bool, use_jemalloc: bool) -> Build {
    Build {
        windows,
        ohos,
        apple: false,
        use_jemalloc,
        allocation_tracking: false,
    }
}

fn report(path: &'static str, size: Option<usize>) -> HeapReport {
    HeapReport { path, size }
}

/// Makes reports with controls of which those in `broken` fail, and lists the operations.
fn reports(broken: &[&str]) -> (Vec<HeapReport>, Vec<String>) {
    let mut operations = Vec::new();
    let mut m = heap_reports(build(false, false, true));
    loop {
        m = match m {
            Reports::Refresh(s) => {
                assert_eq!(s.epoch, 0);
                let stat = format!("{:?}", s.stat);
                operations.push(format!("{} for {stat}", s.name()));
                s.resume(if broken.contains(&stat.as_str()) { 22 } else { 0 })
            },
            Reports::Read(s) => {
                operations.push(s.name().to_string());
                let value = match s.stat {
                    Stat::Allocated => 100,
                    Stat::Active => 200,
                    Stat::Mapped => 300,
                };
                s.resume(if broken.contains(&s.name()) { 2 } else { 0 }, value)
            },
            Reports::Done(reports) => return (reports, operations),
        };
    }
}

#[test]
fn jemalloc_reports_three_figures() {
    let (reports, operations) = reports(&[]);
    assert_eq!(
        reports,
        vec![
            report("jemalloc-heap-allocated", Some(100)),
            report("jemalloc-heap-active", Some(200)),
            report("jemalloc-heap-mapped", Some(300)),
        ]
    );
    assert_eq!(
        operations,
        vec![
            "epoch for Allocated",
            "stats.allocated",
            "epoch for Active",
            "stats.active",
            "epoch for Mapped",
            "stats.mapped",
        ]
    );
}

#[test]
fn statistic_that_cannot_be_read_has_no_figure() {
    let (reports, _) = reports(&["stats.active"]);
    assert_eq!(
        reports,
        vec![
            report("jemalloc-heap-allocated", Some(100)),
            report("jemalloc-heap-active", None),
            report("jemalloc-heap-mapped", Some(300)),
        ]
    );
}

#[test]
fn statistic_that_cannot_be_refreshed_is_not_read() {
    let (reports, operations) = reports(&["Allocated", "Mapped"]);
    assert_eq!(
        reports,
        vec![
            report("jemalloc-heap-allocated", None),
            report("jemalloc-heap-active", Some(200)),
            report("jemalloc-heap-mapped", None),
        ]
    );
    assert_eq!(
        operations,
        vec!["epoch for Allocated", "epoch for Active", "stats.active", "epoch for Mapped"]
    );
}

#[test]
fn other_platforms_report_nothing() {
    for build in [
        build(true, false, true),
        build(true, false, false),
        build(false, true, true),
        build(false, false, false),
    ] {
        match heap_reports(build) {
            Reports::Done(reports) => assert!(reports.is_empty()),
            other => panic!("{other:?}"),
        }
    }
}
