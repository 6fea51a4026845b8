use servo_allocator::config::Build;
use servo_allocator::foreign::{
    record_foreign_pointer, take_foreign_pointers, ForeignPointer, ForeignPointers, Recording,
    MAX_FOREIGN_POINTERS, MAX_PROCESS_HEAPS,
};
use servo_allocator::region::{Region, FALSE};

fn build(windows: bool) -> Build {
    Build {
        windows,
        ohos: false,
        apple: false,
        use_jemalloc: false,
        allocation_tracking: false,
    }
}

fn unmapped(ptr: usize) -> ForeignPointer {
    ForeignPointer {
        ptr,
        owner: None,
        region: None,
    }
}

const REGION: Region = Region {
    allocation_base: 0x7f00_0000,
    region_size: 0x2000,
    state: 0x1000,
    kind: 0x2_0000,
    protect: 4,
};

/// Records `ptr` in a process that lists `heaps`, of which `owner` owns it.
fn record(
    count: u32,
    heaps: [usize; MAX_PROCESS_HEAPS],
    owner: Option<usize>,
    written: usize,
    ptr: usize,
) -> (ForeignPointer, Vec<usize>) {
    let empty = ForeignPointers::new();
    let mut asked = Vec::new();
    let mut m = record_foreign_pointer(Some(&empty), ptr);
    loop {
        m = match m {
            Recording::ListHeaps(s) => {
                assert_eq!(s.ptr, ptr);
                s.resume(count, heaps)
            },
            Recording::ValidateOwner(s) => {
                assert_eq!(s.ptr, ptr);
                asked.push(s.heap);
                s.resume(if owner == Some(s.heap) { 1 } else { FALSE })
            },
            Recording::QueryPointer(s) => {
                assert_eq!(s.ptr, ptr);
                s.resume(written, REGION)
            },
            Recording::Skip => panic!("skipped"),
            Recording::Record(found) => return (found, asked),
        };
    }
}

fn numbered() -> [usize; MAX_PROCESS_HEAPS] {
    let mut heaps = [0; MAX_PROCESS_HEAPS];
    for (i, heap) in heaps.iter_mut().enumerate() {
        *heap = 0x1_0000 * (i + 1);
    }
    heaps
}

#[test]
fn unmapped_pointer_is_described() {
    assert_eq!(unmapped(0x1234_5678_9000).describe(), "0x123456789000: unmapped, no heap");
    assert_eq!(unmapped(0).describe(), "0x0: unmapped, no heap");
}

#[test]
fn mapped_pointer_is_described() {
    let pointer = ForeignPointer {
        ptr: 0xdead_beef,
        owner: Some(0x5a0_0000),
        region: Some(REGION),
    };
    assert_eq!(
        pointer.describe(),
        "0xdeadbeef: base=0x7f000000 region=0x2000 state=0x1000 type=0x20000 protect=0x4, \
         heap 0x5a00000"
    );
}

#[test]
fn numbers_are_written_as_the_standard_library_writes_them() {
    for n in [0, 1, 9, 10, 15, 16, 17, 255, 256, 0xabc_def0, usize::MAX] {
        assert_eq!(
            ForeignPointer {
                ptr: n,
                owner: Some(n),
                region: None,
            }
            .describe(),
            format!("{n:#x}: unmapped, heap {n:#x}")
        );
    }
}

#[test]
fn owner_is_the_first_heap_that_owns_the_pointer() {
    let heaps = numbered();
    let (found, asked) = record(5, heaps, Some(heaps[2]), 0, 0x9000);
    assert_eq!(found.ptr, 0x9000);
    assert_eq!(found.owner, Some(heaps[2]));
    assert_eq!(found.region, None);
    assert_eq!(asked, heaps[..3].to_vec());
}

#[test]
fn only_listed_heaps_are_asked() {
    let heaps = numbered();
    let (found, asked) = record(2, heaps, Some(heaps[2]), 48, 0x9000);
    assert_eq!(found.owner, None);
    assert_eq!(found.region, Some(REGION));
    assert_eq!(asked, heaps[..2].to_vec());

    let (found, asked) = record(0, heaps, Some(heaps[0]), 48, 0x9000);
    assert_eq!(found.owner, None);
    assert!(asked.is_empty());
}

#[test]
fn heaps_beyond_the_limit_are_not_asked() {
    let heaps = numbered();
    let (found, asked) = record(1000, heaps, None, 48, 0x9000);
    assert_eq!(found.owner, None);
    assert_eq!(asked, heaps.to_vec());
    assert_eq!(MAX_PROCESS_HEAPS, 32);
}

#[test]
fn first_pointers_are_kept_in_order() {
    let mut record = ForeignPointers::new();
    for ptr in 0..40 {
        assert_eq!(record.is_full(), ptr >= 32);
        record.record(unmapped(ptr));
    }
    let taken = take_foreign_pointers(build(true), &mut record);
    assert_eq!(MAX_FOREIGN_POINTERS, 32);
    assert_eq!(taken.len(), 32);
    for (ptr, line) in taken.iter().enumerate() {
        assert_eq!(*line, format!("{ptr:#x}: unmapped, no heap"));
    }
}

#[test]
fn taking_starts_over() {
    let mut record = ForeignPointers::new();
    record.record(unmapped(1));
    assert_eq!(take_foreign_pointers(build(true), &mut record), vec!["0x1: unmapped, no heap"]);
    assert!(take_foreign_pointers(build(true), &mut record).is_empty());
    record.record(unmapped(2));
    assert_eq!(take_foreign_pointers(build(true), &mut record), vec!["0x2: unmapped, no heap"]);
}

#[test]
fn nothing_is_taken_elsewhere() {
    let mut record = ForeignPointers::new();
    record.record(unmapped(1));
    assert!(take_foreign_pointers(build(false), &mut record).is_empty());
    assert_eq!(take_foreign_pointers(build(true), &mut record).len(), 1);
}

#[test]
fn full_or_unlocked_record_skips() {
    let mut record = ForeignPointers::new();
    assert_eq!(record_foreign_pointer(None, 8), Recording::Skip);
    for ptr in 0..31 {
        record.record(unmapped(ptr));
    }
    assert!(matches!(record_foreign_pointer(Some(&record), 8), Recording::ListHeaps(_)));
    record.record(unmapped(31));
    assert_eq!(record_foreign_pointer(Some(&record), 8), Recording::Skip);
}
