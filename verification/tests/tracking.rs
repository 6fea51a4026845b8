use servo_allocator::config::Build;
use servo_allocator::tracking::{
    disable_unmeasured_tracking, dump_unmeasured, enclosing_size, enclosing_size_impl, FollowUp,
    Measured, TrackerCall,
};

fn build(allocation_tracking: bool) -> Build {
    Build {
        windows: false,
        ohos: false,
        apple: false,
        use_jemalloc: true,
        allocation_tracking,
    }
}

#[test]
fn the_tracker_is_called_only_with_tracking() {
    assert_eq!(dump_unmeasured(build(true)), Some(TrackerCall::DumpUnmeasured));
    assert_eq!(dump_unmeasured(build(false)), None);
    assert_eq!(disable_unmeasured_tracking(build(true)), Some(TrackerCall::Disable));
    assert_eq!(disable_unmeasured_tracking(build(false)), None);
    assert_eq!(
        enclosing_size(build(true), 0x5008),
        Some(TrackerCall::EnclosingSize { ptr: 0x5008 })
    );
    assert_eq!(enclosing_size(build(false), 0x5008), None);
}

#[test]
fn enclosing_allocation_is_noted() {
    assert_eq!(
        enclosing_size_impl(0x5000, 96),
        Measured {
            size: 96,
            follow_up: FollowUp::NoteAllocation { ptr: 0x5000, size: 96 },
        }
    );
}

#[test]
fn missing_allocation_is_not_noted() {
    assert_eq!(
        enclosing_size_impl(0x5000, 0),
        Measured {
            size: 0,
            follow_up: FollowUp::Nothing,
        }
    );
}
