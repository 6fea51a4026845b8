use servo_allocator::config::{is_tracking_unmeasured, Build, Platform};

fn build(windows: bool, ohos: bool, use_jemalloc: bool, allocation_tracking: bool) -> Build {
    Build {
        windows,
        ohos,
        apple: false,
        use_jemalloc,
        allocation_tracking,
    }
}

#[test]
fn platform_of_every_build() {
    assert_eq!(build(false, false, true, false).platform(), Platform::Jemalloc);
    assert_eq!(build(false, false, false, false).platform(), Platform::System);
    assert_eq!(build(false, true, true, false).platform(), Platform::System);
    assert_eq!(build(false, true, false, false).platform(), Platform::System);
    assert_eq!(build(true, false, true, false).platform(), Platform::Windows);
    assert_eq!(build(true, false, false, false).platform(), Platform::Windows);
    assert_eq!(build(true, true, true, true).platform(), Platform::Windows);
}

#[test]
fn tracking_is_a_property_of_the_build() {
    assert!(is_tracking_unmeasured(build(false, false, true, true)));
    assert!(!is_tracking_unmeasured(build(true, false, true, false)));
}
