use servo_allocator::address::{is_carved, natural_alignment, Address, MIN_ALIGN, WORD};
use servo_allocator::region::{
    is_readable, query, Region, FALSE, MEM_COMMIT, PAGE_GUARD, PAGE_NOACCESS,
};
use windows_sys::Win32::Foundation;
use windows_sys::Win32::System::Memory;

fn region(state: u32, protect: u32) -> Region {
    Region {
        allocation_base: 0x1_0000,
        region_size: 0x1000,
        state,
        kind: 0x2_0000,
        protect,
    }
}

#[test]
fn word_is_the_size_of_a_pointer() {
    assert_eq!(WORD, size_of::<usize>());
    assert_eq!(MIN_ALIGN, 2 * size_of::<usize>());
}

#[test]
fn constants_are_those_of_the_system() {
    assert_eq!(FALSE, Foundation::FALSE);
    assert_eq!(MEM_COMMIT, Memory::MEM_COMMIT);
    assert_eq!(PAGE_NOACCESS, Memory::PAGE_NOACCESS);
    assert_eq!(PAGE_GUARD, Memory::PAGE_GUARD);
}

#[test]
fn null_is_no_address() {
    assert_eq!(Address::new(0), None);
    assert_eq!(Address::new(7).map(Address::get), Some(7));
}

#[test]
fn alignment_is_the_largest_dividing_power_of_two() {
    assert_eq!(natural_alignment(1), 1);
    assert_eq!(natural_alignment(96), 32);
    assert_eq!(natural_alignment(0x1_0000), 0x1_0000);
    assert_eq!(natural_alignment(usize::MAX), 1);
    assert_eq!(natural_alignment(1 << (usize::BITS - 1)), 1 << (usize::BITS - 1));
    for n in 1..2000usize {
        let align = natural_alignment(n);
        assert!(align.is_power_of_two());
        assert_eq!(n % align, 0);
        assert_ne!(n % (2 * align), 0);
    }
}

#[test]
fn base_lies_between_one_word_and_one_alignment_before_the_word() {
    let ptr = Address::new(0x1_0040).unwrap();
    assert!(!is_carved(ptr, 0x1_0040));
    assert!(!is_carved(ptr, 0x1_0040 - WORD + 1));
    assert!(is_carved(ptr, 0x1_0040 - WORD));
    assert!(is_carved(ptr, 0x1_0000));
    assert!(is_carved(ptr, 0x1_0040 - 64 - WORD + 1));
    assert!(!is_carved(ptr, 0x1_0040 - 64 - WORD));
    assert!(!is_carved(ptr, 0x1_0041));

    let top = Address::new(1 << (usize::BITS - 1)).unwrap();
    assert!(is_carved(top, 0));
}

#[test]
fn failed_query_tells_nothing() {
    let committed = region(MEM_COMMIT, 4);
    assert_eq!(query(0, committed), None);
    assert_eq!(query(48, committed), Some(committed));
}

#[test]
fn committed_memory_without_traps_is_readable() {
    assert!(is_readable(Some(region(MEM_COMMIT, 4))));
    assert!(is_readable(Some(region(MEM_COMMIT, 2))));
    assert!(!is_readable(None));
    assert!(!is_readable(Some(region(0x2000, 4))));
    assert!(!is_readable(Some(region(0x1_0000, PAGE_NOACCESS))));
    assert!(!is_readable(Some(region(MEM_COMMIT, PAGE_NOACCESS))));
    assert!(!is_readable(Some(region(MEM_COMMIT, 4 | PAGE_GUARD))));
    assert!(!is_readable(Some(region(MEM_COMMIT, PAGE_NOACCESS | PAGE_GUARD))));
}
