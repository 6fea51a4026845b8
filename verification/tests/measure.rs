use std::collections::HashMap;

use servo_allocator::address::{MIN_ALIGN, WORD};
use servo_allocator::config::Build;
use servo_allocator::measure::{usable_size, Measurement, NativeSize};
use servo_allocator::region::{Region, FALSE, MEM_COMMIT, PAGE_GUARD, PAGE_NOACCESS};
use servo_allocator::tracking::{FollowUp, Measured};

const BLOCK_SIZE: usize = 64;
const STATIC_DATA: &[u8; 64] = &[7; 64];
const PAGE_READWRITE: u32 = 4;
const HEAP: usize = 0x77_0000;

fn windows(allocation_tracking: bool) -> Build {
    Build {
        windows: true,
        ohos: false,
        apple: false,
        use_jemalloc: false,
        allocation_tracking,
    }
}

fn elsewhere(use_jemalloc: bool, apple: bool, allocation_tracking: bool) -> Build {
    Build {
        windows: false,
        ohos: false,
        apple,
        use_jemalloc,
        allocation_tracking,
    }
}

/// A process heap and the memory around it.
struct Process {
    disabled: bool,
    blocks: HashMap<usize, usize>,
    words: HashMap<usize, usize>,
    state: u32,
    protect: u32,
    validated: Vec<usize>,
    read: Vec<usize>,
}

impl Process {
    fn new() -> Process {
        Process {
            disabled: false,
            blocks: HashMap::new(),
            words: HashMap::new(),
            state: MEM_COMMIT,
            protect: PAGE_READWRITE,
            validated: Vec::new(),
            read: Vec::new(),
        }
    }

    /// Allocates as the system allocator does for an alignment beyond `MIN_ALIGN`.
    fn carve(&mut self, base: usize, size: usize, align: usize) -> usize {
        self.blocks.insert(base, size + align);
        let ptr = base + (align - base % align);
        self.words.insert(ptr - WORD, base);
        ptr
    }

    fn validate(&mut self, heap: usize, block: usize) -> i32 {
        assert_eq!(heap, HEAP);
        self.validated.push(block);
        if self.blocks.contains_key(&block) {
            1
        } else {
            FALSE
        }
    }

    fn measure(&mut self, build: Build, ptr: usize) -> Measured {
        let mut m = usable_size(build, ptr);
        loop {
            m = match m {
                Measurement::ReadSwitch(s) => s.resume(self.disabled),
                Measurement::FindHeap(s) => s.resume(HEAP),
                Measurement::ValidatePointer(s) => s.resume(self.validate(s.heap, s.ptr.get())),
                Measurement::QuerySlot(s) => {
                    let region = Region {
                        allocation_base: 0,
                        region_size: 0,
                        state: self.state,
                        kind: 0,
                        protect: self.protect,
                    };
                    s.resume(if self.words.contains_key(&s.slot) { 48 } else { 0 }, region)
                },
                Measurement::ReadSlot(s) => {
                    self.read.push(s.slot);
                    s.resume(self.words[&s.slot])
                },
                Measurement::ValidateBase(s) => s.resume(self.validate(s.heap, s.base)),
                Measurement::SizeBlock(s) => {
                    assert_eq!(s.heap, HEAP);
                    s.resume(self.blocks[&s.block])
                },
                Measurement::SizeNative(_) => panic!("asked for a native size"),
                Measurement::Done(measured) => return measured,
            };
        }
    }

    fn size(&mut self, ptr: usize) -> usize {
        self.measure(windows(false), ptr).size
    }
}

fn foreign(ptr: usize) -> Measured {
    Measured {
        size: 0,
        follow_up: FollowUp::RecordForeign { ptr },
    }
}

fn nothing() -> Measured {
    Measured {
        size: 0,
        follow_up: FollowUp::Nothing,
    }
}

#[test]
fn heap_block_measures_its_size() {
    let block = Box::new([0u8; BLOCK_SIZE]);
    let ptr = block.as_ptr() as usize;
    let mut process = Process::new();
    process.blocks.insert(ptr, BLOCK_SIZE);
    let size = process.size(ptr);
    assert!(size >= BLOCK_SIZE, "measured {size} bytes");
}

#[test]
fn over_aligned_heap_block_measures_its_size() {
    let mut process = Process::new();
    let ptr = process.carve(0x1_0010, BLOCK_SIZE, 64);
    assert_eq!(ptr % 64, 0);
    let size = process.size(ptr);
    assert!(size >= BLOCK_SIZE, "measured {size} bytes");
}

#[test]
fn static_memory_measures_zero() {
    let mut process = Process::new();
    assert_eq!(process.size(STATIC_DATA.as_ptr() as usize), 0);
}

#[test]
fn stack_memory_measures_zero() {
    let on_stack = [0u8; BLOCK_SIZE];
    let mut process = Process::new();
    assert_eq!(process.size(on_stack.as_ptr() as usize), 0);
}

#[test]
fn reserved_pages_measure_zero() {
    let pages = 0x20_0000;
    let mut process = Process::new();
    process.blocks.insert(0, 4096);
    process.words.insert(pages - WORD, 0);
    assert_eq!(process.size(pages), 0);
}

#[test]
fn null_measures_zero() {
    assert_eq!(usable_size(windows(false), 0), Measurement::Done(nothing()));
    assert_eq!(usable_size(windows(true), 0), Measurement::Done(nothing()));
}

#[test]
fn owned_block_is_sized_exactly_and_noted_with_tracking() {
    let mut process = Process::new();
    process.blocks.insert(0x5008, 72);
    assert_eq!(
        process.measure(windows(true), 0x5008),
        Measured {
            size: 72,
            follow_up: FollowUp::NoteAllocation { ptr: 0x5008, size: 72 },
        }
    );
    assert_eq!(
        process.measure(windows(false), 0x5008),
        Measured {
            size: 72,
            follow_up: FollowUp::Nothing,
        }
    );
}

#[test]
fn carved_block_is_noted_under_its_base() {
    for base in [0x1_0000, 0x1_0010, 0x1_0020, 0x1_0030, 0x1_0040] {
        for align in [2 * MIN_ALIGN, 64, 4096] {
            let mut process = Process::new();
            let ptr = process.carve(base, 100, align);
            assert_eq!(
                process.measure(windows(true), ptr),
                Measured {
                    size: 100 + align,
                    follow_up: FollowUp::NoteAllocation { ptr: base, size: 100 + align },
                }
            );
            assert_eq!(process.validated, vec![ptr, base]);
            assert_eq!(process.read, vec![ptr - WORD]);
        }
    }
}

#[test]
fn switched_off_measures_zero_without_touching_the_heap() {
    let mut process = Process::new();
    process.blocks.insert(0x5008, 72);
    process.disabled = true;
    assert_eq!(process.measure(windows(true), 0x5008), nothing());
    assert!(process.validated.is_empty());
    assert!(process.read.is_empty());
}

#[test]
fn switch_is_an_environment_variable() {
    match usable_size(windows(false), 8) {
        Measurement::ReadSwitch(s) => {
            assert_eq!(s.variable(), "SERVO_DISABLE_USABLE_SIZE");
            assert_eq!(s.ptr.get(), 8);
        },
        other => panic!("{other:?}"),
    }
}

#[test]
fn small_alignment_has_no_slot() {
    let mut process = Process::new();
    let ptr = 0x1_0000 + MIN_ALIGN;
    process.words.insert(ptr - WORD, ptr - WORD);
    assert_eq!(process.measure(windows(true), ptr), foreign(ptr));
    assert!(process.read.is_empty());
    assert_eq!(process.validated, vec![ptr]);
}

#[test]
fn unreadable_slot_is_not_read() {
    for (state, protect) in [
        (0x2000, PAGE_READWRITE),
        (MEM_COMMIT, PAGE_NOACCESS),
        (MEM_COMMIT, PAGE_READWRITE | PAGE_GUARD),
    ] {
        let mut process = Process::new();
        let ptr = process.carve(0x1_0010, 64, 64);
        process.state = state;
        process.protect = protect;
        assert_eq!(process.measure(windows(true), ptr), foreign(ptr));
        assert!(process.read.is_empty());
    }
    let mut process = Process::new();
    let ptr = process.carve(0x1_0010, 64, 64);
    process.words.clear();
    assert_eq!(process.measure(windows(true), ptr), foreign(ptr));
    assert!(process.read.is_empty());
}

#[test]
fn implausible_base_is_not_validated() {
    let ptr: usize = 0x1_0040;
    for base in [
        ptr,
        ptr + 64,
        usize::MAX,
        ptr - WORD + 1,
        ptr - (64 + WORD),
        0,
    ] {
        let mut process = Process::new();
        process.blocks.insert(base, 64);
        process.blocks.remove(&ptr);
        process.words.insert(ptr - WORD, base);
        assert_eq!(process.measure(windows(true), ptr), foreign(ptr), "base {base:#x}");
        assert_eq!(process.validated, vec![ptr]);
    }
}

#[test]
fn null_base_is_neither_validated_nor_sized() {
    for ptr in [2 * MIN_ALIGN, 0x2_0000, 0x20_0000, 1 << (usize::BITS - 1)] {
        let mut process = Process::new();
        // Asked about null, the heap answers that it is intact.
        process.blocks.insert(0, 4096);
        process.words.insert(ptr - WORD, 0);
        assert_eq!(process.measure(windows(true), ptr), foreign(ptr));
        assert_eq!(process.validated, vec![ptr]);
        assert_eq!(process.read, vec![ptr - WORD]);
    }
}

#[test]
fn base_at_either_limit_is_validated() {
    let ptr: usize = 0x1_0040;
    for base in [ptr - WORD, ptr - (64 + WORD) + 1] {
        let mut process = Process::new();
        process.blocks.insert(base, 99);
        process.words.insert(ptr - WORD, base);
        assert_eq!(process.size(ptr), 99);
    }
}

#[test]
fn plausible_base_that_the_heap_does_not_own_is_foreign() {
    let mut process = Process::new();
    let ptr = process.carve(0x1_0010, 64, 64);
    process.blocks.clear();
    assert_eq!(process.measure(windows(true), ptr), foreign(ptr));
    assert_eq!(process.validated, vec![ptr, 0x1_0010]);
}

#[test]
fn other_platforms_ask_their_allocator() {
    for (build, expected) in [
        (elsewhere(true, false, false), NativeSize::JemallocUsableSize),
        (elsewhere(true, true, false), NativeSize::JemallocUsableSize),
        (elsewhere(false, true, false), NativeSize::MallocSize),
        (elsewhere(false, false, false), NativeSize::MallocUsableSize),
    ] {
        for ptr in [0, 0x5008] {
            match usable_size(build, ptr) {
                Measurement::SizeNative(s) => {
                    assert_eq!(s.source, expected);
                    assert_eq!(s.ptr, ptr);
                    assert_eq!(
                        s.resume(80),
                        Measurement::Done(Measured {
                            size: 80,
                            follow_up: FollowUp::Nothing,
                        })
                    );
                },
                other => panic!("{other:?}"),
            }
        }
    }
}

#[test]
fn other_platforms_note_every_size_with_tracking() {
    for size in [0, 80] {
        match usable_size(elsewhere(true, false, true), 0x5008) {
            Measurement::SizeNative(s) => assert_eq!(
                s.resume(size),
                Measurement::Done(Measured {
                    size,
                    follow_up: FollowUp::NoteAllocation { ptr: 0x5008, size },
                })
            ),
            other => panic!("{other:?}"),
        }
    }
}

#[test]
fn a_measurement_asks_for_at_most_seven_things() {
    let mut process = Process::new();
    let ptr = process.carve(0x1_0010, 64, 64);
    let mut m = usable_size(windows(false), ptr);
    let mut asked = 0;
    loop {
        m = match m {
            Measurement::ReadSwitch(s) => s.resume(false),
            Measurement::FindHeap(s) => s.resume(HEAP),
            Measurement::ValidatePointer(s) => s.resume(FALSE),
            Measurement::QuerySlot(s) => s.resume(
                48,
                Region {
                    allocation_base: 0,
                    region_size: 0,
                    state: MEM_COMMIT,
                    kind: 0,
                    protect: PAGE_READWRITE,
                },
            ),
            Measurement::ReadSlot(s) => s.resume(0x1_0010),
            Measurement::ValidateBase(s) => s.resume(1),
            Measurement::SizeBlock(s) => s.resume(128),
            Measurement::SizeNative(s) => s.resume(0),
            Measurement::Done(measured) => {
                assert_eq!(measured.size, 128);
                break;
            },
        };
        asked += 1;
    }
    assert_eq!(asked, 7);
}
