use os_core::mm::address::PhysPageNum;
use os_core::mm::frame_allocator::frame_alloc;
use os_core::mm::frame_allocator::frame_dealloc;
use os_core::mm::frame_allocator::init_frame_allocator;
use os_core::mm::frame_allocator::FrameError;
use os_core::mm::frame_allocator::FrameTracker;
use os_core::mm::frame_allocator::StackFrameAllocator;
use os_core::mm::memory::PhysMemory;

fn allocator_over(l: u64, r: u64) -> StackFrameAllocator {
    let mut allocator = StackFrameAllocator::new();
    allocator.init(PhysPageNum::from(l), PhysPageNum::from(r));
    allocator
}

#[test]
fn new_allocator_manages_nothing() {
    let mut allocator = StackFrameAllocator::new();
    assert_eq!(allocator.allocate(), None);
    assert_eq!(allocator.dealloc(PhysPageNum::from(0)), Err(FrameError::NeverAllocated));
}

#[test]
fn fresh_allocator_hands_out_rising_pages() {
    let mut allocator = allocator_over(100, 200);
    assert_eq!(allocator.allocate(), Some(PhysPageNum::from(100)));
    assert_eq!(allocator.allocate(), Some(PhysPageNum::from(101)));
    assert_eq!(allocator.allocate(), Some(PhysPageNum::from(102)));
    assert_eq!(allocator.allocate(), Some(PhysPageNum::from(103)));
    assert_eq!(allocator.allocate(), Some(PhysPageNum::from(104)));
}

#[test]
fn freed_page_is_reused_before_the_bump_pointer_moves() {
    let mut allocator = allocator_over(100, 200);
    for _ in 0..5 {
        allocator.allocate().unwrap();
    }
    assert_eq!(allocator.dealloc(PhysPageNum::from(102)), Ok(()));
    assert_eq!(allocator.allocate(), Some(PhysPageNum::from(102)));
    assert_eq!(allocator.allocate(), Some(PhysPageNum::from(105)));
}

#[test]
fn freed_pages_come_back_last_freed_first() {
    let mut allocator = allocator_over(100, 200);
    for _ in 0..5 {
        allocator.allocate().unwrap();
    }
    assert_eq!(allocator.dealloc(PhysPageNum::from(101)), Ok(()));
    assert_eq!(allocator.dealloc(PhysPageNum::from(104)), Ok(()));
    assert_eq!(allocator.dealloc(PhysPageNum::from(100)), Ok(()));
    assert_eq!(allocator.allocate(), Some(PhysPageNum::from(100)));
    assert_eq!(allocator.allocate(), Some(PhysPageNum::from(104)));
    assert_eq!(allocator.allocate(), Some(PhysPageNum::from(101)));
    assert_eq!(allocator.allocate(), Some(PhysPageNum::from(105)));
}

#[test]
fn freeing_at_or_above_the_bump_pointer_is_rejected() {
    let mut allocator = allocator_over(100, 200);
    for _ in 0..5 {
        allocator.allocate().unwrap();
    }
    assert_eq!(allocator.dealloc(PhysPageNum::from(105)), Err(FrameError::NeverAllocated));
    assert_eq!(allocator.dealloc(PhysPageNum::from(150)), Err(FrameError::NeverAllocated));
    assert_eq!(allocator.dealloc(PhysPageNum::from(200)), Err(FrameError::NeverAllocated));
    assert_eq!(allocator.allocate(), Some(PhysPageNum::from(105)));
}

#[test]
fn freeing_twice_is_rejected() {
    let mut allocator = allocator_over(100, 200);
    for _ in 0..5 {
        allocator.allocate().unwrap();
    }
    assert_eq!(allocator.dealloc(PhysPageNum::from(102)), Ok(()));
    assert_eq!(allocator.dealloc(PhysPageNum::from(102)), Err(FrameError::DoubleFree));
    assert_eq!(allocator.dealloc(PhysPageNum::from(103)), Ok(()));
    assert_eq!(allocator.dealloc(PhysPageNum::from(102)), Err(FrameError::DoubleFree));
    assert_eq!(allocator.allocate(), Some(PhysPageNum::from(103)));
    assert_eq!(allocator.allocate(), Some(PhysPageNum::from(102)));
    assert_eq!(allocator.allocate(), Some(PhysPageNum::from(105)));
}

#[test]
fn exhausted_pool_hands_out_nothing() {
    let mut allocator = allocator_over(100, 103);
    assert_eq!(allocator.allocate(), Some(PhysPageNum::from(100)));
    assert_eq!(allocator.allocate(), Some(PhysPageNum::from(101)));
    assert_eq!(allocator.allocate(), Some(PhysPageNum::from(102)));
    assert_eq!(allocator.allocate(), None);
    assert_eq!(allocator.allocate(), None);
    assert_eq!(allocator.dealloc(PhysPageNum::from(101)), Ok(()));
    assert_eq!(allocator.allocate(), Some(PhysPageNum::from(101)));
    assert_eq!(allocator.allocate(), None);
}

#[test]
fn empty_range_is_exhausted_at_once() {
    let mut allocator = allocator_over(100, 100);
    assert_eq!(allocator.allocate(), None);
}

#[test]
fn init_frame_allocator_rounds_inwards() {
    let mut allocator = StackFrameAllocator::new();
    init_frame_allocator(&mut allocator, 0x8020_0abc, 0x8020_3fff);
    assert_eq!(allocator.allocate(), Some(PhysPageNum::from(0x8_0201)));
    assert_eq!(allocator.allocate(), Some(PhysPageNum::from(0x8_0202)));
    assert_eq!(allocator.allocate(), None);
}

#[test]
fn init_frame_allocator_keeps_aligned_ends() {
    let mut allocator = StackFrameAllocator::new();
    init_frame_allocator(&mut allocator, 0x8020_0000, 0x8020_2000);
    assert_eq!(allocator.allocate(), Some(PhysPageNum::from(0x8_0200)));
    assert_eq!(allocator.allocate(), Some(PhysPageNum::from(0x8_0201)));
    assert_eq!(allocator.allocate(), None);
}

#[test]
fn tracker_new_zeroes_its_page() {
    let mut bytes = vec![0x5au8; 4096 * 2];
    {
        let mut memory = PhysMemory::new(PhysPageNum::from(100), &mut bytes).unwrap();
        let tracker = FrameTracker::new(PhysPageNum::from(101), &mut memory);
        assert_eq!(tracker.ppn, PhysPageNum::from(101));
    }
    assert!(bytes[..4096].iter().all(|b| *b == 0x5a));
    assert!(bytes[4096..].iter().all(|b| *b == 0));
}

#[test]
fn frame_alloc_hands_out_zeroed_pages() {
    let mut bytes = vec![0x5au8; 4096 * 4];
    {
        let mut memory = PhysMemory::new(PhysPageNum::from(100), &mut bytes).unwrap();
        let mut allocator = allocator_over(100, 104);
        let first = frame_alloc(&mut allocator, &mut memory).unwrap();
        assert_eq!(first.ppn, PhysPageNum::from(100));
        let second = frame_alloc(&mut allocator, &mut memory).unwrap();
        assert_eq!(second.ppn, PhysPageNum::from(101));
    }
    assert!(bytes[..8192].iter().all(|b| *b == 0));
    assert!(bytes[8192..].iter().all(|b| *b == 0x5a));
}

#[test]
fn frame_alloc_fails_when_exhausted() {
    let mut bytes = vec![0x5au8; 4096 * 2];
    let mut memory = PhysMemory::new(PhysPageNum::from(100), &mut bytes).unwrap();
    let mut allocator = allocator_over(100, 102);
    assert!(frame_alloc(&mut allocator, &mut memory).is_some());
    assert!(frame_alloc(&mut allocator, &mut memory).is_some());
    assert!(frame_alloc(&mut allocator, &mut memory).is_none());
}

#[test]
fn tracker_returns_its_page_once() {
    let mut bytes = vec![0u8; 4096 * 4];
    let mut memory = PhysMemory::new(PhysPageNum::from(100), &mut bytes).unwrap();
    let mut allocator = allocator_over(100, 104);
    let first = frame_alloc(&mut allocator, &mut memory).unwrap();
    let second = frame_alloc(&mut allocator, &mut memory).unwrap();
    assert_eq!(second.ppn, PhysPageNum::from(101));
    assert_eq!(frame_dealloc(&mut allocator, first), Ok(()));
    let forged = FrameTracker { ppn: PhysPageNum::from(100) };
    assert_eq!(frame_dealloc(&mut allocator, forged), Err(FrameError::DoubleFree));
    let reused = frame_alloc(&mut allocator, &mut memory).unwrap();
    assert_eq!(reused.ppn, PhysPageNum::from(100));
    let next = frame_alloc(&mut allocator, &mut memory).unwrap();
    assert_eq!(next.ppn, PhysPageNum::from(102));
}

#[test]
fn reused_page_is_zeroed_again() {
    let mut bytes = vec![0u8; 4096 * 2];
    {
        let mut memory = PhysMemory::new(PhysPageNum::from(100), &mut bytes).unwrap();
        let mut allocator = allocator_over(100, 102);
        let tracker = frame_alloc(&mut allocator, &mut memory).unwrap();
        assert_eq!(frame_dealloc(&mut allocator, tracker), Ok(()));
    }
    bytes[7] = 0xff;
    bytes[4095] = 0xff;
    {
        let mut memory = PhysMemory::new(PhysPageNum::from(100), &mut bytes).unwrap();
        let mut allocator = allocator_over(100, 102);
        let first = frame_alloc(&mut allocator, &mut memory).unwrap();
        assert_eq!(frame_dealloc(&mut allocator, first), Ok(()));
        let again = frame_alloc(&mut allocator, &mut memory).unwrap();
        assert_eq!(again.ppn, PhysPageNum::from(100));
    }
    assert!(bytes[..4096].iter().all(|b| *b == 0));
}

#[test]
fn tracker_of_a_page_never_handed_out_is_refused() {
    let mut allocator = allocator_over(100, 104);
    let forged = FrameTracker { ppn: PhysPageNum::from(100) };
    assert_eq!(frame_dealloc(&mut allocator, forged), Err(FrameError::NeverAllocated));
    assert_eq!(allocator.allocate(), Some(PhysPageNum::from(100)));
}

#[test]
fn frames_are_allocated_released_and_allocated_again() {
    let mut bytes = vec![0u8; 4096 * 16];
    let mut memory = PhysMemory::new(PhysPageNum::from(100), &mut bytes).unwrap();
    let mut allocator = allocator_over(100, 116);
    let mut held: Vec<FrameTracker> = Vec::new();
    for i in 0..5 {
        let frame = frame_alloc(&mut allocator, &mut memory).unwrap();
        assert_eq!(frame.ppn, PhysPageNum::from(100 + i));
        held.push(frame);
    }
    while let Some(frame) = held.pop() {
        assert_eq!(frame_dealloc(&mut allocator, frame), Ok(()));
    }
    for i in 0..5 {
        let frame = frame_alloc(&mut allocator, &mut memory).unwrap();
        assert_eq!(frame.ppn, PhysPageNum::from(100 + i));
        held.push(frame);
    }
    assert_eq!(held.len(), 5);
}
