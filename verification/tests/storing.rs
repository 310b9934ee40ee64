use zeta::bump::{align_up, AtomicBump, Bump, GrowableBump, Place, DEFAULT_CHUNK_SIZE};
use zeta::string_pool::{StringPool, ThreadLocalStringPool, VmString};
use zeta::virtual_machine::{BumpStack, EventLoop, ExecutionContext, Task, VirtualMachine};

#[test]
fn values_are_aligned_upwards() {
    assert_eq!(align_up(0, 8), 0);
    assert_eq!(align_up(1, 8), 8);
    assert_eq!(align_up(8, 8), 8);
    assert_eq!(align_up(13, 4), 16);
    assert_eq!(align_up(7, 1), 7);
    assert_eq!(align_up(4097, 4096), 8192);
}

#[test]
fn bump_hands_out_memory_in_order() {
    let mut bump = Bump::with_capacity(16);
    assert_eq!(bump.allocate(&[1, 2, 3], 1), Some(0));
    assert_eq!(bump.allocate(&[4, 5], 4), Some(4));
    assert_eq!(bump.get_slice(), &[1, 2, 3, 0, 4, 5]);
    assert_eq!(bump.allocate(&[0; 11], 2), None);
    assert_eq!(bump.allocate(&[7; 8], 8), Some(8));
    assert_eq!(bump.allocate(&[9], 1), None);
    assert_eq!(bump.get_slice().len(), 16);
    bump.reset();
    assert!(bump.get_slice().is_empty());
    assert_eq!(bump.allocate(&[9], 1), Some(0));
}

#[test]
fn bump_has_a_default_size() {
    let mut bump = Bump::new();
    assert_eq!(bump.allocate(&vec![1u8; DEFAULT_CHUNK_SIZE], 8), Some(0));
    assert_eq!(bump.allocate(&[1], 1), None);
}

#[test]
fn growable_bump_adds_larger_pieces() {
    let mut bump = GrowableBump::new(4, 8);
    let first = bump.alloc_bytes_copy(&[1, 2, 3]);
    assert_eq!(first, Some(Place { chunk: 0, start: 0, len: 3 }));
    let second = bump.alloc_bytes_copy(&[4, 5]);
    assert_eq!(second, Some(Place { chunk: 1, start: 0, len: 2 }));
    let third = bump.alloc_slice(&[6, 7, 8, 9], 4);
    assert_eq!(third, Some(Place { chunk: 1, start: 4, len: 4 }));
    let fourth = bump.alloc_slice(&[0; 20], 4);
    assert_eq!(fourth, Some(Place { chunk: 2, start: 0, len: 20 }));
    let fifth = bump.alloc_slice(&[1; 20], 4);
    assert_eq!(fifth, Some(Place { chunk: 2, start: 20, len: 20 }));
    assert_eq!(bump.alloc_bytes_copy(&[3]), Some(Place { chunk: 3, start: 0, len: 1 }));
    assert_eq!(bump.read(first.unwrap()), &[1, 2, 3]);
    assert_eq!(bump.read(second.unwrap()), &[4, 5]);
    assert_eq!(bump.read(third.unwrap()), &[6, 7, 8, 9]);
    let empty = bump.alloc_bytes_copy(&[]);
    assert_eq!(empty.map(|p| p.len), Some(0));
    bump.reset();
    assert_eq!(bump.alloc_bytes_copy(&[1]), Some(Place { chunk: 0, start: 0, len: 1 }));
}

#[test]
fn later_allocations_leave_earlier_ones_alone() {
    let mut bump = GrowableBump::new(8, 8);
    let mut places = Vec::new();
    for n in 0..50u8 {
        let bytes = vec![n; (n % 7) as usize + 1];
        places.push((bump.alloc_slice(&bytes, 2).unwrap(), bytes));
    }
    for (place, bytes) in places {
        assert_eq!(bump.read(place), bytes.as_slice());
    }
}

#[test]
fn atomic_bump_sets_memory_aside() {
    let mut bump = AtomicBump::with_capacity(24);
    assert_eq!(bump.capacity(), 24);
    assert_eq!(bump.len(), 0);
    assert_eq!(bump.alloc_many(&[1, 2, 3]), Some(0));
    assert_eq!(bump.len(), 3);
    assert_eq!(bump.get_slice(0, 3), &[0, 0, 0]);
    assert_eq!(bump.alloc_many(&[1]), Some(8));
    assert_eq!(bump.allocate(&[5, 6], 2), Some(10));
    assert_eq!(bump.get_slice(8, 12), &[0, 0, 5, 6]);
    assert_eq!(bump.get_slice(9, 8), &[] as &[u8]);
    assert_eq!(bump.get_slice(0, 13), &[] as &[u8]);
    assert_eq!(bump.alloc_many(&[0; 9]), None);
    assert_eq!(bump.len(), 12);
    bump.reset();
    assert_eq!(bump.len(), 0);
    assert_eq!(AtomicBump::new().capacity(), 4096);
}

#[test]
fn interning_gives_one_string_per_text() {
    let mut pool = StringPool::new();
    let first = pool.intern("hello");
    let second = pool.intern("world");
    assert_ne!(first, second);
    assert_eq!(pool.intern("hello"), first);
    assert_eq!(pool.len(), 10);
    assert_eq!(pool.resolve_string(&first), "hello");
    assert_eq!(pool.resolve_bytes(&second), b"world");
    assert_eq!(first, VmString { offset: 0, length: 5 });
    let empty = pool.intern("");
    assert_eq!(pool.resolve_string(&empty), "");
    assert_eq!(pool.intern(""), empty);
}

#[test]
fn interned_texts_read_back() {
    let mut pool = StringPool::new();
    let texts = ["a", "été", "😀", "a much longer text that does not fit into a lane of thirty-two bytes"];
    let mut strings = Vec::new();
    for text in texts {
        strings.push(pool.intern(text));
    }
    for i in 0..200u32 {
        let text = format!("name_{}", i);
        let string = pool.intern(&text);
        assert_eq!(pool.resolve_string(&string), text);
        assert_eq!(pool.intern(&text), string);
    }
    for (text, string) in texts.iter().zip(strings) {
        assert_eq!(pool.resolve_string(&string), *text);
        assert_eq!(pool.intern(text), string);
    }
}

#[test]
fn bytes_need_not_be_text() {
    let mut pool = StringPool::new();
    let string = pool.intern_bytes(&[0xff, 0x00, 0x80]);
    assert_eq!(pool.resolve_bytes(&string), &[0xff, 0x00, 0x80]);
}

#[test]
fn workers_share_the_pool() {
    let mut pool = StringPool::new();
    let first = pool.intern("shared");
    let mut worker = ThreadLocalStringPool::new();
    assert_eq!(worker.intern(&mut pool, "shared"), first);
    let own = worker.intern(&mut pool, "own");
    assert_eq!(pool.intern("own"), own);
    assert_eq!(worker.intern(&mut pool, "own"), own);
    let mut other = ThreadLocalStringPool::new();
    assert_eq!(other.intern_bytes(&mut pool, b"own"), own);
    worker.clear_local_cache();
    assert_eq!(worker.intern(&mut pool, "own"), own);
    assert_eq!(pool.len(), 9);
}

#[test]
fn frames_give_their_memory_back() {
    let mut stack = BumpStack::new(32);
    assert_eq!(stack.allocate(3, 1), Some(0));
    stack.push_frame();
    assert_eq!(stack.allocate(4, 4), Some(4));
    assert_eq!(stack.allocate(25, 1), None);
    assert_eq!(stack.allocate(24, 8), Some(8));
    stack.pop_frame();
    assert_eq!(stack.allocate(1, 1), Some(3));
    stack.pop_frame();
    assert_eq!(stack.allocate(1, 1), Some(4));
    stack.reset();
    assert_eq!(stack.allocate(1, 8), Some(0));
}

#[test]
fn tasks_run_last_in_first_out() {
    let machine = VirtualMachine::new(vec![]);
    assert_eq!(machine.program_counter, 1024);
    assert!(machine.variables.is_empty());
    let mut event_loop = EventLoop::new(machine);
    let task = |n: usize| Task { execution_context: ExecutionContext { id: n }, function_id: n };
    for n in 1..4 {
        event_loop.schedule(task(n));
    }
    assert_eq!(event_loop.run(), vec![task(3), task(2), task(1)]);
    assert!(event_loop.run().is_empty());
}

#[test]
fn equal_bytes_are_copied_anew() {
    let mut bump = GrowableBump::new(8, 8);
    let first = bump.alloc_bytes_copy(&[1, 2, 3]).unwrap();
    let second = bump.alloc_bytes_copy(&[1, 2, 3]).unwrap();
    assert_eq!(first, Place { chunk: 0, start: 0, len: 3 });
    assert_eq!(second, Place { chunk: 0, start: 3, len: 3 });
    assert_eq!(bump.alloc_bytes_copy(&[1, 2, 3]), Some(Place { chunk: 1, start: 0, len: 3 }));
    assert_eq!(bump.alloc_bytes_copy(&[9]), Some(Place { chunk: 1, start: 3, len: 1 }));
}

#[test]
fn large_alignments_go_by_the_address() {
    let mut bump = Bump::with_capacity_and_aligned(300, 2);
    let base = bump.base_address();
    assert_eq!(base % 2, 0);
    assert_eq!(bump.allocate(&[1], 1), Some(0));
    let place = bump.allocate(&[2; 4], 64).unwrap();
    assert_eq!((base + place) % 64, 0);
    assert!(place >= 1 && place <= 64);
    assert_eq!(bump.get_slice().len(), place + 4);
    assert_eq!(bump.get_slice().as_ptr() as usize, base);
    let next = bump.allocate(&[3; 4], 64).unwrap();
    assert_eq!(next, place + 64);
    let mut small = GrowableBump::new(1, 1);
    match small.alloc_slice(&[7; 2], 4096) {
        Some(place) => assert_eq!(small.read(place), &[7, 7]),
        None => assert_eq!(small.alloc_bytes_copy(&[1]).map(|place| place.chunk), Some(1)),
    }
}

#[test]
fn strings_of_different_pools_are_compared_by_their_bytes() {
    let mut first = StringPool::new();
    let mut second = StringPool::new();
    let a = first.intern("left");
    let b = first.intern("right");
    let c = second.intern("right");
    assert_eq!(a.offset, c.offset);
    assert!(!first.same_text(&a, &second, &c));
    assert!(first.same_text(&b, &second, &c));
    assert!(second.same_text(&c, &first, &b));
    let part = VmString { offset: b.offset, length: 4 };
    assert!(!first.same_text(&part, &first, &a));
    assert!(first.same_text(&part, &first, &VmString { offset: 4, length: 4 }));
}
