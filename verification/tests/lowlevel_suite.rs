use std::cell::Cell;
use std::rc::Rc;

use bc_hostcall::errors::RpcError;
use bc_hostcall::lowlevel::read_bytes;
use bc_hostcall::lowlevel::store_bytes;
use bc_hostcall::lowlevel::StoreOrigin;
use bc_hostcall::lowlevel::StoreSlot;
use bc_hostcall::queue::Queue;
use bc_hostcall::queue::spawn_local;

#[test]
fn test_future() {
    let cnt = Rc::new(Cell::new(0));

    let ccnt = cnt.clone();
    let mut queue: Queue<Box<dyn Fn()>> = Queue::new();
    spawn_local(
        &mut queue,
        Box::new(move || {
            ccnt.set(ccnt.get() + 1);
        }),
    );

    assert_eq!(cnt.get(), 0);

    let batch = queue.run_all();
    for task in batch.iter() {
        task();
    }

    assert_eq!(cnt.get(), 1);
}

#[test]
fn tasks_run_in_schedule_order_and_new_ones_wait() {
    let log: Rc<Cell<u32>> = Rc::new(Cell::new(0));
    let mut queue: Queue<u32> = Queue::new();
    queue.push_task(1);
    queue.schedule_task(2);

    let batch = queue.run_all();
    assert_eq!(batch, vec![1, 2]);
    for t in batch.iter() {
        // a task scheduled while the batch runs waits for the next tick
        queue.push_task(t * 10);
        log.set(log.get() * 10 + t);
    }
    assert_eq!(log.get(), 12);

    let next = queue.run_all();
    assert_eq!(next, vec![10, 20]);
}

#[test]
fn store_and_read_bytes_round_trip() {
    let mut mem: Vec<u8> = vec![0; 16];
    store_bytes(&mut mem, 4, &[9, 8, 7]).unwrap();
    assert_eq!(mem[3], 0);
    assert_eq!(&mem[4..7], &[9, 8, 7]);
    assert_eq!(mem[7], 0);

    let back = read_bytes(&mem, 4, 3).unwrap();
    assert_eq!(back, vec![9, 8, 7]);
}

#[test]
fn out_of_bounds_copies_fail() {
    let mut mem: Vec<u8> = vec![0; 4];
    assert!(matches!(
        store_bytes(&mut mem, 3, &[1, 2]),
        Err(RpcError::MemoryOutOfBounds)
    ));
    assert_eq!(mem, vec![0, 0, 0, 0]);
    assert!(matches!(
        read_bytes(&mem, 3, 2),
        Err(RpcError::MemoryOutOfBounds)
    ));
}

#[test]
fn store_slot_prefers_cached_caller() {
    let mut slot: StoreSlot<&str> = StoreSlot::new();
    slot.cache_caller("caller");
    let (s, origin) = slot.acquire().unwrap();
    assert_eq!(s, "caller");
    assert!(matches!(origin, StoreOrigin::Caller));
    // the caller handle is consumed, not restored
    slot.restore(s, origin);
    assert!(matches!(slot.acquire(), Err(RpcError::NoAvailableStore)));
}

#[test]
fn store_slot_restores_owned_store() {
    let mut slot: StoreSlot<&str> = StoreSlot::new();
    slot.move_store("owned");
    let (s, origin) = slot.acquire().unwrap();
    assert_eq!(s, "owned");
    assert!(matches!(origin, StoreOrigin::Owned));
    slot.restore(s, origin);
    // the owned store is back for the next send
    let (s2, _) = slot.acquire().unwrap();
    assert_eq!(s2, "owned");
}

#[test]
fn empty_store_slot_fails_sends() {
    let mut slot: StoreSlot<u32> = StoreSlot::new();
    assert!(matches!(slot.acquire(), Err(RpcError::NoAvailableStore)));
    assert!(slot.take_store().is_none());
}
