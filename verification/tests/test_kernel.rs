use vaelix::kernel::vaelix_alloc::init_global;
use vaelix::kernel::vx_tasklet::TaskletScheduler;
use vaelix::kernel::vxchan::vxchan_init;
use vaelix::kernel::vxchan::VXChanManager;

#[test]
fn test_vaelix_alloc_init() {
    let heap_start: usize = 0x40000000;
    let heap_size: usize = 1024 * 1024;
    let allocator = init_global(heap_start, heap_size);
    assert_eq!(allocator.heap_start, heap_start);
    assert_eq!(allocator.heap_size, heap_size);
    assert_eq!(allocator.next, 0);
}

#[test]
fn test_vxchan_init() {
    let manager = vxchan_init().unwrap();
    assert_eq!(manager.channels.len(), 0);
}

#[test]
fn bump_allocation_advances() {
    let mut allocator = init_global(0x1000, 4096);
    let first = allocator.vaelix_alloc(128);
    assert_eq!(first, 0x1000);
    let second = allocator.vaelix_alloc(64);
    assert_eq!(second, 0x1000 + 128);
    allocator.vaelix_free(first);
    assert_eq!(allocator.next, 192);
}

#[test]
fn bump_allocation_exhausts() {
    let mut allocator = init_global(0x1000, 100);
    assert_eq!(allocator.vaelix_alloc(60), 0x1000);
    assert_eq!(allocator.vaelix_alloc(60), 0);
    assert_eq!(allocator.vaelix_alloc(40), 0x1000 + 60);
}

#[test]
fn tasklets_run_in_priority_order() {
    let mut sched = TaskletScheduler::new();
    sched.add_task(5);
    sched.add_task(1);
    sched.add_task(3);
    sched.add_task(1);
    let a = sched.next_task().unwrap();
    assert_eq!((a.priority, a.id), (1, 1));
    let b = sched.next_task().unwrap();
    assert_eq!((b.priority, b.id), (1, 3));
    let c = sched.next_task().unwrap();
    assert_eq!(c.priority, 3);
    let d = sched.next_task().unwrap();
    assert_eq!(d.priority, 5);
    assert!(sched.next_task().is_none());
}

#[test]
fn channel_messages_are_fifo() {
    let mut manager = VXChanManager::new();
    let name = String::from("control");
    manager.create_channel(&name).unwrap();
    assert_eq!(manager.create_channel(&name), Err("Channel already exists"));
    manager.send_message(&name, String::from("first")).unwrap();
    manager.send_message(&name, String::from("second")).unwrap();
    assert_eq!(manager.receive_message(&name).unwrap(), "first");
    assert_eq!(manager.receive_message(&name).unwrap(), "second");
    assert_eq!(manager.receive_message(&name), Err("Failed to receive message"));
    let missing = String::from("missing");
    assert_eq!(manager.send_message(&missing, String::from("x")), Err("Channel not found"));
}
