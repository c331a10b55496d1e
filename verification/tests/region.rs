use shared_memory::ShmemConf;
use shmem_region::REGION_CAPACITY;
use shmem_region::ReadAction;
use shmem_region::WriteAction;
use shmem_region::attach_at;
use shmem_region::is_present;
use shmem_region::offset_in_bounds;
use shmem_region::read_action;
use shmem_region::region_flink;
use shmem_region::region_link_name;
use shmem_region::release;
use shmem_region::write_action;

/// A file-link path that no other test (or earlier run) has used, so that
/// tests never see each other's regions.
fn unique_flink(tag: &str) -> String {
    let nanos = std::time::SystemTime::now()
        .duration_since(std::time::UNIX_EPOCH)
        .expect("clock before epoch")
        .as_nanos();
    format!("/tmp/shmem_region_test_{}_{}", tag, nanos)
}

#[test]
fn capacity_and_bounds_edges() {
    assert_eq!(REGION_CAPACITY, 66560);
    assert!(offset_in_bounds(0));
    assert!(offset_in_bounds(0x103FF));
    assert!(!offset_in_bounds(0x10400));
    assert!(!offset_in_bounds(u32::MAX));
}

#[test]
fn link_name_and_flink_are_fixed() {
    assert_eq!(region_link_name(), "msp430_shmem_id");
    assert_eq!(region_flink("/tmp"), "/tmp/msp430_shmem_id");
    assert_eq!(region_flink(""), "/msp430_shmem_id");
}

#[test]
fn empty_handle_reads_zero_at_every_offset() {
    let none = None;
    for offset in [0u32, 1, 0x103FF, 0x10400, 0x20000, u32::MAX] {
        assert_eq!(read_action(&none, offset), ReadAction::Zero);
    }
    assert!(!is_present(&none));
}

#[test]
fn empty_handle_drops_every_write() {
    let none = None;
    for offset in [0u32, 1, 0x103FF, 0x10400, 0x20000, u32::MAX] {
        assert_eq!(write_action(&none, offset, 0xAB), WriteAction::Skip);
    }
    // No observable state change: the handle is still empty.
    assert!(!is_present(&none));
}

#[test]
fn absent_when_no_creator_published_the_link() {
    let handle = attach_at(&unique_flink("missing"));
    assert!(!is_present(&handle));
    // The absent handle stays harmless at every offset.
    assert_eq!(read_action(&handle, 0), ReadAction::Zero);
    assert_eq!(write_action(&handle, 0, 1), WriteAction::Skip);
}

#[test]
fn present_after_creator_publishes() {
    let flink = unique_flink("present");
    let _creator = ShmemConf::new()
        .size(REGION_CAPACITY)
        .flink(&flink)
        .create()
        .expect("create test region");
    let handle = attach_at(&flink);
    assert!(is_present(&handle));
    assert_eq!(read_action(&handle, 0), ReadAction::Load { offset: 0 });
    assert_eq!(
        write_action(&handle, 0, 0xAB),
        WriteAction::Store { offset: 0, value: 0xAB }
    );
    assert_eq!(
        read_action(&handle, 0x103FF),
        ReadAction::Load { offset: 0x103FF }
    );
}

#[test]
fn out_of_bounds_on_present_handle_faults() {
    let flink = unique_flink("oob");
    let _creator = ShmemConf::new()
        .size(REGION_CAPACITY)
        .flink(&flink)
        .create()
        .expect("create test region");
    let handle = attach_at(&flink);
    assert!(is_present(&handle));
    // The decision layer demands an abort; the layer that carries the plans
    // out turns `Fault` into a process abort.
    assert_eq!(
        read_action(&handle, 0x10400),
        ReadAction::Fault { offset: 0x10400 }
    );
    assert_eq!(
        write_action(&handle, u32::MAX, 7),
        WriteAction::Fault { offset: u32::MAX }
    );
}

#[test]
fn attached_handle_is_not_owner() {
    let flink = unique_flink("owner");
    let creator = ShmemConf::new()
        .size(REGION_CAPACITY)
        .flink(&flink)
        .create()
        .expect("create test region");
    assert!(creator.is_owner());
    let handle = attach_at(&flink);
    let sys = handle.as_ref().expect("attached");
    assert!(!sys.shmem_ref().is_owner());
}

#[test]
fn release_empties_slot_and_leaves_region_alive() {
    let flink = unique_flink("release");
    let _creator = ShmemConf::new()
        .size(REGION_CAPACITY)
        .flink(&flink)
        .create()
        .expect("create test region");
    let mut first = attach_at(&flink);
    let second = attach_at(&flink);
    assert!(is_present(&first));
    assert!(is_present(&second));
    release(&mut first);
    assert!(!is_present(&first));
    // An independently attached handle is unaffected, and the region is
    // still there for new attachers.
    assert!(is_present(&second));
    let third = attach_at(&flink);
    assert!(is_present(&third));
}

#[test]
fn undersized_region_is_refused() {
    let flink = unique_flink("small");
    let _creator = ShmemConf::new()
        .size(0x100)
        .flink(&flink)
        .create()
        .expect("create test region");
    let handle = attach_at(&flink);
    assert!(!is_present(&handle));
}
