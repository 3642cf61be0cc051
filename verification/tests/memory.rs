use repcxl::memory::{MemoryNode, MemoryType, Release, RepCXL, MAP_FAILED_ADDR};

// An address that a successful mapping or allocation might return.
const MAPPED_AT: usize = 0x7f3a_5c00_0000;

#[test]
fn test_memory_node_from_file() {
    let mnid = 1;
    let size = 1024; // 1 KiB

    let node = MemoryNode::from_file(mnid, size, MAPPED_AT).expect("mapping failed");
    assert_eq!(node.id, mnid);
    assert_eq!(node.type_, MemoryType::File);
    assert!(node.addr != 0);
    assert_eq!(node.size, size); // 1 KiB
}

#[test]
fn test_memory_node_from_numa() {
    let mnid = 0;
    let size = 1024; // 1 KiB

    let node = MemoryNode::from_numa(mnid, size, MAPPED_AT).expect("numa_alloc_onnode failed");

    assert_eq!(node.id, mnid);
    assert_eq!(node.type_, MemoryType::Numa);
    assert!(node.addr != 0);
    assert_eq!(node.size, size); // 1 KiB
}

#[test]
fn failed_mapping_gives_no_node() {
    assert!(MemoryNode::from_file(3, 4096, MAP_FAILED_ADDR).is_none());
    assert_eq!(MAP_FAILED_ADDR, usize::MAX);
}

#[test]
fn null_mapping_address_is_not_a_failure() {
    let node = MemoryNode::from_file(3, 4096, 0).expect("only MAP_FAILED is a failure");
    assert_eq!(node.addr, 0);
}

#[test]
fn failed_numa_allocation_gives_no_node() {
    assert!(MemoryNode::from_numa(2, 4096, 0).is_none());
}

#[test]
fn all_ones_numa_address_is_a_node() {
    let node = MemoryNode::from_numa(2, 4096, usize::MAX).expect("only null is a failure");
    assert_eq!(node.type_, MemoryType::Numa);
    assert_eq!(node.addr, usize::MAX);
}

#[test]
fn file_node_is_released_by_unmapping() {
    let node = MemoryNode::from_file(7, 2048, MAPPED_AT).unwrap();
    assert_eq!(node.release(), Release::Unmap { addr: MAPPED_AT, size: 2048 });
}

#[test]
fn numa_node_is_released_by_numa_free() {
    let node = MemoryNode::from_numa(8, 8192, MAPPED_AT).unwrap();
    assert_eq!(node.release(), Release::NumaFree { addr: MAPPED_AT, size: 8192 });
}

#[test]
fn new_replicated_memory_builds() {
    let _rcxl = RepCXL::new();
}
