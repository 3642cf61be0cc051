use vstd::prelude::*;

verus! {

/// Where the bytes of a memory node come from.
#[derive(PartialEq, Eq, Structural, Debug, Clone, Copy)]
pub enum MemoryType {
    /// Allocated on a NUMA node by libnuma.
    Numa,
    /// A shared file mapped into the address space.
    File,
}

/// The address with which `mmap` reports a failed mapping: all bits set.
pub const MAP_FAILED_ADDR: usize = usize::MAX;

/// One memory node: an identifier, where its bytes come from, the address
/// at which they start, and how many there are.
pub struct MemoryNode {
    pub id: u16,
    pub type_: MemoryType,
    pub addr: usize,
    pub size: usize,
}

/// What must be done to give a node's bytes back.
#[derive(PartialEq, Eq, Structural, Debug, Clone, Copy)]
pub enum Release {
    /// Return the bytes to libnuma (`numa_free(addr, size)`).
    NumaFree { addr: usize, size: usize },
    /// Unmap the file mapping (`munmap(addr, size)`).
    Unmap { addr: usize, size: usize },
}

impl MemoryNode {
    /// The node that a file mapping of `size` bytes at `addr` describes.
    pub open spec fn spec_mapped(id: u16, addr: usize, size: usize) -> MemoryNode {
        MemoryNode { id, type_: MemoryType::File, addr, size }
    }

    /// The node that a NUMA allocation of `size` bytes at `addr` describes.
    pub open spec fn spec_allocated(id: u16, addr: usize, size: usize) -> MemoryNode {
        MemoryNode { id, type_: MemoryType::Numa, addr, size }
    }

    /// What releasing this node has to do.
    pub open spec fn spec_release(self) -> Release {
        match self.type_ {
            MemoryType::Numa => Release::NumaFree { addr: self.addr, size: self.size },
            MemoryType::File => Release::Unmap { addr: self.addr, size: self.size },
        }
    }

    /// Builds the node for a shared file of `size` bytes that `mmap` mapped
    /// at `addr`. A mapping that failed (`addr` is `MAP_FAILED_ADDR`) gives
    /// no node.
    pub fn from_file(id: u16, size: usize, addr: usize) -> (node: Option<MemoryNode>)
        ensures
            addr == MAP_FAILED_ADDR ==> node is None,
            addr != MAP_FAILED_ADDR ==> node == Some(MemoryNode::spec_mapped(id, addr, size)),
            addr != MAP_FAILED_ADDR ==> (node matches Some(n) && n.id == id && n.type_
                == MemoryType::File && n.addr == addr && n.size == size),
    {
        if addr == MAP_FAILED_ADDR {
            None
        } else {
            Some(MemoryNode { id, type_: MemoryType::File, addr, size })
        }
    }

    /// Builds the node for `size` bytes that `numa_alloc_onnode` returned at
    /// `addr`. A failed allocation (the null address) gives no node.
    pub fn from_numa(id: u16, size: usize, addr: usize) -> (node: Option<MemoryNode>)
        ensures
            addr == 0 ==> node is None,
            addr != 0 ==> node == Some(MemoryNode::spec_allocated(id, addr, size)),
            addr != 0 ==> (node matches Some(n) && n.id == id && n.type_ == MemoryType::Numa
                && n.addr == addr && n.size == size),
    {
        if addr == 0 {
            None
        } else {
            Some(MemoryNode { id, type_: MemoryType::Numa, addr, size })
        }
    }

    /// Says how this node's bytes are given back: freed to libnuma when
    /// they came from it, unmapped when they are a file mapping.
    pub fn release(&self) -> (r: Release)
        ensures
            r == self.spec_release(),
    {
        match self.type_ {
            MemoryType::Numa => Release::NumaFree { addr: self.addr, size: self.size },
            MemoryType::File => Release::Unmap { addr: self.addr, size: self.size },
        }
    }
}

/// A node built from a successful file mapping is released by unmapping
/// exactly the range that was mapped, and one built from a successful NUMA
/// allocation by freeing exactly the range that was allocated.
pub proof fn lemma_release_undoes_acquire(id: u16, size: usize, addr: usize)
    ensures
        addr != MAP_FAILED_ADDR ==> MemoryNode::spec_mapped(id, addr, size).spec_release()
            == (Release::Unmap { addr, size }),
        addr != 0 ==> MemoryNode::spec_allocated(id, addr, size).spec_release()
            == (Release::NumaFree { addr, size }),
{
}

/// A node keeps what it was built from: the identifier, the address and the
/// size passed in, with the type that says where its bytes came from.
pub proof fn lemma_node_keeps_its_origin(id: u16, addr: usize, size: usize)
    ensures
        MemoryNode::spec_mapped(id, addr, size).id == id,
        MemoryNode::spec_mapped(id, addr, size).type_ == MemoryType::File,
        MemoryNode::spec_mapped(id, addr, size).addr == addr,
        MemoryNode::spec_mapped(id, addr, size).size == size,
        MemoryNode::spec_allocated(id, addr, size).id == id,
        MemoryNode::spec_allocated(id, addr, size).type_ == MemoryType::Numa,
        MemoryNode::spec_allocated(id, addr, size).addr == addr,
        MemoryNode::spec_allocated(id, addr, size).size == size,
{
}

/// Two nodes built with different identifiers are told apart by their
/// identifiers, whatever they were built from.
pub proof fn lemma_distinct_ids_give_distinct_nodes(id1: u16, id2: u16, addr1: usize, addr2: usize, size1: usize, size2: usize)
    requires
        id1 != id2,
    ensures
        MemoryNode::spec_mapped(id1, addr1, size1).id != MemoryNode::spec_mapped(id2, addr2, size2).id,
        MemoryNode::spec_allocated(id1, addr1, size1).id != MemoryNode::spec_allocated(id2, addr2, size2).id,
{
}

/// The replicated memory: the memory nodes it spans.
pub struct RepCXL {
    memory_nodes: Vec<MemoryNode>,
}

impl View for RepCXL {
    type V = Seq<MemoryNode>;

    closed spec fn view(&self) -> Seq<MemoryNode> {
        self.memory_nodes@
    }
}

impl RepCXL {
    /// A replicated memory that spans no memory node yet.
    pub fn new() -> (r: RepCXL)
        ensures
            r@ == Seq::<MemoryNode>::empty(),
    {
        RepCXL { memory_nodes: Vec::new() }
    }
}

} // verus!
