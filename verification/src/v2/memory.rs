//! Boot memory and the tag walker.
//!
//! The records the bootloader leaves behind live in memory that the kernel
//! may read but does not own. That memory is modelled as a borrowed span of
//! bytes together with the address of its first byte. A chain of tags is a
//! sequence of addresses inside the span, each node naming the next and the
//! last one naming none.

use vstd::prelude::*;
use vstd::slice::slice_subrange;
use crate::v2::record::Stivale2Record;
use crate::v2::tag::{Stivale2Tag, Stivale2TagLayout};

verus! {

/// A span of memory populated by the other party of the protocol.
///
/// `bytes[k]` is the byte at address `base + k`.
#[derive(Clone, Copy, Debug)]
pub struct BootMemory<'a> {
    pub base: u64,
    pub bytes: &'a [u8],
}

impl<'a> BootMemory<'a> {
    /// Whether the `len` bytes starting at address `addr` lie inside the span.
    pub open spec fn spec_contains(&self, addr: u64, len: nat) -> bool {
        self.base <= addr && addr - self.base + len <= self.bytes@.len()
    }

    /// The bytes of the span from address `addr` to its end.
    pub open spec fn spec_bytes_from(&self, addr: u64) -> Seq<u8> {
        self.bytes@.skip(addr - self.base)
    }

    /// The record of type `T` stored at address `addr`.
    pub open spec fn spec_read<T: Stivale2Record>(&self, addr: u64) -> T {
        T::spec_decode(self.spec_bytes_from(addr))
    }

    /// Whether the `count` records of type `T` laid out back to back from
    /// address `addr` lie inside the span.
    pub open spec fn spec_contains_items<T: Stivale2Record>(&self, addr: u64, count: nat) -> bool {
        self.base <= addr && addr - self.base + count * T::spec_size() <= self.bytes@.len()
    }

    /// The record at position `index` of the array of `T` that starts at
    /// address `addr`.
    pub open spec fn spec_read_item<T: Stivale2Record>(&self, addr: u64, index: nat) -> T {
        T::spec_decode(self.bytes@.skip(addr - self.base + index * T::spec_size()))
    }

    /// The generic tag header stored at address `addr`.
    pub open spec fn spec_tag_at(&self, addr: u64) -> Stivale2Tag {
        self.spec_read::<Stivale2Tag>(addr)
    }

    /// Whether `nodes` lists, in order, the addresses of the chain that
    /// starts at `head`: every node is a tag header inside the span, each
    /// names its successor, and the last names none.
    pub open spec fn is_chain(&self, head: u64, nodes: Seq<u64>) -> bool {
        &&& head == (if nodes.len() == 0 {
            0
        } else {
            nodes[0]
        })
        &&& forall|i: int|
            0 <= i < nodes.len() ==> {
                &&& #[trigger] nodes[i] != 0
                &&& self.spec_contains(nodes[i], Stivale2Tag::spec_size())
                &&& self.spec_tag_at(nodes[i]).next == (if i + 1 < nodes.len() {
                    nodes[i + 1]
                } else {
                    0
                })
            }
    }

    /// Whether a well-formed chain starts at `head`: following `next` from
    /// `head` stays inside the span and reaches the end after finitely many
    /// nodes. An absent head is the empty chain.
    pub open spec fn chain_wf(&self, head: u64) -> bool {
        exists|nodes: Seq<u64>| self.is_chain(head, nodes)
    }

    /// The addresses of the nodes of the chain that starts at `head`.
    pub open spec fn spec_chain(&self, head: u64) -> Seq<u64> {
        choose|nodes: Seq<u64>| self.is_chain(head, nodes)
    }

    /// Whether `nodes[i]` is the first node of `nodes` that carries `id`.
    pub open spec fn is_first_match(&self, nodes: Seq<u64>, id: u64, i: int) -> bool {
        &&& 0 <= i < nodes.len()
        &&& self.spec_tag_at(nodes[i]).identifier == id
        &&& forall|j: int| 0 <= j < i ==> self.spec_tag_at(#[trigger] nodes[j]).identifier != id
    }

    /// The address of the first node of the chain at `head` that carries
    /// `id`, if there is one.
    pub open spec fn spec_find_tag(&self, head: u64, id: u64) -> Option<u64> {
        let nodes = self.spec_chain(head);
        if exists|i: int| self.is_first_match(nodes, id, i) {
            Some(nodes[choose|i: int| self.is_first_match(nodes, id, i)])
        } else {
            None
        }
    }

    /// Whether the record that a lookup of `id` finds, if it finds one, lies
    /// inside the span when taken as a `T`.
    pub open spec fn spec_fits<T: Stivale2Record>(&self, head: u64, id: u64) -> bool {
        self.spec_find_tag(head, id) matches Some(addr) ==> self.spec_contains(
            addr,
            T::spec_size(),
        )
    }

    /// The record of type `T` at the first node of the chain at `head` that
    /// carries `id`, if there is one.
    pub open spec fn spec_find<T: Stivale2Record>(&self, head: u64, id: u64) -> Option<T> {
        match self.spec_find_tag(head, id) {
            Some(addr) => Some(self.spec_read::<T>(addr)),
            None => None,
        }
    }

    /// Describes the span of `bytes` whose first byte has address `base`.
    pub fn new(base: u64, bytes: &'a [u8]) -> (memory: Self)
        ensures
            memory.base == base,
            memory.bytes@ == bytes@,
    {
        BootMemory { base, bytes }
    }

    /// Whether the `len` bytes starting at address `addr` lie inside the span.
    pub fn contains(&self, addr: u64, len: usize) -> (inside: bool)
        ensures
            inside == self.spec_contains(addr, len as nat),
    {
        if addr < self.base {
            return false;
        }
        let offset: u64 = addr - self.base;
        let total: usize = self.bytes.len();
        len <= total && offset <= (total - len) as u64
    }

    /// Reads the record of type `T` stored at address `addr`.
    pub fn read<T: Stivale2Record>(&self, addr: u64) -> (record: T)
        requires
            self.spec_contains(addr, T::spec_size()),
        ensures
            record == self.spec_read::<T>(addr),
    {
        let offset: usize = (addr - self.base) as usize;
        let rest = slice_subrange(self.bytes, offset, self.bytes.len());
        assert(rest@ =~= self.spec_bytes_from(addr));
        T::decode(rest)
    }

    /// Reads the record at position `index` of the array of `T` that starts
    /// at address `addr`.
    pub fn read_item<T: Stivale2Record>(&self, addr: u64, index: usize) -> (record: T)
        requires
            self.spec_contains_items::<T>(addr, index as nat + 1),
        ensures
            record == self.spec_read_item::<T>(addr, index as nat),
    {
        let size: usize = T::size();
        let total: usize = self.bytes.len();
        let start: usize = (addr - self.base) as usize;
        assert(index * size + size == (index + 1) * size) by (nonlinear_arith);
        assert(0 <= index * size) by (nonlinear_arith);
        let rest = slice_subrange(self.bytes, start + index * size, total);
        assert(rest@ =~= self.bytes@.skip(addr - self.base + index * T::spec_size()));
        T::decode(rest)
    }

    /// Walks the chain that starts at `head` and returns the address of the
    /// first node whose identifier is `id`.
    ///
    /// The scan is linear from head to tail. If several nodes carry `id`,
    /// the one nearest the head is returned.
    pub fn find_tag(&self, head: u64, id: u64) -> (found: Option<u64>)
        requires
            self.chain_wf(head),
        ensures
            found == self.spec_find_tag(head, id),
    {
        let ghost nodes = self.spec_chain(head);
        let ghost mut visited: int = 0;
        let mut current: u64 = head;
        loop
            invariant
                self.is_chain(head, nodes),
                nodes == self.spec_chain(head),
                0 <= visited <= nodes.len(),
                current == (if visited < nodes.len() {
                    nodes[visited]
                } else {
                    0
                }),
                forall|j: int|
                    0 <= j < visited ==> self.spec_tag_at(#[trigger] nodes[j]).identifier != id,
            decreases nodes.len() - visited,
        {
            if current == 0 {
                proof {
                    assert(visited == nodes.len());
                    assert(forall|i: int| !self.is_first_match(nodes, id, i));
                }
                return None;
            }
            assert(visited < nodes.len());
            let tag: Stivale2Tag = self.read(current);
            if tag.identifier == id {
                proof {
                    assert(self.is_first_match(nodes, id, visited));
                    self.lemma_first_match_unique(
                        nodes,
                        id,
                        visited,
                        choose|i: int| self.is_first_match(nodes, id, i),
                    );
                }
                return Some(current);
            }
            current = tag.next;
            proof {
                visited = visited + 1;
            }
        }
    }

    /// Looks up `id` in the chain that starts at `head` and reads the record
    /// found there as a `T`.
    ///
    /// Only the identifier is matched. That the record at the node has the
    /// shape of `T` is for the caller to know from the protocol.
    pub fn find<T: Stivale2TagLayout>(&self, head: u64, id: u64) -> (found: Option<T>)
        requires
            self.chain_wf(head),
            self.spec_fits::<T>(head, id),
        ensures
            found == self.spec_find::<T>(head, id),
            found is Some <==> self.spec_find_tag(head, id) is Some,
            found matches Some(record) ==> record.spec_header().identifier == id,
    {
        match self.find_tag(head, id) {
            Some(addr) => {
                proof {
                    self.lemma_find_sound(head, id);
                    T::lemma_header_of_decoded(self.spec_bytes_from(addr));
                }
                Some(self.read(addr))
            },
            None => None,
        }
    }

    /// Whether the bytes at address `addr` are those that `record` is stored
    /// as.
    pub open spec fn spec_stores<T: Stivale2Record>(&self, addr: u64, record: T) -> bool {
        &&& self.spec_contains(addr, T::spec_size())
        &&& self.bytes@.subrange(addr - self.base, addr - self.base + T::spec_size())
            == record.spec_encode()
    }

    /// Reading at an address gives the record that is stored there.
    pub proof fn lemma_read_stored<T: Stivale2Record>(&self, addr: u64, record: T)
        requires
            self.spec_stores(addr, record),
        ensures
            self.spec_read::<T>(addr) == record,
    {
        let end = addr - self.base + T::spec_size();
        record.lemma_round_trip(self.bytes@.skip(end));
        assert(self.spec_bytes_from(addr) =~= record.spec_encode() + self.bytes@.skip(end));
    }

    /// The generic header read at an address where a tag of any shape is
    /// stored is that tag's own header: the walker sees the identifier and
    /// the successor of every record without knowing its shape.
    pub proof fn lemma_tag_stored<T: Stivale2TagLayout>(&self, addr: u64, record: T)
        requires
            self.spec_stores(addr, record),
        ensures
            self.spec_contains(addr, Stivale2Tag::spec_size()),
            self.spec_tag_at(addr) == record.spec_header(),
    {
        let end = addr - self.base + T::spec_size();
        record.lemma_header_prefix(self.bytes@.skip(end));
        assert(self.spec_bytes_from(addr) =~= record.spec_encode() + self.bytes@.skip(end));
    }

    /// Two listings of the chain at `head` agree on every node of the first.
    proof fn lemma_chain_agree(&self, head: u64, a: Seq<u64>, b: Seq<u64>, i: int)
        requires
            self.is_chain(head, a),
            self.is_chain(head, b),
            0 <= i < a.len(),
        ensures
            i < b.len(),
            a[i] == b[i],
        decreases i,
    {
        if i == 0 {
            assert(a[0] != 0);
        } else {
            self.lemma_chain_agree(head, a, b, i - 1);
            assert(a[i] != 0);
            assert(self.spec_tag_at(a[i - 1]).next == a[i]);
            assert(b[i - 1] == a[i - 1]);
        }
    }

    /// The chain that starts at a given head is determined by the memory:
    /// any listing of its nodes is `spec_chain(head)`.
    pub proof fn lemma_chain_unique(&self, head: u64, nodes: Seq<u64>)
        requires
            self.is_chain(head, nodes),
        ensures
            self.chain_wf(head),
            self.spec_chain(head) == nodes,
    {
        let other = self.spec_chain(head);
        assert forall|i: int| 0 <= i < nodes.len() implies i < other.len() && nodes[i]
            == other[i] by {
            self.lemma_chain_agree(head, nodes, other, i);
        }
        if other.len() > 0 {
            self.lemma_chain_agree(head, other, nodes, other.len() - 1);
        }
        if nodes.len() > 0 {
            self.lemma_chain_agree(head, nodes, other, nodes.len() - 1);
        }
        assert(nodes =~= other);
    }

    /// An absent head is the empty chain, and every lookup in it finds
    /// nothing.
    pub proof fn lemma_empty_chain(&self, id: u64)
        ensures
            self.chain_wf(0),
            self.spec_chain(0) == Seq::<u64>::empty(),
            self.spec_find_tag(0, id) is None,
    {
        assert(self.is_chain(0, Seq::<u64>::empty()));
        self.lemma_chain_unique(0, Seq::<u64>::empty());
        assert(forall|i: int| !self.is_first_match(Seq::<u64>::empty(), id, i));
    }

    /// A lookup returns the node at index `i` exactly when that node is the
    /// first one of the chain that carries the identifier.
    pub proof fn lemma_find_first(&self, head: u64, nodes: Seq<u64>, id: u64, i: int)
        requires
            self.is_chain(head, nodes),
            self.is_first_match(nodes, id, i),
        ensures
            self.spec_find_tag(head, id) == Some(nodes[i]),
    {
        self.lemma_chain_unique(head, nodes);
        self.lemma_first_match_unique(
            nodes,
            id,
            i,
            choose|k: int| self.is_first_match(nodes, id, k),
        );
    }

    /// In a chain whose nodes carry pairwise distinct identifiers, looking
    /// up the identifier of any node returns that node.
    pub proof fn lemma_find_distinct(&self, head: u64, nodes: Seq<u64>, i: int)
        requires
            self.is_chain(head, nodes),
            forall|j: int, k: int|
                0 <= j < k < nodes.len() ==> self.spec_tag_at(#[trigger] nodes[j]).identifier
                    != self.spec_tag_at(#[trigger] nodes[k]).identifier,
            0 <= i < nodes.len(),
        ensures
            self.spec_find_tag(head, self.spec_tag_at(nodes[i]).identifier) == Some(nodes[i]),
    {
        let id = self.spec_tag_at(nodes[i]).identifier;
        assert(self.is_first_match(nodes, id, i));
        self.lemma_find_first(head, nodes, id, i);
    }

    /// Looking up an identifier that no node of the chain carries finds
    /// nothing.
    pub proof fn lemma_find_absent(&self, head: u64, nodes: Seq<u64>, id: u64)
        requires
            self.is_chain(head, nodes),
            forall|i: int|
                0 <= i < nodes.len() ==> self.spec_tag_at(#[trigger] nodes[i]).identifier != id,
        ensures
            self.spec_find_tag(head, id) is None,
    {
        self.lemma_chain_unique(head, nodes);
        assert(forall|i: int| !self.is_first_match(nodes, id, i));
    }

    /// Where an identifier is carried by two nodes and by no other, the
    /// lookup returns the one nearer the head.
    pub proof fn lemma_find_earlier(
        &self,
        head: u64,
        nodes: Seq<u64>,
        id: u64,
        earlier: int,
        later: int,
    )
        requires
            self.is_chain(head, nodes),
            0 <= earlier < later < nodes.len(),
            forall|i: int|
                0 <= i < nodes.len() ==> (self.spec_tag_at(#[trigger] nodes[i]).identifier == id
                    <==> i == earlier || i == later),
        ensures
            self.spec_find_tag(head, id) == Some(nodes[earlier]),
    {
        assert(self.is_first_match(nodes, id, earlier));
        self.lemma_find_first(head, nodes, id, earlier);
    }

    /// A lookup that finds a node finds one of the chain that carries the
    /// identifier, and a lookup that finds none means no node carries it.
    pub proof fn lemma_find_sound(&self, head: u64, id: u64)
        requires
            self.chain_wf(head),
        ensures
            match self.spec_find_tag(head, id) {
                Some(addr) => {
                    &&& addr != 0
                    &&& self.spec_chain(head).contains(addr)
                    &&& self.spec_contains(addr, Stivale2Tag::spec_size())
                    &&& self.spec_tag_at(addr).identifier == id
                },
                None => forall|i: int|
                    0 <= i < self.spec_chain(head).len() ==> self.spec_tag_at(
                        #[trigger] self.spec_chain(head)[i],
                    ).identifier != id,
            },
    {
        let nodes = self.spec_chain(head);
        if exists|i: int| self.is_first_match(nodes, id, i) {
            let i = choose|i: int| self.is_first_match(nodes, id, i);
            assert(nodes[i] != 0);
        } else {
            assert forall|i: int| 0 <= i < nodes.len() implies self.spec_tag_at(
                #[trigger] nodes[i],
            ).identifier != id by {
                if self.spec_tag_at(nodes[i]).identifier == id {
                    self.lemma_some_first_match(nodes, id, i);
                }
            }
        }
    }

    /// If some node up to index `i` carries `id`, then some node is the
    /// first to carry it.
    proof fn lemma_some_first_match(&self, nodes: Seq<u64>, id: u64, i: int)
        requires
            0 <= i < nodes.len(),
            self.spec_tag_at(nodes[i]).identifier == id,
        ensures
            exists|k: int| self.is_first_match(nodes, id, k),
        decreases i,
    {
        if forall|j: int| 0 <= j < i ==> self.spec_tag_at(#[trigger] nodes[j]).identifier != id {
            assert(self.is_first_match(nodes, id, i));
        } else {
            let j = choose|j: int|
                0 <= j < i && self.spec_tag_at(#[trigger] nodes[j]).identifier == id;
            self.lemma_some_first_match(nodes, id, j);
        }
    }

    /// At most one node is the first to carry a given identifier.
    pub proof fn lemma_first_match_unique(&self, nodes: Seq<u64>, id: u64, i: int, j: int)
        requires
            self.is_first_match(nodes, id, i),
            self.is_first_match(nodes, id, j),
        ensures
            i == j,
    {
        if i < j {
            assert(self.spec_tag_at(nodes[i]).identifier != id);
        }
        if j < i {
            assert(self.spec_tag_at(nodes[j]).identifier != id);
        }
    }
}

} // verus!
