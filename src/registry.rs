use vstd::hash_map::HashMapWithView;
use vstd::prelude::*;

verus! {

broadcast use vstd::std_specs::hash::group_hash_axioms;

/// The inode number of the root directory.
pub const ROOT_INODE_NUMBER: u64 = 0;

/// The first inode number handed out to a created entry.
pub const FIRST_FREE_INUM: u64 = 3;

/// A 128-bit object identifier of the store.
#[derive(Debug, Clone, Copy, PartialEq, Eq, Structural)]
pub struct ObjectId {
    pub lo: u64,
    pub hi: u64,
}

/// Where the record of an entry lives: its own object, the directory object
/// that lists it, and the key under which it is listed there.
#[derive(Debug)]
pub struct InodeInfo {
    pub oid: ObjectId,
    pub parent_oid: ObjectId,
    pub name: Vec<u8>,
}

/// The inode registry after `insert(ino, info)`: unchanged where `ino` is
/// already mapped.
pub open spec fn insert_first(m: Map<u64, InodeInfo>, ino: u64, info: InodeInfo) -> Map<
    u64,
    InodeInfo,
> {
    if m.contains_key(ino) {
        m
    } else {
        m.insert(ino, info)
    }
}

/// Process-local map from inode numbers to store locations. A mapping, once
/// inserted, is never replaced.
pub struct InodeRegistry {
    map: HashMapWithView<u64, InodeInfo>,
}

impl View for InodeRegistry {
    type V = Map<u64, InodeInfo>;

    closed spec fn view(&self) -> Map<u64, InodeInfo> {
        self.map@
    }
}

impl InodeRegistry {
    pub fn new() -> (r: InodeRegistry)
        ensures
            r@ == Map::<u64, InodeInfo>::empty(),
    {
        InodeRegistry { map: HashMapWithView::new() }
    }

    pub fn get(&self, ino: u64) -> (r: Option<&InodeInfo>)
        ensures
            match r {
                Some(info) => self@.contains_key(ino) && *info == self@[ino],
                None => !self@.contains_key(ino),
            },
    {
        self.map.get(&ino)
    }

    pub fn contains(&self, ino: u64) -> (r: bool)
        ensures
            r == self@.contains_key(ino),
    {
        self.map.contains_key(&ino)
    }

    /// Records `info` for `ino` unless `ino` is already mapped; returns
    /// whether it was recorded.
    pub fn insert(&mut self, ino: u64, info: InodeInfo) -> (inserted: bool)
        ensures
            final(self)@ == insert_first(old(self)@, ino, info),
            inserted == !old(self)@.contains_key(ino),
    {
        if self.map.contains_key(&ino) {
            false
        } else {
            self.map.insert(ino, info);
            true
        }
    }
}

/// A second insert under an inode number keeps the mapping of the first,
/// whatever the two mappings are.
pub proof fn lemma_first_insert_wins(
    m: Map<u64, InodeInfo>,
    ino: u64,
    first: InodeInfo,
    second: InodeInfo,
)
    requires
        !m.contains_key(ino),
    ensures
        insert_first(insert_first(m, ino, first), ino, second) == m.insert(ino, first),
        insert_first(insert_first(m, ino, first), ino, second)[ino] == first,
{
}

/// Source of fresh inode numbers: every number it hands out is at least 3 and
/// greater than all it handed out before.
pub struct InodeCounter {
    next: u64,
}

impl InodeCounter {
    /// The number that the next allocation returns.
    pub closed spec fn next_inum(&self) -> u64 {
        self.next
    }

    pub closed spec fn wf(&self) -> bool {
        self.next >= 3
    }

    pub fn new() -> (c: InodeCounter)
        ensures
            c.wf(),
            c.next_inum() == FIRST_FREE_INUM,
    {
        InodeCounter { next: FIRST_FREE_INUM }
    }
}

/// One allocation that moved a counter from `before` to `after` and returned `n`.
pub open spec fn allocation_step(before: InodeCounter, n: u64, after: InodeCounter) -> bool {
    &&& before.wf()
    &&& after.wf()
    &&& n == before.next_inum()
    &&& after.next_inum() == n + 1
}

/// Hands out the next inode number; `None` once the number space is spent,
/// since a number is never handed out twice.
pub fn alloc_inum(counter: &mut InodeCounter) -> (r: Option<u64>)
    requires
        old(counter).wf(),
    ensures
        final(counter).wf(),
        match r {
            Some(n) => allocation_step(*old(counter), n, *final(counter)) && n >= FIRST_FREE_INUM,
            None => old(counter).next_inum() == u64::MAX && *final(counter) == *old(counter),
        },
{
    if counter.next == u64::MAX {
        None
    } else {
        let n = counter.next;
        counter.next = n + 1;
        Some(n)
    }
}

/// Any run of successive allocations returns pairwise distinct numbers, each
/// at least 3, in increasing order.
pub proof fn lemma_allocations_distinct(states: Seq<InodeCounter>, nums: Seq<u64>)
    requires
        states.len() == nums.len() + 1,
        forall|i: int|
            0 <= i < nums.len() ==> #[trigger] allocation_step(states[i], nums[i], states[i + 1]),
    ensures
        forall|i: int| 0 <= i < nums.len() ==> #[trigger] nums[i] >= FIRST_FREE_INUM,
        forall|i: int, j: int| 0 <= i < j < nums.len() ==> nums[i] < nums[j],
        forall|i: int, j: int| 0 <= i < nums.len() && 0 <= j < nums.len() && i != j ==> nums[i] != nums[j],
    decreases nums.len(),
{
    if nums.len() > 0 {
        let k = nums.len() - 1;
        let s2 = states.subrange(0, k + 1);
        let n2 = nums.subrange(0, k);
        assert forall|i: int| 0 <= i < n2.len() implies #[trigger] allocation_step(
            s2[i],
            n2[i],
            s2[i + 1],
        ) by {
            assert(allocation_step(states[i], nums[i], states[i + 1]));
        }
        lemma_allocations_distinct(s2, n2);
        assert(allocation_step(states[k], nums[k], states[k + 1]));
        if k > 0 {
            let j = k - 1;
            assert(allocation_step(states[j], nums[j], states[j + 1]));
            assert(nums[j] == n2[j]);
        }
        assert forall|i: int| 0 <= i < k implies nums[i] < nums[k] by {
            assert(nums[i] == n2[i]);
            assert(nums[k - 1] == n2[k - 1]);
            if i < k - 1 {
                assert(n2[i] < n2[k - 1]);
            }
        }
        assert forall|i: int, j: int| 0 <= i < j < nums.len() implies nums[i] < nums[j] by {
            if j < k {
                assert(nums[i] == n2[i] && nums[j] == n2[j]);
            }
        }
        assert forall|i: int| 0 <= i < nums.len() implies #[trigger] nums[i] >= FIRST_FREE_INUM by {
            assert(allocation_step(states[i], nums[i], states[i + 1]));
        }
    }
}

} // verus!
