//! A fixed-size item inventory: stacks of identified items in slots.
//!
//! Adding merges into the first unsaturated stack of the same item, else
//! takes the first empty slot, else hands the item back. Removal splits a
//! stack or takes it whole.

use vstd::prelude::*;

verus! {

/// A stack of identical items.
#[derive(Clone, Debug)]
pub struct ItemStack {
    pub id: String,
    pub count: u16,
}

/// A fixed number of slots, each empty or holding one stack.
#[derive(Clone, Debug)]
pub struct Inventory {
    pub size: usize,
    pub slots: Vec<Option<ItemStack>>,
}

/// Whether a slot can absorb more of the item `id`: it holds a stack of the
/// same item that is not yet full.
pub open spec fn merge_ok(slot: Option<ItemStack>, id: Seq<char>) -> bool {
    match slot {
        Some(s) => s.id@ == id && s.count < 65535,
        None => false,
    }
}

/// First position at or after `k` whose slot can absorb the item, or -1.
pub open spec fn find_merge_from(slots: Seq<Option<ItemStack>>, id: Seq<char>, k: int) -> int
    decreases slots.len() - k,
{
    if k < 0 || k >= slots.len() {
        -1
    } else if merge_ok(slots[k], id) {
        k
    } else {
        find_merge_from(slots, id, k + 1)
    }
}

/// First empty position at or after `k`, or -1.
pub open spec fn find_empty_from(slots: Seq<Option<ItemStack>>, k: int) -> int
    decreases slots.len() - k,
{
    if k < 0 || k >= slots.len() {
        -1
    } else if slots[k] is None {
        k
    } else {
        find_empty_from(slots, k + 1)
    }
}

impl Inventory {
    /// One slot per position.
    pub open spec fn wf(self) -> bool {
        self.slots@.len() == self.size
    }

    /// An inventory of `size` empty slots.
    pub fn new(size: usize) -> (inv: Inventory)
        ensures
            inv.wf(),
            inv.size == size,
            forall|i: int| 0 <= i < size ==> inv.slots@[i] is None,
    {
        let mut slots: Vec<Option<ItemStack>> = Vec::new();
        let mut i: usize = 0;
        while i < size
            invariant
                i <= size,
                slots@.len() == i,
                forall|j: int| 0 <= j < i ==> slots@[j] is None,
            decreases size - i,
        {
            slots.push(None);
            i = i + 1;
        }
        Inventory { size, slots }
    }

    /// The first empty slot, if any.
    pub fn first_empty(&self) -> (r: Option<usize>)
        ensures
            match r {
                Some(i) => find_empty_from(self.slots@, 0) == i && i < self.slots@.len()
                    && self.slots@[i as int] is None,
                None => find_empty_from(self.slots@, 0) == -1,
            },
    {
        let mut i: usize = 0;
        while i < self.slots.len()
            invariant
                i <= self.slots@.len(),
                find_empty_from(self.slots@, 0) == find_empty_from(self.slots@, i as int),
            decreases self.slots@.len() - i,
        {
            if self.slots[i].is_none() {
                return Some(i);
            }
            i = i + 1;
        }
        None
    }

    /// Add a stack: merge it into the first unsaturated stack of the same
    /// item (counts add, saturating), else put it into the first empty slot,
    /// else hand it back unchanged.
    pub fn add_item(&mut self, item: ItemStack) -> (r: Result<(), ItemStack>)
        requires
            old(self).wf(),
        ensures
            final(self).wf(),
            final(self).size == old(self).size,
            ({
                let m = find_merge_from(old(self).slots@, item.id@, 0);
                let e = find_empty_from(old(self).slots@, 0);
                if m >= 0 {
                    let s = old(self).slots@[m]->Some_0;
                    &&& r is Ok
                    &&& final(self).slots@ == old(self).slots@.update(
                        m,
                        Some(
                            ItemStack {
                                id: s.id,
                                count: (
                                if s.count + item.count > 65535 {
                                    65535
                                } else {
                                    (s.count + item.count) as u16
                                }),
                            },
                        ),
                    )
                } else if e >= 0 {
                    &&& r is Ok
                    &&& final(self).slots@ == old(self).slots@.update(e, Some(item))
                } else {
                    &&& r == Result::<(), ItemStack>::Err(item)
                    &&& *final(self) == *old(self)
                }
            }),
    {
        let mut i: usize = 0;
        while i < self.slots.len()
            invariant
                self == old(self),
                old(self).wf(),
                i <= self.slots@.len(),
                find_merge_from(old(self).slots@, item.id@, 0) == find_merge_from(
                    old(self).slots@,
                    item.id@,
                    i as int,
                ),
            decreases self.slots@.len() - i,
        {
            let absorbs = match &self.slots[i] {
                Some(s) => s.id == item.id && s.count < u16::MAX,
                None => false,
            };
            if absorbs {
                if let Some(s) = &mut self.slots[i] {
                    s.count = s.count.saturating_add(item.count);
                }
                proof {
                    assert(self.slots@ =~= old(self).slots@.update(
                        i as int,
                        self.slots@[i as int],
                    ));
                }
                return Ok(());
            }
            i = i + 1;
        }
        match self.first_empty() {
            Some(j) => {
                self.slots[j] = Some(item);
                proof {
                    assert(self.slots@ =~= old(self).slots@.update(j as int, self.slots@[j as int]));
                }
                Ok(())
            },
            None => Err(item),
        }
    }

    /// Take up to `count` items out of slot `idx`: the whole stack when it
    /// has no more than `count`, else a split of `count` leaving the rest. A
    /// bad index or an empty slot yields nothing.
    pub fn remove_at(&mut self, idx: usize, count: u16) -> (r: Option<ItemStack>)
        requires
            old(self).wf(),
        ensures
            final(self).wf(),
            final(self).size == old(self).size,
            idx >= old(self).size ==> *final(self) == *old(self) && r is None,
            idx < old(self).size ==> match old(self).slots@[idx as int] {
                None => final(self).slots@ == old(self).slots@ && r is None,
                Some(stack) => {
                    if count >= stack.count {
                        &&& r == Some(stack)
                        &&& final(self).slots@ == old(self).slots@.update(idx as int, None)
                    } else {
                        &&& r == Some(ItemStack { id: stack.id, count })
                        &&& final(self).slots@ == old(self).slots@.update(
                            idx as int,
                            Some(ItemStack { id: stack.id, count: (stack.count - count) as u16 }),
                        )
                    }
                },
            },
    {
        if idx >= self.size {
            return None;
        }
        let slot = self.slots[idx].take();
        match slot {
            None => {
                proof {
                    assert(self.slots@ =~= old(self).slots@);
                }
                None
            },
            Some(mut stack) => {
                if count >= stack.count {
                    proof {
                        assert(self.slots@ =~= old(self).slots@.update(idx as int, None));
                    }
                    Some(stack)
                } else {
                    let taken = ItemStack { id: stack.id.clone(), count };
                    stack.count = stack.count - count;
                    self.slots[idx] = Some(stack);
                    proof {
                        assert(self.slots@ =~= old(self).slots@.update(
                            idx as int,
                            self.slots@[idx as int],
                        ));
                    }
                    Some(taken)
                }
            },
        }
    }
}

} // verus!
