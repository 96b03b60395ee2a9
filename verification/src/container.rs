//! A container with a fixed number of slots.

use vstd::prelude::*;
use crate::item_stack::{ItemStack, ItemStackView};

verus! {

/// Slots that each hold a stack, perhaps an empty one.
#[derive(Debug)]
pub struct SimpleContainer {
    items: Vec<ItemStack>,
}

/// What each of the stacks stands for.
pub open spec fn stack_views(stacks: Seq<ItemStack>) -> Seq<ItemStackView> {
    stacks.map_values(|stack: ItemStack| stack@)
}

/// What each of the stacks that are there stands for.
pub open spec fn optional_stack_views(stacks: Seq<Option<ItemStack>>) -> Seq<
    Option<ItemStackView>,
> {
    stacks.map_values(
        |stack: Option<ItemStack>|
            match stack {
                Some(stack) => Some(stack@),
                None => None,
            },
    )
}

/// The stacks that are not empty, in slot order.
pub open spec fn occupied(items: Seq<ItemStackView>) -> Seq<ItemStackView> {
    items.filter(|stack: ItemStackView| !stack.is_empty())
}

/// The slots once everything in them has been taken out.
pub open spec fn emptied(items: Seq<ItemStackView>) -> Seq<ItemStackView> {
    items.map_values(
        |stack: ItemStackView|
            if stack.is_empty() {
                stack
            } else {
                stack.with_count(0)
            },
    )
}

/// `size` slots with nothing in them.
pub open spec fn empty_slots(size: nat) -> Seq<ItemStackView> {
    Seq::new(size, |slot: int| ItemStackView::empty())
}

/// The slots after the stacks that are there have been put, one after the
/// other, each into its slot. A later stack replaces an earlier one.
pub open spec fn placed(
    items: Seq<ItemStackView>,
    slots: Seq<int>,
    stacks: Seq<Option<ItemStackView>>,
) -> Seq<ItemStackView>
    decreases stacks.len(),
{
    if stacks.len() == 0 {
        items
    } else {
        let before = placed(items, slots, stacks.drop_last());
        match stacks.last() {
            Some(stack) => before.update(slots[stacks.len() - 1], stack),
            None => before,
        }
    }
}

impl View for SimpleContainer {
    type V = Seq<ItemStackView>;

    closed spec fn view(&self) -> Seq<ItemStackView> {
        stack_views(self.items@)
    }
}

impl SimpleContainer {
    /// A container of empty slots.
    pub fn new(size: usize) -> (result: SimpleContainer)
        ensures
            result@ == empty_slots(size as nat),
    {
        let mut items: Vec<ItemStack> = Vec::new();
        let mut slot: usize = 0;
        while slot < size
            invariant
                slot <= size,
                items@.len() == slot,
                forall|i: int| 0 <= i < slot ==> (#[trigger] items@[i])@ == ItemStackView::empty(),
            decreases size - slot,
        {
            items.push(ItemStack::empty());
            slot = slot + 1;
        }
        assert(stack_views(items@) =~= empty_slots(size as nat));
        SimpleContainer { items }
    }

    /// The number of slots.
    pub fn get_container_size(&self) -> (result: usize)
        ensures
            result == self@.len(),
    {
        self.items.len()
    }

    /// The stack in a slot.
    pub fn get_item(&self, slot: usize) -> (result: &ItemStack)
        requires
            slot < self@.len(),
        ensures
            result@ == self@[slot as int],
    {
        &self.items[slot]
    }

    /// Replaces the stack in a slot.
    pub fn set_item(&mut self, slot: usize, stack: ItemStack)
        requires
            slot < old(self)@.len(),
        ensures
            final(self)@ == old(self)@.update(slot as int, stack@),
    {
        self.items[slot] = stack;
        assert(self@ =~= old(self)@.update(slot as int, stack@));
    }

    /// Empties every slot.
    pub fn clear(&mut self)
        ensures
            final(self)@ == empty_slots(old(self)@.len()),
    {
        let size = self.items.len();
        let mut slot: usize = 0;
        while slot < size
            invariant
                slot <= size,
                size == self@.len(),
                size == old(self)@.len(),
                forall|i: int| 0 <= i < slot ==> self@[i] == ItemStackView::empty(),
            decreases size - slot,
        {
            self.set_item(slot, ItemStack::empty());
            slot = slot + 1;
        }
        assert(self@ =~= empty_slots(old(self)@.len()));
    }

    /// Takes everything out, in slot order.
    pub fn take_all(&mut self) -> (taken: Vec<ItemStack>)
        ensures
            stack_views(taken@) == occupied(old(self)@),
            final(self)@ == emptied(old(self)@),
    {
        let size = self.items.len();
        let mut taken: Vec<ItemStack> = Vec::new();
        let mut slot: usize = 0;
        assert(old(self)@.take(0) =~= Seq::empty());
        proof {
            reveal(Seq::filter);
        }
        assert(stack_views(taken@) =~= occupied(old(self)@.take(0)));
        while slot < size
            invariant
                slot <= size,
                size == self.items@.len(),
                size == old(self)@.len(),
                stack_views(taken@) == occupied(old(self)@.take(slot as int)),
                forall|i: int| 0 <= i < slot ==> self@[i] == emptied(old(self)@)[i],
                forall|i: int| slot <= i < size ==> self@[i] == old(self)@[i],
            decreases size - slot,
        {
            let ghost before = self@;
            let ghost seen = old(self)@.take(slot + 1);
            proof {
                reveal(Seq::filter);
                assert(seen.drop_last() =~= old(self)@.take(slot as int));
                assert(seen.last() == old(self)@[slot as int]);
                assert(before[slot as int] == self.items@[slot as int]@);
            }
            if !self.items[slot].is_empty() {
                let count = self.items[slot].count();
                let stack = self.items[slot].split(count);
                let ghost earlier = taken@;
                taken.push(stack);
                assert(stack_views(taken@) =~= stack_views(earlier).push(stack@));
                assert(self@ =~= before.update(
                    slot as int,
                    old(self)@[slot as int].with_count(0),
                ));
            }
            assert(stack_views(taken@) =~= occupied(seen));
            slot = slot + 1;
        }
        assert(old(self)@.take(size as int) =~= old(self)@);
        assert(self@ =~= emptied(old(self)@));
        taken
    }
}

} // verus!
