//! What taking out of slots and putting into them does to each slot.

use vstd::prelude::*;
use crate::container::{emptied, empty_slots, occupied};
use crate::item_stack::ItemStackView;

verus! {

/// What is taken out of two rows of slots is what is taken out of the first and
/// then what is taken out of the second.
pub proof fn law_slots_are_taken_in_order(first: Seq<ItemStackView>, second: Seq<ItemStackView>)
    ensures
        occupied(first + second) == occupied(first) + occupied(second),
{
    Seq::filter_distributes_over_add(first, second, |stack: ItemStackView| !stack.is_empty());
}

/// What is taken out of one slot is the stack in it, whole and unchanged, unless
/// that holds no items or items of air. Nothing is taken out of no slots.
pub proof fn law_slots_are_taken_whole(stack: ItemStackView)
    ensures
        occupied(Seq::empty()) == Seq::<ItemStackView>::empty(),
        stack.count > 0 && !(stack.item.namespace == "minecraft"@ && stack.item.path == "air"@)
            ==> occupied(seq![stack]) == seq![stack],
        stack.count <= 0 || (stack.item.namespace == "minecraft"@ && stack.item.path == "air"@)
            ==> occupied(seq![stack]) == Seq::<ItemStackView>::empty(),
{
    reveal(Seq::filter);
    let slots = seq![stack];
    assert(slots.drop_last() =~= Seq::empty());
    assert(occupied(Seq::empty()) =~= Seq::empty());
    assert(occupied(slots) =~= if stack.is_empty() {
        Seq::empty()
    } else {
        seq![stack]
    });
}

/// A slot that was taken from holds no items any more and is otherwise as it
/// was; any other slot is as it was.
pub proof fn law_taken_slots_keep_all_but_the_count(items: Seq<ItemStackView>, slot: int)
    requires
        0 <= slot < items.len(),
    ensures
        emptied(items).len() == items.len(),
        emptied(items)[slot].item == items[slot].item,
        emptied(items)[slot].lodestone_tracker == items[slot].lodestone_tracker,
        emptied(items)[slot].components == items[slot].components,
        emptied(items)[slot].count == if items[slot].count <= 0 || (items[slot].item.namespace
            == "minecraft"@ && items[slot].item.path == "air"@) {
            items[slot].count
        } else {
            0
        },
{
}

/// Empty slots hold no items, of air, with no components.
pub proof fn law_empty_slots_hold_nothing(size: nat, slot: int)
    ensures
        empty_slots(size).len() == size,
        0 <= slot < size ==> {
            &&& empty_slots(size)[slot].count == 0
            &&& empty_slots(size)[slot].item.namespace == "minecraft"@
            &&& empty_slots(size)[slot].item.path == "air"@
            &&& empty_slots(size)[slot].lodestone_tracker is None
            &&& empty_slots(size)[slot].components.len() == 0
        },
{
}

} // verus!
