//! How a chest minecart is written into a compound and found in it again.

use vstd::prelude::*;
use crate::item_stack::ItemStackView;
use crate::nbt::{CompoundView, ListView, NbtCompound, TagView};
use crate::nbt::{compound_views, find_byte, find_compounds};

verus! {

/// The number of slots of a chest minecart.
pub const CONTAINER_SIZE: usize = 27;

/// A flag as a byte.
pub open spec fn flag_byte(value: bool) -> i8 {
    if value {
        1
    } else {
        0
    }
}

/// What each of the compounds that are there stands for.
pub open spec fn optional_compound_views(compounds: Seq<Option<NbtCompound>>) -> Seq<
    Option<CompoundView>,
> {
    compounds.map_values(
        |compound: Option<NbtCompound>|
            match compound {
                Some(compound) => Some(compound@),
                None => None,
            },
    )
}

/// The saved form of a stack with the number of its slot added at the end.
pub open spec fn in_slot(stack: CompoundView, slot: int) -> CompoundView {
    stack.push(("Slot"@, TagView::Byte(slot as i8)))
}

/// The saved forms of the stacks in the first `n` slots. Empty slots are left
/// out, and so are stacks that have no saved form.
pub open spec fn saved_stacks(
    items: Seq<ItemStackView>,
    encoded: Seq<Option<CompoundView>>,
    n: nat,
) -> Seq<CompoundView>
    decreases n,
{
    if n == 0 {
        Seq::empty()
    } else {
        let slot = n - 1;
        let before = saved_stacks(items, encoded, slot as nat);
        if items[slot].is_empty() {
            before
        } else {
            match encoded[slot] {
                Some(stack) => before.push(in_slot(stack, slot)),
                None => before,
            }
        }
    }
}

/// The entry under which the stacks are saved.
pub open spec fn items_entry(stacks: Seq<CompoundView>) -> (Seq<char>, TagView) {
    ("Items"@, TagView::List(ListView::Compound(stacks)))
}

/// The slot that a saved stack belongs in, if it names one that there is.
pub open spec fn saved_slot(stack: CompoundView) -> Option<int> {
    match find_byte(stack, "Slot"@) {
        Some(slot) => if 0 <= slot < CONTAINER_SIZE {
            Some(slot as int)
        } else {
            None
        },
        None => None,
    }
}

/// The saved stacks of a compound, in the order in which they are listed.
pub open spec fn listed_stacks(nbt: CompoundView) -> Seq<CompoundView> {
    match find_compounds(nbt, "Items"@) {
        Some(stacks) => stacks,
        None => Seq::empty(),
    }
}

/// Those of the saved stacks that belong in a slot, each with its slot.
pub open spec fn placeable(stacks: Seq<CompoundView>) -> Seq<(int, CompoundView)>
    decreases stacks.len(),
{
    if stacks.len() == 0 {
        Seq::empty()
    } else {
        let before = placeable(stacks.drop_last());
        match saved_slot(stacks.last()) {
            Some(slot) => before.push((slot, stacks.last())),
            None => before,
        }
    }
}

/// The slots of the saved stacks that belong in one.
pub open spec fn placeable_slots(nbt: CompoundView) -> Seq<int> {
    placeable(listed_stacks(nbt)).map_values(|stack: (int, CompoundView)| stack.0)
}

/// A saved stack and the slot that it belongs in.
#[derive(Debug)]
pub struct SavedStack<'a> {
    pub slot: usize,
    pub compound: &'a NbtCompound,
}

impl View for SavedStack<'_> {
    type V = (int, CompoundView);

    open spec fn view(&self) -> (int, CompoundView) {
        (self.slot as int, self.compound@)
    }
}

/// What each of the saved stacks stands for.
pub open spec fn saved_stack_views(stacks: Seq<SavedStack<'_>>) -> Seq<(int, CompoundView)> {
    stacks.map_values(|stack: SavedStack<'_>| stack@)
}

/// The saved stacks of a compound that belong in a slot, in the order in which
/// they are listed.
pub fn read_saved_stacks<'a>(nbt: &'a NbtCompound) -> (result: Vec<SavedStack<'a>>)
    ensures
        saved_stack_views(result@) == placeable(listed_stacks(nbt@)),
        forall|i: int| 0 <= i < result@.len() ==> (#[trigger] result@[i]).slot < CONTAINER_SIZE,
{
    let mut result: Vec<SavedStack<'a>> = Vec::new();
    assert(saved_stack_views(result@) =~= Seq::empty());
    if let Some(stacks) = nbt.compounds("Items") {
        let ghost views = compound_views(*stacks);
        let mut i: usize = 0;
        assert(views.take(0) =~= Seq::empty());
        while i < stacks.len()
            invariant
                i <= stacks.len(),
                views == compound_views(*stacks),
                saved_stack_views(result@) == placeable(views.take(i as int)),
                forall|j: int|
                    0 <= j < result@.len() ==> (#[trigger] result@[j]).slot < CONTAINER_SIZE,
            decreases stacks.len() - i,
        {
            let stack = &stacks[i];
            assert(views.take(i + 1).drop_last() =~= views.take(i as int));
            assert(views.take(i + 1).last() == stack@);
            if let Some(slot) = stack.byte("Slot") {
                if 0 <= slot && (slot as usize) < CONTAINER_SIZE {
                    let ghost before = result@;
                    result.push(SavedStack { slot: slot as usize, compound: stack });
                    assert(saved_stack_views(result@) =~= saved_stack_views(before).push(
                        (slot as int, stack@),
                    ));
                }
            }
            i = i + 1;
        }
        assert(views.take(i as int) =~= views);
    }
    result
}

} // verus!
