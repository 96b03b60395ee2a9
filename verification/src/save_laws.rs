//! What saving writes of each stack and what loading reads of each slot.

use vstd::prelude::*;
use crate::chest_minecart::MinecartView;
use crate::container::empty_slots;
use crate::identifier::IdentifierView;
use crate::item_stack::ItemStackView;
use crate::minecart_laws::{law_last_stack_wins, law_saved_slots_ascend, named_slot};
use crate::nbt::{CompoundView, ListView, TagView};
use crate::nbt::{find, find_byte};
use crate::nbt_laws::law_find_pushed;
use crate::save_format::CONTAINER_SIZE;
use crate::save_format::{flag_byte, in_slot, items_entry, listed_stacks, placeable};
use crate::save_format::{placeable_slots, saved_slot, saved_stacks};

verus! {

/// A stack is saved in its whole form: all entries of the form, in order, and
/// after them the slot. What is found under any other name is what is found in
/// the form.
pub proof fn law_slots_are_added_to_the_whole_form(form: CompoundView, slot: int, name: Seq<char>)
    requires
        0 <= slot < 27,
    ensures
        in_slot(form, slot).len() == form.len() + 1,
        in_slot(form, slot).take(form.len() as int) == form,
        in_slot(form, slot)[form.len() as int].0 == "Slot"@,
        in_slot(form, slot)[form.len() as int].1 == TagView::Byte(slot as i8),
        name != "Slot"@ ==> find(in_slot(form, slot), name) == find(form, name),
        find(form, "Slot"@) is None ==> find_byte(in_slot(form, slot), "Slot"@) == Some(slot as i8),
{
    assert(in_slot(form, slot).take(form.len() as int) =~= form);
    law_find_pushed(form, ("Slot"@, TagView::Byte(slot as i8)), name);
    law_find_pushed(form, ("Slot"@, TagView::Byte(slot as i8)), "Slot"@);
}

/// Every slot with items in it and with a saved form is saved: somewhere in the
/// list stands that form, whole, with the slot after it.
pub proof fn law_every_occupied_slot_is_saved(
    items: Seq<ItemStackView>,
    encoded: Seq<Option<CompoundView>>,
    n: nat,
    slot: int,
    form: CompoundView,
) -> (place: int)
    requires
        n <= items.len(),
        items.len() == 27,
        encoded.len() == 27,
        0 <= slot < n,
        items[slot].count > 0,
        !(items[slot].item.namespace == "minecraft"@ && items[slot].item.path == "air"@),
        encoded[slot] == Some(form),
    ensures
        ({
            let saved = saved_stacks(items, encoded, n);
            &&& 0 <= place < saved.len()
            &&& saved[place].len() == form.len() + 1
            &&& saved[place].take(form.len() as int) == form
            &&& saved[place][form.len() as int] == ("Slot"@, TagView::Byte(slot as i8))
        }),
    decreases n,
{
    let before = saved_stacks(items, encoded, (n - 1) as nat);
    let saved = saved_stacks(items, encoded, n);
    law_slots_are_added_to_the_whole_form(form, slot, "Slot"@);
    if slot == n - 1 {
        assert(saved == before.push(in_slot(form, slot)));
        before.len() as int
    } else {
        let place = law_every_occupied_slot_is_saved(
            items,
            encoded,
            (n - 1) as nat,
            slot,
            form,
        );
        assert(saved[place] == before[place]);
        place
    }
}

/// Nothing else is saved: what stands in the list is the whole saved form of a
/// slot with items in it, with that slot after it.
pub proof fn law_only_occupied_slots_are_saved(
    items: Seq<ItemStackView>,
    encoded: Seq<Option<CompoundView>>,
    n: nat,
    place: int,
) -> (slot: int)
    requires
        n <= items.len(),
        items.len() == 27,
        encoded.len() == 27,
        0 <= place < saved_stacks(items, encoded, n).len(),
    ensures
        ({
            let saved = saved_stacks(items, encoded, n)[place];
            &&& 0 <= slot < n
            &&& items[slot].count > 0
            &&& !(items[slot].item.namespace == "minecraft"@ && items[slot].item.path == "air"@)
            &&& encoded[slot] matches Some(form) && {
                &&& saved.len() == form.len() + 1
                &&& saved.take(form.len() as int) == form
                &&& saved[form.len() as int] == ("Slot"@, TagView::Byte(slot as i8))
            }
        }),
    decreases n,
{
    let before = saved_stacks(items, encoded, (n - 1) as nat);
    let saved = saved_stacks(items, encoded, n);
    if place < before.len() {
        assert(saved[place] == before[place]);
        law_only_occupied_slots_are_saved(items, encoded, (n - 1) as nat, place)
    } else {
        law_slots_are_added_to_the_whole_form(encoded[n - 1]->0, n - 1, "Slot"@);
        n - 1
    }
}

/// A larger slot stands later in the list.
pub proof fn law_slots_are_saved_in_order(
    items: Seq<ItemStackView>,
    encoded: Seq<Option<CompoundView>>,
    n: nat,
    place: int,
    later: int,
)
    requires
        n <= items.len(),
        items.len() == 27,
        encoded.len() == 27,
        0 <= place < later < saved_stacks(items, encoded, n).len(),
    ensures
        ({
            let saved = saved_stacks(items, encoded, n);
            &&& saved[place].last().1 is Byte
            &&& saved[later].last().1 is Byte
            &&& saved[place].last().1->Byte_0 < saved[later].last().1->Byte_0
        }),
{
    law_saved_slots_ascend(items, encoded, n);
    let saved = saved_stacks(items, encoded, n);
    assert(named_slot(saved[place])
        < named_slot(saved[later]));
    let first = law_only_occupied_slots_are_saved(items, encoded, n, place);
    let second = law_only_occupied_slots_are_saved(items, encoded, n, later);
}

/// What saving adds, entry by entry: the rotation flag, which is never set;
/// whether the cart has ticked; the loot table and its seed, as far as there are
/// any; and last the stacks.
pub proof fn law_saved_entries(cart: MinecartView, encoded: Seq<Option<CompoundView>>)
    ensures
        ({
            let saved = cart.saved(encoded);
            &&& saved.len() == 3 + (if cart.state.loot_table is None {
                0int
            } else if cart.state.loot_table_seed == 0 {
                1int
            } else {
                2int
            })
            &&& saved[0] == ("FlippedRotation"@, TagView::Byte(0))
            &&& saved[1].0 == "HasTicked"@
            &&& cart.state.first_tick ==> saved[1].1 == TagView::Byte(1)
            &&& !cart.state.first_tick ==> saved[1].1 == TagView::Byte(0)
            &&& cart.state.loot_table matches Some(loot_table) ==> saved[2] == (
                "LootTable"@,
                TagView::String(loot_table.text()),
            )
            &&& cart.state.loot_table is Some && cart.state.loot_table_seed != 0 ==> saved[3] == (
                "LootTableSeed"@,
                TagView::Long(cart.state.loot_table_seed),
            )
            &&& saved.last() == (
                "Items"@,
                TagView::List(ListView::Compound(saved_stacks(cart.items, encoded, 27))),
            )
        }),
{
}

/// A flag is written as one or zero, and the stacks under `Items` as a list of
/// compounds. A cart has 27 slots.
pub proof fn law_written_values(flag: bool, stacks: Seq<CompoundView>)
    ensures
        CONTAINER_SIZE == 27,
        flag_byte(flag) == 1 <==> flag,
        flag_byte(flag) == 0 <==> !flag,
        items_entry(stacks).0 == "Items"@,
        items_entry(stacks).1 == TagView::List(ListView::Compound(stacks)),
{
}

/// The stacks that are listed are those of the first tag named `Items`, if that
/// is a list of compounds, and none otherwise.
pub proof fn law_listed_stacks(nbt: CompoundView)
    ensures
        find(nbt, "Items"@) matches Some(TagView::List(ListView::Compound(stacks)))
            ==> listed_stacks(nbt) == stacks,
        !(find(nbt, "Items"@) matches Some(TagView::List(ListView::Compound(_))))
            ==> listed_stacks(nbt).len() == 0,
{
}

/// A saved stack belongs in a slot exactly if its first tag named `Slot` is a
/// byte from 0 to 26.
pub proof fn law_saved_slots(stack: CompoundView, slot: int)
    ensures
        saved_slot(stack) == Some(slot) <==> 0 <= slot < 27 && find(stack, "Slot"@) == Some(
            TagView::Byte(slot as i8),
        ),
{
}

/// The stacks of two lists that belong in a slot are those of the first and then
/// those of the second.
pub proof fn law_lists_are_read_in_order(first: Seq<CompoundView>, second: Seq<CompoundView>)
    ensures
        placeable(first + second) == placeable(first) + placeable(second),
    decreases second.len(),
{
    if second.len() == 0 {
        assert(first + second =~= first);
        assert(placeable(first) + placeable(second) =~= placeable(first));
    } else {
        law_lists_are_read_in_order(first, second.drop_last());
        assert((first + second).drop_last() =~= first + second.drop_last());
        assert(placeable(first + second) =~= placeable(first) + placeable(second));
    }
}

/// A single saved stack is kept, whole, with the slot that it names if there is
/// such a slot, and left out otherwise.
pub proof fn law_stacks_are_read_whole(stack: CompoundView, slot: int)
    ensures
        placeable(Seq::empty()).len() == 0,
        placeable(seq![stack]).len() <= 1,
        placeable(seq![stack]).len() == 1 ==> placeable(seq![stack])[0].1 == stack,
        placeable(seq![stack]).len() == 1 && placeable(seq![stack])[0].0 == slot <==> 0 <= slot < 27
            && find(stack, "Slot"@) == Some(TagView::Byte(slot as i8)),
{
    reveal_with_fuel(placeable, 2);
    assert(seq![stack].drop_last() =~= Seq::empty());
    law_saved_slots(stack, slot);
}

proof fn lemma_placeable_slots_exist(stacks: Seq<CompoundView>)
    ensures
        forall|i: int|
            0 <= i < placeable(stacks).len() ==> 0 <= (#[trigger] placeable(stacks)[i]).0 < 27,
    decreases stacks.len(),
{
    if stacks.len() > 0 {
        lemma_placeable_slots_exist(stacks.drop_last());
        let before = placeable(stacks.drop_last());
        assert forall|i: int| 0 <= i < placeable(stacks).len() implies 0 <= (
        #[trigger] placeable(stacks)[i]).0 < 27 by {
            if i < before.len() {
                assert(placeable(stacks)[i] == before[i]);
            }
        }
    }
}

/// The slots that saved stacks belong in, one by one.
pub proof fn law_placeable_slots(nbt: CompoundView, i: int)
    ensures
        placeable_slots(nbt).len() == placeable(listed_stacks(nbt)).len(),
        0 <= i < placeable_slots(nbt).len() ==> placeable_slots(nbt)[i] == placeable(
            listed_stacks(nbt),
        )[i].0,
{
}

/// What loading does to each part of the cart: the tick flag is taken over where
/// there is one; loot table and seed are replaced; nothing else of the state,
/// and nothing of the rest but the slots, changes.
pub proof fn law_loading_changes_what_is_saved(
    cart: MinecartView,
    nbt: CompoundView,
    loot_table: Option<IdentifierView>,
    stacks: Seq<Option<ItemStackView>>,
)
    ensures
        ({
            let loaded = cart.loaded(nbt, loot_table, stacks);
            &&& loaded.base == cart.base
            &&& loaded.entity_type == cart.entity_type
            &&& loaded.data == cart.data
            &&& loaded.state.damage == cart.state.damage
            &&& loaded.state.on_rails == cart.state.on_rails
            &&& find(nbt, "HasTicked"@) matches Some(TagView::Byte(flag))
                ==> loaded.state.first_tick == (flag != 0)
            &&& !(find(nbt, "HasTicked"@) matches Some(TagView::Byte(_)))
                ==> loaded.state.first_tick == cart.state.first_tick
            &&& find(nbt, "LootTable"@) matches Some(TagView::String(_))
                ==> loaded.state.loot_table == loot_table
            &&& !(find(nbt, "LootTable"@) matches Some(TagView::String(_)))
                ==> loaded.state.loot_table is None
            &&& find(nbt, "LootTableSeed"@) matches Some(TagView::Long(seed))
                ==> loaded.state.loot_table_seed == seed
            &&& !(find(nbt, "LootTableSeed"@) matches Some(TagView::Long(_)))
                ==> loaded.state.loot_table_seed == 0
        }),
{
}

/// After loading, a slot holds the last stack that was read for it, whole, and
/// nothing if none was. `last` is the place of that stack, or -1.
pub proof fn law_loaded_slots(
    cart: MinecartView,
    nbt: CompoundView,
    loot_table: Option<IdentifierView>,
    stacks: Seq<Option<ItemStackView>>,
    slot: int,
    last: int,
)
    requires
        stacks.len() == placeable(listed_stacks(nbt)).len(),
        0 <= slot < 27,
        -1 <= last < stacks.len(),
        last >= 0 ==> placeable(listed_stacks(nbt))[last].0 == slot && stacks[last] is Some,
        forall|i: int|
            last < i < stacks.len() && (#[trigger] placeable(listed_stacks(nbt))[i]).0 == slot
                ==> stacks[i] is None,
    ensures
        ({
            let loaded = cart.loaded(nbt, loot_table, stacks);
            &&& loaded.items.len() == 27
            &&& last >= 0 ==> Some(loaded.items[slot]) == stacks[last]
            &&& last < 0 ==> {
                &&& loaded.items[slot].count == 0
                &&& loaded.items[slot].item.namespace == "minecraft"@
                &&& loaded.items[slot].item.path == "air"@
                &&& loaded.items[slot].lodestone_tracker is None
                &&& loaded.items[slot].components.len() == 0
            }
        }),
{
    let found = placeable(listed_stacks(nbt));
    let slots = placeable_slots(nbt);
    lemma_placeable_slots_exist(listed_stacks(nbt));
    assert forall|i: int| 0 <= i < slots.len() implies 0 <= #[trigger] slots[i] < 27 by {
        assert(slots[i] == found[i].0);
    }
    assert forall|i: int| last < i < stacks.len() && slots[i] == slot implies stacks[i]
        is None by {
        assert(slots[i] == found[i].0);
    }
    law_last_stack_wins(
        empty_slots(CONTAINER_SIZE as nat),
        slots,
        stacks,
        slot,
        last,
    );
}

/// Filling puts each stack, whole, into its slot, the last one where several go
/// into one, and changes nothing but the slots. `last` is the place of the last
/// stack for the slot, or -1.
pub proof fn law_filled_slots(
    cart: MinecartView,
    slots: Seq<int>,
    stacks: Seq<Option<ItemStackView>>,
    slot: int,
    last: int,
)
    requires
        slots.len() == stacks.len(),
        forall|i: int| 0 <= i < slots.len() ==> 0 <= #[trigger] slots[i] < cart.items.len(),
        0 <= slot < cart.items.len(),
        -1 <= last < stacks.len(),
        last >= 0 ==> slots[last] == slot && stacks[last] is Some,
        forall|i: int| last < i < stacks.len() && slots[i] == slot ==> stacks[i] is None,
    ensures
        ({
            let filled = cart.filled(slots, stacks);
            &&& filled.base == cart.base
            &&& filled.entity_type == cart.entity_type
            &&& filled.state == cart.state
            &&& filled.data == cart.data
            &&& filled.items.len() == cart.items.len()
            &&& last >= 0 ==> Some(filled.items[slot]) == stacks[last]
            &&& last < 0 ==> filled.items[slot] == cart.items[slot]
        }),
{
    law_last_stack_wins(cart.items, slots, stacks, slot, last);
}

} // verus!
