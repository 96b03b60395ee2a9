//! What holds of chest minecarts over several calls.

use vstd::prelude::*;
use crate::chest_minecart::{ALIGNMENT_BITS, SMALLEST_PUSH_BITS};
use crate::chest_minecart::{Attacker, DismountQuery, DismountStep, EntityContact};
use crate::chest_minecart::{LootRequestView, MinecartView, PushReply, PushStep};
use crate::chest_minecart::{breaks, dismount_step, is_creative, push_step};
use crate::container::{emptied, empty_slots, occupied, placed};
use crate::float_bits::{Double, Single};
use crate::geometry::{Axis, Vec3};
use crate::identifier::IdentifierView;
use crate::identifier::vanilla;
use crate::item_stack::ItemStackView;
use crate::nbt::{CompoundView, TagView};
use crate::nbt::{find, find_byte, find_long, find_string};
use crate::nbt_laws::{law_find_in_one, law_find_in_two, law_find_pushed};
use crate::save_format::CONTAINER_SIZE;
use crate::save_format::{flag_byte, in_slot, items_entry, listed_stacks, placeable, placeable_slots};
use crate::save_format::{saved_slot, saved_stacks};

verus! {

/// A cart that is gone takes no hits: nothing changes and nothing drops.
pub proof fn law_removed_cart_takes_no_hits(
    cart: MinecartView,
    invulnerable: bool,
    attacker: Option<Attacker>,
    damage: Single,
)
    requires
        cart.is_removed(),
    ensures
        cart.hurt(invulnerable, attacker, damage) == cart,
        cart.hurt_drops(invulnerable, attacker, damage) == Seq::<ItemStackView>::empty(),
{
}

/// Nothing is left in slots that everything was taken out of.
proof fn lemma_emptied_holds_nothing(items: Seq<ItemStackView>)
    ensures
        occupied(emptied(items)) == Seq::<ItemStackView>::empty(),
    decreases items.len(),
{
    reveal(Seq::filter);
    if items.len() > 0 {
        lemma_emptied_holds_nothing(items.drop_last());
        assert(emptied(items).drop_last() =~= emptied(items.drop_last()));
    }
}

/// A hit neither loses nor doubles anything that is in the cart: what is in it
/// before drops, in slot order, or stays. All that comes on top is the cart
/// itself, where damage breaks it.
pub proof fn law_hits_conserve_contents(
    cart: MinecartView,
    invulnerable: bool,
    attacker: Option<Attacker>,
    damage: Single,
)
    ensures
        ({
            let after = cart.hurt(invulnerable, attacker, damage);
            let drops = cart.hurt_drops(invulnerable, attacker, damage);
            if after.is_removed() && !cart.is_removed() {
                &&& occupied(after.items) == Seq::<ItemStackView>::empty()
                &&& drops == if is_creative(attacker) {
                    occupied(cart.items)
                } else {
                    occupied(cart.items).push(
                        ItemStackView::plain(vanilla("chest_minecart"@), 1),
                    )
                }
            } else {
                &&& after.items == cart.items
                &&& drops == Seq::<ItemStackView>::empty()
            }
        }),
{
    lemma_emptied_holds_nothing(cart.items);
}

/// A cart that is still there is destroyed by a hit that it is not immune to,
/// exactly if the attacker is creative or the damage breaks it.
pub proof fn law_destruction(
    cart: MinecartView,
    invulnerable: bool,
    attacker: Option<Attacker>,
    damage: Single,
)
    requires
        !cart.is_removed(),
    ensures
        cart.hurt(invulnerable, attacker, damage).is_removed() <==> !invulnerable && (is_creative(
            attacker,
        ) || breaks(damage)),
{
}

/// Contents drop once: after everything dropped, dropping again gives nothing
/// and changes nothing.
pub proof fn law_contents_drop_once(items: Seq<ItemStackView>)
    ensures
        occupied(emptied(items)) == Seq::<ItemStackView>::empty(),
        emptied(emptied(items)) == emptied(items),
{
    lemma_emptied_holds_nothing(items);
    assert(emptied(emptied(items)) =~= emptied(items));
}

/// A cart leans to one side and the other in turn.
pub proof fn law_hits_alternate_sides(cart: MinecartView, first: Single, second: Single)
    requires
        cart.wf(),
    ensures
        cart.damaged(first).data.id_hurtdir == -cart.data.id_hurtdir,
        cart.damaged(first).damaged(second).data.id_hurtdir == cart.data.id_hurtdir,
{
}

/// The cart after `n` ticks, with `reduced(i)` as the reduced damage of tick `i`.
pub open spec fn ticks(cart: MinecartView, reduced: spec_fn(nat) -> Single, n: nat) -> MinecartView
    decreases n,
{
    if n == 0 {
        cart
    } else {
        ticks(cart, reduced, (n - 1) as nat).ticked(reduced((n - 1) as nat))
    }
}

/// The shaking dies down by one a tick until it is over. Ticks do nothing to the
/// state, the contents and the side that the cart leans to.
pub proof fn law_shaking_dies_down(cart: MinecartView, reduced: spec_fn(nat) -> Single, n: nat)
    requires
        cart.wf(),
    ensures
        ticks(cart, reduced, n).data.id_hurt == if n < cart.data.id_hurt {
            cart.data.id_hurt - n
        } else {
            0
        },
        ticks(cart, reduced, n).data.id_hurtdir == cart.data.id_hurtdir,
        ticks(cart, reduced, n).state == cart.state,
        ticks(cart, reduced, n).items == cart.items,
        ticks(cart, reduced, n).base == cart.base,
    decreases n,
{
    if n > 0 {
        law_shaking_dies_down(cart, reduced, (n - 1) as nat);
    }
}

/// What is in a cart after loading does not depend on what was in it before.
pub proof fn law_loading_replaces_contents(
    one: MinecartView,
    other: MinecartView,
    nbt: CompoundView,
    loot_table: Option<IdentifierView>,
    stacks: Seq<Option<ItemStackView>>,
)
    ensures
        one.loaded(nbt, loot_table, stacks).items == other.loaded(nbt, loot_table, stacks).items,
        one.loaded(nbt, loot_table, stacks).state.loot_table == other.loaded(
            nbt,
            loot_table,
            stacks,
        ).state.loot_table,
        one.loaded(nbt, loot_table, stacks).state.loot_table_seed == other.loaded(
            nbt,
            loot_table,
            stacks,
        ).state.loot_table_seed,
{
}

/// Where several saved stacks name one slot, the last of them that could be read
/// is in it; a slot that none names is as it was.
pub proof fn law_last_stack_wins(
    items: Seq<ItemStackView>,
    slots: Seq<int>,
    stacks: Seq<Option<ItemStackView>>,
    slot: int,
    last: int,
)
    requires
        slots.len() == stacks.len(),
        forall|i: int| 0 <= i < slots.len() ==> 0 <= #[trigger] slots[i] < items.len(),
        0 <= slot < items.len(),
        -1 <= last < stacks.len(),
        last >= 0 ==> slots[last] == slot && stacks[last] is Some,
        forall|i: int| last < i < stacks.len() && slots[i] == slot ==> stacks[i] is None,
    ensures
        placed(items, slots, stacks).len() == items.len(),
        placed(items, slots, stacks)[slot] == if last >= 0 {
            stacks[last]->0
        } else {
            items[slot]
        },
    decreases stacks.len(),
{
    if stacks.len() > 0 {
        let n = stacks.len() - 1;
        let fewer = stacks.drop_last();
        lemma_placed_reads_prefix(items, slots, slots.drop_last(), fewer);
        if last == n {
            lemma_placed_len(items, slots, fewer);
        } else {
            law_last_stack_wins(items, slots.drop_last(), fewer, slot, last);
        }
    }
}

proof fn lemma_placed_len(
    items: Seq<ItemStackView>,
    slots: Seq<int>,
    stacks: Seq<Option<ItemStackView>>,
)
    requires
        forall|i: int| 0 <= i < stacks.len() ==> 0 <= #[trigger] slots[i] < items.len(),
    ensures
        placed(items, slots, stacks).len() == items.len(),
    decreases stacks.len(),
{
    if stacks.len() > 0 {
        lemma_placed_len(items, slots, stacks.drop_last());
    }
}

/// Placing looks at one slot for each stack.
proof fn lemma_placed_reads_prefix(
    items: Seq<ItemStackView>,
    slots: Seq<int>,
    others: Seq<int>,
    stacks: Seq<Option<ItemStackView>>,
)
    requires
        forall|i: int| 0 <= i < stacks.len() ==> slots[i] == others[i],
    ensures
        placed(items, slots, stacks) == placed(items, others, stacks),
    decreases stacks.len(),
{
    if stacks.len() > 0 {
        lemma_placed_reads_prefix(items, slots, others, stacks.drop_last());
    }
}

/// The slots that hold something, of the first `n`.
pub open spec fn occupied_slots(items: Seq<ItemStackView>, n: nat) -> Seq<int>
    decreases n,
{
    if n == 0 {
        Seq::empty()
    } else {
        let before = occupied_slots(items, (n - 1) as nat);
        if items[n - 1].is_empty() {
            before
        } else {
            before.push(n - 1)
        }
    }
}

/// What a container looks like after it was saved and loaded: as before, with
/// all empty slots alike.
pub open spec fn tidied(items: Seq<ItemStackView>) -> Seq<ItemStackView> {
    items.map_values(
        |stack: ItemStackView|
            if stack.is_empty() {
                ItemStackView::empty()
            } else {
                stack
            },
    )
}

/// The saved form of each stack.
pub open spec fn encode_all(
    items: Seq<ItemStackView>,
    encode: spec_fn(ItemStackView) -> CompoundView,
) -> Seq<Option<CompoundView>> {
    items.map_values(|stack: ItemStackView| Some(encode(stack)))
}

/// What the saved stacks of a compound are read as.
pub open spec fn decode_all(
    nbt: CompoundView,
    decode: spec_fn(CompoundView) -> Option<ItemStackView>,
) -> Seq<Option<ItemStackView>> {
    placeable(listed_stacks(nbt)).map_values(|stack: (int, CompoundView)| decode(stack.1))
}

/// Reading gives back each stack that is written, also with its slot beside it,
/// and writing leaves the name of the slot free.
pub open spec fn codec_is_faithful(
    items: Seq<ItemStackView>,
    encode: spec_fn(ItemStackView) -> CompoundView,
    decode: spec_fn(CompoundView) -> Option<ItemStackView>,
) -> bool {
    forall|slot: int|
        0 <= slot < items.len() && !(#[trigger] items[slot]).is_empty() ==> {
            &&& find(encode(items[slot]), "Slot"@) is None
            &&& decode(encode(items[slot]).push(("Slot"@, TagView::Byte(slot as i8)))) == Some(
                items[slot],
            )
        }
}

/// What two compounds in a row hold.
proof fn lemma_find_in_two(first: CompoundView, second: CompoundView, name: Seq<char>)
    ensures
        find(first + second, name) == (match find(first, name) {
            Some(tag) => Some(tag),
            None => find(second, name),
        }),
{
    law_find_in_two(first, second, name);
}

/// What a compound of one entry holds.
proof fn lemma_find_in_one(entry: (Seq<char>, TagView), name: Seq<char>)
    ensures
        find(seq![entry], name) == if entry.0 == name {
            Some(entry.1)
        } else {
            None
        },
{
    law_find_in_one(entry, name);
}

/// What a compound holds after an entry was added.
proof fn lemma_find_pushed(compound: CompoundView, entry: (Seq<char>, TagView), name: Seq<char>)
    ensures
        find(compound.push(entry), name) == (match find(compound, name) {
            Some(tag) => Some(tag),
            None => if entry.0 == name {
                Some(entry.1)
            } else {
                None
            },
        }),
{
    law_find_pushed(compound, entry, name);
}

/// The stacks of the first `n` slots are found again in the slots they were in.
proof fn lemma_saved_stacks_are_placeable(
    items: Seq<ItemStackView>,
    encode: spec_fn(ItemStackView) -> CompoundView,
    decode: spec_fn(CompoundView) -> Option<ItemStackView>,
    n: nat,
)
    requires
        items.len() == CONTAINER_SIZE,
        n <= items.len(),
        codec_is_faithful(items, encode, decode),
    ensures
        ({
            let found = placeable(saved_stacks(items, encode_all(items, encode), n));
            let slots = occupied_slots(items, n);
            &&& found.len() == slots.len()
            &&& forall|i: int|
                0 <= i < slots.len() ==> {
                    &&& 0 <= #[trigger] slots[i] < n
                    &&& found[i].0 == slots[i]
                    &&& decode(found[i].1) == Some(items[slots[i]])
                }
        }),
    decreases n,
{
    if n > 0 {
        let slot = n - 1;
        let encoded = encode_all(items, encode);
        let before = saved_stacks(items, encoded, slot as nat);
        lemma_saved_stacks_are_placeable(items, encode, decode, slot as nat);
        if !items[slot].is_empty() {
            let stack = in_slot(encode(items[slot]), slot);
            let stacks = saved_stacks(items, encoded, n);
            assert(stacks == before.push(stack));
            assert(stacks.drop_last() =~= before);
            lemma_find_pushed(
                encode(items[slot]),
                ("Slot"@, TagView::Byte(slot as i8)),
                "Slot"@,
            );
            assert(saved_slot(stack) == Some(slot));
        }
    }
}

/// Placing the stacks of the first `n` slots where they were fills those slots.
proof fn lemma_placing_restores(items: Seq<ItemStackView>, n: nat)
    requires
        items.len() == CONTAINER_SIZE,
        n <= items.len(),
    ensures
        ({
            let slots = occupied_slots(items, n);
            let stacks = slots.map_values(|slot: int| Some(items[slot]));
            let result = placed(empty_slots(items.len()), slots, stacks);
            &&& result.len() == items.len()
            &&& forall|slot: int|
                0 <= slot < items.len() ==> #[trigger] result[slot] == if slot < n {
                    tidied(items)[slot]
                } else {
                    ItemStackView::empty()
                }
        }),
    decreases n,
{
    if n > 0 {
        let fewer = (n - 1) as nat;
        lemma_placing_restores(items, fewer);
        let slots = occupied_slots(items, n);
        let stacks = slots.map_values(|slot: int| Some(items[slot]));
        if !items[n - 1].is_empty() {
            let before = occupied_slots(items, fewer);
            let stacks_before = before.map_values(|slot: int| Some(items[slot]));
            assert(stacks.drop_last() =~= stacks_before);
            lemma_placed_reads_prefix(empty_slots(items.len()), slots, before, stacks_before);
        }
    }
}

/// What is found under a name in the entries for the loot table.
pub open spec fn loot_tag(cart: MinecartView, name: Seq<char>) -> Option<TagView> {
    match cart.state.loot_table {
        None => None,
        Some(loot_table) => if name == "LootTable"@ {
            Some(TagView::String(loot_table.text()))
        } else if name == "LootTableSeed"@ && cart.state.loot_table_seed != 0 {
            Some(TagView::Long(cart.state.loot_table_seed))
        } else {
            None
        },
    }
}

proof fn lemma_find_loot(cart: MinecartView, name: Seq<char>)
    ensures
        find(cart.loot_entries(), name) == loot_tag(cart, name),
{
    if let Some(loot_table) = cart.state.loot_table {
        let entry = ("LootTable"@, TagView::String(loot_table.text()));
        lemma_find_in_one(entry, name);
        lemma_find_pushed(
            seq![entry],
            ("LootTableSeed"@, TagView::Long(cart.state.loot_table_seed)),
            name,
        );
    }
}

/// The names under which a cart is saved are all different.
proof fn lemma_names_differ()
    ensures
        "FlippedRotation"@ != "HasTicked"@,
        "FlippedRotation"@ != "LootTable"@,
        "FlippedRotation"@ != "LootTableSeed"@,
        "FlippedRotation"@ != "Items"@,
        "HasTicked"@ != "LootTable"@,
        "HasTicked"@ != "LootTableSeed"@,
        "HasTicked"@ != "Items"@,
        "LootTable"@ != "LootTableSeed"@,
        "LootTable"@ != "Items"@,
        "LootTableSeed"@ != "Items"@,
{
    reveal_strlit("FlippedRotation");
    reveal_strlit("HasTicked");
    reveal_strlit("LootTable");
    reveal_strlit("LootTableSeed");
    reveal_strlit("Items");
    assert("FlippedRotation"@.len() == 15 && "LootTableSeed"@.len() == 13);
    assert("HasTicked"@.len() == 9 && "LootTable"@.len() == 9 && "Items"@.len() == 5);
    assert("HasTicked"@[0] != "LootTable"@[0]);
}

/// What is found under a name in a compound that a cart was saved into.
proof fn lemma_find_saved(
    cart: MinecartView,
    nbt: CompoundView,
    encoded: Seq<Option<CompoundView>>,
    name: Seq<char>,
)
    requires
        find(nbt, name) is None,
    ensures
        find(nbt + cart.saved(encoded), name) == if name == "FlippedRotation"@ {
            Some(TagView::Byte(0))
        } else if name == "HasTicked"@ {
            Some(TagView::Byte(flag_byte(cart.state.first_tick)))
        } else if loot_tag(cart, name) is Some {
            loot_tag(cart, name)
        } else if name == "Items"@ {
            Some(items_entry(saved_stacks(cart.items, encoded, CONTAINER_SIZE as nat)).1)
        } else {
            None
        },
{
    let flipped = ("FlippedRotation"@, TagView::Byte(0i8));
    let ticked = ("HasTicked"@, TagView::Byte(flag_byte(cart.state.first_tick)));
    let loot = cart.loot_entries();
    let items = items_entry(saved_stacks(cart.items, encoded, CONTAINER_SIZE as nat));
    let head = seq![flipped].push(ticked);
    assert(cart.saved(encoded) =~= (head + loot).push(items));
    lemma_find_in_two(nbt, cart.saved(encoded), name);
    lemma_find_pushed(head + loot, items, name);
    lemma_find_in_two(head, loot, name);
    lemma_find_pushed(seq![flipped], ticked, name);
    lemma_find_in_one(flipped, name);
    lemma_find_loot(cart, name);
}

/// The loot is handed out once: a second opening hands out nothing and changes
/// nothing. Opening does nothing to the contents.
pub proof fn law_loot_is_handed_out_once(cart: MinecartView)
    ensures
        cart.opened().loot() is None,
        cart.opened().opened() == cart.opened(),
        cart.opened().items == cart.items,
{
}

/// A loot table that is set is what the next opening hands out, with its seed,
/// whatever is put into the cart meanwhile.
pub proof fn law_set_loot_is_handed_out(
    cart: MinecartView,
    loot_table: IdentifierView,
    seed: i64,
    items: Seq<ItemStackView>,
)
    ensures
        (MinecartView { items, ..cart.with_loot_table(loot_table, seed) }).loot() == Some(
            LootRequestView { loot_table, seed },
        ),
{
}

/// Once a cart was opened, saving it writes no loot table and no seed.
pub proof fn law_opened_cart_saves_no_loot(
    cart: MinecartView,
    nbt: CompoundView,
    encoded: Seq<Option<CompoundView>>,
)
    requires
        find(nbt, "LootTable"@) is None,
        find(nbt, "LootTableSeed"@) is None,
    ensures
        find(nbt + cart.opened().saved(encoded), "LootTable"@) is None,
        find(nbt + cart.opened().saved(encoded), "LootTableSeed"@) is None,
{
    lemma_names_differ();
    lemma_find_saved(cart.opened(), nbt, encoded, "LootTable"@);
    lemma_find_saved(cart.opened(), nbt, encoded, "LootTableSeed"@);
}

/// What is put into a slot of the cart is in what is saved of it, and in what it
/// drops when a hit destroys it.
pub proof fn law_what_is_put_in_comes_out(
    cart: MinecartView,
    slot: int,
    stack: ItemStackView,
    encoded: Seq<Option<CompoundView>>,
    attacker: Option<Attacker>,
    damage: Single,
)
    requires
        cart.wf(),
        0 <= slot < cart.items.len(),
        !stack.is_empty(),
        encoded.len() == cart.items.len(),
        encoded[slot] is Some,
    ensures
        ({
            let filled = MinecartView { items: cart.items.update(slot, stack), ..cart };
            let saved = saved_stacks(filled.items, encoded, CONTAINER_SIZE as nat);
            &&& saved.contains(in_slot(encoded[slot]->0, slot))
            &&& !cart.is_removed() && filled.hurt(false, attacker, damage).is_removed()
                ==> filled.hurt_drops(false, attacker, damage).contains(stack)
        }),
{
    let filled = MinecartView { items: cart.items.update(slot, stack), ..cart };
    assert(filled.items[slot] == stack);
    filled.items.lemma_filter_contains(|s: ItemStackView| !s.is_empty(), slot);
    lemma_slot_is_saved(filled.items, encoded, slot, CONTAINER_SIZE as nat);
    if !cart.is_removed() && filled.hurt(false, attacker, damage).is_removed() {
        let i = occupied(filled.items).index_of(stack);
        assert(filled.hurt_drops(false, attacker, damage)[i] == stack);
    }
}

proof fn lemma_slot_is_saved(
    items: Seq<ItemStackView>,
    encoded: Seq<Option<CompoundView>>,
    slot: int,
    n: nat,
)
    requires
        0 <= slot < n <= items.len(),
        !items[slot].is_empty(),
        encoded[slot] is Some,
    ensures
        saved_stacks(items, encoded, n).contains(in_slot(encoded[slot]->0, slot)),
    decreases n,
{
    let stack = in_slot(encoded[slot]->0, slot);
    let before = saved_stacks(items, encoded, (n - 1) as nat);
    let stacks = saved_stacks(items, encoded, n);
    if slot == n - 1 {
        assert(stacks == before.push(stack));
        assert(stacks[before.len() as int] == stack);
    } else {
        lemma_slot_is_saved(items, encoded, slot, (n - 1) as nat);
        let i = before.index_of(stack);
        assert(stacks[i] == stack);
    }
}

/// What was saved of a cart is found under its names: whether it has ticked, the
/// written form of the loot table, the seed that goes with it unless that is
/// zero, and the list of stacks.
pub proof fn law_saved_entries_are_found(
    cart: MinecartView,
    nbt: CompoundView,
    encoded: Seq<Option<CompoundView>>,
)
    requires
        find(nbt, "HasTicked"@) is None,
        find(nbt, "LootTable"@) is None,
        find(nbt, "LootTableSeed"@) is None,
        find(nbt, "Items"@) is None,
    ensures
        ({
            let saved = nbt + cart.saved(encoded);
            &&& find_byte(saved, "HasTicked"@) == Some(flag_byte(cart.state.first_tick))
            &&& find_string(saved, "LootTable"@) == (match cart.state.loot_table {
                Some(loot_table) => Some(loot_table.text()),
                None => None,
            })
            &&& find_long(saved, "LootTableSeed"@) == if cart.state.loot_table is Some
                && cart.state.loot_table_seed != 0 {
                Some(cart.state.loot_table_seed)
            } else {
                None
            }
            &&& listed_stacks(saved) == saved_stacks(cart.items, encoded, CONTAINER_SIZE as nat)
        }),
{
    lemma_names_differ();
    lemma_find_saved(cart, nbt, encoded, "HasTicked"@);
    lemma_find_saved(cart, nbt, encoded, "LootTable"@);
    lemma_find_saved(cart, nbt, encoded, "LootTableSeed"@);
    lemma_find_saved(cart, nbt, encoded, "Items"@);
}

/// No slot is saved twice: the stacks that are saved name slots that there are,
/// one larger than the other.
pub proof fn law_saved_slots_ascend(
    items: Seq<ItemStackView>,
    encoded: Seq<Option<CompoundView>>,
    n: nat,
)
    requires
        items.len() == CONTAINER_SIZE,
        encoded.len() == items.len(),
        n <= items.len(),
    ensures
        ({
            let stacks = saved_stacks(items, encoded, n);
            &&& forall|i: int| 0 <= i < stacks.len() ==> 0 <= #[trigger] named_slot(stacks[i]) < n
            &&& forall|i: int, j: int|
                0 <= i < j < stacks.len() ==> #[trigger] named_slot(stacks[i])
                    < #[trigger] named_slot(stacks[j])
        }),
    decreases n,
{
    if n > 0 {
        let before = saved_stacks(items, encoded, (n - 1) as nat);
        let stacks = saved_stacks(items, encoded, n);
        law_saved_slots_ascend(items, encoded, (n - 1) as nat);
        if stacks != before {
            let stack = in_slot(encoded[n - 1]->0, n - 1);
            assert(stack.last() == ("Slot"@, TagView::Byte((n - 1) as i8)));
            assert(named_slot(stack) == n - 1);
            assert(stacks == before.push(stack));
            assert forall|i: int| 0 <= i < before.len() implies named_slot(stacks[i])
                == #[trigger] named_slot(before[i]) by {}
        }
    }
}

/// The slot that the last entry of a saved stack names.
pub open spec fn named_slot(stack: CompoundView) -> int {
    match stack.last() {
        (name, TagView::Byte(slot)) => if name == "Slot"@ {
            slot as int
        } else {
            -1
        },
        _ => -1,
    }
}

/// Loading what was saved gives the cart back, given that stacks and the name of
/// the loot table are read as what was written: whether it has ticked, the loot
/// table with its seed, and every stack in its slot. Only the seed of a loot
/// table that is not there is not kept. The compound may hold other entries
/// before. So the loaded cart hands out the loot that the saved one had.
pub proof fn law_loading_restores_what_was_saved(
    cart: MinecartView,
    other: MinecartView,
    nbt: CompoundView,
    encode: spec_fn(ItemStackView) -> CompoundView,
    decode: spec_fn(CompoundView) -> Option<ItemStackView>,
    parse: spec_fn(Seq<char>) -> Option<IdentifierView>,
)
    requires
        cart.wf(),
        find(nbt, "HasTicked"@) is None,
        find(nbt, "LootTable"@) is None,
        find(nbt, "LootTableSeed"@) is None,
        find(nbt, "Items"@) is None,
        codec_is_faithful(cart.items, encode, decode),
        cart.state.loot_table matches Some(loot_table) ==> parse(loot_table.text()) == Some(
            loot_table,
        ),
    ensures
        ({
            let saved = nbt + cart.saved(encode_all(cart.items, encode));
            let loot_table = match find_string(saved, "LootTable"@) {
                Some(text) => parse(text),
                None => None,
            };
            let loaded = other.loaded(saved, loot_table, decode_all(saved, decode));
            &&& loaded.state.first_tick == cart.state.first_tick
            &&& loaded.state.loot_table == cart.state.loot_table
            &&& loaded.state.loot_table_seed == if cart.state.loot_table is Some {
                cart.state.loot_table_seed
            } else {
                0
            }
            &&& loaded.loot() == cart.loot()
            &&& loaded.items == tidied(cart.items)
        }),
{
    let encoded = encode_all(cart.items, encode);
    let saved = nbt + cart.saved(encoded);
    let n = CONTAINER_SIZE as nat;
    law_saved_entries_are_found(cart, nbt, encoded);
    lemma_saved_stacks_are_placeable(cart.items, encode, decode, n);
    lemma_placing_restores(cart.items, n);
    let slots = occupied_slots(cart.items, n);
    assert(placeable_slots(saved) =~= slots);
    assert(decode_all(saved, decode) =~= slots.map_values(|slot: int| Some(cart.items[slot])));
    assert(placed(empty_slots(n), placeable_slots(saved), decode_all(saved, decode)) =~= tidied(
        cart.items,
    ));
}

/// A passenger gets off at the first place that a search gives, and the blocks
/// are searched in turn until then; at the cart's top if there is no such place.
/// `searches` holds what the searches give.
pub proof fn law_first_safe_place_is_taken(
    position: Vec3,
    query: DismountQuery,
    searches: Seq<Option<Vec3>>,
    turn: nat,
)
    requires
        query.direction.spec_axis() != Axis::Y,
        searches.len() == query.offsets@.len(),
        turn <= searches.len(),
        forall|i: int| 0 <= i < turn ==> (#[trigger] searches[i]) is None,
    ensures
        forall|tried: nat|
            tried <= turn && tried < searches.len() ==> dismount_step(
                position,
                query,
                tried,
                if tried == 0 {
                    None
                } else {
                    searches[tried - 1]
                },
            ) == (DismountStep::Search {
                block: #[trigger] query.candidate(tried as int),
                avoid_danger: true,
            }),
        turn < searches.len() && searches[turn as int] is Some ==> dismount_step(
            position,
            query,
            turn + 1,
            searches[turn as int],
        ) == DismountStep::At(searches[turn as int]->0),
        turn == searches.len() ==> dismount_step(position, query, turn, None) == DismountStep::At(
            Vec3 { y: query.top, ..position },
        ),
{
}

/// What a whole push comes to, with `distance` as the squared distance and
/// `cosine` as the alignment that are measured where they are wanted.
pub open spec fn whole_push(
    contact: EntityContact,
    no_physics: bool,
    distance: Double,
    cosine: Double,
) -> PushStep {
    match push_step(contact, no_physics, PushReply::Start) {
        PushStep::MeasureDistance => match push_step(
            contact,
            no_physics,
            PushReply::DistanceSquared(distance),
        ) {
            PushStep::MeasureAlignment => push_step(
                contact,
                no_physics,
                PushReply::Alignment(cosine),
            ),
            step => step,
        },
        step => step,
    }
}

/// A push comes to nothing between riders of one vehicle, with what has no
/// physics, and at a distance that is too small. What is no cart is pushed away,
/// and the cart from it. Two carts share their speed if they are in line, and
/// else the push comes to nothing.
pub proof fn law_push_outcome(
    contact: EntityContact,
    no_physics: bool,
    distance: Double,
    cosine: Double,
)
    ensures
        whole_push(contact, no_physics, distance, cosine) == (
        if contact.is_passenger_of_same_vehicle || contact.no_physics || no_physics
            || distance.less(Double { bits: SMALLEST_PUSH_BITS }) {
            PushStep::Stop
        } else if !contact.is_abstract_minecart {
            PushStep::PushApart { push_other: contact.is_pushable }
        } else if (Double { bits: cosine.magnitude() as u64 }).less(
            Double { bits: ALIGNMENT_BITS },
        ) {
            PushStep::Stop
        } else {
            PushStep::ShareSpeed
        }),
{
}

/// The first opening of a cart with a loot table hands the table and its seed
/// out; what it gave then fills the cart over what was there, and later openings
/// hand out nothing and leave the contents.
pub proof fn law_first_opening_fills_the_cart(
    cart: MinecartView,
    loot_table: IdentifierView,
    seed: i64,
    slots: Seq<int>,
    stacks: Seq<Option<ItemStackView>>,
)
    ensures
        ({
            let before = cart.with_loot_table(loot_table, seed);
            let after = before.opened().filled(slots, stacks);
            &&& before.loot() == Some(LootRequestView { loot_table, seed })
            &&& after.items == placed(cart.items, slots, stacks)
            &&& after.loot() is None
            &&& after.opened() == after
        }),
{
}

} // verus!
