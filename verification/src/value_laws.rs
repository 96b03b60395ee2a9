//! What names, stacks, places and entities are, field by field.

use vstd::prelude::*;
use crate::chest_minecart::{LootRequest, MinecartView, StateView};
use crate::chest_minecart::{loot_slots, loot_stacks, optional_identifier_view, optional_loot_view};
use crate::compass::{BlockSound, DroppedItem, FilledResult, TickReply, UseReply, UseStep};
use crate::compass::{TickReplyView, UseReplyView, UseStepView};
use crate::container::{optional_stack_views, stack_views};
use crate::entity::{EntityBase, EntityDimensions, EntityType, EntityTypeView, VehicleData};
use crate::geometry::{Axis, Direction, Vec3};
use crate::identifier::{Identifier, IdentifierView};
use crate::identifier::vanilla;
use crate::item_stack::{GlobalPos, ItemStack, ItemStackView, LodestoneTracker, TrackerView};
use crate::nbt::NbtCompound;
use crate::save_format::SavedStack;
use crate::save_format::{optional_compound_views, saved_stack_views};

verus! {

/// An identifier stands for the text of its two parts, so two identifiers stand
/// for the same thing only if both parts read the same.
pub proof fn law_identifiers_are_their_parts(one: Identifier, other: Identifier)
    ensures
        one@.namespace == one.namespace@,
        one@.path == one.path@,
        one@ == other@ <==> one.namespace@ == other.namespace@ && one.path@ == other.path@,
{
}

/// The written form of an identifier is its namespace, a colon and its path, and
/// nothing else.
pub proof fn law_identifiers_are_written_with_a_colon(id: IdentifierView)
    ensures
        id.text().len() == id.namespace.len() + 1 + id.path.len(),
        id.text().take(id.namespace.len() as int) == id.namespace,
        id.text()[id.namespace.len() as int] == ':',
        id.text().skip(id.namespace.len() as int + 1) == id.path,
{
    reveal_strlit(":");
    assert(":"@.len() == 1 && ":"@[0] == ':');
    assert(id.text().take(id.namespace.len() as int) =~= id.namespace);
    assert(id.text().skip(id.namespace.len() as int + 1) =~= id.path);
}

/// Vanilla names lie in the `minecraft` namespace.
pub proof fn law_vanilla_names(path: Seq<char>)
    ensures
        vanilla(path).namespace == "minecraft"@,
        vanilla(path).path == path,
{
}

/// Up and down are vertical, north and south lie along z, east and west along x.
pub proof fn law_directions_lie_along_axes(direction: Direction)
    ensures
        direction.spec_axis() == Axis::Y <==> direction == Direction::Up || direction
            == Direction::Down,
        direction.spec_axis() == Axis::Z <==> direction == Direction::North || direction
            == Direction::South,
        direction.spec_axis() == Axis::X <==> direction == Direction::East || direction
            == Direction::West,
{
}

/// A tracker stands for its target, with dimension and place, and for whether it
/// is tracked.
pub proof fn law_trackers_are_their_fields(tracker: LodestoneTracker, target: GlobalPos)
    ensures
        tracker@.is_tracked == tracker.is_tracked,
        tracker@.target is Some <==> tracker.target is Some,
        tracker.target matches Some(target) ==> {
            &&& tracker@.target->0.dimension == target.dimension@
            &&& tracker@.target->0.pos == target.pos
        },
        target@.dimension == target.dimension@,
        target@.pos == target.pos,
{
}

/// A stack stands for its item, its count, its tracker and its other components.
pub proof fn law_stacks_are_their_fields(stack: ItemStack)
    ensures
        stack@.item == stack.item@,
        stack@.count == stack.count,
        stack@.lodestone_tracker is Some <==> stack.lodestone_tracker is Some,
        stack.lodestone_tracker matches Some(tracker) ==> stack@.lodestone_tracker == Some(
            tracker@,
        ),
        stack@.components == stack.components@,
{
}

/// A stack is empty exactly if its count is not positive or it is of air.
pub proof fn law_empty_stacks(stack: ItemStackView)
    ensures
        stack.is_empty() <==> stack.count <= 0 || (stack.item.namespace == "minecraft"@
            && stack.item.path == "air"@),
{
}

/// An empty slot holds no items of air; a plain stack has no components; another count or
/// another tracker leaves all else as it is.
pub proof fn law_stacks_change_in_one_field(
    stack: ItemStackView,
    item: IdentifierView,
    count: i32,
    tracker: TrackerView,
)
    ensures
        ItemStackView::empty().count == 0,
        ItemStackView::empty().item == vanilla("air"@),
        ItemStackView::empty().lodestone_tracker is None,
        ItemStackView::empty().components.len() == 0,
        ItemStackView::plain(item, count).item == item,
        ItemStackView::plain(item, count).count == count,
        ItemStackView::plain(item, count).lodestone_tracker is None,
        ItemStackView::plain(item, count).components.len() == 0,
        stack.with_count(count).count == count,
        stack.with_count(count).item == stack.item,
        stack.with_count(count).lodestone_tracker == stack.lodestone_tracker,
        stack.with_count(count).components == stack.components,
        stack.with_tracker(tracker).lodestone_tracker == Some(tracker),
        stack.with_tracker(tracker).count == stack.count,
        stack.with_tracker(tracker).item == stack.item,
        stack.with_tracker(tracker).components == stack.components,
{
}

/// Several values stand for what each of them stands for, in order.
pub proof fn law_several_are_each(
    stacks: Seq<ItemStack>,
    optional: Seq<Option<ItemStack>>,
    compounds: Seq<Option<NbtCompound>>,
    saved: Seq<SavedStack<'_>>,
    rolled: Seq<(usize, ItemStack)>,
    i: int,
)
    ensures
        stack_views(stacks).len() == stacks.len(),
        0 <= i < stacks.len() ==> stack_views(stacks)[i] == stacks[i]@,
        optional_stack_views(optional).len() == optional.len(),
        0 <= i < optional.len() && optional[i] is None ==> optional_stack_views(optional)[i]
            is None,
        0 <= i < optional.len() && optional[i] is Some ==> optional_stack_views(optional)[i]
            == Some((optional[i]->0)@),
        optional_compound_views(compounds).len() == compounds.len(),
        0 <= i < compounds.len() && compounds[i] is None ==> optional_compound_views(compounds)[i]
            is None,
        0 <= i < compounds.len() && compounds[i] is Some ==> optional_compound_views(compounds)[i]
            == Some((compounds[i]->0)@),
        saved_stack_views(saved).len() == saved.len(),
        0 <= i < saved.len() ==> saved_stack_views(saved)[i].0 == saved[i].slot,
        0 <= i < saved.len() ==> saved_stack_views(saved)[i].1 == saved[i].compound@,
        loot_slots(rolled).len() == rolled.len(),
        0 <= i < rolled.len() ==> loot_slots(rolled)[i] == rolled[i].0,
        loot_stacks(rolled).len() == rolled.len(),
        0 <= i < rolled.len() ==> loot_stacks(rolled)[i] == Some(rolled[i].1@),
{
}

/// What may be there stands for what is there.
pub proof fn law_optional_values(id: Option<Identifier>, loot: Option<LootRequest>)
    ensures
        optional_identifier_view(id) is Some <==> id is Some,
        id matches Some(id) ==> optional_identifier_view(Some(id)) == Some(id@),
        optional_loot_view(loot) is Some <==> loot is Some,
        loot matches Some(loot) ==> {
            &&& optional_loot_view(Some(loot))->0.loot_table == loot.loot_table@
            &&& optional_loot_view(Some(loot))->0.seed == loot.seed
        },
{
}

/// What a compass hands to the world and the player stands for its fields.
pub proof fn law_requests_are_their_fields(
    sound: BlockSound,
    filled: FilledResult,
    dropped: DroppedItem,
)
    ensures
        sound@.sound == sound.sound@,
        sound@.pos == sound.pos,
        sound@.volume == sound.volume,
        sound@.pitch == sound.pitch,
        filled@.hand == filled.hand,
        filled@.result_stack == filled.result_stack@,
        filled@.has_infinite_materials == filled.has_infinite_materials,
        filled@.limit_creative_stack == filled.limit_creative_stack,
        dropped@.stack == dropped.stack@,
        dropped@.drop_around == dropped.drop_around,
        dropped@.include_thrower == dropped.include_thrower,
{
}

/// The steps and replies of a compass stand for themselves.
pub proof fn law_steps_and_replies_are_themselves(
    step: UseStep,
    use_reply: UseReply,
    tick_reply: TickReply,
)
    ensures
        step matches UseStep::ReadBlock(pos) ==> step@ == UseStepView::ReadBlock(pos),
        step matches UseStep::Bind { sound, filled } ==> step@ == (UseStepView::Bind {
            sound: sound@,
            filled: filled@,
        }),
        step matches UseStep::Done { dropped: None, result } ==> step@ == (UseStepView::Done {
            dropped: None,
            result,
        }),
        step matches UseStep::Done { dropped: Some(dropped), result } ==> step@
            == (UseStepView::Done { dropped: Some(dropped@), result }),
        use_reply is Start ==> use_reply@ == UseReplyView::Start,
        use_reply matches UseReply::Block(block) ==> use_reply@ == UseReplyView::Block(block@),
        use_reply matches UseReply::Leftover(stack) ==> use_reply@ == UseReplyView::Leftover(
            stack@,
        ),
        tick_reply is Start ==> tick_reply@ == TickReplyView::Start,
        tick_reply matches TickReply::ChunkLoaded(loaded) ==> tick_reply@
            == TickReplyView::ChunkLoaded(loaded),
        tick_reply matches TickReply::Block(block) ==> tick_reply@ == TickReplyView::Block(block@),
{
}

/// A cart that has just come into being has the given place, size and kind, was
/// not hit, is not gone, has no loot table and holds nothing in its slots.
pub proof fn law_fresh_carts(
    id: i32,
    position: Vec3,
    dimensions: EntityDimensions,
    kind: EntityTypeView,
    first_tick: bool,
)
    ensures
        ({
            let base = EntityBase::fresh(id, position, dimensions);
            let cart = MinecartView::fresh(base, kind, first_tick);
            &&& cart.base == base
            &&& base.id == id
            &&& base.position == position
            &&& base.dimensions == dimensions
            &&& !base.hurt_marked
            &&& base.removal is None
            &&& cart.entity_type == kind
            &&& cart.state == StateView::fresh(first_tick)
            &&& cart.state.first_tick == first_tick
            &&& cart.state.loot_table is None
            &&& cart.state.loot_table_seed == 0
            &&& cart.state.damage.bits == 0
            &&& !cart.state.on_rails
            &&& cart.data == VehicleData::unhurt()
            &&& cart.data.id_hurt == 0
            &&& cart.data.id_hurtdir == 1
            &&& cart.data.id_damage.bits == 0
            &&& cart.items.len() == 27
            &&& forall|slot: int|
                0 <= slot < 27 ==> (#[trigger] cart.items[slot]).count == 0
                    && cart.items[slot].item == vanilla("air"@)
                    && cart.items[slot].lodestone_tracker is None
                    && cart.items[slot].components.len() == 0
        }),
{
}

/// A kind of entity stands for its name and its size.
pub proof fn law_entity_types_are_their_fields(kind: EntityType)
    ensures
        kind@.key == kind.key@,
        kind@.dimensions == kind.dimensions,
{
}

/// A cart is in order exactly if it has 27 slots, shakes for none to ten more
/// ticks, and leans to one side or the other.
pub proof fn law_carts_in_order(cart: MinecartView)
    ensures
        cart.wf() <==> cart.items.len() == 27 && 0 <= cart.data.id_hurt <= 10 && (
        cart.data.id_hurtdir == 1 || cart.data.id_hurtdir == -1),
        cart.is_removed() <==> cart.base.removal is Some,
{
}

} // verus!
