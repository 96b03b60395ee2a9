//! What each step of using a compass and of its tick does, field by field.

use vstd::prelude::*;
use text_components::TextComponent;
use crate::compass::{TickReplyView, TickStep, UseOnContext, UseReplyView, UseStepView};
use crate::compass::{bound_compass, bound_tracker, compass_name, lodestone, lost_tracker};
use crate::compass::{tick_stack, tick_step, use_step, watched};
use crate::compass_laws::whole_tick;
use crate::geometry::BlockPos;
use crate::identifier::IdentifierView;
use crate::interaction::InteractionResult;
use crate::item_stack::{GlobalPosView, ItemStackView};

verus! {

/// A stack with a tracker, whatever that points at, has the name of bound
/// compasses; one without has the name of the item.
pub proof fn law_trackers_decide_names(
    stack: ItemStackView,
    bound_name: TextComponent,
    default_name: TextComponent,
)
    ensures
        stack.lodestone_tracker is Some ==> compass_name(stack, bound_name, default_name)
            == bound_name,
        stack.lodestone_tracker is None ==> compass_name(stack, bound_name, default_name)
            == default_name,
{
}

/// Lodestones are the blocks named `minecraft:lodestone`.
pub proof fn law_lodestones_by_name(block: IdentifierView)
    ensures
        block == lodestone() <==> block.namespace == "minecraft"@ && block.path == "lodestone"@,
{
}

/// A use begins by asking for the block that was clicked.
pub proof fn law_uses_begin(context: UseOnContext)
    ensures
        use_step(context, UseReplyView::Start) == UseStepView::ReadBlock(context.block_pos),
{
}

/// On a lodestone one of the held compasses is exchanged, in the hand that holds
/// it and for the player who uses it, for one that points at the block that was
/// clicked, in the world that it is in, and that has all else of the held ones.
/// The lock sounds there, at full volume and unchanged pitch.
pub proof fn law_lodestones_bind(context: UseOnContext, block: IdentifierView)
    requires
        block.namespace == "minecraft"@,
        block.path == "lodestone"@,
    ensures
        use_step(context, UseReplyView::Block(block)) matches UseStepView::Bind { sound, filled }
            && {
            &&& filled.hand == context.hand
            &&& filled.has_infinite_materials == context.has_infinite_materials
            &&& filled.limit_creative_stack
            &&& filled.result_stack.count == 1
            &&& filled.result_stack.item == context.held@.item
            &&& filled.result_stack.components == context.held@.components
            &&& filled.result_stack.lodestone_tracker matches Some(tracker) && {
                &&& tracker.is_tracked
                &&& tracker.target matches Some(target) && {
                    &&& target.dimension == context.world_key@
                    &&& target.pos == context.block_pos
                }
            }
            &&& sound.sound.namespace == "minecraft"@
            &&& sound.sound.path == "item.lodestone_compass.lock"@
            &&& sound.pos == context.block_pos
            &&& sound.volume.bits == 0x3f80_0000
            &&& sound.pitch.bits == 0x3f80_0000
        },
{
}

/// On any other block nothing is exchanged or dropped, and the use passes.
pub proof fn law_other_blocks_pass(context: UseOnContext, block: IdentifierView)
    requires
        block.namespace != "minecraft"@ || block.path != "lodestone"@,
    ensures
        use_step(context, UseReplyView::Block(block)) matches UseStepView::Done { dropped, result }
            && dropped is None && result == InteractionResult::Pass,
{
}

/// A use that bound a compass succeeds. What was left over is dropped, whole,
/// straight ahead and with its thrower, unless it is empty.
pub proof fn law_leftovers_are_dropped(context: UseOnContext, leftover: ItemStackView)
    ensures
        use_step(context, UseReplyView::Leftover(leftover)) matches UseStepView::Done {
            dropped,
            result,
        } && {
            &&& result == InteractionResult::Success
            &&& dropped is None <==> leftover.count <= 0 || (leftover.item.namespace
                == "minecraft"@ && leftover.item.path == "air"@)
            &&& dropped matches Some(dropped) ==> {
                &&& dropped.stack == leftover
                &&& !dropped.drop_around
                &&& dropped.include_thrower
            }
        },
{
}

/// Two uses that differ only in who uses the compass and with which hand differ
/// only in that.
pub proof fn law_hands_do_not_matter_to_the_binding(
    one: UseOnContext,
    other: UseOnContext,
    block: IdentifierView,
)
    requires
        one.block_pos == other.block_pos,
        one.world_key@ == other.world_key@,
        one.held@ == other.held@,
    ensures
        use_step(one, UseReplyView::Block(block)) is Bind <==> use_step(
            other,
            UseReplyView::Block(block),
        ) is Bind,
        use_step(one, UseReplyView::Block(block)) matches UseStepView::Bind { sound, filled }
            ==> (use_step(other, UseReplyView::Block(block)) matches UseStepView::Bind {
            sound: same_sound,
            filled: other_filled,
        } && {
            &&& same_sound == sound
            &&& other_filled.result_stack == filled.result_stack
            &&& filled.hand == one.hand
            &&& other_filled.hand == other.hand
            &&& filled.has_infinite_materials == one.has_infinite_materials
            &&& other_filled.has_infinite_materials == other.has_infinite_materials
        }),
{
}

/// The trackers of a bound compass and of one whose lodestone is gone, and a
/// bound compass, field by field.
pub proof fn law_bound_and_lost(held: ItemStackView, dimension: IdentifierView, pos: BlockPos)
    ensures
        bound_tracker(dimension, pos).is_tracked,
        bound_tracker(dimension, pos).target == Some(GlobalPosView { dimension, pos }),
        lost_tracker().is_tracked,
        lost_tracker().target is None,
        bound_compass(held, dimension, pos).count == 1,
        bound_compass(held, dimension, pos).item == held.item,
        bound_compass(held, dimension, pos).components == held.components,
        bound_compass(held, dimension, pos).lodestone_tracker matches Some(tracker) && {
            &&& tracker.is_tracked
            &&& tracker.target == Some(GlobalPosView { dimension, pos })
        },
{
}

/// A stack watches a block exactly if it has a tracker that is tracked and
/// points at that block in that world. What kind of items the stack holds, how
/// many, and with which other components, does not matter.
pub proof fn law_watched_blocks(stack: ItemStackView, world_key: IdentifierView, pos: BlockPos)
    ensures
        watched(stack, world_key) == Some(pos) <==> (stack.lodestone_tracker matches Some(tracker)
            && tracker.is_tracked && (tracker.target matches Some(target) && target.dimension
            == world_key && target.pos == pos)),
        watched(stack, world_key) is None <==> !(stack.lodestone_tracker matches Some(tracker)
            && tracker.is_tracked && (tracker.target matches Some(target) && target.dimension
            == world_key)),
{
}

/// Each step of a tick of a stack that points at a block of this world: it asks
/// for the chunk, then, if that is loaded, for the block, and loses its target if
/// that is no lodestone. Nothing of the stack changes otherwise.
pub proof fn law_steps_of_a_tick(
    stack: ItemStackView,
    world_key: IdentifierView,
    target: GlobalPosView,
    block: IdentifierView,
)
    requires
        stack.lodestone_tracker matches Some(tracker) && tracker.is_tracked && tracker.target
            == Some(target),
        target.dimension == world_key,
    ensures
        tick_step(stack, world_key, TickReplyView::Start) == TickStep::IsChunkLoaded(target.pos),
        tick_stack(stack, world_key, TickReplyView::Start) == stack,
        tick_step(stack, world_key, TickReplyView::ChunkLoaded(true)) == TickStep::ReadBlock(
            target.pos,
        ),
        tick_stack(stack, world_key, TickReplyView::ChunkLoaded(true)) == stack,
        tick_step(stack, world_key, TickReplyView::ChunkLoaded(false)) == TickStep::Done,
        tick_stack(stack, world_key, TickReplyView::ChunkLoaded(false)) == stack,
        tick_step(stack, world_key, TickReplyView::Block(block)) == TickStep::Done,
        block.namespace == "minecraft"@ && block.path == "lodestone"@ ==> tick_stack(
            stack,
            world_key,
            TickReplyView::Block(block),
        ) == stack,
        block.namespace != "minecraft"@ || block.path != "lodestone"@ ==> {
            let after = tick_stack(stack, world_key, TickReplyView::Block(block));
            &&& after.item == stack.item
            &&& after.count == stack.count
            &&& after.components == stack.components
            &&& after.lodestone_tracker matches Some(tracker) && tracker.is_tracked
                && tracker.target is None
        },
{
}

/// A stack that points at no block of this world asks for nothing and stays as it
/// is.
pub proof fn law_other_stacks_rest(
    stack: ItemStackView,
    world_key: IdentifierView,
    reply: TickReplyView,
)
    requires
        !(stack.lodestone_tracker matches Some(tracker) && tracker.is_tracked && (
        tracker.target matches Some(target) && target.dimension == world_key)),
    ensures
        tick_step(stack, world_key, reply) == TickStep::Done,
        tick_stack(stack, world_key, reply) == stack,
{
}

/// A whole tick takes the target from every stack whose lodestone is seen to be
/// gone, whatever the item, the count and the other components: the tracker
/// stays, and so does all else.
pub proof fn law_gone_lodestones_are_forgotten(
    stack: ItemStackView,
    world_key: IdentifierView,
    target: GlobalPosView,
    chunk_loaded: spec_fn(BlockPos) -> bool,
    block_at: spec_fn(BlockPos) -> IdentifierView,
)
    requires
        stack.lodestone_tracker matches Some(tracker) && tracker.is_tracked && tracker.target
            == Some(target),
        target.dimension == world_key,
        chunk_loaded(target.pos),
        block_at(target.pos).namespace != "minecraft"@ || block_at(target.pos).path
            != "lodestone"@,
    ensures
        ({
            let after = whole_tick(stack, world_key, chunk_loaded, block_at);
            &&& after.lodestone_tracker matches Some(tracker) && tracker.target is None
                && tracker.is_tracked
            &&& after.item == stack.item
            &&& after.count == stack.count
            &&& after.components == stack.components
        }),
{
}

/// A whole tick leaves every other stack as it is.
pub proof fn law_other_lodestones_are_remembered(
    stack: ItemStackView,
    world_key: IdentifierView,
    chunk_loaded: spec_fn(BlockPos) -> bool,
    block_at: spec_fn(BlockPos) -> IdentifierView,
)
    requires
        !(stack.lodestone_tracker matches Some(tracker) && tracker.is_tracked && (
        tracker.target matches Some(target) && target.dimension == world_key && chunk_loaded(
            target.pos,
        ) && (block_at(target.pos).namespace != "minecraft"@ || block_at(target.pos).path
            != "lodestone"@))),
    ensures
        whole_tick(stack, world_key, chunk_loaded, block_at) == stack,
{
}

/// A tick takes no notice of how many compasses there are, of what kind, and with
/// which other components: of two stacks with one tracker, both keep their target
/// or both lose it.
pub proof fn law_stacks_with_one_tracker_tick_alike(
    one: ItemStackView,
    other: ItemStackView,
    world_key: IdentifierView,
    chunk_loaded: spec_fn(BlockPos) -> bool,
    block_at: spec_fn(BlockPos) -> IdentifierView,
)
    requires
        one.lodestone_tracker == other.lodestone_tracker,
    ensures
        whole_tick(one, world_key, chunk_loaded, block_at).lodestone_tracker == whole_tick(
            other,
            world_key,
            chunk_loaded,
            block_at,
        ).lodestone_tracker,
{
}

} // verus!
