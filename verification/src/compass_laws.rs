//! What holds of compasses over whole uses and ticks.

use vstd::prelude::*;
use text_components::TextComponent;
use crate::compass::{TickReplyView, TickStep, UseReplyView, UseStepView};
use crate::compass::UseOnContext;
use crate::compass::{bound_compass, compass_name, lodestone, lost_tracker};
use crate::compass::{tick_stack, tick_step, use_step, watched};
use crate::geometry::BlockPos;
use crate::identifier::IdentifierView;
use crate::interaction::InteractionResult;
use crate::item_stack::ItemStackView;

verus! {

/// The stack after a whole tick in a world whose chunks are loaded as
/// `chunk_loaded` says and whose blocks are those of `block_at`.
pub open spec fn whole_tick(
    stack: ItemStackView,
    world_key: IdentifierView,
    chunk_loaded: spec_fn(BlockPos) -> bool,
    block_at: spec_fn(BlockPos) -> IdentifierView,
) -> ItemStackView {
    let started = tick_stack(stack, world_key, TickReplyView::Start);
    match tick_step(stack, world_key, TickReplyView::Start) {
        TickStep::IsChunkLoaded(pos) => {
            let answer = TickReplyView::ChunkLoaded(chunk_loaded(pos));
            let checked = tick_stack(started, world_key, answer);
            match tick_step(started, world_key, answer) {
                TickStep::ReadBlock(pos) => tick_stack(
                    checked,
                    world_key,
                    TickReplyView::Block(block_at(pos)),
                ),
                _ => checked,
            }
        },
        _ => started,
    }
}

/// A tick changes a stack only where it points at a block of this world that is
/// loaded and no lodestone, and then only in that the target is gone.
pub proof fn law_tick_outcome(
    stack: ItemStackView,
    world_key: IdentifierView,
    chunk_loaded: spec_fn(BlockPos) -> bool,
    block_at: spec_fn(BlockPos) -> IdentifierView,
)
    ensures
        whole_tick(stack, world_key, chunk_loaded, block_at) == (match watched(stack, world_key) {
            Some(pos) => if chunk_loaded(pos) && block_at(pos) != lodestone() {
                stack.with_tracker(lost_tracker())
            } else {
                stack
            },
            None => stack,
        }),
{
}

/// A block is read only once its chunk is known to be loaded.
pub proof fn law_only_loaded_chunks_are_read(
    stack: ItemStackView,
    world_key: IdentifierView,
    reply: TickReplyView,
)
    ensures
        tick_step(stack, world_key, reply) is ReadBlock ==> reply == TickReplyView::ChunkLoaded(
            true,
        ),
{
}

/// Using compasses on a lodestone gives one that points at it: it watches that
/// block in that world and no block in any other.
pub proof fn law_use_binds_to_lodestone(context: UseOnContext, world_key: IdentifierView)
    ensures
        use_step(context, UseReplyView::Start) == UseStepView::ReadBlock(context.block_pos),
        use_step(context, UseReplyView::Block(lodestone())) matches UseStepView::Bind {
            filled,
            ..
        } && {
            &&& filled.result_stack.count == 1
            &&& filled.result_stack.item == context.held@.item
            &&& watched(filled.result_stack, world_key) == (if world_key == context.world_key@ {
                Some(context.block_pos)
            } else {
                None
            })
        },
{
}

/// A compass is bound by nothing but a lodestone.
pub proof fn law_only_lodestones_bind(context: UseOnContext, block: IdentifierView)
    ensures
        use_step(context, UseReplyView::Block(block)) is Bind <==> block == lodestone(),
        block != lodestone() ==> use_step(context, UseReplyView::Block(block))
            == (UseStepView::Done { dropped: None, result: InteractionResult::Pass }),
{
}

/// A bound compass keeps its target for as long as the lodestone stands.
pub proof fn law_standing_lodestone_is_kept(
    held: ItemStackView,
    dimension: IdentifierView,
    pos: BlockPos,
    world_key: IdentifierView,
    chunk_loaded: spec_fn(BlockPos) -> bool,
    block_at: spec_fn(BlockPos) -> IdentifierView,
)
    requires
        block_at(pos) == lodestone(),
    ensures
        whole_tick(bound_compass(held, dimension, pos), world_key, chunk_loaded, block_at)
            == bound_compass(held, dimension, pos),
{
}

/// A bound compass loses its target when it ticks in the lodestone's world while
/// the chunk is loaded and the lodestone is gone. It keeps its tracker.
pub proof fn law_removed_lodestone_is_lost(
    held: ItemStackView,
    dimension: IdentifierView,
    pos: BlockPos,
    chunk_loaded: spec_fn(BlockPos) -> bool,
    block_at: spec_fn(BlockPos) -> IdentifierView,
)
    requires
        chunk_loaded(pos),
        block_at(pos) != lodestone(),
    ensures
        whole_tick(bound_compass(held, dimension, pos), dimension, chunk_loaded, block_at)
            == held.with_count(1).with_tracker(lost_tracker()),
{
}

/// A bound compass is safe from what happens in other worlds and in chunks that
/// are not loaded.
pub proof fn law_unseen_blocks_do_not_matter(
    held: ItemStackView,
    dimension: IdentifierView,
    pos: BlockPos,
    world_key: IdentifierView,
    chunk_loaded: spec_fn(BlockPos) -> bool,
    block_at: spec_fn(BlockPos) -> IdentifierView,
)
    requires
        world_key != dimension || !chunk_loaded(pos),
    ensures
        whole_tick(bound_compass(held, dimension, pos), world_key, chunk_loaded, block_at)
            == bound_compass(held, dimension, pos),
{
}

/// A compass without a target asks the world for nothing, whatever the world, and
/// stays as it is. A compass whose lodestone is gone is one.
pub proof fn law_compass_without_target_rests(
    stack: ItemStackView,
    world_key: IdentifierView,
    reply: TickReplyView,
)
    requires
        stack.lodestone_tracker matches Some(tracker) ==> tracker.target is None,
    ensures
        lost_tracker().target is None,
        tick_step(stack, world_key, reply) == TickStep::Done,
        tick_stack(stack, world_key, reply) == stack,
{
}

/// In a world that stands still a second tick changes nothing more.
pub proof fn law_tick_settles(
    stack: ItemStackView,
    world_key: IdentifierView,
    chunk_loaded: spec_fn(BlockPos) -> bool,
    block_at: spec_fn(BlockPos) -> IdentifierView,
)
    ensures
        ({
            let once = whole_tick(stack, world_key, chunk_loaded, block_at);
            whole_tick(once, world_key, chunk_loaded, block_at) == once
        }),
{
}

/// A bound compass has the name of bound compasses, and ticking never changes a
/// name.
pub proof fn law_names_last(
    stack: ItemStackView,
    dimension: IdentifierView,
    pos: BlockPos,
    world_key: IdentifierView,
    reply: TickReplyView,
    bound_name: TextComponent,
    default_name: TextComponent,
)
    ensures
        compass_name(bound_compass(stack, dimension, pos), bound_name, default_name) == bound_name,
        compass_name(tick_stack(stack, world_key, reply), bound_name, default_name)
            == compass_name(stack, bound_name, default_name),
{
}

} // verus!
