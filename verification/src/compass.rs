//! The compass that points at a lodestone.

use vstd::prelude::*;
use text_components::TextComponent;
use crate::float_bits::Single;
use crate::geometry::BlockPos;
use crate::identifier::{Identifier, IdentifierView};
use crate::identifier::vanilla;
use crate::interaction::{InteractionHand, InteractionResult};
use crate::item_stack::{GlobalPos, ItemStack, LodestoneTracker};
use crate::item_stack::{GlobalPosView, ItemStackView, TrackerView};
use crate::text::translated_component;
use crate::text::translated_text;

verus! {

/// Full volume, or the pitch of the recording: 1.
pub const UNCHANGED_BITS: u32 = 0x3f80_0000;

/// Compass item behavior implementing lodestone binding and validation.
#[derive(Clone, Copy, Debug, PartialEq, Eq, Structural)]
pub struct CompassItem;

/// The name to show for a stack of compasses: that of bound compasses for one
/// that has been bound, and that of the item for any other.
pub open spec fn compass_name(
    stack: ItemStackView,
    bound_name: TextComponent,
    default_name: TextComponent,
) -> TextComponent {
    if stack.lodestone_tracker is Some {
        bound_name
    } else {
        default_name
    }
}

/// The block that a compass can be bound to.
pub open spec fn lodestone() -> IdentifierView {
    vanilla("lodestone"@)
}

/// The use of a compass on a block.
#[derive(Debug)]
pub struct UseOnContext {
    /// The block that was clicked.
    pub block_pos: BlockPos,
    /// The dimension of the world.
    pub world_key: Identifier,
    /// The stack that was used.
    pub held: ItemStack,
    /// The hand that it is in.
    pub hand: InteractionHand,
    /// Whether the player's materials do not run out.
    pub has_infinite_materials: bool,
}

/// What is known so far while a compass is used.
#[derive(Debug)]
pub enum UseReply {
    /// Nothing yet.
    Start,
    /// The block that was asked for.
    Block(Identifier),
    /// What did not fit into the inventory.
    Leftover(ItemStack),
}

/// What a [`UseReply`] stands for.
pub enum UseReplyView {
    Start,
    Block(IdentifierView),
    Leftover(ItemStackView),
}

impl View for UseReply {
    type V = UseReplyView;

    open spec fn view(&self) -> UseReplyView {
        match self {
            UseReply::Start => UseReplyView::Start,
            UseReply::Block(block) => UseReplyView::Block(block@),
            UseReply::Leftover(stack) => UseReplyView::Leftover(stack@),
        }
    }
}

/// A sound to play at a block.
#[derive(Debug)]
pub struct BlockSound {
    pub sound: Identifier,
    pub pos: BlockPos,
    pub volume: Single,
    pub pitch: Single,
}

/// What a [`BlockSound`] stands for.
#[verifier::ext_equal]
pub struct BlockSoundView {
    pub sound: IdentifierView,
    pub pos: BlockPos,
    pub volume: Single,
    pub pitch: Single,
}

impl View for BlockSound {
    type V = BlockSoundView;

    open spec fn view(&self) -> BlockSoundView {
        BlockSoundView {
            sound: self.sound@,
            pos: self.pos,
            volume: self.volume,
            pitch: self.pitch,
        }
    }
}

/// A stack to exchange for one of the held items.
#[derive(Debug)]
pub struct FilledResult {
    pub hand: InteractionHand,
    pub result_stack: ItemStack,
    pub has_infinite_materials: bool,
    /// Whether a player with infinite materials gets no second one.
    pub limit_creative_stack: bool,
}

/// What a [`FilledResult`] stands for.
#[verifier::ext_equal]
pub struct FilledResultView {
    pub hand: InteractionHand,
    pub result_stack: ItemStackView,
    pub has_infinite_materials: bool,
    pub limit_creative_stack: bool,
}

impl View for FilledResult {
    type V = FilledResultView;

    open spec fn view(&self) -> FilledResultView {
        FilledResultView {
            hand: self.hand,
            result_stack: self.result_stack@,
            has_infinite_materials: self.has_infinite_materials,
            limit_creative_stack: self.limit_creative_stack,
        }
    }
}

/// A stack for the player to drop.
#[derive(Debug)]
pub struct DroppedItem {
    pub stack: ItemStack,
    /// Whether it flies off anywhere.
    pub drop_around: bool,
    /// Whether it remembers who dropped it.
    pub include_thrower: bool,
}

/// What a [`DroppedItem`] stands for.
#[verifier::ext_equal]
pub struct DroppedItemView {
    pub stack: ItemStackView,
    pub drop_around: bool,
    pub include_thrower: bool,
}

impl View for DroppedItem {
    type V = DroppedItemView;

    open spec fn view(&self) -> DroppedItemView {
        DroppedItemView {
            stack: self.stack@,
            drop_around: self.drop_around,
            include_thrower: self.include_thrower,
        }
    }
}

/// What to do next while a compass is used.
#[derive(Debug)]
pub enum UseStep {
    /// The block there is wanted.
    ReadBlock(BlockPos),
    /// The sound is played and the stack exchanged, and what does not fit is
    /// wanted.
    Bind { sound: BlockSound, filled: FilledResult },
    /// The use is over, after the stack, if there is one, was dropped.
    Done { dropped: Option<DroppedItem>, result: InteractionResult },
}

/// What a [`UseStep`] stands for.
pub enum UseStepView {
    ReadBlock(BlockPos),
    Bind { sound: BlockSoundView, filled: FilledResultView },
    Done { dropped: Option<DroppedItemView>, result: InteractionResult },
}

impl View for UseStep {
    type V = UseStepView;

    open spec fn view(&self) -> UseStepView {
        match self {
            UseStep::ReadBlock(pos) => UseStepView::ReadBlock(*pos),
            UseStep::Bind { sound, filled } => UseStepView::Bind {
                sound: sound@,
                filled: filled@,
            },
            UseStep::Done { dropped, result } => UseStepView::Done {
                dropped: match dropped {
                    Some(dropped) => Some(dropped@),
                    None => None,
                },
                result: *result,
            },
        }
    }
}

/// The tracker of a compass that points at a lodestone.
pub open spec fn bound_tracker(dimension: IdentifierView, pos: BlockPos) -> TrackerView {
    TrackerView { target: Some(GlobalPosView { dimension, pos }), is_tracked: true }
}

/// The tracker of a compass whose lodestone is gone.
pub open spec fn lost_tracker() -> TrackerView {
    TrackerView { target: None, is_tracked: true }
}

/// One of the held compasses, bound to a lodestone.
pub open spec fn bound_compass(
    held: ItemStackView,
    dimension: IdentifierView,
    pos: BlockPos,
) -> ItemStackView {
    held.with_count(1).with_tracker(bound_tracker(dimension, pos))
}

/// The next step of using a compass.
pub open spec fn use_step(context: UseOnContext, reply: UseReplyView) -> UseStepView {
    match reply {
        UseReplyView::Start => UseStepView::ReadBlock(context.block_pos),
        UseReplyView::Block(block) => if block != lodestone() {
            UseStepView::Done { dropped: None, result: InteractionResult::Pass }
        } else {
            UseStepView::Bind {
                sound: BlockSoundView {
                    sound: vanilla("item.lodestone_compass.lock"@),
                    pos: context.block_pos,
                    volume: Single { bits: UNCHANGED_BITS },
                    pitch: Single { bits: UNCHANGED_BITS },
                },
                filled: FilledResultView {
                    hand: context.hand,
                    result_stack: bound_compass(
                        context.held@,
                        context.world_key@,
                        context.block_pos,
                    ),
                    has_infinite_materials: context.has_infinite_materials,
                    limit_creative_stack: true,
                },
            }
        },
        UseReplyView::Leftover(stack) => UseStepView::Done {
            dropped: if stack.is_empty() {
                None
            } else {
                Some(DroppedItemView { stack, drop_around: false, include_thrower: true })
            },
            result: InteractionResult::Success,
        },
    }
}

/// What is known so far while a compass ticks.
#[derive(Debug)]
pub enum TickReply {
    /// Nothing yet.
    Start,
    /// Whether the chunk that was asked for is loaded.
    ChunkLoaded(bool),
    /// The block that was asked for.
    Block(Identifier),
}

/// What a [`TickReply`] stands for.
pub enum TickReplyView {
    Start,
    ChunkLoaded(bool),
    Block(IdentifierView),
}

impl View for TickReply {
    type V = TickReplyView;

    open spec fn view(&self) -> TickReplyView {
        match self {
            TickReply::Start => TickReplyView::Start,
            TickReply::ChunkLoaded(loaded) => TickReplyView::ChunkLoaded(*loaded),
            TickReply::Block(block) => TickReplyView::Block(block@),
        }
    }
}

/// What to do next while a compass ticks.
#[derive(Clone, Copy, Debug, PartialEq, Eq, Structural)]
pub enum TickStep {
    /// The tick is over.
    Done,
    /// It is wanted whether the whole chunk of that block is loaded.
    IsChunkLoaded(BlockPos),
    /// The block there is wanted.
    ReadBlock(BlockPos),
}

/// The block that a stack has to keep an eye on in a world: its target, if that
/// is tracked and lies there.
pub open spec fn watched(stack: ItemStackView, world_key: IdentifierView) -> Option<BlockPos> {
    match stack.lodestone_tracker {
        None => None,
        Some(tracker) => match tracker.target {
            None => None,
            Some(target) => if tracker.is_tracked && target.dimension == world_key {
                Some(target.pos)
            } else {
                None
            },
        },
    }
}

/// The next step of a compass that ticks.
pub open spec fn tick_step(
    stack: ItemStackView,
    world_key: IdentifierView,
    reply: TickReplyView,
) -> TickStep {
    match (watched(stack, world_key), reply) {
        (Some(pos), TickReplyView::Start) => TickStep::IsChunkLoaded(pos),
        (Some(pos), TickReplyView::ChunkLoaded(true)) => TickStep::ReadBlock(pos),
        _ => TickStep::Done,
    }
}

/// The stack after the next step of a tick: the target is lost once the block
/// there is known to be no lodestone.
pub open spec fn tick_stack(
    stack: ItemStackView,
    world_key: IdentifierView,
    reply: TickReplyView,
) -> ItemStackView {
    match (watched(stack, world_key), reply) {
        (Some(_), TickReplyView::Block(block)) => if block != lodestone() {
            stack.with_tracker(lost_tracker())
        } else {
            stack
        },
        _ => stack,
    }
}

/// Whether the block is a lodestone.
fn is_lodestone(block: &Identifier) -> (result: bool)
    ensures
        result == (block@ == lodestone()),
{
    block.same_as(&Identifier::vanilla_static("lodestone"))
}

impl CompassItem {
    /// The name to show for the stack, where `default_name` is that of the item.
    pub fn get_name(&self, stack: &ItemStack, default_name: TextComponent) -> (result:
        TextComponent)
        ensures
            result == compass_name(
                stack@,
                translated_component("item.minecraft.lodestone_compass"@),
                default_name,
            ),
    {
        let bound_name = translated_text("item.minecraft.lodestone_compass");
        self.choose_name(stack, bound_name, default_name)
    }

    /// The name to show for the stack, out of that of bound compasses and that of
    /// the item.
    pub fn choose_name(
        &self,
        stack: &ItemStack,
        bound_name: TextComponent,
        default_name: TextComponent,
    ) -> (result: TextComponent)
        ensures
            result == compass_name(stack@, bound_name, default_name),
    {
        if stack.lodestone_tracker.is_some() {
            bound_name
        } else {
            default_name
        }
    }

    /// Binds a compass that is used on a lodestone, step by step.
    pub fn use_on(&self, context: &UseOnContext, reply: UseReply) -> (step: UseStep)
        ensures
            step@ == use_step(*context, reply@),
            reply is Start ==> step == UseStep::ReadBlock(context.block_pos),
            reply matches UseReply::Block(block) ==> (step is Bind <==> block.namespace@
                == "minecraft"@ && block.path@ == "lodestone"@),
            reply is Leftover ==> step is Done,
            step matches UseStep::Bind { sound, filled } ==> {
                &&& filled.hand == context.hand
                &&& filled.has_infinite_materials == context.has_infinite_materials
                &&& filled.limit_creative_stack
                &&& filled.result_stack.count == 1
                &&& filled.result_stack.item@ == context.held.item@
                &&& filled.result_stack.components@ == context.held.components@
                &&& filled.result_stack.lodestone_tracker matches Some(tracker)
                    && tracker.is_tracked && (tracker.target matches Some(target)
                    && target.dimension@ == context.world_key@ && target.pos
                    == context.block_pos)
                &&& sound.sound.namespace@ == "minecraft"@
                &&& sound.sound.path@ == "item.lodestone_compass.lock"@
                &&& sound.pos == context.block_pos
                &&& sound.volume.bits == 0x3f80_0000
                &&& sound.pitch.bits == 0x3f80_0000
            },
    {
        match reply {
            UseReply::Start => UseStep::ReadBlock(context.block_pos),
            UseReply::Block(block) => {
                if !is_lodestone(&block) {
                    return UseStep::Done { dropped: None, result: InteractionResult::Pass };
                }
                let sound = BlockSound {
                    sound: Identifier::vanilla_static("item.lodestone_compass.lock"),
                    pos: context.block_pos,
                    volume: Single { bits: UNCHANGED_BITS },
                    pitch: Single { bits: UNCHANGED_BITS },
                };
                let target = GlobalPos {
                    dimension: context.world_key.copied(),
                    pos: context.block_pos,
                };
                let mut result_stack = context.held.copied();
                result_stack.count = 1;
                result_stack.lodestone_tracker = Some(LodestoneTracker::new(Some(target), true));
                let filled = FilledResult {
                    hand: context.hand,
                    result_stack,
                    has_infinite_materials: context.has_infinite_materials,
                    limit_creative_stack: true,
                };
                UseStep::Bind { sound, filled }
            },
            UseReply::Leftover(stack) => {
                let dropped = if stack.is_empty() {
                    None
                } else {
                    Some(DroppedItem { stack, drop_around: false, include_thrower: true })
                };
                UseStep::Done { dropped, result: InteractionResult::Success }
            },
        }
    }

    /// The block that the stack has to keep an eye on in a world.
    fn watched_block(stack: &ItemStack, world_key: &Identifier) -> (result: Option<BlockPos>)
        ensures
            result == watched(stack@, world_key@),
    {
        let tracker = match &stack.lodestone_tracker {
            Some(tracker) => tracker,
            None => return None,
        };
        if !tracker.is_tracked {
            return None;
        }
        let target = match &tracker.target {
            Some(target) => target,
            None => return None,
        };
        if !world_key.same_as(&target.dimension) {
            return None;
        }
        Some(target.pos)
    }

    /// Makes a compass lose a lodestone that is gone, step by step.
    pub fn inventory_tick(
        &self,
        stack: &mut ItemStack,
        world_key: &Identifier,
        reply: TickReply,
    ) -> (step: TickStep)
        ensures
            step == tick_step(old(stack)@, world_key@, reply@),
            final(stack)@ == tick_stack(old(stack)@, world_key@, reply@),
            final(stack).item@ == old(stack).item@,
            final(stack).count == old(stack).count,
            final(stack).components@ == old(stack).components@,
            final(stack).lodestone_tracker is Some <==> old(stack).lodestone_tracker is Some,
            old(stack).lodestone_tracker matches Some(tracker) && tracker.is_tracked && (
            tracker.target matches Some(target) && target.dimension@ == world_key@) ==> {
                let pos = old(stack).lodestone_tracker->0.target->0.pos;
                &&& reply is Start ==> step == TickStep::IsChunkLoaded(pos)
                &&& reply matches TickReply::ChunkLoaded(loaded) ==> step == if loaded {
                    TickStep::ReadBlock(pos)
                } else {
                    TickStep::Done
                }
                &&& reply matches TickReply::Block(block) ==> step == TickStep::Done && (
                final(stack).lodestone_tracker->0.target is None <==> block.namespace@
                    != "minecraft"@ || block.path@ != "lodestone"@)
            },
    {
        let pos = match Self::watched_block(stack, world_key) {
            Some(pos) => pos,
            None => return TickStep::Done,
        };
        match reply {
            TickReply::Start => TickStep::IsChunkLoaded(pos),
            TickReply::ChunkLoaded(loaded) => {
                if loaded {
                    TickStep::ReadBlock(pos)
                } else {
                    TickStep::Done
                }
            },
            TickReply::Block(block) => {
                if !is_lodestone(&block) {
                    stack.lodestone_tracker = Some(LodestoneTracker::new(None, true));
                }
                TickStep::Done
            },
        }
    }
}

} // verus!
