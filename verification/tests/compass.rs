//! Compasses in a small world.

use std::collections::{BTreeMap, BTreeSet};

use steel_core::compass::{CompassItem, TickReply, TickStep, UseOnContext, UseReply, UseStep};
use steel_core::geometry::BlockPos;
use steel_core::identifier::Identifier;
use steel_core::interaction::{InteractionHand, InteractionResult};
use steel_core::item_stack::{GlobalPos, ItemStack, LodestoneTracker};
use text_components::content::Content;
use text_components::TextComponent;

struct TestWorld {
    key: &'static str,
    blocks: BTreeMap<(i32, i32, i32), &'static str>,
    full_chunks: BTreeSet<(i32, i32)>,
    sounds: Vec<(String, BlockPos)>,
    blocks_read: usize,
}

impl TestWorld {
    fn new(key: &'static str) -> Self {
        TestWorld {
            key,
            blocks: BTreeMap::new(),
            full_chunks: BTreeSet::new(),
            sounds: Vec::new(),
            blocks_read: 0,
        }
    }

    fn key(&self) -> Identifier {
        Identifier::new_static("steel", self.key)
    }

    fn set_block(&mut self, pos: BlockPos, block: &'static str) {
        self.blocks.insert((pos.x, pos.y, pos.z), block);
    }

    fn load_chunk_of(&mut self, pos: BlockPos) {
        self.full_chunks.insert((pos.x >> 4, pos.z >> 4));
    }

    fn block_at(&mut self, pos: BlockPos) -> Identifier {
        self.blocks_read += 1;
        let block = self.blocks.get(&(pos.x, pos.y, pos.z)).unwrap_or(&"air");
        Identifier::new_static("minecraft", block)
    }

    fn is_full_chunk_loaded_at(&self, pos: BlockPos) -> bool {
        self.full_chunks.contains(&(pos.x >> 4, pos.z >> 4))
    }
}

fn compass() -> ItemStack {
    ItemStack::new(Identifier::new_static("minecraft", "compass"))
}

fn context(world: &TestWorld, pos: BlockPos, held: ItemStack) -> UseOnContext {
    UseOnContext {
        block_pos: pos,
        world_key: world.key(),
        held,
        hand: InteractionHand::MainHand,
        has_infinite_materials: false,
    }
}

/// Uses the stack and answers that `leftover` did not fit. Gives the result, the
/// stack that was exchanged, and what was dropped.
fn use_on(
    world: &mut TestWorld,
    context: &UseOnContext,
    leftover: ItemStack,
) -> (InteractionResult, Option<ItemStack>, Option<ItemStack>) {
    let mut leftover = Some(leftover);
    let mut exchanged = None;
    let mut reply = UseReply::Start;
    loop {
        match CompassItem.use_on(context, reply) {
            UseStep::ReadBlock(pos) => reply = UseReply::Block(world.block_at(pos)),
            UseStep::Bind { sound, filled } => {
                assert_eq!(sound.volume.bits, 1.0f32.to_bits());
                assert_eq!(sound.pitch.bits, 1.0f32.to_bits());
                world.sounds.push((sound.sound.to_string(), sound.pos));
                assert_eq!(filled.hand, context.hand);
                assert_eq!(filled.has_infinite_materials, context.has_infinite_materials);
                assert!(filled.limit_creative_stack);
                exchanged = Some(filled.result_stack);
                reply = UseReply::Leftover(leftover.take().expect("asked twice"));
            }
            UseStep::Done { dropped, result } => {
                let dropped = dropped.map(|dropped| {
                    assert!(!dropped.drop_around);
                    assert!(dropped.include_thrower);
                    dropped.stack
                });
                return (result, exchanged, dropped);
            }
        }
    }
}

fn inventory_tick(stack: &mut ItemStack, world: &mut TestWorld) {
    let mut reply = TickReply::Start;
    loop {
        match CompassItem.inventory_tick(stack, &world.key(), reply) {
            TickStep::Done => return,
            TickStep::IsChunkLoaded(pos) => {
                reply = TickReply::ChunkLoaded(world.is_full_chunk_loaded_at(pos));
            }
            TickStep::ReadBlock(pos) => reply = TickReply::Block(world.block_at(pos)),
        }
    }
}

fn target(stack: &ItemStack) -> Option<&GlobalPos> {
    stack
        .lodestone_tracker
        .as_ref()
        .expect("should keep lodestone tracker component")
        .target
        .as_ref()
}

#[test]
fn compass_binds_to_lodestone_and_invalidates_when_removed() {
    let mut world = TestWorld::new("compass_test_world");
    let pos = BlockPos::new(0, 64, 0);
    world.load_chunk_of(pos);
    world.set_block(pos, "lodestone");

    let context = context(&world, pos, compass());
    let (result, exchanged, dropped) = use_on(&mut world, &context, ItemStack::empty());
    assert_eq!(result, InteractionResult::Success);
    assert!(dropped.is_none());

    let mut compass = exchanged.expect("should exchange the compass");
    assert!(!compass.is_empty());
    let tracker = compass
        .lodestone_tracker
        .as_ref()
        .expect("should have lodestone tracker component");
    assert!(tracker.is_tracked);
    let target_pos = tracker.target.as_ref().expect("should have target global pos");
    assert_eq!(target_pos.pos, pos);
    assert!(target_pos.dimension.same_as(&world.key()));

    inventory_tick(&mut compass, &mut world);
    assert!(target(&compass).is_some());

    world.set_block(pos, "air");
    inventory_tick(&mut compass, &mut world);
    assert!(
        target(&compass).is_none(),
        "target should be invalidated and set to None"
    );
}

#[test]
fn binding_plays_the_lock_sound_and_takes_one_compass() {
    let mut world = TestWorld::new("overworld");
    let pos = BlockPos::new(-3, 70, 12);
    world.set_block(pos, "lodestone");
    let mut held = compass();
    held.count = 5;
    held.components = vec![1, 2, 3];
    let context = context(&world, pos, held);

    let (result, exchanged, _) = use_on(&mut world, &context, ItemStack::empty());
    assert_eq!(result, InteractionResult::Success);
    let bound = exchanged.expect("should exchange the compass");
    assert_eq!(bound.count(), 1);
    assert_eq!(bound.item.to_string(), "minecraft:compass");
    assert_eq!(bound.components, vec![1, 2, 3]);
    assert_eq!(context.held.count(), 5);
    assert_eq!(
        world.sounds,
        vec![("minecraft:item.lodestone_compass.lock".to_owned(), pos)]
    );
}

#[test]
fn compass_passes_on_other_blocks() {
    let mut world = TestWorld::new("overworld");
    let pos = BlockPos::new(1, 2, 3);
    world.set_block(pos, "stone");
    let context = context(&world, pos, compass());
    let (result, exchanged, dropped) = use_on(&mut world, &context, compass());
    assert_eq!(result, InteractionResult::Pass);
    assert!(exchanged.is_none());
    assert!(dropped.is_none());
    assert!(world.sounds.is_empty());
}

#[test]
fn a_lodestone_of_another_namespace_does_not_bind() {
    let world = TestWorld::new("overworld");
    let context = context(&world, BlockPos::new(0, 0, 0), compass());
    let reply = UseReply::Block(Identifier::new_static("mod", "lodestone"));
    assert!(matches!(
        CompassItem.use_on(&context, reply),
        UseStep::Done {
            dropped: None,
            result: InteractionResult::Pass
        }
    ));
}

#[test]
fn what_does_not_fit_is_dropped() {
    let mut world = TestWorld::new("overworld");
    let pos = BlockPos::new(0, 64, 0);
    world.set_block(pos, "lodestone");
    let mut context = context(&world, pos, compass());
    context.hand = InteractionHand::OffHand;
    context.has_infinite_materials = true;
    let (result, _, dropped) = use_on(&mut world, &context, compass());
    assert_eq!(result, InteractionResult::Success);
    let dropped = dropped.expect("should drop the leftover");
    assert_eq!(dropped.item.to_string(), "minecraft:compass");
}

fn bound(dimension: Identifier, pos: BlockPos, is_tracked: bool) -> ItemStack {
    let mut stack = compass();
    stack.lodestone_tracker = Some(LodestoneTracker::new(
        Some(GlobalPos { dimension, pos }),
        is_tracked,
    ));
    stack
}

#[test]
fn unloaded_chunks_are_left_alone() {
    let mut world = TestWorld::new("overworld");
    let pos = BlockPos::new(0, 64, 0);
    let mut stack = bound(world.key(), pos, true);
    inventory_tick(&mut stack, &mut world);
    assert!(target(&stack).is_some());
    assert_eq!(world.blocks_read, 0);
}

#[test]
fn other_dimensions_do_not_invalidate() {
    let mut world = TestWorld::new("nether");
    let pos = BlockPos::new(0, 64, 0);
    world.load_chunk_of(pos);
    let mut stack = bound(Identifier::new_static("steel", "overworld"), pos, true);
    inventory_tick(&mut stack, &mut world);
    assert!(target(&stack).is_some());
    assert_eq!(world.blocks_read, 0);
}

#[test]
fn untracked_targets_stay() {
    let mut world = TestWorld::new("overworld");
    let pos = BlockPos::new(0, 64, 0);
    world.load_chunk_of(pos);
    let mut stack = bound(world.key(), pos, false);
    inventory_tick(&mut stack, &mut world);
    assert!(target(&stack).is_some());
    assert_eq!(world.blocks_read, 0);
}

#[test]
fn a_lost_compass_asks_for_nothing_more() {
    let mut world = TestWorld::new("overworld");
    let pos = BlockPos::new(0, 64, 0);
    world.load_chunk_of(pos);
    let mut stack = bound(world.key(), pos, true);
    inventory_tick(&mut stack, &mut world);
    assert!(target(&stack).is_none());
    assert_eq!(world.blocks_read, 1);

    world.set_block(pos, "lodestone");
    inventory_tick(&mut stack, &mut world);
    assert!(target(&stack).is_none());
    assert!(stack.lodestone_tracker.as_ref().unwrap().is_tracked);
    assert_eq!(world.blocks_read, 1);
}

#[test]
fn plain_compass_asks_for_nothing() {
    let mut stack = compass();
    let key = Identifier::new_static("steel", "overworld");
    assert_eq!(
        CompassItem.inventory_tick(&mut stack, &key, TickReply::Start),
        TickStep::Done
    );
    assert!(stack.lodestone_tracker.is_none());
}

#[test]
fn names_tell_bound_compasses_apart() {
    let default_name = || TextComponent::plain("Compass");
    let plain = compass();
    assert!(CompassItem.get_name(&plain, default_name()) == default_name());

    let mut world = TestWorld::new("overworld");
    let pos = BlockPos::new(0, 64, 0);
    world.load_chunk_of(pos);
    let mut stack = bound(world.key(), pos, true);
    for _ in 0..2 {
        let name = CompassItem.get_name(&stack, default_name());
        match &name.content {
            Content::Translate(message) => {
                assert_eq!(message.key.as_ref(), "item.minecraft.lodestone_compass");
                assert!(message.args.is_none());
                assert!(message.fallback.is_none());
            }
            _ => panic!("a bound compass has a translated name"),
        }
        assert!(name.children.is_empty());
        inventory_tick(&mut stack, &mut world);
    }
    assert!(target(&stack).is_none());
}

#[test]
fn names_are_chosen_by_the_tracker() {
    let names = || (TextComponent::plain("bound"), TextComponent::plain("plain"));
    let (bound_name, default_name) = names();
    let chosen = CompassItem.choose_name(&compass(), bound_name, default_name);
    assert!(chosen == names().1);

    let mut lost = compass();
    lost.lodestone_tracker = Some(LodestoneTracker::new(None, false));
    let (bound_name, default_name) = names();
    assert!(CompassItem.choose_name(&lost, bound_name, default_name) == names().0);
    let key = Identifier::new_static("steel", "overworld");
    assert_eq!(
        CompassItem.inventory_tick(&mut lost, &key, TickReply::Start),
        TickStep::Done
    );
}
