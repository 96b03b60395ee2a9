//! Chest minecarts.

use steel_core::chest_minecart::{
    Attacker, ChestMinecartEntity, DismountQuery, DismountStep, EntityContact, HurtOutcome,
    PushReply, PushStep, ALIGNMENT_BITS, BREAKING_DAMAGE_BITS, SMALLEST_PUSH_BITS,
};
use steel_core::entity::{EntityBaseLoad, EntityDimensions, EntityType, RemovalReason};
use steel_core::float_bits::{Double, Single};
use steel_core::geometry::{Axis, BlockPos, Direction, Vec3};
use steel_core::identifier::Identifier;
use steel_core::interaction::InteractionResult;
use steel_core::item_stack::ItemStack;
use steel_core::nbt::{NbtCompound, NbtList, NbtTag};
use steel_core::save_format::read_saved_stacks;
use text_components::content::Content;
use text_components::TextComponent;

fn double(value: f64) -> Double {
    Double { bits: value.to_bits() }
}

fn single(value: f32) -> Single {
    Single { bits: value.to_bits() }
}

fn vec3(x: f64, y: f64, z: f64) -> Vec3 {
    Vec3 { x: double(x), y: double(y), z: double(z) }
}

fn chest_minecart_type() -> EntityType {
    EntityType {
        key: Identifier::new_static("minecraft", "chest_minecart"),
        dimensions: EntityDimensions { width: single(0.98), height: single(0.7) },
    }
}

fn cart() -> ChestMinecartEntity {
    ChestMinecartEntity::new(chest_minecart_type(), 1, vec3(1.5, 2.5, 3.5))
}

fn stack(item: &str, count: i32) -> ItemStack {
    ItemStack::with_count(Identifier::new_static("minecraft", item), count)
}

/// The saved form of a stack: its item and its count.
fn encode(stack: &ItemStack) -> NbtCompound {
    let mut nbt = NbtCompound::new();
    nbt.insert("id", NbtTag::String(stack.item.to_string()));
    nbt.insert("count", NbtTag::Int(stack.count()));
    nbt
}

fn decode(nbt: &NbtCompound) -> Option<ItemStack> {
    let item = parse(nbt.string("id")?)?;
    match nbt.get("count") {
        Some(NbtTag::Int(count)) => Some(ItemStack::with_count(item, *count)),
        _ => None,
    }
}

fn parse(text: &str) -> Option<Identifier> {
    let (namespace, path) = text.split_once(':')?;
    Some(Identifier::new_static(namespace, path))
}

fn save(cart: &ChestMinecartEntity, nbt: &mut NbtCompound) {
    let inventory = cart.inventory();
    let encoded = (0..inventory.get_container_size())
        .map(|slot| Some(encode(inventory.get_item(slot))))
        .collect();
    cart.save_additional(nbt, encoded);
}

fn load(cart: &mut ChestMinecartEntity, nbt: &NbtCompound) {
    let loot_table = nbt.string("LootTable").and_then(|text| parse(text));
    let stacks = read_saved_stacks(nbt)
        .iter()
        .map(|saved| decode(saved.compound))
        .collect();
    cart.load_additional(nbt, loot_table, stacks);
}

/// Hits the cart, with the damage that the amount adds up to.
fn hurt(cart: &mut ChestMinecartEntity, attacker: Option<Attacker>, amount: f32) -> HurtOutcome {
    let new_damage = f32::from_bits(cart.damage().bits) + amount * 10.0;
    cart.hurt(false, attacker, single(new_damage))
}

fn tick(cart: &mut ChestMinecartEntity) {
    let shown = cart.synced_data().expect("carts have synced data").id_damage;
    let reduced = (f32::from_bits(shown.bits) - 1.0).max(0.0);
    cart.tick(single(reduced));
}

fn names(stacks: &[ItemStack]) -> Vec<(String, i32)> {
    stacks
        .iter()
        .map(|stack| (stack.item.to_string(), stack.count()))
        .collect()
}

#[test]
fn chest_minecart_saves_structure_loot_table_state() {
    let mut minecart = cart();
    minecart.set_loot_table(
        Identifier::new_static("minecraft", "chests/abandoned_mineshaft"),
        42,
    );

    let mut nbt = NbtCompound::new();
    save(&minecart, &mut nbt);

    assert_eq!(
        nbt.string("LootTable").map(ToString::to_string),
        Some("minecraft:chests/abandoned_mineshaft".to_owned())
    );
    assert_eq!(nbt.long("LootTableSeed"), Some(42));
    assert_eq!(nbt.byte("HasTicked"), Some(1));
    assert_eq!(nbt.byte("FlippedRotation"), Some(0));
}

#[test]
fn chest_minecart_round_trips_inventory_items() {
    let mut minecart = cart();
    minecart.set_item(4, stack("stone", 3));

    let mut nbt = NbtCompound::new();
    save(&minecart, &mut nbt);

    let mut loaded = ChestMinecartEntity::new(chest_minecart_type(), 2, vec3(1.5, 2.5, 3.5));
    load(&mut loaded, &nbt);

    let inventory = loaded.inventory();
    assert_eq!(inventory.get_item(4).count(), 3);
    assert!(inventory.get_item(0).is_empty());
}

#[test]
fn chest_minecart_is_pickable_and_pushable_like_vanilla() {
    let minecart = cart();

    assert!(minecart.is_pickable());
    assert!(minecart.is_pushable());
    assert!(!minecart.can_be_collided_with());
    assert!(minecart.blocks_building());
}

#[test]
fn chest_minecart_has_vanilla_container_size() {
    let minecart = cart();

    assert_eq!(minecart.inventory().get_container_size(), 27);
}

/// Where an entity is in a portal that lies along the x axis: as fractions of
/// the opening, and the distance from the middle between front and back.
fn relative_position(corner: BlockPos, sizes: (i32, i32), at: (f64, f64, f64)) -> Vec3 {
    vec3(
        (at.0 - f64::from(corner.x)) / f64::from(sizes.0),
        (at.1 - f64::from(corner.y)) / f64::from(sizes.1),
        at.2 - (f64::from(corner.z) + 0.5),
    )
}

#[test]
fn chest_minecart_relative_portal_position_resets_forward_offset() {
    let minecart = ChestMinecartEntity::new(chest_minecart_type(), 1, vec3(12.0, 66.0, 20.75));
    let relative = relative_position(BlockPos::new(10, 64, 20), (4, 5), (12.0, 66.0, 20.75));
    assert!(f64::from_bits(relative.z.bits).abs() > 0.2);

    let position = minecart.get_relative_portal_position(relative);
    assert!(f64::from_bits(position.z.bits).abs() < f64::EPSILON);
    assert_eq!(position.x, relative.x);
    assert_eq!(position.y, relative.y);
}

#[test]
fn chest_minecart_destruction_drops_inventory_contents() {
    let mut minecart = ChestMinecartEntity::new(chest_minecart_type(), 7, vec3(0.5, 64.0, 0.5));
    minecart.set_item(0, stack("diamond", 5));
    minecart.set_item(1, stack("gold_ingot", 10));

    let outcome = hurt(&mut minecart, None, 5.0);
    assert!(outcome.hurt);
    assert!(minecart.base().is_removed());
    assert!(!minecart.is_pickable());

    // DIAMOND x5, GOLD_INGOT x10, and CHEST_MINECART x1
    assert_eq!(outcome.drops.len(), 3);
    assert_eq!(
        names(&outcome.drops),
        vec![
            ("minecraft:diamond".to_owned(), 5),
            ("minecraft:gold_ingot".to_owned(), 10),
            ("minecraft:chest_minecart".to_owned(), 1),
        ]
    );
}

#[test]
fn new_and_saved_carts_start_empty() {
    let fresh = cart();
    assert_eq!(fresh.base().id, 1);
    assert_eq!(fresh.base().position, vec3(1.5, 2.5, 3.5));
    assert_eq!(fresh.base().dimensions.height, single(0.7));
    assert_eq!(fresh.entity_type().key.to_string(), "minecraft:chest_minecart");

    let load = EntityBaseLoad { id: 9, position: vec3(0.0, 1.0, 2.0) };
    let saved = ChestMinecartEntity::from_saved(chest_minecart_type(), load);
    assert_eq!(saved.base().id, 9);
    assert_eq!(saved.base().position, vec3(0.0, 1.0, 2.0));
    assert!((0..27).all(|slot| saved.inventory().get_item(slot).is_empty()));

    let mut nbt = NbtCompound::new();
    save(&saved, &mut nbt);
    assert_eq!(nbt.byte("HasTicked"), Some(0));
    assert_eq!(nbt.entries.len(), 3);
    assert_eq!(nbt.compounds("Items").map(|items| items.len()), Some(0));
}

#[test]
fn a_zero_seed_is_not_saved() {
    let mut minecart = cart();
    minecart.set_loot_table(Identifier::new_static("minecraft", "chests/igloo"), 0);
    let mut nbt = NbtCompound::new();
    save(&minecart, &mut nbt);
    assert!(nbt.string("LootTable").is_some());
    assert!(nbt.get("LootTableSeed").is_none());
}

#[test]
fn loading_restores_everything_that_was_saved() {
    let mut minecart = cart();
    minecart.set_loot_table(Identifier::new_static("steel", "chests/test"), -7);
    minecart.set_item(0, stack("stone", 1));
    minecart.set_item(13, stack("dirt", 0));
    minecart.set_item(26, stack("diamond", 64));

    let mut nbt = NbtCompound::new();
    nbt.insert("Air", NbtTag::Short(300));
    save(&minecart, &mut nbt);
    assert_eq!(nbt.entries[0].name, "Air");
    assert_eq!(nbt.compounds("Items").map(|items| items.len()), Some(2));

    let load_base = EntityBaseLoad { id: 2, position: vec3(0.0, 0.0, 0.0) };
    let mut other = ChestMinecartEntity::from_saved(chest_minecart_type(), load_base);
    other.set_item(5, stack("gravel", 3));
    other.set_loot_table(Identifier::new_static("minecraft", "chests/igloo"), 5);
    load(&mut other, &nbt);

    assert_eq!(other.inventory().get_item(0).item.to_string(), "minecraft:stone");
    assert_eq!(other.inventory().get_item(26).count(), 64);
    assert!(other.inventory().get_item(5).is_empty());
    assert!(other.inventory().get_item(13).is_empty());

    let mut again = NbtCompound::new();
    save(&other, &mut again);
    assert_eq!(again.byte("HasTicked"), Some(1));
    assert_eq!(again.string("LootTable").map(|text| text.as_str()), Some("steel:chests/test"));
    assert_eq!(again.long("LootTableSeed"), Some(-7));
}

#[test]
fn loading_nothing_forgets_contents_and_loot_but_not_the_tick() {
    let mut minecart = cart();
    minecart.set_item(3, stack("stone", 1));
    minecart.set_loot_table(Identifier::new_static("minecraft", "chests/igloo"), 5);
    load(&mut minecart, &NbtCompound::new());
    assert!(minecart.inventory().get_item(3).is_empty());

    let mut nbt = NbtCompound::new();
    save(&minecart, &mut nbt);
    assert!(nbt.get("LootTable").is_none());
    assert_eq!(nbt.byte("HasTicked"), Some(1));
}

#[test]
fn an_unreadable_loot_table_is_dropped_but_its_seed_stays() {
    let mut nbt = NbtCompound::new();
    nbt.insert("LootTable", NbtTag::String("no colon".to_owned()));
    nbt.insert("LootTableSeed", NbtTag::Long(11));
    let mut minecart = cart();
    load(&mut minecart, &nbt);
    assert!(minecart.loot_table().is_none());
    assert_eq!(minecart.loot_table_seed(), 11);

    let mut saved = NbtCompound::new();
    save(&minecart, &mut saved);
    assert!(saved.get("LootTable").is_none());
    assert!(saved.get("LootTableSeed").is_none());
}

fn slotted(item: &str, count: i32, slot: NbtTag) -> NbtCompound {
    let mut nbt = encode(&stack(item, count));
    nbt.insert("Slot", slot);
    nbt
}

#[test]
fn only_real_slots_are_filled_and_the_last_stack_wins() {
    let mut items = Vec::new();
    items.push(slotted("stone", 1, NbtTag::Byte(2)));
    items.push(slotted("dirt", 2, NbtTag::Byte(-1)));
    items.push(slotted("sand", 3, NbtTag::Byte(27)));
    items.push(slotted("clay", 4, NbtTag::Byte(26)));
    items.push(slotted("gravel", 5, NbtTag::Int(7)));
    items.push(encode(&stack("cobblestone", 6)));
    items.push(slotted("diamond", 7, NbtTag::Byte(2)));
    let mut unreadable = NbtCompound::new();
    unreadable.insert("Slot", NbtTag::Byte(26));
    items.push(unreadable);
    let mut nbt = NbtCompound::new();
    nbt.insert("Items", NbtTag::List(NbtList::Compound(items)));

    let slots: Vec<usize> = read_saved_stacks(&nbt).iter().map(|saved| saved.slot).collect();
    assert_eq!(slots, vec![2, 26, 2, 26]);

    let mut minecart = cart();
    load(&mut minecart, &nbt);
    let inventory = minecart.inventory();
    assert_eq!(inventory.get_item(2).item.to_string(), "minecraft:diamond");
    assert_eq!(inventory.get_item(26).item.to_string(), "minecraft:clay");
    assert!((0..27)
        .filter(|slot| *slot != 2 && *slot != 26)
        .all(|slot| inventory.get_item(slot).is_empty()));
}

#[test]
fn the_first_tag_of_a_name_counts() {
    let mut nbt = NbtCompound::new();
    nbt.insert("HasTicked", NbtTag::Byte(0));
    nbt.insert("HasTicked", NbtTag::Byte(1));
    nbt.insert("LootTableSeed", NbtTag::Int(3));
    nbt.insert("LootTableSeed", NbtTag::Long(3));
    assert_eq!(nbt.byte("HasTicked"), Some(0));
    assert_eq!(nbt.long("LootTableSeed"), None);
    assert!(nbt.string("HasTicked").is_none());
    assert!(nbt.compounds("Items").is_none());

    let mut minecart = cart();
    load(&mut minecart, &nbt);
    let mut saved = NbtCompound::new();
    save(&minecart, &mut saved);
    assert_eq!(saved.byte("HasTicked"), Some(0));
}

#[test]
fn stacks_without_a_saved_form_are_left_out() {
    let mut minecart = cart();
    minecart.set_item(1, stack("stone", 1));
    minecart.set_item(2, stack("dirt", 1));
    let encoded = (0..27)
        .map(|slot| if slot == 2 { Some(encode(&stack("dirt", 1))) } else { None })
        .collect();
    let mut nbt = NbtCompound::new();
    minecart.save_additional(&mut nbt, encoded);
    let saved = read_saved_stacks(&nbt);
    assert_eq!(saved.len(), 1);
    assert_eq!(saved[0].slot, 2);
}

#[test]
fn flags_are_bytes() {
    assert_eq!(ChestMinecartEntity::nbt_bool(true), 1);
    assert_eq!(ChestMinecartEntity::nbt_bool(false), 0);
}

#[test]
fn hits_add_up_until_the_cart_breaks() {
    assert_eq!(f32::from_bits(BREAKING_DAMAGE_BITS), 40.0);
    let mut minecart = cart();
    minecart.set_item(8, stack("stone", 2));

    let outcome = hurt(&mut minecart, Some(Attacker::Other), 2.0);
    assert!(outcome.hurt);
    assert!(outcome.drops.is_empty());
    let data = *minecart.synced_data().unwrap();
    assert_eq!((data.id_hurt, data.id_hurtdir), (10, -1));
    assert_eq!(data.id_damage, single(20.0));
    assert!(minecart.base().hurt_marked);

    let survivor = Some(Attacker::Player { has_infinite_materials: false });
    let outcome = hurt(&mut minecart, survivor, 2.0);
    assert!(outcome.drops.is_empty());
    assert!(!minecart.base().is_removed());
    assert_eq!(minecart.damage(), single(40.0));
    assert_eq!(minecart.synced_data().unwrap().id_hurtdir, 1);
    assert_eq!(minecart.inventory().get_item(8).count(), 2);

    let outcome = hurt(&mut minecart, survivor, 0.1);
    assert_eq!(
        names(&outcome.drops),
        vec![
            ("minecraft:stone".to_owned(), 2),
            ("minecraft:chest_minecart".to_owned(), 1),
        ]
    );
    assert_eq!(minecart.base().removal, Some(RemovalReason::Killed));
}

#[test]
fn a_removed_cart_takes_no_hits() {
    let mut minecart = cart();
    minecart.set_item(8, stack("stone", 2));
    assert_eq!(hurt(&mut minecart, None, 100.0).drops.len(), 2);
    let outcome = hurt(&mut minecart, None, 100.0);
    assert!(!outcome.hurt);
    assert!(outcome.drops.is_empty());
    assert!(minecart.drop_contents().is_empty());
}

#[test]
fn an_invulnerable_cart_takes_no_hits() {
    let mut minecart = cart();
    let outcome = minecart.hurt(true, None, single(1000.0));
    assert!(!outcome.hurt);
    assert!(!minecart.base().hurt_marked);
    assert!(!minecart.base().is_removed());
    assert_eq!(minecart.damage(), single(0.0));
}

#[test]
fn a_creative_hit_drops_the_contents_but_not_the_cart() {
    let mut minecart = cart();
    minecart.set_item(20, stack("diamond", 9));
    let creative = Some(Attacker::Player { has_infinite_materials: true });
    let outcome = hurt(&mut minecart, creative, 0.5);
    assert!(outcome.hurt);
    assert_eq!(names(&outcome.drops), vec![("minecraft:diamond".to_owned(), 9)]);
    assert!(minecart.base().is_removed());
    assert_eq!(minecart.damage(), single(0.0));
    assert_eq!(minecart.synced_data().unwrap().id_hurt, 0);
}

#[test]
fn damage_that_is_no_number_does_not_break_a_cart() {
    let mut minecart = cart();
    let outcome = hurt(&mut minecart, None, f32::NAN);
    assert!(outcome.hurt);
    assert!(!minecart.base().is_removed());
}

#[test]
fn contents_drop_in_slot_order_and_once() {
    let mut minecart = cart();
    minecart.set_item(9, stack("dirt", 3));
    minecart.set_item(2, stack("stone", 64));
    minecart.set_item(4, stack("air", 7));
    assert_eq!(
        names(&minecart.drop_contents()),
        vec![("minecraft:stone".to_owned(), 64), ("minecraft:dirt".to_owned(), 3)]
    );
    assert!(minecart.drop_contents().is_empty());
    assert!((0..27).all(|slot| minecart.inventory().get_item(slot).is_empty()));
}

#[test]
fn shaking_and_shown_damage_die_down() {
    let mut minecart = cart();
    hurt(&mut minecart, None, 0.25);
    tick(&mut minecart);
    let data = *minecart.synced_data().unwrap();
    assert_eq!(data.id_hurt, 9);
    assert_eq!(data.id_damage, single(1.5));
    for _ in 0..9 {
        tick(&mut minecart);
    }
    let data = *minecart.synced_data().unwrap();
    assert_eq!(data.id_hurt, 0);
    assert_eq!(data.id_damage, single(0.0));
    tick(&mut minecart);
    assert_eq!(minecart.synced_data().unwrap().id_hurt, 0);
    assert_eq!(minecart.damage(), single(2.5));
}

#[test]
fn the_first_removal_reason_stays() {
    let mut minecart = cart();
    minecart.set_removed(RemovalReason::UnloadedToChunk);
    minecart.set_removed(RemovalReason::Killed);
    assert_eq!(minecart.base().removal, Some(RemovalReason::UnloadedToChunk));
    assert!(!minecart.is_pickable());
}

#[test]
fn carts_know_whether_they_are_on_rails() {
    let mut minecart = cart();
    assert!(!minecart.is_on_rails());
    minecart.set_on_rails(true);
    assert!(minecart.is_on_rails());
    minecart.set_on_rails(false);
    assert!(!minecart.is_on_rails());
}

#[test]
fn constants_are_those_of_a_minecart() {
    let minecart = cart();
    assert_eq!(f64::from_bits(minecart.get_default_gravity().bits), 0.04);
    assert_eq!(minecart.dimension_changing_delay(), 10);
}

#[test]
fn the_menu_opens_unless_the_player_sneaks() {
    let mut minecart = ChestMinecartEntity::new(chest_minecart_type(), 31, vec3(0.0, 0.0, 0.0));
    let sneaking = minecart.interact(true);
    assert_eq!(sneaking.result, InteractionResult::Pass);
    assert!(sneaking.menu.is_none());
    assert!(sneaking.loot.is_none());

    let opening = minecart.interact(false);
    assert_eq!(opening.result, InteractionResult::Success);
    let menu = opening.menu.expect("should open a menu");
    assert_eq!(menu.rows, 3);
    assert_eq!(menu.entity_id, 31);
    assert!(opening.loot.is_none());
    assert!(menu.title == TextComponent::plain("Chest Minecart"));
    match &menu.title.content {
        Content::Text { text } => assert_eq!(text.as_ref(), "Chest Minecart"),
        _ => panic!("the title is plain text"),
    }
    assert!(menu.title.children.is_empty());

    let other = minecart.open_menu(TextComponent::plain("Other"));
    assert!(other.menu.expect("should open a menu").title == TextComponent::plain("Other"));
}

#[test]
fn the_first_opening_hands_out_the_loot() {
    let mut minecart = cart();
    minecart.set_loot_table(
        Identifier::new_static("minecraft", "chests/abandoned_mineshaft"),
        42,
    );
    minecart.set_item(3, stack("stone", 1));
    assert!(minecart.interact(true).loot.is_none());
    assert_eq!(
        minecart.loot_table().map(|table| table.to_string()),
        Some("minecraft:chests/abandoned_mineshaft".to_owned())
    );
    assert_eq!(minecart.loot_table_seed(), 42);

    let first = minecart.interact(false);
    assert_eq!(first.result, InteractionResult::Success);
    assert!(first.menu.is_some());
    let loot = first.loot.expect("should hand out the loot");
    assert_eq!(loot.loot_table.to_string(), "minecraft:chests/abandoned_mineshaft");
    assert_eq!(loot.seed, 42);
    assert!(minecart.loot_table().is_none());
    assert_eq!(minecart.loot_table_seed(), 0);
    assert_eq!(minecart.inventory().get_item(3).count(), 1);

    let second = minecart.interact(false);
    assert_eq!(second.result, InteractionResult::Success);
    assert!(second.loot.is_none());

    let mut nbt = NbtCompound::new();
    save(&minecart, &mut nbt);
    assert!(nbt.get("LootTable").is_none());
    assert!(nbt.get("LootTableSeed").is_none());
}

#[test]
fn loot_fills_the_cart_over_what_is_there() {
    let mut minecart = cart();
    minecart.set_loot_table(Identifier::new_static("minecraft", "chests/igloo"), 8);
    minecart.set_item(1, stack("stone", 1));
    minecart.set_item(2, stack("dirt", 2));
    assert!(minecart.interact(false).loot.is_some());
    minecart.fill_with_loot(vec![
        (2, stack("apple", 3)),
        (26, stack("coal", 4)),
        (2, stack("emerald", 5)),
    ]);
    let inventory = minecart.inventory();
    assert_eq!(inventory.get_item(1).item.to_string(), "minecraft:stone");
    assert_eq!(inventory.get_item(2).item.to_string(), "minecraft:emerald");
    assert_eq!(inventory.get_item(26).count(), 4);
    assert!(inventory.get_item(0).is_empty());

    assert!(minecart.interact(false).loot.is_none());
    assert_eq!(minecart.inventory().get_item(2).count(), 5);
    minecart.fill_with_loot(Vec::new());
    assert_eq!(minecart.inventory().get_item(26).count(), 4);
}

#[test]
fn saved_loot_is_handed_out_after_loading() {
    let mut minecart = cart();
    minecart.set_loot_table(Identifier::new_static("minecraft", "chests/igloo"), -5);
    let mut nbt = NbtCompound::new();
    save(&minecart, &mut nbt);
    let mut loaded = cart();
    load(&mut loaded, &nbt);
    let loot = loaded.interact(false).loot.expect("should hand out the loot");
    assert_eq!(loot.loot_table.to_string(), "minecraft:chests/igloo");
    assert_eq!(loot.seed, -5);
}

#[test]
fn what_is_put_in_is_saved_and_dropped() {
    let mut minecart = cart();
    minecart.interact(false);
    minecart.set_item(11, stack("emerald", 4));
    let mut nbt = NbtCompound::new();
    save(&minecart, &mut nbt);
    assert_eq!(read_saved_stacks(&nbt)[0].slot, 11);
    let outcome = hurt(&mut minecart, None, 5.0);
    assert_eq!(names(&outcome.drops)[0], ("minecraft:emerald".to_owned(), 4));
}

fn contact() -> EntityContact {
    EntityContact {
        can_be_collided_with: false,
        is_pushable: true,
        is_abstract_minecart: false,
        no_physics: false,
        is_passenger_of_same_vehicle: false,
    }
}

#[test]
fn carts_collide_with_what_can_be_hit_or_pushed() {
    let minecart = cart();
    for bits in 0..8 {
        let other = EntityContact {
            can_be_collided_with: bits & 1 != 0,
            is_pushable: bits & 2 != 0,
            is_passenger_of_same_vehicle: bits & 4 != 0,
            ..contact()
        };
        assert_eq!(minecart.can_collide_with(&other), bits == 1 || bits == 2 || bits == 3);
    }
}

#[test]
fn pushes_need_physics_and_different_vehicles() {
    let minecart = cart();
    let start = PushReply::Start;
    assert_eq!(minecart.push_entity(&contact(), false, start), PushStep::MeasureDistance);
    assert_eq!(minecart.push_entity(&contact(), true, start), PushStep::Stop);
    let ghost = EntityContact { no_physics: true, ..contact() };
    assert_eq!(minecart.push_entity(&ghost, false, start), PushStep::Stop);
    let rider = EntityContact { is_passenger_of_same_vehicle: true, ..contact() };
    assert_eq!(minecart.push_entity(&rider, false, start), PushStep::Stop);
}

#[test]
fn pushes_need_a_distance() {
    assert_eq!(f64::from_bits(SMALLEST_PUSH_BITS), 0.0001);
    let minecart = cart();
    let at = |distance: f64| PushReply::DistanceSquared(double(distance));
    let stone = EntityContact { is_pushable: false, ..contact() };
    let other_cart = EntityContact { is_abstract_minecart: true, ..contact() };

    assert_eq!(minecart.push_entity(&contact(), false, at(0.00009)), PushStep::Stop);
    assert_eq!(
        minecart.push_entity(&contact(), false, at(0.0001)),
        PushStep::PushApart { push_other: true }
    );
    assert_eq!(
        minecart.push_entity(&stone, false, at(1.0)),
        PushStep::PushApart { push_other: false }
    );
    assert_eq!(minecart.push_entity(&other_cart, false, at(1.0)), PushStep::MeasureAlignment);
    assert_eq!(minecart.push_entity(&other_cart, false, at(0.0)), PushStep::Stop);
}

#[test]
fn carts_share_their_speed_when_in_line() {
    assert_eq!(f64::from_bits(ALIGNMENT_BITS), 0.8);
    let minecart = cart();
    let other_cart = EntityContact { is_abstract_minecart: true, ..contact() };
    for cosine in [-1.0, -0.8, 0.8, 0.95] {
        let reply = PushReply::Alignment(double(cosine));
        assert_eq!(minecart.push_entity(&other_cart, false, reply), PushStep::ShareSpeed);
    }
    for cosine in [-0.79, 0.0, 0.5] {
        let reply = PushReply::Alignment(double(cosine));
        assert_eq!(minecart.push_entity(&other_cart, false, reply), PushStep::Stop);
    }
}

fn query(direction: Direction) -> DismountQuery {
    DismountQuery {
        direction,
        block: BlockPos::new(1, 2, 3),
        offsets: vec![(1, 0), (-1, 0), (0, -5)],
        top: double(3.2),
    }
}

/// Searches until a place is found, with the given results, and gives the place
/// and the blocks that were searched.
fn dismount(query: &DismountQuery, results: &[Option<Vec3>]) -> (Vec3, Vec<BlockPos>) {
    let minecart = cart();
    let mut tried = 0;
    let mut found = None;
    let mut searched = Vec::new();
    loop {
        match minecart.get_dismount_location_for_passenger(query, tried, found) {
            DismountStep::At(place) => return (place, searched),
            DismountStep::Search { block, avoid_danger } => {
                assert!(avoid_danger);
                searched.push(block);
                found = results[tried];
                tried += 1;
            }
        }
    }
}

#[test]
fn passengers_take_the_first_safe_place() {
    let place = vec3(0.5, 2.0, 3.5);
    let (taken, searched) = dismount(&query(Direction::North), &[None, Some(place), None]);
    assert_eq!(taken, place);
    assert_eq!(searched, vec![BlockPos::new(2, 2, 3), BlockPos::new(0, 2, 3)]);
}

#[test]
fn passengers_without_a_safe_place_end_up_on_top() {
    let (taken, searched) = dismount(&query(Direction::East), &[None, None, None]);
    assert_eq!(taken, vec3(1.5, 3.2, 3.5));
    assert_eq!(searched.len(), 3);
    assert_eq!(searched[2], BlockPos::new(1, 2, -2));
}

#[test]
fn passengers_of_a_falling_cart_stay_where_it_is() {
    for direction in [Direction::Up, Direction::Down] {
        assert_eq!(direction.axis(), Axis::Y);
        let (taken, searched) = dismount(&query(direction), &[]);
        assert_eq!(taken, vec3(1.5, 2.5, 3.5));
        assert!(searched.is_empty());
    }
}

#[test]
fn blocks_that_are_not_reached_need_no_coordinates() {
    let place = vec3(0.5, 2.0, 3.5);
    let far = DismountQuery { offsets: vec![(1, 0), (i32::MAX, 0)], ..query(Direction::North) };
    assert_eq!(dismount(&far, &[Some(place)]), (place, vec![BlockPos::new(2, 2, 3)]));
    let up = DismountQuery { offsets: vec![(i32::MAX, i32::MAX)], ..query(Direction::Up) };
    assert_eq!(dismount(&up, &[]), (vec3(1.5, 2.5, 3.5), Vec::new()));
}

#[test]
fn moved_carts_let_passengers_off_elsewhere() {
    let mut minecart = cart();
    minecart.set_position(vec3(7.0, 8.0, 9.0));
    assert_eq!(
        minecart.get_dismount_location_for_passenger(&query(Direction::West), 3, None),
        DismountStep::At(vec3(7.0, 3.2, 9.0))
    );
}

#[test]
fn splitting_takes_at_most_what_is_there() {
    let mut items = stack("stone", 10);
    assert_eq!(items.split(4).count(), 4);
    assert_eq!(items.count(), 6);
    let rest = items.split(99);
    assert_eq!(rest.count(), 6);
    assert_eq!(rest.item.to_string(), "minecraft:stone");
    assert!(items.is_empty());
}
