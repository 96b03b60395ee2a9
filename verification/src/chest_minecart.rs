//! The chest minecart.

use vstd::prelude::*;
use text_components::TextComponent;
use crate::container::SimpleContainer;
use crate::container::{emptied, empty_slots, occupied, optional_stack_views, placed, stack_views};
use crate::entity::{EntityBase, EntityBaseLoad, EntityType, EntityTypeView, RemovalReason};
use crate::entity::VehicleData;
use crate::float_bits::{Double, Single};
use crate::geometry::{Axis, BlockPos, Direction, Vec3};
use crate::identifier::{Identifier, IdentifierView};
use crate::identifier::vanilla;
use crate::interaction::InteractionResult;
use crate::item_stack::{ItemStack, ItemStackView};
use crate::nbt::{CompoundView, NbtCompound, NbtList, NbtTag, TagView};
use crate::nbt::{compound_views, find_byte, find_long, find_string};
use crate::save_format::CONTAINER_SIZE;
use crate::save_format::{flag_byte, items_entry, optional_compound_views, placeable_slots};
use crate::save_format::{read_saved_stacks, saved_stack_views, saved_stacks};
use crate::text::plain_component;
use crate::text::plain_text;

verus! {

/// The damage above which the cart breaks: 40.
pub const BREAKING_DAMAGE_BITS: u32 = 0x4220_0000;

/// The squared distance below which two entities do not push each other:
/// 0.0001.
pub const SMALLEST_PUSH_BITS: u64 = 0x3f1a_36e2_eb1c_432d;

/// How far two carts have to be in line to push each other: 0.8.
pub const ALIGNMENT_BITS: u64 = 0x3fe9_9999_9999_999a;

/// The fall per tick squared: 0.04.
pub const GRAVITY_BITS: u64 = 0x3fa4_7ae1_47ae_147b;

/// The ticks for which a cart shakes after a hit.
pub const HURT_TICKS: i32 = 10;

/// The rows of the menu of a chest minecart.
pub const MENU_ROWS: u8 = 3;

/// The state of a chest minecart that clients are not kept up to date on.
#[derive(Debug)]
struct ChestMinecartState {
    first_tick: bool,
    loot_table: Option<Identifier>,
    loot_table_seed: i64,
    damage: Single,
    on_rails: bool,
}

/// What the state of a chest minecart stands for.
#[verifier::ext_equal]
pub struct StateView {
    pub first_tick: bool,
    pub loot_table: Option<IdentifierView>,
    pub loot_table_seed: i64,
    pub damage: Single,
    pub on_rails: bool,
}

impl StateView {
    /// The state of a cart that nothing has happened to.
    pub open spec fn fresh(first_tick: bool) -> StateView {
        StateView {
            first_tick,
            loot_table: None,
            loot_table_seed: 0,
            damage: Single { bits: 0 },
            on_rails: false,
        }
    }
}

/// What an identifier that may be there stands for.
pub open spec fn optional_identifier_view(identifier: Option<Identifier>) -> Option<
    IdentifierView,
> {
    match identifier {
        Some(identifier) => Some(identifier@),
        None => None,
    }
}

impl View for ChestMinecartState {
    type V = StateView;

    closed spec fn view(&self) -> StateView {
        StateView {
            first_tick: self.first_tick,
            loot_table: optional_identifier_view(self.loot_table),
            loot_table_seed: self.loot_table_seed,
            damage: self.damage,
            on_rails: self.on_rails,
        }
    }
}

impl ChestMinecartState {
    fn new(first_tick: bool) -> (result: ChestMinecartState)
        ensures
            result@ == StateView::fresh(first_tick),
    {
        ChestMinecartState {
            first_tick,
            loot_table: None,
            loot_table_seed: 0,
            damage: Single { bits: 0 },
            on_rails: false,
        }
    }
}

/// Chest minecart entity used by structure generation and gameplay.
#[derive(Debug)]
pub struct ChestMinecartEntity {
    base: EntityBase,
    entity_type: EntityType,
    state: ChestMinecartState,
    entity_data: VehicleData,
    inventory: SimpleContainer,
}

/// What a chest minecart stands for.
#[verifier::ext_equal]
pub struct MinecartView {
    pub base: EntityBase,
    pub entity_type: EntityTypeView,
    pub state: StateView,
    pub data: VehicleData,
    pub items: Seq<ItemStackView>,
}

impl MinecartView {
    /// A chest minecart always has all its slots.
    pub open spec fn wf(self) -> bool {
        &&& self.items.len() == CONTAINER_SIZE
        &&& self.data.wf()
    }

    /// Whether the cart is gone.
    pub open spec fn is_removed(self) -> bool {
        self.base.removal is Some
    }

    /// A cart with nothing in it.
    pub open spec fn fresh(
        base: EntityBase,
        entity_type: EntityTypeView,
        first_tick: bool,
    ) -> MinecartView {
        MinecartView {
            base,
            entity_type,
            state: StateView::fresh(first_tick),
            data: VehicleData::unhurt(),
            items: empty_slots(CONTAINER_SIZE as nat),
        }
    }

    /// The cart after a tick. `reduced` is the damage that is shown from then
    /// on, if any was.
    pub open spec fn ticked(self, reduced: Single) -> MinecartView {
        MinecartView {
            data: VehicleData {
                id_hurt: if self.data.id_hurt > 0 {
                    (self.data.id_hurt - 1) as i32
                } else {
                    self.data.id_hurt
                },
                id_damage: if self.data.id_damage.greater(Single { bits: 0 }) {
                    reduced
                } else {
                    self.data.id_damage
                },
                ..self.data
            },
            ..self
        }
    }

    /// The cart once clients have to be told of a hit.
    pub open spec fn marked(self) -> MinecartView {
        MinecartView { base: EntityBase { hurt_marked: true, ..self.base }, ..self }
    }

    /// The cart after a hit that brings its damage to `damage`.
    pub open spec fn damaged(self, damage: Single) -> MinecartView {
        MinecartView {
            state: StateView { damage, ..self.state },
            data: VehicleData {
                id_hurt: HURT_TICKS,
                id_hurtdir: (-self.data.id_hurtdir) as i32,
                id_damage: damage,
            },
            ..self
        }
    }

    /// The cart after it was destroyed: its contents taken out, itself gone.
    pub open spec fn destroyed(self) -> MinecartView {
        MinecartView {
            base: EntityBase { removal: Some(RemovalReason::Killed), ..self.base },
            items: emptied(self.items),
            ..self
        }
    }

    /// The cart after a hit.
    pub open spec fn hurt(
        self,
        invulnerable: bool,
        attacker: Option<Attacker>,
        damage: Single,
    ) -> MinecartView {
        if invulnerable || self.is_removed() {
            self
        } else if is_creative(attacker) {
            self.marked().destroyed()
        } else if breaks(damage) {
            self.marked().damaged(damage).destroyed()
        } else {
            self.marked().damaged(damage)
        }
    }

    /// The stacks that a hit makes the cart drop, in order.
    pub open spec fn hurt_drops(
        self,
        invulnerable: bool,
        attacker: Option<Attacker>,
        damage: Single,
    ) -> Seq<ItemStackView> {
        if invulnerable || self.is_removed() {
            Seq::empty()
        } else if is_creative(attacker) {
            occupied(self.items)
        } else if breaks(damage) {
            occupied(self.items).push(ItemStackView::plain(vanilla("chest_minecart"@), 1))
        } else {
            Seq::empty()
        }
    }

    /// The cart with that loot table.
    pub open spec fn with_loot_table(self, loot_table: IdentifierView, seed: i64) -> MinecartView {
        MinecartView {
            state: StateView {
                loot_table: Some(loot_table),
                loot_table_seed: seed,
                ..self.state
            },
            ..self
        }
    }

    /// The loot that the next opening hands out.
    pub open spec fn loot(self) -> Option<LootRequestView> {
        match self.state.loot_table {
            Some(loot_table) => Some(
                LootRequestView { loot_table, seed: self.state.loot_table_seed },
            ),
            None => None,
        }
    }

    /// The cart after it was opened. The loot table, if there was one, is used
    /// up.
    pub open spec fn opened(self) -> MinecartView {
        if self.state.loot_table is Some {
            MinecartView {
                state: StateView { loot_table: None, loot_table_seed: 0, ..self.state },
                ..self
            }
        } else {
            self
        }
    }

    /// The cart after the stacks have been put, one after the other, each into
    /// its slot.
    pub open spec fn filled(
        self,
        slots: Seq<int>,
        stacks: Seq<Option<ItemStackView>>,
    ) -> MinecartView {
        MinecartView { items: placed(self.items, slots, stacks), ..self }
    }

    /// The entries that saving adds for the loot table. The seed is left out
    /// where it is zero.
    pub open spec fn loot_entries(self) -> CompoundView {
        match self.state.loot_table {
            None => Seq::empty(),
            Some(loot_table) => {
                let name = seq![("LootTable"@, TagView::String(loot_table.text()))];
                if self.state.loot_table_seed != 0 {
                    name.push(("LootTableSeed"@, TagView::Long(self.state.loot_table_seed)))
                } else {
                    name
                }
            },
        }
    }

    /// The entries that saving adds. `encoded` holds the saved form of each
    /// slot's stack.
    pub open spec fn saved(self, encoded: Seq<Option<CompoundView>>) -> CompoundView {
        seq![
            ("FlippedRotation"@, TagView::Byte(0)),
            ("HasTicked"@, TagView::Byte(flag_byte(self.state.first_tick))),
        ] + self.loot_entries() + seq![
            items_entry(saved_stacks(self.items, encoded, CONTAINER_SIZE as nat)),
        ]
    }

    /// The cart after loading. `loot_table` is what the saved name of the loot
    /// table was read as, and `stacks` what the saved stacks were read as.
    pub open spec fn loaded(
        self,
        nbt: CompoundView,
        loot_table: Option<IdentifierView>,
        stacks: Seq<Option<ItemStackView>>,
    ) -> MinecartView {
        MinecartView {
            state: StateView {
                first_tick: match find_byte(nbt, "HasTicked"@) {
                    Some(flag) => flag != 0,
                    None => self.state.first_tick,
                },
                loot_table: if find_string(nbt, "LootTable"@) is Some {
                    loot_table
                } else {
                    None
                },
                loot_table_seed: match find_long(nbt, "LootTableSeed"@) {
                    Some(seed) => seed,
                    None => 0,
                },
                ..self.state
            },
            items: placed(
                empty_slots(CONTAINER_SIZE as nat),
                placeable_slots(nbt),
                stacks,
            ),
            ..self
        }
    }
}

/// The entity that a hit came from.
#[derive(Clone, Copy, Debug, PartialEq, Eq, Structural)]
pub enum Attacker {
    Player { has_infinite_materials: bool },
    Other,
}

/// Whether a hit came from a player whose materials do not run out.
pub open spec fn is_creative(attacker: Option<Attacker>) -> bool {
    attacker == Some(Attacker::Player { has_infinite_materials: true })
}

/// Whether a cart with that damage falls apart.
pub open spec fn breaks(damage: Single) -> bool {
    damage.greater(Single { bits: BREAKING_DAMAGE_BITS })
}

/// What comes of a hit.
#[derive(Debug)]
pub struct HurtOutcome {
    /// Whether the hit counted.
    pub hurt: bool,
    /// The stacks to spawn where the cart is, in order.
    pub drops: Vec<ItemStack>,
}

/// A container menu to open for a player, over the slots of an entity.
pub struct MenuRequest {
    pub title: TextComponent,
    pub rows: u8,
    /// The entity whose own slots the menu shows and changes.
    pub entity_id: i32,
}

/// Loot to put into the cart before its menu opens.
#[derive(Debug)]
pub struct LootRequest {
    pub loot_table: Identifier,
    pub seed: i64,
}

/// What a [`LootRequest`] stands for.
#[verifier::ext_equal]
pub struct LootRequestView {
    pub loot_table: IdentifierView,
    pub seed: i64,
}

impl View for LootRequest {
    type V = LootRequestView;

    open spec fn view(&self) -> LootRequestView {
        LootRequestView { loot_table: self.loot_table@, seed: self.seed }
    }
}

/// What loot that may be there stands for.
pub open spec fn optional_loot_view(loot: Option<LootRequest>) -> Option<LootRequestView> {
    match loot {
        Some(loot) => Some(loot@),
        None => None,
    }
}

/// The slots that rolled loot goes into.
pub open spec fn loot_slots(rolled: Seq<(usize, ItemStack)>) -> Seq<int> {
    rolled.map_values(|stack: (usize, ItemStack)| stack.0 as int)
}

/// The stacks of rolled loot.
pub open spec fn loot_stacks(rolled: Seq<(usize, ItemStack)>) -> Seq<Option<ItemStackView>> {
    rolled.map_values(|stack: (usize, ItemStack)| Some(stack.1@))
}

/// What comes of interacting with a cart.
pub struct Interaction {
    pub result: InteractionResult,
    pub loot: Option<LootRequest>,
    pub menu: Option<MenuRequest>,
}

/// What a cart has to know of an entity that it touches.
#[derive(Clone, Copy, Debug, PartialEq, Eq, Structural)]
pub struct EntityContact {
    /// Whether the other lets itself be collided with by the cart.
    pub can_be_collided_with: bool,
    pub is_pushable: bool,
    pub is_abstract_minecart: bool,
    pub no_physics: bool,
    /// Whether both ride in one vehicle.
    pub is_passenger_of_same_vehicle: bool,
}

/// What is known so far while a cart pushes an entity.
#[derive(Clone, Copy, Debug, PartialEq, Eq, Structural)]
pub enum PushReply {
    /// Nothing yet.
    Start,
    /// The squared horizontal distance of the two.
    DistanceSquared(Double),
    /// The cosine of the angle between the line that joins the two and the way
    /// the cart faces.
    Alignment(Double),
}

/// What to do next while a cart pushes an entity.
#[derive(Clone, Copy, Debug, PartialEq, Eq, Structural)]
pub enum PushStep {
    /// Neither is pushed.
    Stop,
    /// The squared horizontal distance is wanted.
    MeasureDistance,
    /// The alignment is wanted.
    MeasureAlignment,
    /// The two carts share their speed and are pushed apart.
    ShareSpeed,
    /// The cart is pushed away, and the other too if `push_other`.
    PushApart { push_other: bool },
}

/// The next step of a push.
pub open spec fn push_step(contact: EntityContact, no_physics: bool, reply: PushReply) -> PushStep {
    match reply {
        PushReply::Start => if contact.is_passenger_of_same_vehicle || contact.no_physics
            || no_physics {
            PushStep::Stop
        } else {
            PushStep::MeasureDistance
        },
        PushReply::DistanceSquared(distance) => if distance.less(
            Double { bits: SMALLEST_PUSH_BITS },
        ) {
            PushStep::Stop
        } else if contact.is_abstract_minecart {
            PushStep::MeasureAlignment
        } else {
            PushStep::PushApart { push_other: contact.is_pushable }
        },
        PushReply::Alignment(cosine) => if (Double { bits: cosine.magnitude() as u64 }).less(
            Double { bits: ALIGNMENT_BITS },
        ) {
            PushStep::Stop
        } else {
            PushStep::ShareSpeed
        },
    }
}

/// Where a passenger of a cart could get off.
#[derive(Debug)]
pub struct DismountQuery {
    /// The way the cart moves.
    pub direction: Direction,
    /// The block that the cart is in.
    pub block: BlockPos,
    /// The steps to the blocks around, in the order in which to try them.
    pub offsets: Vec<(i32, i32)>,
    /// The height of the top of the cart.
    pub top: Double,
}

impl DismountQuery {
    /// The block that is tried at the given turn has coordinates.
    pub open spec fn in_bounds(self, turn: int) -> bool {
        &&& i32::MIN <= self.block.x + self.offsets@[turn].0 <= i32::MAX
        &&& i32::MIN <= self.block.z + self.offsets@[turn].1 <= i32::MAX
    }

    /// The block that is tried at the given turn.
    pub open spec fn candidate(self, turn: int) -> BlockPos {
        BlockPos {
            x: (self.block.x + self.offsets@[turn].0) as i32,
            y: self.block.y,
            z: (self.block.z + self.offsets@[turn].1) as i32,
        }
    }
}

/// What to do next while a passenger gets off.
#[derive(Clone, Copy, Debug, PartialEq, Eq, Structural)]
pub enum DismountStep {
    /// A safe place at that block is wanted, one that does no harm if
    /// `avoid_danger`.
    Search { block: BlockPos, avoid_danger: bool },
    /// The passenger gets off there.
    At(Vec3),
}

/// The next step of getting off at `position`, after `tried` blocks of which
/// the last gave `found`.
pub open spec fn dismount_step(
    position: Vec3,
    query: DismountQuery,
    tried: nat,
    found: Option<Vec3>,
) -> DismountStep {
    if query.direction.spec_axis() == Axis::Y {
        DismountStep::At(position)
    } else {
        match found {
            Some(place) => DismountStep::At(place),
            None => if tried < query.offsets@.len() {
                DismountStep::Search { block: query.candidate(tried as int), avoid_danger: true }
            } else {
                DismountStep::At(Vec3 { y: query.top, ..position })
            },
        }
    }
}

impl View for ChestMinecartEntity {
    type V = MinecartView;

    closed spec fn view(&self) -> MinecartView {
        MinecartView {
            base: self.base,
            entity_type: self.entity_type@,
            state: self.state@,
            data: self.entity_data,
            items: self.inventory@,
        }
    }
}

impl ChestMinecartEntity {
    /// Creates a new chest minecart entity.
    pub fn new(entity_type: EntityType, id: i32, position: Vec3) -> (result: ChestMinecartEntity)
        ensures
            result@ == MinecartView::fresh(
                EntityBase::fresh(id, position, entity_type.dimensions),
                entity_type@,
                true,
            ),
            result@.wf(),
    {
        ChestMinecartEntity {
            base: EntityBase::new(id, position, entity_type.dimensions),
            entity_type,
            state: ChestMinecartState::new(true),
            entity_data: VehicleData::new(),
            inventory: SimpleContainer::new(CONTAINER_SIZE),
        }
    }

    /// Creates a chest minecart entity from saved data.
    pub fn from_saved(entity_type: EntityType, load: EntityBaseLoad) -> (result:
        ChestMinecartEntity)
        ensures
            result@ == MinecartView::fresh(
                EntityBase::fresh(load.id, load.position, entity_type.dimensions),
                entity_type@,
                false,
            ),
            result@.wf(),
    {
        ChestMinecartEntity {
            base: EntityBase::from_load(load, entity_type.dimensions),
            entity_type,
            state: ChestMinecartState::new(false),
            entity_data: VehicleData::new(),
            inventory: SimpleContainer::new(CONTAINER_SIZE),
        }
    }

    /// Sets the deferred loot table used when the container is first opened.
    pub fn set_loot_table(&mut self, loot_table: Identifier, seed: i64)
        ensures
            final(self)@ == old(self)@.with_loot_table(loot_table@, seed),
    {
        self.state.loot_table = Some(loot_table);
        self.state.loot_table_seed = seed;
    }

    /// The loot table that the next opening hands out.
    pub fn loot_table(&self) -> (result: Option<&Identifier>)
        ensures
            self@.state.loot_table == (match result {
                Some(loot_table) => Some(loot_table@),
                None => None,
            }),
    {
        self.state.loot_table.as_ref()
    }

    /// The seed that goes with the loot table.
    pub fn loot_table_seed(&self) -> (result: i64)
        ensures
            result == self@.state.loot_table_seed,
    {
        self.state.loot_table_seed
    }

    /// A flag as a byte.
    pub fn nbt_bool(value: bool) -> (result: i8)
        ensures
            result == flag_byte(value),
            value ==> result == 1,
            !value ==> result == 0,
    {
        if value {
            1
        } else {
            0
        }
    }

    /// Takes everything out of the cart, to be spawned where it is.
    pub fn drop_contents(&mut self) -> (drops: Vec<ItemStack>)
        ensures
            stack_views(drops@) == occupied(old(self)@.items),
            final(self)@ == (MinecartView { items: emptied(old(self)@.items), ..old(self)@ }),
    {
        self.inventory.take_all()
    }

    /// The state that the cart shares with every entity.
    pub fn base(&self) -> (result: &EntityBase)
        ensures
            *result == self@.base,
    {
        &self.base
    }

    /// Moves the cart.
    pub fn set_position(&mut self, position: Vec3)
        ensures
            final(self)@ == (MinecartView {
                base: EntityBase { position, ..old(self)@.base },
                ..old(self)@
            }),
    {
        self.base.position = position;
    }

    /// Takes the cart out of the world. The first reason stays.
    pub fn set_removed(&mut self, reason: RemovalReason)
        ensures
            final(self)@ == (MinecartView {
                base: EntityBase {
                    removal: if old(self)@.is_removed() {
                        old(self)@.base.removal
                    } else {
                        Some(reason)
                    },
                    ..old(self)@.base
                },
                ..old(self)@
            }),
    {
        if !self.base.is_removed() {
            self.base.removal = Some(reason);
        }
    }

    /// What the cart holds.
    pub fn inventory(&self) -> (result: &SimpleContainer)
        ensures
            result@ == self@.items,
    {
        &self.inventory
    }

    /// Replaces the stack in a slot.
    pub fn set_item(&mut self, slot: usize, stack: ItemStack)
        requires
            slot < old(self)@.items.len(),
        ensures
            final(self)@ == (MinecartView {
                items: old(self)@.items.update(slot as int, stack@),
                ..old(self)@
            }),
    {
        self.inventory.set_item(slot, stack);
    }

    /// The damage that the cart has taken in all.
    pub fn damage(&self) -> (result: Single)
        ensures
            result == self@.state.damage,
    {
        self.state.damage
    }

    /// Lets the shaking and the shown damage die down. `reduced_damage` is the
    /// shown damage less one, and zero at the least.
    pub fn tick(&mut self, reduced_damage: Single)
        requires
            old(self)@.wf(),
        ensures
            final(self)@ == old(self)@.ticked(reduced_damage),
            final(self)@.wf(),
    {
        let hurt = self.entity_data.id_hurt;
        if hurt > 0 {
            self.entity_data.id_hurt = hurt - 1;
        }
        if self.entity_data.id_damage.is_greater_than(Single { bits: 0 }) {
            self.entity_data.id_damage = reduced_damage;
        }
    }

    /// The kind of entity that the cart is.
    pub fn entity_type(&self) -> (result: &EntityType)
        ensures
            result@ == self@.entity_type,
    {
        &self.entity_type
    }

    /// Whether the cart can be aimed at.
    pub fn is_pickable(&self) -> (result: bool)
        ensures
            result == !self@.is_removed(),
    {
        !self.base.is_removed()
    }

    /// Whether the cart can be pushed: always.
    pub fn is_pushable(&self) -> (result: bool)
        ensures
            result,
    {
        true
    }

    /// Whether the cart is on rails.
    pub fn is_on_rails(&self) -> (result: bool)
        ensures
            result == self@.state.on_rails,
    {
        self.state.on_rails
    }

    /// Records whether the cart is on rails.
    pub fn set_on_rails(&mut self, on_rails: bool)
        ensures
            final(self)@ == (MinecartView {
                state: StateView { on_rails, ..old(self)@.state },
                ..old(self)@
            }),
    {
        self.state.on_rails = on_rails;
    }

    /// Whether the cart stops what runs into it: never.
    pub fn can_be_collided_with(&self) -> (result: bool)
        ensures
            !result,
    {
        false
    }

    /// Whether the other stops the cart.
    pub fn can_collide_with(&self, other: &EntityContact) -> (result: bool)
        ensures
            result == ((other.can_be_collided_with || other.is_pushable)
                && !other.is_passenger_of_same_vehicle),
    {
        (other.can_be_collided_with || other.is_pushable) && !other.is_passenger_of_same_vehicle
    }

    /// Decides, measurement by measurement, how the cart and another entity push
    /// each other. `no_physics` says whether the cart passes through things.
    pub fn push_entity(&self, other: &EntityContact, no_physics: bool, reply: PushReply) -> (step:
        PushStep)
        ensures
            step == push_step(*other, no_physics, reply),
    {
        match reply {
            PushReply::Start => {
                if other.is_passenger_of_same_vehicle || other.no_physics || no_physics {
                    PushStep::Stop
                } else {
                    PushStep::MeasureDistance
                }
            },
            PushReply::DistanceSquared(distance) => {
                if distance.is_less_than(Double { bits: SMALLEST_PUSH_BITS }) {
                    PushStep::Stop
                } else if other.is_abstract_minecart {
                    PushStep::MeasureAlignment
                } else {
                    PushStep::PushApart { push_other: other.is_pushable }
                }
            },
            PushReply::Alignment(cosine) => {
                if cosine.abs().is_less_than(Double { bits: ALIGNMENT_BITS }) {
                    PushStep::Stop
                } else {
                    PushStep::ShareSpeed
                }
            },
        }
    }

    /// The fall per tick squared.
    pub fn get_default_gravity(&self) -> (result: Double)
        ensures
            result.bits == GRAVITY_BITS,
            result.bits == 0x3fa4_7ae1_47ae_147b,
    {
        Double { bits: GRAVITY_BITS }
    }

    /// Whether blocks cannot be placed where the cart is: always.
    pub fn blocks_building(&self) -> (result: bool)
        ensures
            result,
    {
        true
    }

    /// The ticks that the cart has to spend in a portal.
    pub fn dimension_changing_delay(&self) -> (result: i32)
        ensures
            result == 10,
    {
        10
    }

    /// The place in a portal at which the cart comes out: that at which it went
    /// in, `relative_position`, but in the middle between front and back.
    pub fn get_relative_portal_position(&self, relative_position: Vec3) -> (result: Vec3)
        ensures
            result == (Vec3 { z: Double { bits: 0 }, ..relative_position }),
    {
        Vec3 { x: relative_position.x, y: relative_position.y, z: Double { bits: 0 } }
    }

    /// Opens the cart for a player who is not sneaking. The first opening hands
    /// out the loot table, to fill the cart from before the menu opens.
    pub fn interact(&mut self, secondary_use_active: bool) -> (result: Interaction)
        ensures
            secondary_use_active ==> {
                &&& result.result == InteractionResult::Pass
                &&& result.menu is None
                &&& result.loot is None
                &&& final(self)@ == old(self)@
            },
            !secondary_use_active ==> {
                &&& result.result == InteractionResult::Success
                &&& result.menu == Some(
                    MenuRequest {
                        title: plain_component("Chest Minecart"@),
                        rows: MENU_ROWS,
                        entity_id: old(self)@.base.id,
                    },
                )
                &&& optional_loot_view(result.loot) == old(self)@.loot()
                &&& final(self)@ == old(self)@.opened()
            },
    {
        if secondary_use_active {
            return Interaction { result: InteractionResult::Pass, loot: None, menu: None };
        }
        self.open_menu(plain_text("Chest Minecart"))
    }

    /// Opens the cart under the given title.
    pub fn open_menu(&mut self, title: TextComponent) -> (result: Interaction)
        ensures
            result.result == InteractionResult::Success,
            result.menu == Some(
                MenuRequest { title, rows: MENU_ROWS, entity_id: old(self)@.base.id },
            ),
            result.menu->0.rows == 3,
            optional_loot_view(result.loot) == old(self)@.loot(),
            final(self)@ == old(self)@.opened(),
    {
        let loot = match self.state.loot_table.take() {
            Some(loot_table) => {
                let seed = self.state.loot_table_seed;
                self.state.loot_table_seed = 0;
                Some(LootRequest { loot_table, seed })
            },
            None => None,
        };
        Interaction {
            result: InteractionResult::Success,
            loot,
            menu: Some(MenuRequest { title, rows: MENU_ROWS, entity_id: self.base.id }),
        }
    }

    /// Puts loot into the cart. `rolled` are the stacks that the loot table gave,
    /// each with the slot that it goes into.
    pub fn fill_with_loot(&mut self, rolled: Vec<(usize, ItemStack)>)
        requires
            forall|i: int| 0 <= i < rolled@.len() ==> (#[trigger] rolled@[i]).0 < old(self)@.items.len(),
        ensures
            final(self)@ == old(self)@.filled(loot_slots(rolled@), loot_stacks(rolled@)),
            final(self)@.items.len() == old(self)@.items.len(),
    {
        let ghost slots = loot_slots(rolled@);
        let ghost stacks = loot_stacks(rolled@);
        let mut i: usize = 0;
        assert(stacks.take(0) =~= Seq::empty());
        while i < rolled.len()
            invariant
                i <= rolled.len(),
                slots == loot_slots(rolled@),
                stacks == loot_stacks(rolled@),
                self@ == old(self)@.filled(slots, stacks.take(i as int)),
                self@.items.len() == old(self)@.items.len(),
                forall|j: int|
                    0 <= j < rolled@.len() ==> (#[trigger] rolled@[j]).0 < old(self)@.items.len(),
            decreases rolled.len() - i,
        {
            assert(stacks.take(i + 1).drop_last() =~= stacks.take(i as int));
            assert(stacks.take(i + 1).last() == Some(rolled@[i as int].1@));
            assert(slots[i as int] == rolled@[i as int].0);
            self.inventory.set_item(rolled[i].0, rolled[i].1.copied());
            i = i + 1;
        }
        assert(stacks.take(i as int) =~= stacks);
    }

    /// Deals with a hit. `invulnerable` says whether the cart is immune to it,
    /// `attacker` is the entity that it came from, if that is in the world, and
    /// `new_damage` is the damage that the cart has taken in all, this hit
    /// included.
    pub fn hurt(
        &mut self,
        invulnerable: bool,
        attacker: Option<Attacker>,
        new_damage: Single,
    ) -> (outcome: HurtOutcome)
        requires
            old(self)@.wf(),
        ensures
            outcome.hurt == !(invulnerable || old(self)@.is_removed()),
            stack_views(outcome.drops@) == old(self)@.hurt_drops(
                invulnerable,
                attacker,
                new_damage,
            ),
            final(self)@ == old(self)@.hurt(invulnerable, attacker, new_damage),
            outcome.hurt && !(attacker matches Some(Attacker::Player { has_infinite_materials })
                && has_infinite_materials) ==> {
                &&& final(self)@.state.damage == new_damage
                &&& final(self)@.data.id_damage == new_damage
                &&& final(self)@.data.id_hurt == 10
                &&& final(self)@.data.id_hurtdir == -old(self)@.data.id_hurtdir
            },
            final(self)@.wf(),
    {
        if invulnerable || self.base.is_removed() {
            let drops: Vec<ItemStack> = Vec::new();
            assert(stack_views(drops@) =~= Seq::empty());
            return HurtOutcome { hurt: false, drops };
        }
        self.base.hurt_marked = true;

        let creative = match attacker {
            Some(Attacker::Player { has_infinite_materials }) => has_infinite_materials,
            _ => false,
        };
        if creative {
            let drops = self.drop_contents();
            self.base.removal = Some(RemovalReason::Killed);
            return HurtOutcome { hurt: true, drops };
        }
        self.state.damage = new_damage;
        self.entity_data.id_hurt = HURT_TICKS;
        self.entity_data.id_damage = new_damage;
        self.entity_data.id_hurtdir = -self.entity_data.id_hurtdir;

        let mut drops: Vec<ItemStack> = Vec::new();
        assert(stack_views(drops@) =~= Seq::empty());
        if new_damage.is_greater_than(Single { bits: BREAKING_DAMAGE_BITS }) {
            drops = self.drop_contents();
            let ghost contents = drops@;
            let cart = ItemStack::new(Identifier::vanilla_static("chest_minecart"));
            drops.push(cart);
            assert(stack_views(drops@) =~= stack_views(contents).push(cart@));
            self.base.removal = Some(RemovalReason::Killed);
        }
        HurtOutcome { hurt: true, drops }
    }

    /// Writes the cart into a compound. `encoded` holds, slot by slot, the saved
    /// form of the stack there; it is not looked at where the slot is empty.
    pub fn save_additional(&self, nbt: &mut NbtCompound, encoded: Vec<Option<NbtCompound>>)
        requires
            self@.wf(),
            encoded@.len() == self@.items.len(),
        ensures
            final(nbt)@ == old(nbt)@ + self@.saved(optional_compound_views(encoded@)),
    {
        nbt.insert("FlippedRotation", NbtTag::Byte(Self::nbt_bool(false)));
        nbt.insert("HasTicked", NbtTag::Byte(Self::nbt_bool(self.state.first_tick)));

        if let Some(loot_table) = &self.state.loot_table {
            nbt.insert("LootTable", NbtTag::String(loot_table.to_string()));
            if self.state.loot_table_seed != 0 {
                nbt.insert("LootTableSeed", NbtTag::Long(self.state.loot_table_seed));
            }
        }
        let stacks = self.encode_stacks(encoded);
        nbt.insert("Items", NbtTag::List(NbtList::Compound(stacks)));
        assert(nbt@ =~= old(nbt)@ + self@.saved(optional_compound_views(encoded@)));
    }

    /// The saved forms of the stacks that there are, each with its slot.
    fn encode_stacks(&self, encoded: Vec<Option<NbtCompound>>) -> (stacks: Vec<NbtCompound>)
        requires
            self@.wf(),
            encoded@.len() == self@.items.len(),
        ensures
            compound_views(stacks) == saved_stacks(
                self@.items,
                optional_compound_views(encoded@),
                CONTAINER_SIZE as nat,
            ),
    {
        let ghost given = optional_compound_views(encoded@);
        let mut encoded = encoded;
        let mut stacks: Vec<NbtCompound> = Vec::new();
        assert(compound_views(stacks) =~= Seq::empty());
        let mut slot: usize = 0;
        while slot < CONTAINER_SIZE
            invariant
                slot <= CONTAINER_SIZE,
                self@.items.len() == CONTAINER_SIZE,
                encoded@.len() == CONTAINER_SIZE,
                given.len() == CONTAINER_SIZE,
                forall|i: int|
                    slot <= i < CONTAINER_SIZE ==> given[i] == (match #[trigger] encoded@[i] {
                        Some(compound) => Some(compound@),
                        None => None,
                    }),
                compound_views(stacks) == saved_stacks(self@.items, given, slot as nat),
            decreases CONTAINER_SIZE - slot,
        {
            let ghost before = stacks;
            if !self.inventory.get_item(slot).is_empty() {
                let compound = encoded[slot].take();
                if let Some(mut stack) = compound {
                    stack.insert("Slot", NbtTag::Byte(slot as i8));
                    stacks.push(stack);
                    assert(compound_views(stacks) =~= compound_views(before).push(stack@));
                }
            }
            slot = slot + 1;
        }
        stacks
    }

    /// Reads the cart back from a compound. `loot_table` is what the string
    /// named `LootTable` was read as, and `stacks` are what the saved stacks, as
    /// [`read_saved_stacks`] lists them, were read as.
    pub fn load_additional(
        &mut self,
        nbt: &NbtCompound,
        loot_table: Option<Identifier>,
        stacks: Vec<Option<ItemStack>>,
    )
        requires
            old(self)@.wf(),
            stacks@.len() == placeable_slots(nbt@).len(),
        ensures
            final(self)@ == old(self)@.loaded(
                nbt@,
                optional_identifier_view(loot_table),
                optional_stack_views(stacks@),
            ),
            final(self)@.wf(),
    {
        if let Some(first_tick) = nbt.byte("HasTicked") {
            self.state.first_tick = first_tick != 0;
        }
        self.state.loot_table = if nbt.string("LootTable").is_some() {
            loot_table
        } else {
            None
        };
        self.state.loot_table_seed = match nbt.long("LootTableSeed") {
            Some(seed) => seed,
            None => 0,
        };

        self.inventory.clear();
        let saved = read_saved_stacks(nbt);
        let mut stacks = stacks;
        let ghost given = optional_stack_views(stacks@);
        let ghost slots = placeable_slots(nbt@);
        let ghost empty = self.inventory@;
        let mut i: usize = 0;
        let ghost loaded = self@;
        while i < saved.len()
            invariant
                i <= saved.len(),
                saved@.len() == stacks@.len(),
                given.len() == stacks@.len(),
                slots == saved_stack_views(saved@).map_values(|s: (int, CompoundView)| s.0),
                self@ == (MinecartView { items: self@.items, ..loaded }),
                self@.items.len() == CONTAINER_SIZE,
                forall|j: int| 0 <= j < saved@.len() ==> (#[trigger] saved@[j]).slot < CONTAINER_SIZE,
                forall|j: int|
                    i <= j < stacks@.len() ==> given[j] == (match #[trigger] stacks@[j] {
                        Some(stack) => Some(stack@),
                        None => None,
                    }),
                self@.items == placed(empty, slots, given.take(i as int)),
            decreases saved.len() - i,
        {
            assert(given.take(i + 1).drop_last() =~= given.take(i as int));
            assert(given.take(i + 1).last() == given[i as int]);
            assert(slots[i as int] == saved@[i as int].slot);
            let stack = stacks[i].take();
            if let Some(stack) = stack {
                self.inventory.set_item(saved[i].slot, stack);
            }
            i = i + 1;
        }
        assert(given.take(i as int) =~= given);
    }

    /// The values that clients are kept up to date on.
    pub fn synced_data(&self) -> (result: Option<&VehicleData>)
        ensures
            result == Some(&self@.data),
    {
        Some(&self.entity_data)
    }

    /// Decides, block by block, where a passenger gets off. `tried` says how many
    /// of the blocks have been searched, and `found` what the last search gave.
    pub fn get_dismount_location_for_passenger(
        &self,
        query: &DismountQuery,
        tried: usize,
        found: Option<Vec3>,
    ) -> (step: DismountStep)
        requires
            query.direction.spec_axis() != Axis::Y && found is None && tried
                < query.offsets@.len() ==> query.in_bounds(tried as int),
        ensures
            step == dismount_step(self@.base.position, *query, tried as nat, found),
            step matches DismountStep::Search { block, avoid_danger } ==> {
                &&& tried < query.offsets@.len()
                &&& block.x == query.block.x + query.offsets@[tried as int].0
                &&& block.y == query.block.y
                &&& block.z == query.block.z + query.offsets@[tried as int].1
                &&& avoid_danger
            },
    {
        if query.direction.axis() == Axis::Y {
            return DismountStep::At(self.base.position);
        }
        if let Some(place) = found {
            return DismountStep::At(place);
        }
        if tried < query.offsets.len() {
            let offset = query.offsets[tried];
            let block = BlockPos::new(
                query.block.x + offset.0,
                query.block.y,
                query.block.z + offset.1,
            );
            return DismountStep::Search { block, avoid_danger: true };
        }
        DismountStep::At(
            Vec3 { x: self.base.position.x, y: query.top, z: self.base.position.z },
        )
    }
}

} // verus!
