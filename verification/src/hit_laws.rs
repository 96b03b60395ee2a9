//! What a hit, a tick and an opening do to each part of a chest minecart.

use vstd::prelude::*;
use crate::chest_minecart::{Attacker, MinecartView};
use crate::chest_minecart::is_creative;
use crate::container::occupied;
use crate::container_laws::law_taken_slots_keep_all_but_the_count;
use crate::entity::RemovalReason;
use crate::float_bits::Single;
use crate::float_laws::law_carts_break_above_forty;
use crate::identifier::IdentifierView;
use crate::minecart_laws::{law_shaking_dies_down, ticks};

verus! {

/// A hit comes from a creative player only if it comes from a player, and only if
/// that player's materials do not run out.
pub proof fn law_creative_attackers(attacker: Option<Attacker>)
    ensures
        is_creative(attacker) <==> (attacker matches Some(Attacker::Player {
            has_infinite_materials,
        }) && has_infinite_materials),
{
}

/// A hit that counts brings the damage to the given total, whatever it was
/// before and however long ago the last hit was, and shows it: the cart shakes
/// for ten ticks and leans to its other side.
pub proof fn law_hits_set_the_damage(
    cart: MinecartView,
    attacker: Option<Attacker>,
    damage: Single,
)
    requires
        cart.wf(),
        cart.base.removal is None,
        !(attacker matches Some(Attacker::Player { has_infinite_materials })
            && has_infinite_materials),
    ensures
        cart.hurt(false, attacker, damage).state.damage == damage,
        cart.hurt(false, attacker, damage).data.id_damage == damage,
        cart.hurt(false, attacker, damage).data.id_hurt == 10,
        cart.hurt(false, attacker, damage).data.id_hurtdir == -cart.data.id_hurtdir,
        cart.hurt(false, attacker, damage).base.hurt_marked,
{
}

/// Under a hit of a creative player the cart goes without taking damage.
pub proof fn law_creative_hits_do_no_damage(cart: MinecartView, damage: Single)
    requires
        cart.base.removal is None,
    ensures
        ({
            let after = cart.hurt(
                false,
                Some(Attacker::Player { has_infinite_materials: true }),
                damage,
            );
            &&& after.state.damage == cart.state.damage
            &&& after.data.id_damage == cart.data.id_damage
            &&& after.data.id_hurt == cart.data.id_hurt
            &&& after.data.id_hurtdir == cart.data.id_hurtdir
            &&& after.base.hurt_marked
            &&& after.base.removal == Some(RemovalReason::Killed)
        }),
{
}

/// A hit does nothing at all to a cart that is immune or gone.
pub proof fn law_some_hits_do_not_count(
    cart: MinecartView,
    invulnerable: bool,
    attacker: Option<Attacker>,
    damage: Single,
)
    requires
        invulnerable || cart.base.removal is Some,
    ensures
        cart.hurt(invulnerable, attacker, damage) == cart,
        cart.hurt_drops(invulnerable, attacker, damage).len() == 0,
{
}

/// Whatever the hit, the cart stays the same entity at the same place with the
/// same loot.
pub proof fn law_hits_leave_the_rest(
    cart: MinecartView,
    invulnerable: bool,
    attacker: Option<Attacker>,
    damage: Single,
)
    ensures
        ({
            let after = cart.hurt(invulnerable, attacker, damage);
            &&& after.entity_type == cart.entity_type
            &&& after.base.id == cart.base.id
            &&& after.base.position == cart.base.position
            &&& after.base.dimensions == cart.base.dimensions
            &&& after.state.first_tick == cart.state.first_tick
            &&& after.state.loot_table == cart.state.loot_table
            &&& after.state.loot_table_seed == cart.state.loot_table_seed
            &&& after.state.on_rails == cart.state.on_rails
        }),
{
}

/// A hit that counts kills the cart exactly if it comes from a creative player or
/// the damage is above 40. Then the slots are emptied, and else they stay as they
/// are.
pub proof fn law_fatal_hits(
    cart: MinecartView,
    attacker: Option<Attacker>,
    damage: Single,
    slot: int,
)
    requires
        cart.base.removal is None,
    ensures
        ({
            let after = cart.hurt(false, attacker, damage);
            let fatal = (attacker matches Some(Attacker::Player { has_infinite_materials })
                && has_infinite_materials) || 0x4220_0000 < damage.bits <= 0x7f80_0000;
            &&& fatal ==> after.base.removal == Some(RemovalReason::Killed)
            &&& !fatal ==> after.base.removal is None
            &&& !fatal ==> after.items == cart.items
            &&& after.items.len() == cart.items.len()
            &&& fatal && 0 <= slot < cart.items.len() ==> {
                &&& after.items[slot].item == cart.items[slot].item
                &&& after.items[slot].lodestone_tracker == cart.items[slot].lodestone_tracker
                &&& after.items[slot].components == cart.items[slot].components
                &&& after.items[slot].count == if cart.items[slot].count <= 0 || (
                cart.items[slot].item.namespace == "minecraft"@ && cart.items[slot].item.path
                    == "air"@) {
                    cart.items[slot].count
                } else {
                    0
                }
            }
        }),
{
    law_carts_break_above_forty(damage);
    if 0 <= slot < cart.items.len() {
        law_taken_slots_keep_all_but_the_count(cart.items, slot);
    }
}

/// A cart that a creative player breaks drops what is in it. One that breaks
/// under damage drops what is in it and after that itself, as one plain item.
/// One that holds drops nothing.
pub proof fn law_fatal_hits_drop(
    cart: MinecartView,
    attacker: Option<Attacker>,
    damage: Single,
)
    requires
        cart.base.removal is None,
    ensures
        ({
            let drops = cart.hurt_drops(false, attacker, damage);
            let creative = attacker matches Some(Attacker::Player { has_infinite_materials })
                && has_infinite_materials;
            let broken = 0x4220_0000 < damage.bits <= 0x7f80_0000;
            &&& creative ==> drops == occupied(cart.items)
            &&& !creative && !broken ==> drops.len() == 0
            &&& !creative && broken ==> {
                &&& drops.drop_last() == occupied(cart.items)
                &&& drops.len() == occupied(cart.items).len() + 1
                &&& drops.last().item.namespace == "minecraft"@
                &&& drops.last().item.path == "chest_minecart"@
                &&& drops.last().count == 1
                &&& drops.last().lodestone_tracker is None
                &&& drops.last().components.len() == 0
            }
        }),
{
    law_carts_break_above_forty(damage);
    let drops = cart.hurt_drops(false, attacker, damage);
    if drops.len() > 0 && !is_creative(attacker) {
        assert(drops.drop_last() =~= occupied(cart.items));
    }
}

/// Ticks between hits do not undo damage: a cart hit to a first total and left
/// alone for any time still has that total, and a second hit brings it to the
/// second.
pub proof fn law_damage_lasts(
    cart: MinecartView,
    first: Single,
    second: Single,
    reduced: spec_fn(nat) -> Single,
    n: nat,
)
    requires
        cart.wf(),
        cart.base.removal is None,
        !(0x4220_0000 < first.bits <= 0x7f80_0000),
    ensures
        ({
            let between = ticks(cart.hurt(false, None, first), reduced, n);
            &&& between.state.damage == first
            &&& between.hurt(false, None, second).state.damage == second
            &&& between.hurt(false, None, second).data.id_damage == second
            &&& between.hurt(false, None, second).data.id_hurt == 10
            &&& between.hurt(false, None, second).data.id_hurtdir == cart.data.id_hurtdir
        }),
{
    let struck = cart.hurt(false, None, first);
    law_carts_break_above_forty(first);
    law_shaking_dies_down(struck, reduced, n);
}

/// A tick takes one off the shaking, if there is any, and replaces the shown
/// damage, if that is above zero. All else stays.
pub proof fn law_ticks_change_what_is_shown(cart: MinecartView, reduced: Single)
    requires
        cart.wf(),
    ensures
        ({
            let after = cart.ticked(reduced);
            &&& after.base == cart.base
            &&& after.entity_type == cart.entity_type
            &&& after.state == cart.state
            &&& after.items == cart.items
            &&& after.data.id_hurtdir == cart.data.id_hurtdir
            &&& cart.data.id_hurt > 0 ==> after.data.id_hurt == cart.data.id_hurt - 1
            &&& cart.data.id_hurt <= 0 ==> after.data.id_hurt == cart.data.id_hurt
            &&& 0 < cart.data.id_damage.bits <= 0x7f80_0000 ==> after.data.id_damage == reduced
            &&& !(0 < cart.data.id_damage.bits <= 0x7f80_0000) ==> after.data.id_damage
                == cart.data.id_damage
        }),
{
}

/// A cart with a loot table hands it out with its seed when it is opened and has
/// neither any more; one without hands out nothing. All else stays.
pub proof fn law_openings_use_up_the_loot(cart: MinecartView)
    ensures
        ({
            let after = cart.opened();
            &&& after.base == cart.base
            &&& after.entity_type == cart.entity_type
            &&& after.data == cart.data
            &&& after.items == cart.items
            &&& after.state.first_tick == cart.state.first_tick
            &&& after.state.damage == cart.state.damage
            &&& after.state.on_rails == cart.state.on_rails
            &&& after.state.loot_table is None
            &&& cart.loot() is Some <==> cart.state.loot_table is Some
            &&& cart.state.loot_table matches Some(loot_table) ==> {
                &&& cart.loot()->0.loot_table == loot_table
                &&& cart.loot()->0.seed == cart.state.loot_table_seed
                &&& after.state.loot_table_seed == 0
            }
            &&& cart.state.loot_table is None ==> after.state.loot_table_seed
                == cart.state.loot_table_seed
        }),
{
}

/// Setting a loot table changes the table and the seed to those given, and
/// nothing else.
pub proof fn law_loot_tables_are_set(cart: MinecartView, loot_table: IdentifierView, seed: i64)
    ensures
        ({
            let after = cart.with_loot_table(loot_table, seed);
            &&& after.state.loot_table == Some(loot_table)
            &&& after.state.loot_table_seed == seed
            &&& after.state.first_tick == cart.state.first_tick
            &&& after.state.damage == cart.state.damage
            &&& after.state.on_rails == cart.state.on_rails
            &&& after.base == cart.base
            &&& after.entity_type == cart.entity_type
            &&& after.data == cart.data
            &&& after.items == cart.items
        }),
{
}

} // verus!
