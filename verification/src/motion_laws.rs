//! Where passengers of a cart get off and when a cart pushes.

use vstd::prelude::*;
use crate::chest_minecart::{DismountQuery, DismountStep, EntityContact, PushReply, PushStep};
use crate::chest_minecart::{dismount_step, push_step};
use crate::float_bits::Double;
use crate::geometry::{Direction, Vec3};

verus! {

/// The block of a turn has coordinates exactly if both sums are 32-bit integers.
pub proof fn law_blocks_in_bounds(query: DismountQuery, turn: int)
    ensures
        query.in_bounds(turn) <==> {
            &&& -0x8000_0000 <= query.block.x + query.offsets@[turn].0 <= 0x7fff_ffff
            &&& -0x8000_0000 <= query.block.z + query.offsets@[turn].1 <= 0x7fff_ffff
        },
{
}

/// The block that is searched at a turn lies as far from the block of the cart
/// as the offset of that turn says, on both horizontal axes and to either side,
/// at the same height. Dangerous places there are avoided.
pub proof fn law_offsets_lead_to_blocks(position: Vec3, query: DismountQuery, tried: nat)
    requires
        query.direction != Direction::Up,
        query.direction != Direction::Down,
        tried < query.offsets@.len(),
        -0x8000_0000 <= query.block.x + query.offsets@[tried as int].0 <= 0x7fff_ffff,
        -0x8000_0000 <= query.block.z + query.offsets@[tried as int].1 <= 0x7fff_ffff,
    ensures
        dismount_step(position, query, tried, None) matches DismountStep::Search {
            block,
            avoid_danger,
        } && {
            &&& block.x == query.block.x + query.offsets@[tried as int].0
            &&& block.y == query.block.y
            &&& block.z == query.block.z + query.offsets@[tried as int].1
            &&& avoid_danger
        },
{
}

/// Two turns search blocks that lie apart as their offsets do.
pub proof fn law_blocks_lie_apart_as_offsets_do(
    position: Vec3,
    query: DismountQuery,
    one: nat,
    other: nat,
)
    requires
        query.direction != Direction::Up,
        query.direction != Direction::Down,
        one < query.offsets@.len(),
        other < query.offsets@.len(),
        query.in_bounds(one as int),
        query.in_bounds(other as int),
    ensures
        ({
            let first = dismount_step(position, query, one, None)->block;
            let second = dismount_step(position, query, other, None)->block;
            &&& second.x - first.x == query.offsets@[other as int].0 - query.offsets@[one as int].0
            &&& second.z - first.z == query.offsets@[other as int].1 - query.offsets@[one as int].1
            &&& second.y == first.y
        }),
{
    law_offsets_lead_to_blocks(position, query, one);
    law_offsets_lead_to_blocks(position, query, other);
}

/// A search ends the getting off where it finds a place. Without one the
/// passenger gets off over the cart, at its top, once every block was tried. A
/// cart that moves up or down is left where it is.
pub proof fn law_getting_off_ends(
    position: Vec3,
    query: DismountQuery,
    tried: nat,
    found: Option<Vec3>,
)
    ensures
        query.direction == Direction::Up || query.direction == Direction::Down ==> dismount_step(
            position,
            query,
            tried,
            found,
        ) == DismountStep::At(position),
        query.direction != Direction::Up && query.direction != Direction::Down ==> {
            &&& found matches Some(place) ==> dismount_step(position, query, tried, found)
                == DismountStep::At(place)
            &&& found is None && tried >= query.offsets@.len() ==> (dismount_step(
                position,
                query,
                tried,
                found,
            ) matches DismountStep::At(place) && place.x == position.x && place.y == query.top
                && place.z == position.z)
            &&& found is None && tried < query.offsets@.len() ==> dismount_step(
                position,
                query,
                tried,
                found,
            ) is Search
        },
{
}

/// A push begins unless the two ride in one vehicle or one of them has no
/// physics.
pub proof fn law_pushes_begin(contact: EntityContact, no_physics: bool)
    ensures
        contact.is_passenger_of_same_vehicle || contact.no_physics || no_physics ==> push_step(
            contact,
            no_physics,
            PushReply::Start,
        ) == PushStep::Stop,
        !contact.is_passenger_of_same_vehicle && !contact.no_physics && !no_physics ==> push_step(
            contact,
            no_physics,
            PushReply::Start,
        ) == PushStep::MeasureDistance,
{
}

/// A squared distance below 0.0001, or a negative one, ends a push. At any
/// other, one that is no number included, a cart is asked for its alignment, and
/// anything else is pushed apart, itself only where it lets itself be pushed.
pub proof fn law_close_pushes_stop(contact: EntityContact, no_physics: bool, distance: Double)
    ensures
        ({
            let step = push_step(contact, no_physics, PushReply::DistanceSquared(distance));
            let close = distance.bits < 0x3f1a_36e2_eb1c_432d || 0x8000_0000_0000_0000
                <= distance.bits <= 0xfff0_0000_0000_0000;
            &&& step == PushStep::Stop <==> close
            &&& step == PushStep::MeasureAlignment <==> !close && contact.is_abstract_minecart
            &&& step is PushApart <==> !close && !contact.is_abstract_minecart
            &&& step matches PushStep::PushApart { push_other } ==> push_other
                == contact.is_pushable
        }),
{
}

/// Carts share their speed unless the alignment, taken without its sign, is
/// below 0.8.
pub proof fn law_carts_in_line_share_speed(
    contact: EntityContact,
    no_physics: bool,
    cosine: Double,
)
    ensures
        ({
            let step = push_step(contact, no_physics, PushReply::Alignment(cosine));
            let aside = cosine.bits < 0x3fe9_9999_9999_999a || 0x8000_0000_0000_0000 <= cosine.bits
                < 0xbfe9_9999_9999_999a;
            &&& aside ==> step == PushStep::Stop
            &&& !aside ==> step == PushStep::ShareSpeed
        }),
{
}

} // verus!
