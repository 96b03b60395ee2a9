//! Verified rules of two pieces of a Minecraft server: the chest minecart and
//! the lodestone compass.
//!
//! Everything here is decided on plain values. The world, the players and the
//! physics are outside: where a rule needs something from them, it asks for it
//! with a step value and is called again with the reply.

pub mod chest_minecart;
pub mod compass;
pub mod compass_laws;
pub mod container;
pub mod container_laws;
pub mod entity;
pub mod float_bits;
pub mod float_laws;
pub mod geometry;
pub mod hit_laws;
pub mod identifier;
pub mod interaction;
pub mod item_stack;
pub mod lodestone_laws;
pub mod minecart_laws;
pub mod motion_laws;
pub mod nbt;
pub mod nbt_laws;
pub mod save_format;
pub mod save_laws;
pub mod text;
pub mod value_laws;
