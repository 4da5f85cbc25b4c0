//! Game rules and wire formats of a Minecraft server: how a client's
//! command packet changes its pose and shared flags, how entity hitboxes are
//! shaped, how biome colors are written, and how the packets involved are
//! encoded.
pub mod codec;
pub mod entity;
pub mod packets;
pub mod client_command;
pub mod hitbox;
pub mod biome;
