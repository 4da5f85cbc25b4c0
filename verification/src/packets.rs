//! The bodies of two play-state packets, field after field in declaration
//! order: a `VarInt` field as a `VarInt`, a `u8` as one byte, an `i32` as
//! four big-endian bytes, and an enum as the `VarInt` index of its variant.
use vstd::prelude::*;
use crate::codec;
use crate::codec::{
    DecodeError, VarInt, decode_i32_be, decode_u8, decode_varint, encode_i32_be, encode_varint,
};

verus! {

/// Sent by the server to open the inventory screen of a mount.
#[derive(Clone, Copy, Debug, PartialEq, Eq, Structural)]
pub struct MountScreenOpenS2c {
    pub window_id: u8,
    pub slot_count: VarInt,
    pub entity_id: i32,
}

/// The body bytes of a `MountScreenOpenS2c`.
pub open spec fn mount_screen_open_bytes(p: MountScreenOpenS2c) -> Seq<u8> {
    seq![p.window_id] + codec::varint_bytes(p.slot_count.0) + codec::i32_be_bytes(p.entity_id)
}

/// What decoding a `MountScreenOpenS2c` body at index `start` of `b` gives.
pub open spec fn mount_screen_open_at(b: Seq<u8>, start: nat) -> Result<
    (MountScreenOpenS2c, nat),
    DecodeError,
> {
    match codec::u8_at(b, start) {
        Err(e) => Err(e),
        Ok((window_id, i1)) => match codec::varint_at(b, i1) {
            Err(e) => Err(e),
            Ok((slot_count, i2)) => match codec::i32_be_at(b, i2) {
                Err(e) => Err(e),
                Ok((entity_id, i3)) => Ok(
                    (
                        MountScreenOpenS2c { window_id, slot_count: VarInt(slot_count), entity_id },
                        i3,
                    ),
                ),
            },
        },
    }
}

impl MountScreenOpenS2c {
    /// Appends the packet body to `out`.
    pub fn encode(&self, out: &mut Vec<u8>)
        ensures
            final(out)@ == old(out)@ + mount_screen_open_bytes(*self),
    {
        out.push(self.window_id);
        encode_varint(self.slot_count.0, out);
        encode_i32_be(self.entity_id, out);
        assert(final(out)@ == old(out)@ + mount_screen_open_bytes(*self));
    }

    /// Decodes a packet body that starts at index `start` of `b`; gives the
    /// packet and the index just past it.
    pub fn decode(b: &[u8], start: usize) -> (r: Result<(MountScreenOpenS2c, usize), DecodeError>)
        ensures
            codec::decoded(r, mount_screen_open_at(b@, start as nat)),
    {
        let (window_id, i1) = match decode_u8(b, start) {
            Ok(x) => x,
            Err(e) => return Err(e),
        };
        let (slot_count, i2) = match decode_varint(b, i1) {
            Ok(x) => x,
            Err(e) => return Err(e),
        };
        let (entity_id, i3) = match decode_i32_be(b, i2) {
            Ok(x) => x,
            Err(e) => return Err(e),
        };
        Ok((MountScreenOpenS2c { window_id, slot_count: VarInt(slot_count), entity_id }, i3))
    }
}

/// A decoded `MountScreenOpenS2c` is the packet that was encoded, whatever
/// follows it in the buffer.
pub proof fn law_mount_screen_open_roundtrip(p: MountScreenOpenS2c, rest: Seq<u8>)
    ensures
        mount_screen_open_at(mount_screen_open_bytes(p) + rest, 0) == Ok::<
            (MountScreenOpenS2c, nat),
            DecodeError,
        >((p, mount_screen_open_bytes(p).len())),
{
    let vb = codec::varint_bytes(p.slot_count.0);
    let ib = codec::i32_be_bytes(p.entity_id);
    let b = mount_screen_open_bytes(p) + rest;
    assert(b == seq![p.window_id] + vb + ib + rest);
    assert(b[0] == p.window_id);
    assert(b.subrange(1, 1 + vb.len() as int) == vb);
    codec::law_varint_roundtrip(p.slot_count.0, b, 1);
    assert(b.subrange(1 + vb.len() as int, 1 + vb.len() + 4int) == ib);
    codec::law_i32_be_roundtrip(p.entity_id, b, 1 + vb.len());
}

/// What a player asks of the server about its own entity.
#[derive(Clone, Copy, Debug, PartialEq, Eq, Hash, Structural)]
pub enum PlayerCommand {
    StartSneaking,
    StopSneaking,
    LeaveBed,
    StartSprinting,
    StopSprinting,
    StartJumpWithHorse,
    StopJumpWithHorse,
    OpenHorseInventory,
    StartFlyingWithElytra,
}

/// The index of a command's variant, its tag on the wire.
pub open spec fn command_tag(c: PlayerCommand) -> i32 {
    match c {
        PlayerCommand::StartSneaking => 0,
        PlayerCommand::StopSneaking => 1,
        PlayerCommand::LeaveBed => 2,
        PlayerCommand::StartSprinting => 3,
        PlayerCommand::StopSprinting => 4,
        PlayerCommand::StartJumpWithHorse => 5,
        PlayerCommand::StopJumpWithHorse => 6,
        PlayerCommand::OpenHorseInventory => 7,
        PlayerCommand::StartFlyingWithElytra => 8,
    }
}

/// The command whose tag is `t`, if any.
pub open spec fn command_of_tag(t: i32) -> Option<PlayerCommand> {
    if t == 0 {
        Some(PlayerCommand::StartSneaking)
    } else if t == 1 {
        Some(PlayerCommand::StopSneaking)
    } else if t == 2 {
        Some(PlayerCommand::LeaveBed)
    } else if t == 3 {
        Some(PlayerCommand::StartSprinting)
    } else if t == 4 {
        Some(PlayerCommand::StopSprinting)
    } else if t == 5 {
        Some(PlayerCommand::StartJumpWithHorse)
    } else if t == 6 {
        Some(PlayerCommand::StopJumpWithHorse)
    } else if t == 7 {
        Some(PlayerCommand::OpenHorseInventory)
    } else if t == 8 {
        Some(PlayerCommand::StartFlyingWithElytra)
    } else {
        None
    }
}

impl PlayerCommand {
    /// The variant's tag.
    pub fn tag(self) -> (t: i32)
        ensures
            t == command_tag(self),
    {
        match self {
            PlayerCommand::StartSneaking => 0,
            PlayerCommand::StopSneaking => 1,
            PlayerCommand::LeaveBed => 2,
            PlayerCommand::StartSprinting => 3,
            PlayerCommand::StopSprinting => 4,
            PlayerCommand::StartJumpWithHorse => 5,
            PlayerCommand::StopJumpWithHorse => 6,
            PlayerCommand::OpenHorseInventory => 7,
            PlayerCommand::StartFlyingWithElytra => 8,
        }
    }

    /// The command with tag `t`, or `None` when no variant has it.
    pub fn from_tag(t: i32) -> (c: Option<PlayerCommand>)
        ensures
            c == command_of_tag(t),
    {
        if t == 0 {
            Some(PlayerCommand::StartSneaking)
        } else if t == 1 {
            Some(PlayerCommand::StopSneaking)
        } else if t == 2 {
            Some(PlayerCommand::LeaveBed)
        } else if t == 3 {
            Some(PlayerCommand::StartSprinting)
        } else if t == 4 {
            Some(PlayerCommand::StopSprinting)
        } else if t == 5 {
            Some(PlayerCommand::StartJumpWithHorse)
        } else if t == 6 {
            Some(PlayerCommand::StopJumpWithHorse)
        } else if t == 7 {
            Some(PlayerCommand::OpenHorseInventory)
        } else if t == 8 {
            Some(PlayerCommand::StartFlyingWithElytra)
        } else {
            None
        }
    }
}

/// The commands are tagged by their place in the protocol's list: start
/// sneaking 0, stop sneaking 1, leave bed 2, start sprinting 3, stop
/// sprinting 4, start a horse jump 5, stop it 6, open the horse inventory 7,
/// start flying with elytra 8; no other tag names a command.
pub proof fn law_command_tags(t: i32)
    ensures
        command_tag(PlayerCommand::StartSneaking) == 0,
        command_tag(PlayerCommand::StopSneaking) == 1,
        command_tag(PlayerCommand::LeaveBed) == 2,
        command_tag(PlayerCommand::StartSprinting) == 3,
        command_tag(PlayerCommand::StopSprinting) == 4,
        command_tag(PlayerCommand::StartJumpWithHorse) == 5,
        command_tag(PlayerCommand::StopJumpWithHorse) == 6,
        command_tag(PlayerCommand::OpenHorseInventory) == 7,
        command_tag(PlayerCommand::StartFlyingWithElytra) == 8,
        (t < 0 || t > 8) ==> command_of_tag(t) is None,
{
}

/// Every command's tag names that command.
pub proof fn law_command_tag_roundtrip(c: PlayerCommand)
    ensures
        command_of_tag(command_tag(c)) == Some(c),
{
}

/// Sent by a client when its player starts or stops an action.
#[derive(Clone, Copy, Debug, PartialEq, Eq, Structural)]
pub struct PlayerCommandC2s {
    pub entity_id: VarInt,
    pub action: PlayerCommand,
    pub jump_boost: VarInt,
}

/// The body bytes of a `PlayerCommandC2s`.
pub open spec fn player_command_bytes(p: PlayerCommandC2s) -> Seq<u8> {
    codec::varint_bytes(p.entity_id.0) + codec::varint_bytes(command_tag(p.action)) + codec::varint_bytes(
        p.jump_boost.0,
    )
}

/// What decoding a `PlayerCommandC2s` body at index `start` of `b` gives.
pub open spec fn player_command_at(b: Seq<u8>, start: nat) -> Result<
    (PlayerCommandC2s, nat),
    DecodeError,
> {
    match codec::varint_at(b, start) {
        Err(e) => Err(e),
        Ok((entity_id, i1)) => match codec::varint_at(b, i1) {
            Err(e) => Err(e),
            Ok((tag, i2)) => match command_of_tag(tag) {
                None => Err(DecodeError::InvalidTag),
                Some(action) => match codec::varint_at(b, i2) {
                    Err(e) => Err(e),
                    Ok((jump_boost, i3)) => Ok(
                        (
                            PlayerCommandC2s {
                                entity_id: VarInt(entity_id),
                                action,
                                jump_boost: VarInt(jump_boost),
                            },
                            i3,
                        ),
                    ),
                },
            },
        },
    }
}

impl PlayerCommandC2s {
    /// Appends the packet body to `out`.
    pub fn encode(&self, out: &mut Vec<u8>)
        ensures
            final(out)@ == old(out)@ + player_command_bytes(*self),
    {
        encode_varint(self.entity_id.0, out);
        encode_varint(self.action.tag(), out);
        encode_varint(self.jump_boost.0, out);
        assert(final(out)@ == old(out)@ + player_command_bytes(*self));
    }

    /// Decodes a packet body that starts at index `start` of `b`; gives the
    /// packet and the index just past it.
    pub fn decode(b: &[u8], start: usize) -> (r: Result<(PlayerCommandC2s, usize), DecodeError>)
        ensures
            codec::decoded(r, player_command_at(b@, start as nat)),
    {
        let (entity_id, i1) = match decode_varint(b, start) {
            Ok(x) => x,
            Err(e) => return Err(e),
        };
        let (tag, i2) = match decode_varint(b, i1) {
            Ok(x) => x,
            Err(e) => return Err(e),
        };
        let action = match PlayerCommand::from_tag(tag) {
            Some(a) => a,
            None => return Err(DecodeError::InvalidTag),
        };
        let (jump_boost, i3) = match decode_varint(b, i2) {
            Ok(x) => x,
            Err(e) => return Err(e),
        };
        Ok(
            (
                PlayerCommandC2s {
                    entity_id: VarInt(entity_id),
                    action,
                    jump_boost: VarInt(jump_boost),
                },
                i3,
            ),
        )
    }
}

/// A decoded `PlayerCommandC2s` is the packet that was encoded, whatever
/// follows it in the buffer.
pub proof fn law_player_command_roundtrip(p: PlayerCommandC2s, rest: Seq<u8>)
    ensures
        player_command_at(player_command_bytes(p) + rest, 0) == Ok::<
            (PlayerCommandC2s, nat),
            DecodeError,
        >((p, player_command_bytes(p).len())),
{
    let e = codec::varint_bytes(p.entity_id.0);
    let t = codec::varint_bytes(command_tag(p.action));
    let j = codec::varint_bytes(p.jump_boost.0);
    let b = player_command_bytes(p) + rest;
    assert(b == e + t + j + rest);
    assert(b.subrange(0, e.len() as int) == e);
    codec::law_varint_roundtrip(p.entity_id.0, b, 0);
    assert(b.subrange(e.len() as int, e.len() + t.len() as int) == t);
    codec::law_varint_roundtrip(command_tag(p.action), b, e.len());
    assert(b.subrange(e.len() + t.len() as int, e.len() + t.len() + j.len() as int) == j);
    codec::law_varint_roundtrip(p.jump_boost.0, b, e.len() + t.len());
}

} // verus!
