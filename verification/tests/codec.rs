use valence_logic::codec::{
    decode_i32_be, decode_u8, decode_varint, encode_i32_be, encode_varint, varint_written_size,
    DecodeError, VarInt,
};
use valence_logic::packets::{MountScreenOpenS2c, PlayerCommand, PlayerCommandC2s};

fn varint(x: i32) -> Vec<u8> {
    let mut out = Vec::new();
    encode_varint(x, &mut out);
    out
}

#[test]
fn varint_known_encodings() {
    assert_eq!(varint(0), vec![0x00]);
    assert_eq!(varint(1), vec![0x01]);
    assert_eq!(varint(127), vec![0x7f]);
    assert_eq!(varint(128), vec![0x80, 0x01]);
    assert_eq!(varint(255), vec![0xff, 0x01]);
    assert_eq!(varint(25565), vec![0xdd, 0xc7, 0x01]);
    assert_eq!(varint(2097151), vec![0xff, 0xff, 0x7f]);
    assert_eq!(varint(2147483647), vec![0xff, 0xff, 0xff, 0xff, 0x07]);
    assert_eq!(varint(-1), vec![0xff, 0xff, 0xff, 0xff, 0x0f]);
    assert_eq!(varint(-2147483648), vec![0x80, 0x80, 0x80, 0x80, 0x08]);
}

#[test]
fn varint_appends_to_existing_bytes() {
    let mut out = vec![9, 9];
    encode_varint(300, &mut out);
    assert_eq!(out, vec![9, 9, 0xac, 0x02]);
}

#[test]
fn varint_written_size_matches_encoding() {
    for x in [0, 1, 127, 128, 16383, 16384, 2097151, 2097152, i32::MAX, -1, i32::MIN] {
        assert_eq!(varint_written_size(x), varint(x).len());
    }
    assert_eq!(varint_written_size(-1), 5);
    assert_eq!(varint_written_size(127), 1);
}

#[test]
fn varint_roundtrip_with_trailing_bytes() {
    for x in [0, 1, -1, 300, 25565, i32::MAX, i32::MIN, -300] {
        let mut b = vec![0xaa];
        encode_varint(x, &mut b);
        let len = b.len();
        b.extend_from_slice(&[0xff, 0x00]);
        assert_eq!(decode_varint(&b, 1), Ok((x, len)));
    }
}

#[test]
fn varint_decode_errors() {
    assert_eq!(decode_varint(&[], 0), Err(DecodeError::UnexpectedEof));
    assert_eq!(decode_varint(&[0x80], 0), Err(DecodeError::UnexpectedEof));
    assert_eq!(decode_varint(&[0x80, 0x80], 0), Err(DecodeError::UnexpectedEof));
    assert_eq!(decode_varint(&[0xff, 0xff, 0xff, 0xff, 0xff, 0x01], 0), Err(DecodeError::VarIntTooLarge));
    assert_eq!(decode_varint(&[0x01], 1), Err(DecodeError::UnexpectedEof));
}

#[test]
fn varint_decode_accepts_padded_and_drops_high_bits() {
    assert_eq!(decode_varint(&[0x80, 0x00], 0), Ok((0, 2)));
    assert_eq!(decode_varint(&[0xff, 0xff, 0xff, 0xff, 0x7f], 0), Ok((-1, 5)));
}

#[test]
fn single_byte_and_big_endian_int() {
    assert_eq!(decode_u8(&[7, 8], 1), Ok((8, 2)));
    assert_eq!(decode_u8(&[7], 1), Err(DecodeError::UnexpectedEof));
    let mut out = Vec::new();
    encode_i32_be(-2, &mut out);
    encode_i32_be(0x01020304, &mut out);
    assert_eq!(out, vec![0xff, 0xff, 0xff, 0xfe, 1, 2, 3, 4]);
    assert_eq!(decode_i32_be(&out, 0), Ok((-2, 4)));
    assert_eq!(decode_i32_be(&out, 4), Ok((0x01020304, 8)));
    assert_eq!(decode_i32_be(&out, 5), Err(DecodeError::UnexpectedEof));
}

#[test]
fn mount_screen_open_bytes() {
    let p = MountScreenOpenS2c { window_id: 3, slot_count: VarInt(300), entity_id: -2 };
    let mut out = Vec::new();
    p.encode(&mut out);
    assert_eq!(out, vec![3, 0xac, 0x02, 0xff, 0xff, 0xff, 0xfe]);
    assert_eq!(MountScreenOpenS2c::decode(&out, 0), Ok((p, 7)));
    assert_eq!(MountScreenOpenS2c::decode(&out[..6], 0), Err(DecodeError::UnexpectedEof));
}

#[test]
fn player_command_bytes_and_tags() {
    let p = PlayerCommandC2s {
        entity_id: VarInt(42),
        action: PlayerCommand::StartJumpWithHorse,
        jump_boost: VarInt(90),
    };
    let mut out = Vec::new();
    p.encode(&mut out);
    assert_eq!(out, vec![42, 5, 90]);
    assert_eq!(PlayerCommandC2s::decode(&out, 0), Ok((p, 3)));
    assert_eq!(PlayerCommand::StartFlyingWithElytra.tag(), 8);
    assert_eq!(PlayerCommand::from_tag(0), Some(PlayerCommand::StartSneaking));
    assert_eq!(PlayerCommand::from_tag(9), None);
    assert_eq!(PlayerCommand::from_tag(-1), None);
    assert_eq!(PlayerCommandC2s::decode(&[42, 9, 0], 0), Err(DecodeError::InvalidTag));
    assert_eq!(PlayerCommandC2s::decode(&[42, 3], 0), Err(DecodeError::UnexpectedEof));
}

#[test]
fn every_command_tag_reads_back() {
    let all = [
        PlayerCommand::StartSneaking,
        PlayerCommand::StopSneaking,
        PlayerCommand::LeaveBed,
        PlayerCommand::StartSprinting,
        PlayerCommand::StopSprinting,
        PlayerCommand::StartJumpWithHorse,
        PlayerCommand::StopJumpWithHorse,
        PlayerCommand::OpenHorseInventory,
        PlayerCommand::StartFlyingWithElytra,
    ];
    for (i, c) in all.iter().enumerate() {
        assert_eq!(c.tag(), i as i32);
        assert_eq!(PlayerCommand::from_tag(c.tag()), Some(*c));
    }
}
