use valence_logic::biome::{
    hex_color_from_repr, hex_color_to_text, parse_hex_color, BiomeEffects, BiomeId, HexColorRepr,
    InvalidHexColor,
};

#[test]
fn biome_ids() {
    assert_eq!(BiomeId::default().to_index(), 0);
    assert_eq!(BiomeId::default(), BiomeId::from_index(0));
    assert_eq!(BiomeId::from_index(42).to_index(), 42);
    assert_eq!(BiomeId::from_index(u32::MAX as usize).to_index(), u32::MAX as usize);
    let id = BiomeId::from_index(7);
    assert_eq!(BiomeId::from_index(id.to_index()), id);
    assert_ne!(BiomeId::from_index(7), BiomeId::from_index(8));
}

#[test]
fn default_effects_are_empty() {
    let e = BiomeEffects::default();
    assert_eq!(e.water_color, None);
    assert_eq!(e.foliage_color, None);
    assert_eq!(e.grass_color, None);
    assert_eq!(e.dry_foliage_color, None);
    assert_eq!(e.grass_color_modifier, None);
}

#[test]
fn parses_hex_colors() {
    assert_eq!(parse_hex_color("#3f76e4"), Some(0x3f76e4));
    assert_eq!(parse_hex_color("3F76E4"), Some(0x3f76e4));
    assert_eq!(parse_hex_color("#aabbccdd"), Some(0xaabbccdd));
    assert_eq!(parse_hex_color("#ffffffff"), Some(u32::MAX));
    assert_eq!(parse_hex_color("#00000000ff"), Some(0xff));
    assert_eq!(parse_hex_color("#+ff"), Some(0xff));
    assert_eq!(parse_hex_color("#100000000"), None);
    assert_eq!(parse_hex_color("#"), None);
    assert_eq!(parse_hex_color(""), None);
    assert_eq!(parse_hex_color("#+"), None);
    assert_eq!(parse_hex_color("#-1"), None);
    assert_eq!(parse_hex_color("##ff"), None);
    assert_eq!(parse_hex_color("#ff#"), None);
    assert_eq!(parse_hex_color("#fg"), None);
    assert_eq!(parse_hex_color("#é"), None);
}

#[test]
fn writes_hex_colors() {
    assert_eq!(hex_color_to_text(Some(0x3f76e4)), Some("#003f76e4".to_string()));
    assert_eq!(hex_color_to_text(Some(0)), Some("#00000000".to_string()));
    assert_eq!(hex_color_to_text(Some(u32::MAX)), Some("#ffffffff".to_string()));
    assert_eq!(hex_color_to_text(None), None);
}

#[test]
fn written_colors_read_back() {
    for c in [0u32, 1, 0x3f76e4, 0xdeadbeef, u32::MAX] {
        let text = hex_color_to_text(Some(c)).unwrap();
        assert_eq!(parse_hex_color(&text), Some(c));
    }
}

#[test]
fn color_representations() {
    assert_eq!(hex_color_from_repr(None), Ok(None));
    assert_eq!(hex_color_from_repr(Some(HexColorRepr::Int(5))), Ok(Some(5)));
    assert_eq!(hex_color_from_repr(Some(HexColorRepr::Str("#0a0b0c".to_string()))), Ok(Some(0x0a0b0c)));
    assert_eq!(
        hex_color_from_repr(Some(HexColorRepr::Str("blue".to_string()))),
        Err(InvalidHexColor { text: "blue".to_string() })
    );
}
