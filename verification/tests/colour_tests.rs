use botstone::colour::{format_hex, resolve, EmbedColourEnum, RGBColour};
use botstone::errors::ColourParseError::{
    InvalidColourHexLength, InvalidColourHexValue, UnknownColourName,
};

#[test]
fn colour_hex_wrong_length() {
    for hex in ["#1", "#10", "#100", "#1000000", "#12345678"] {
        let result = resolve(&EmbedColourEnum::NamedOrHex(hex.to_string()));
        match result {
            Err(InvalidColourHexLength(passed_string)) => assert_eq!(hex, passed_string),
            e => panic!("Expected invalid hex length, got {:#?}", e),
        };
    }
}

#[test]
fn colour_hex_wrong_value() {
    let hex = "#gggggg";
    let result = resolve(&EmbedColourEnum::NamedOrHex(hex.to_string()));
    match result {
        Err(InvalidColourHexValue(passed_string)) => assert_eq!(hex, passed_string),
        e => panic!("Expected invalid hex value, got {:#?}", e),
    };
}

#[test]
fn colour_valid_hex_parsing() {
    for (hex, value) in [
        ("#000000", 0u32),
        ("#000001", 1),
        ("#000010", 16),
        ("#234099", 2310297),
        ("#abcdef", 11259375),
    ] {
        let result = resolve(&EmbedColourEnum::NamedOrHex(hex.to_string()));
        match result {
            Ok(colour) => assert_eq!(value, colour),
            e => panic!("Expected valid colour, got {:#?}", e),
        };
    }
}

#[test]
fn colour_wrong_name() {
    let colour = "abc";
    let result = resolve(&EmbedColourEnum::NamedOrHex(colour.to_string()));
    match result {
        Err(UnknownColourName(passed_string)) => assert_eq!(colour.to_string(), passed_string),
        e => panic!("Expected unknown colour name, got {:#?}", e),
    };
}

#[test]
fn parses_all_sampled_valid_hexes() {
    for expected in [0u32, 1, 15, 16, 255, 0xABCDEF, 0x123456, 0xFFFFFF, 0x800000] {
        let hex = format_hex(expected);
        let result = resolve(&EmbedColourEnum::NamedOrHex(hex.clone()));
        assert_eq!(Ok(expected), result, "round trip failed for {}", hex);
    }
}

#[test]
fn format_hex_is_uppercase_with_hash() {
    assert_eq!(format_hex(0), "#000000");
    assert_eq!(format_hex(0xABCDEF), "#ABCDEF");
    assert_eq!(format_hex(0x00FF01), "#00FF01");
}

#[test]
fn uppercase_hex_is_accepted() {
    let result = resolve(&EmbedColourEnum::NamedOrHex("#ABCDEF".to_string()));
    assert_eq!(Ok(0xABCDEF), result);
}

#[test]
fn named_colours_resolve_to_table_values() {
    for (name, value) in [
        ("RED", 0xE74C3Cu32),
        ("BLUE", 0x3498DB),
        ("BLITZ_BLUE", 0x6FC6E2),
        ("DARK_RED", 0x992D22),
        ("FOOYOO", 0x11CA80),
        ("KERBAL", 0xBADA55),
        ("TEAL", 0x1ABC9C),
        ("ROSEWATER", 0xF6DBD8),
    ] {
        let result = resolve(&EmbedColourEnum::NamedOrHex(name.to_string()));
        assert_eq!(Ok(value), result, "for name {}", name);
    }
}

#[test]
fn name_lookup_is_case_sensitive() {
    let result = resolve(&EmbedColourEnum::NamedOrHex("red".to_string()));
    assert_eq!(
        result,
        Err(UnknownColourName("red".to_string()))
    );
}

#[test]
fn integer_colour_is_taken_as_is() {
    assert_eq!(Ok(0xDEADBEEF), resolve(&EmbedColourEnum::Integer(0xDEADBEEF)));
}

#[test]
fn rgb_colour_packs_channels() {
    let rgb = EmbedColourEnum::RGB(RGBColour { red: 0x12, green: 0x34, blue: 0x56 });
    assert_eq!(Ok(0x123456), resolve(&rgb));
    let white = EmbedColourEnum::RGB(RGBColour { red: 255, green: 255, blue: 255 });
    assert_eq!(Ok(0xFFFFFF), resolve(&white));
}
