use botstone::colour::EmbedColourEnum;
use botstone::message::{
    parse_embed, parse_field, parse_message, Embed, EmbedAuthor, EmbedField, EmbedFieldEnum,
    EmbedFooter, EmbedFooterEnum, Message,
};
use botstone::payload::{materialize, EmbedPayload, FieldPayload, SendPayload};

#[test]
fn content_only_deserialization() {
    let input = r#"{"content": "My Important Message"}"#;
    let deserialized: Message = parse_message(input).unwrap();
    let expected = Message {
        content: Some("My Important Message".to_string()),
        embed: None,
    };
    assert_eq!(expected, deserialized);
}

#[test]
fn deserializing_embed_filed() {
    let input = r#"{"name": "Title", "value": "My Val"}"#;
    let deserialized: EmbedField = parse_field(input).unwrap();
    let expected = EmbedField {
        name: "Title".to_string(),
        value: "My Val".to_string(),
        inline: None,
    };
    assert_eq!(expected, deserialized);
}

#[test]
fn message_with_simple_embed() {
    let input = r#"{"e": {"d": "My Description"}}"#;
    let deserialized: Message = parse_message(input).unwrap();
    let expected = Message {
        content: None,
        embed: Some(Embed {
            colour: None,
            description: Some("My Description".to_string()),
            field: None,
            footer: None,
            author: None,
        }),
    };
    assert_eq!(expected, deserialized);
}

#[test]
fn colour_embed() {
    let input = r#"{"colour": "RED"}"#;
    let deserialized: Embed = parse_embed(input).unwrap();
    let expected = Embed {
        colour: Some(EmbedColourEnum::NamedOrHex("RED".to_string())),
        description: None,
        field: None,
        footer: None,
        author: None,
    };
    assert_eq!(expected, deserialized);
}

#[test]
fn complex_message() {
    let input = r#"
        {
            "content": "Content",
            "embed": {
                "colour": "RED",
                "description": "Description",
                "fields": [
                    {
                        "name": "Name",
                        "value": "Value",
                        "inline": true
                    }
                ],
                "footer": "Footer",
                "author": {
                    "name": "Name"
                 }
            }
        }
    "#;
    let deserialized = parse_message(input);
    let expected = Message {
        content: Some("Content".to_string()),
        embed: Some(Embed {
            colour: Some(EmbedColourEnum::NamedOrHex("RED".to_string())),
            description: Some("Description".to_string()),
            field: Some(EmbedFieldEnum::Vector(vec![EmbedField {
                name: "Name".to_string(),
                value: "Value".to_string(),
                inline: Some(true),
            }])),
            footer: Some(EmbedFooterEnum::TextOnly("Footer".to_string())),
            author: Some(EmbedAuthor {
                name: "Name".to_string(),
                link: None,
                icon: None,
            }),
        }),
    };
    match deserialized {
        Ok(content) => assert_eq!(expected, content),
        e => panic!(
            "Expected to succesfully deserialize content, got {:#?} instead.",
            e
        ),
    };
}

#[test]
fn complex_cast() {
    let input = Message {
        content: Some("Content".to_string()),
        embed: Some(Embed {
            colour: Some(EmbedColourEnum::NamedOrHex("RED".to_string())),
            description: Some("Description".to_string()),
            field: Some(EmbedFieldEnum::Vector(vec![EmbedField {
                name: "Name".to_string(),
                value: "Value".to_string(),
                inline: Some(true),
            }])),
            footer: Some(EmbedFooterEnum::TextOnly("Footer".to_string())),
            author: Some(EmbedAuthor {
                name: "Name".to_string(),
                link: None,
                icon: None,
            }),
        }),
    };
    let expected = SendPayload {
        content: Some("Content".to_string()),
        embed: Some(EmbedPayload {
            colour: Some(0xE74C3C),
            description: Some("Description".to_string()),
            fields: vec![FieldPayload {
                name: "Name".to_string(),
                value: "Value".to_string(),
                inline: true,
            }],
            footer: Some(EmbedFooter {
                text: Some("Footer".to_string()),
                url: None,
            }),
            author: Some(EmbedAuthor {
                name: "Name".to_string(),
                link: None,
                icon: None,
            }),
        }),
    };
    let result = materialize(&input);
    assert!(matches!(result, Ok(_)));
    assert_eq!(expected, result.unwrap());
}

#[test]
fn content_alias_equivalence() {
    let long: Message = parse_message(r#"{"content": "X"}"#).unwrap();
    let short: Message = parse_message(r#"{"c": "X"}"#).unwrap();
    assert_eq!(long, short);
    assert_eq!(long.content, Some("X".to_string()));
}

#[test]
fn embed_aliases_equivalence() {
    let long: Message = parse_message(r#"{"embed": {"description": "D"}}"#).unwrap();
    let short: Message = parse_message(r#"{"e": {"d": "D"}}"#).unwrap();
    assert_eq!(long, short);
}

#[test]
fn colour_alias_spellings() {
    let a: Embed = parse_embed(r#"{"colour": 7}"#).unwrap();
    let b: Embed = parse_embed(r#"{"color": 7}"#).unwrap();
    let c: Embed = parse_embed(r#"{"c": 7}"#).unwrap();
    assert_eq!(a, b);
    assert_eq!(a, c);
    assert_eq!(a.colour, Some(EmbedColourEnum::Integer(7)));
}

#[test]
fn field_normalization_single_vs_list() {
    let single: Embed = parse_embed(r#"{"f": {"name": "N", "value": "V"}}"#).unwrap();
    let listed: Embed = parse_embed(r#"{"f": [{"name": "N", "value": "V"}]}"#).unwrap();
    let p_single = materialize(&Message { content: None, embed: Some(single) }).unwrap();
    let p_listed = materialize(&Message { content: None, embed: Some(listed) }).unwrap();
    assert_eq!(p_single, p_listed);
    let fields = &p_single.embed.as_ref().unwrap().fields;
    assert_eq!(fields.len(), 1);
    assert_eq!(fields[0].name, "N");
    assert_eq!(fields[0].value, "V");
    assert!(!fields[0].inline);
}

#[test]
fn footer_normalization_bare_vs_complex() {
    let bare: Embed = parse_embed(r#"{"footer": "F"}"#).unwrap();
    let complex: Embed = parse_embed(r#"{"footer": {"text": "F"}}"#).unwrap();
    let p_bare = materialize(&Message { content: None, embed: Some(bare) }).unwrap();
    let p_complex = materialize(&Message { content: None, embed: Some(complex) }).unwrap();
    assert_eq!(p_bare, p_complex);
    assert_eq!(
        p_bare.embed.unwrap().footer,
        Some(EmbedFooter { text: Some("F".to_string()), url: None })
    );
}

#[test]
fn duplicate_aliased_field_is_rejected() {
    assert!(parse_message(r#"{"content": "a", "c": "b"}"#).is_err());
}

#[test]
fn unknown_keys_are_ignored() {
    let msg: Message = parse_message(r#"{"content": "X", "something_else": 5}"#).unwrap();
    assert_eq!(msg.content, Some("X".to_string()));
    assert_eq!(msg.embed, None);
}

#[test]
fn malformed_text_is_invalid_json() {
    let r = parse_message("{this is not a document");
    assert!(matches!(r, Err(botstone::errors::ParseError::InvalidJson(_))));
}

#[test]
fn json5_extras_are_accepted() {
    let msg: Message = parse_message("{content: 'Hi',}").unwrap();
    assert_eq!(msg.content, Some("Hi".to_string()));
}

#[test]
fn rgb_object_colour_parses_and_packs() {
    let embed: Embed = parse_embed(r#"{"colour": {"r": 1, "g": 2, "b": 3}}"#).unwrap();
    assert_eq!(
        embed.colour,
        Some(EmbedColourEnum::RGB(botstone::colour::RGBColour { red: 1, green: 2, blue: 3 }))
    );
    let payload = materialize(&Message { content: None, embed: Some(embed) }).unwrap();
    assert_eq!(payload.embed.unwrap().colour, Some(0x010203));
}

#[test]
fn non_integral_colour_is_rejected() {
    assert!(parse_embed(r#"{"colour": 1.5}"#).is_err());
    assert!(parse_embed(r#"{"colour": -5}"#).is_err());
    assert!(parse_embed(r#"{"colour": 4294967296}"#).is_err());
}

#[test]
fn integer_colour_within_range_parses() {
    let embed: Embed = parse_embed(r#"{"colour": 4294967295}"#).unwrap();
    assert_eq!(embed.colour, Some(EmbedColourEnum::Integer(4294967295)));
}

#[test]
fn inline_flag_must_be_boolean() {
    assert!(parse_field(r#"{"name": "N", "value": "V", "inline": "yes"}"#).is_err());
}

#[test]
fn missing_required_field_parts_are_rejected() {
    assert!(parse_field(r#"{"value": "V"}"#).is_err());
    assert!(parse_field(r#"{"name": "N"}"#).is_err());
}

#[test]
fn author_link_alias_spellings() {
    for key in ["link", "u", "url", "l"] {
        let text = format!(r#"{{"author": {{"name": "A", "{}": "L"}}}}"#, key);
        let embed: Embed = parse_embed(&text).unwrap();
        let author = embed.author.unwrap();
        assert_eq!(author.name, "A");
        assert_eq!(author.link, Some("L".to_string()), "for spelling {}", key);
    }
}

#[test]
fn author_without_name_is_rejected() {
    assert!(parse_embed(r#"{"author": {"link": "L"}}"#).is_err());
}
