use botstone::convert::IntoResult;
use botstone::errors::ParseError;
use botstone::payload::{deserialize_rich_message, payload_from_text};
use botstone::version_data::VersionData;

#[test]
fn into_result_keeps_ok_and_wraps_err() {
    let ok: Result<u32, &str> = Ok(7);
    assert_eq!(ok.into_result(), Ok(7));
    let err: Result<u32, &str> = Err("no");
    assert_eq!(err.into_result(), Err(Some("no")));
}

#[test]
fn into_result_reads_option_without_a_reason() {
    assert_eq!(Some(5u8).into_result(), Ok(5u8));
    let none: Option<u8> = None;
    assert_eq!(none.into_result(), Err(None));
}

#[test]
fn end_to_end_content_only() {
    let payload = deserialize_rich_message(r#"{"content": "Hi"}"#).unwrap();
    assert_eq!(payload.content, Some("Hi".to_string()));
    assert!(payload.embed.is_none());
}

#[test]
fn end_to_end_full_embed() {
    let input = r#"{"embed": {"colour": "RED", "description": "D",
        "fields": [{"name":"N","value":"V","inline":true}],
        "footer": "F", "author": {"name":"A"}}}"#;
    let payload = deserialize_rich_message(input).unwrap();
    assert_eq!(payload.content, None);
    let embed = payload.embed.unwrap();
    assert_eq!(embed.colour, Some(0xE74C3C));
    assert_eq!(embed.description, Some("D".to_string()));
    assert_eq!(embed.fields.len(), 1);
    assert_eq!(embed.fields[0].name, "N");
    assert_eq!(embed.fields[0].value, "V");
    assert!(embed.fields[0].inline);
    let footer = embed.footer.unwrap();
    assert_eq!(footer.text, Some("F".to_string()));
    assert_eq!(footer.url, None);
    assert_eq!(embed.author.unwrap().name, "A");
}

#[test]
fn end_to_end_bad_colour_surfaces_colour_error() {
    let r = deserialize_rich_message(r##"{"embed": {"colour": "#12"}}"##);
    assert!(matches!(r, Err(ParseError::ColourParseError(_))));
}

#[test]
fn payload_from_text_braced_text_is_parsed() {
    let payload = payload_from_text(r#"{"content": "deep"}"#).unwrap();
    assert_eq!(payload.content, Some("deep".to_string()));
}

#[test]
fn payload_from_text_plain_text_is_content() {
    let payload = payload_from_text("just words").unwrap();
    assert_eq!(payload.content, Some("just words".to_string()));
    assert!(payload.embed.is_none());
}

#[test]
fn version_data_describe_renders_one_line() {
    let v = VersionData {
        build: "release".to_string(),
        name: "botstone".to_string(),
        version: "1.2.3".to_string(),
        branch: "main".to_string(),
        commit: "abc123".to_string(),
        clean_worktree: false,
        os: "linux".to_string(),
        arch: "x86_64".to_string(),
        timestamp: "2021-06-01".to_string(),
    };
    assert_eq!(
        v.describe(),
        "botstone 1.2.3 (main:abc123*, release build, linux [x86_64], 2021-06-01)"
    );
    let clean = VersionData { clean_worktree: true, ..v };
    assert_eq!(
        clean.describe(),
        "botstone 1.2.3 (main:abc123, release build, linux [x86_64], 2021-06-01)"
    );
}

#[test]
fn message_url_is_rendered_in_decimal() {
    assert_eq!(
        botstone::misc::get_message_url(1, 23, 456),
        "https://discordapp.com/channels/1/23/456"
    );
    assert_eq!(
        botstone::misc::get_message_url(18446744073709551615, 0, 10),
        "https://discordapp.com/channels/18446744073709551615/0/10"
    );
}
