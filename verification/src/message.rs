//! The message schema.
//!
//! A parsed document is checked against the message schema: each field
//! accepts several alias spellings, optional fields default to absent, and
//! the union-shaped fields (colour, fields, footer) are discriminated
//! structurally, scalar shapes before object shapes.  Absence of a field
//! is never an error; an ill-shaped or twice-given field is.

use vstd::prelude::*;

use crate::colour::{ColourView, EmbedColourEnum, RGBColour};
use crate::errors::ParseError;
use crate::json::{
    alias_keys, entries_view, entry_lookup, entry_search, get_entry, items_view, json5_document,
    parse_json5, JsonRep, JsonValue,
};
use crate::text::opt_str_view;

verus! {

/// A structured chat message: plain text, a rich embed block, or both.
#[derive(Debug, PartialEq)]
pub struct Message {
    pub content: Option<String>,
    pub embed: Option<Embed>,
}

/// The rich block of a message.
#[derive(Debug, PartialEq)]
pub struct Embed {
    pub colour: Option<EmbedColourEnum>,
    pub description: Option<String>,
    pub field: Option<EmbedFieldEnum>,
    pub footer: Option<EmbedFooterEnum>,
    pub author: Option<EmbedAuthor>,
}

/// One field, or a whole list of fields.
#[derive(Debug, PartialEq)]
pub enum EmbedFieldEnum {
    Single(EmbedField),
    Vector(Vec<EmbedField>),
}

/// One titled field of an embed.
#[derive(Debug, PartialEq)]
pub struct EmbedField {
    pub name: String,
    pub value: String,
    pub inline: Option<bool>,
}

/// A footer, written either as a bare string or as an object.
#[derive(Debug, PartialEq)]
pub enum EmbedFooterEnum {
    TextOnly(String),
    Complex(EmbedFooter),
}

/// The normalized footer: text and icon URL, each optional.
#[derive(Debug, PartialEq)]
pub struct EmbedFooter {
    pub text: Option<String>,
    pub url: Option<String>,
}

/// The author byline of an embed.
#[derive(Debug, PartialEq)]
pub struct EmbedAuthor {
    pub name: String,
    pub link: Option<String>,
    pub icon: Option<String>,
}

/// Spec-level view of `Message`.
pub struct MessageView {
    pub content: Option<Seq<char>>,
    pub embed: Option<EmbedView>,
}

/// Spec-level view of `Embed`.
pub struct EmbedView {
    pub colour: Option<ColourView>,
    pub description: Option<Seq<char>>,
    pub field: Option<FieldSpecView>,
    pub footer: Option<FooterSpecView>,
    pub author: Option<AuthorView>,
}

/// Spec-level view of `EmbedFieldEnum`.
pub enum FieldSpecView {
    Single(FieldView),
    Vector(Seq<FieldView>),
}

/// Spec-level view of `EmbedField`.
pub struct FieldView {
    pub name: Seq<char>,
    pub value: Seq<char>,
    pub inline: Option<bool>,
}

/// Spec-level view of `EmbedFooterEnum`.
pub enum FooterSpecView {
    TextOnly(Seq<char>),
    Complex(FooterView),
}

/// Spec-level view of `EmbedFooter`.
pub struct FooterView {
    pub text: Option<Seq<char>>,
    pub url: Option<Seq<char>>,
}

/// Spec-level view of `EmbedAuthor`.
pub struct AuthorView {
    pub name: Seq<char>,
    pub link: Option<Seq<char>>,
    pub icon: Option<Seq<char>>,
}

impl View for EmbedField {
    type V = FieldView;

    open spec fn view(&self) -> FieldView {
        FieldView { name: self.name@, value: self.value@, inline: self.inline }
    }
}

/// The views of a list of fields.
pub open spec fn fields_view(fs: Seq<EmbedField>) -> Seq<FieldView> {
    Seq::new(fs.len(), |i: int| fs[i]@)
}

impl View for EmbedFieldEnum {
    type V = FieldSpecView;

    open spec fn view(&self) -> FieldSpecView {
        match self {
            EmbedFieldEnum::Single(f) => FieldSpecView::Single(f@),
            EmbedFieldEnum::Vector(fs) => FieldSpecView::Vector(fields_view(fs@)),
        }
    }
}

impl View for EmbedFooter {
    type V = FooterView;

    open spec fn view(&self) -> FooterView {
        FooterView { text: opt_str_view(self.text), url: opt_str_view(self.url) }
    }
}

impl View for EmbedFooterEnum {
    type V = FooterSpecView;

    open spec fn view(&self) -> FooterSpecView {
        match self {
            EmbedFooterEnum::TextOnly(s) => FooterSpecView::TextOnly(s@),
            EmbedFooterEnum::Complex(f) => FooterSpecView::Complex(f@),
        }
    }
}

impl View for EmbedAuthor {
    type V = AuthorView;

    open spec fn view(&self) -> AuthorView {
        AuthorView {
            name: self.name@,
            link: opt_str_view(self.link),
            icon: opt_str_view(self.icon),
        }
    }
}

impl View for Embed {
    type V = EmbedView;

    open spec fn view(&self) -> EmbedView {
        EmbedView {
            colour: match self.colour {
                Some(c) => Some(c@),
                None => None,
            },
            description: opt_str_view(self.description),
            field: match self.field {
                Some(f) => Some(f@),
                None => None,
            },
            footer: match self.footer {
                Some(f) => Some(f@),
                None => None,
            },
            author: match self.author {
                Some(a) => Some(a@),
                None => None,
            },
        }
    }
}

impl View for Message {
    type V = MessageView;

    open spec fn view(&self) -> MessageView {
        MessageView {
            content: opt_str_view(self.content),
            embed: match self.embed {
                Some(e) => Some(e@),
                None => None,
            },
        }
    }
}

/// The empty embed: every part absent.
impl Default for Embed {
    fn default() -> (r: Embed)
        ensures
            r@ == (EmbedView {
                colour: None,
                description: None,
                field: None,
                footer: None,
                author: None,
            }),
    {
        Embed { colour: None, description: None, field: None, footer: None, author: None }
    }
}

/// The empty message: no content and no embed.
impl Default for Message {
    fn default() -> (r: Message)
        ensures
            r@ == (MessageView { content: None, embed: None }),
    {
        Message { content: None, embed: None }
    }
}

/// Reads an optional text field: absent, or a string value.
pub open spec fn str_entry(e: Result<Option<JsonRep>, ()>) -> Option<Option<Seq<char>>> {
    match e {
        Ok(None) => Some(None),
        Ok(Some(JsonRep::Str(s))) => Some(Some(s)),
        _ => None,
    }
}

/// Reads an optional boolean field: absent, or a boolean value.
pub open spec fn bool_entry(e: Result<Option<JsonRep>, ()>) -> Option<Option<bool>> {
    match e {
        Ok(None) => Some(None),
        Ok(Some(JsonRep::Bool(b))) => Some(Some(b)),
        _ => None,
    }
}

/// Reads a required text field: present and a string value.
pub open spec fn required_str_entry(e: Result<Option<JsonRep>, ()>) -> Option<Seq<char>> {
    match e {
        Ok(Some(JsonRep::Str(s))) => Some(s),
        _ => None,
    }
}

/// Reads a required byte field: present, integral, and within `u8` range.
pub open spec fn byte_entry(e: Result<Option<JsonRep>, ()>) -> Option<u8> {
    match e {
        Ok(Some(JsonRep::Int(i))) => if 0 <= i <= 255 {
            Some(i as u8)
        } else {
            None
        },
        _ => None,
    }
}

/// What a colour-shaped value parses to.  The shapes are tried in a fixed
/// order: an integral number first, then a string, then an object of three
/// channels.
pub open spec fn spec_parse_colour(j: JsonRep) -> Option<ColourView> {
    match j {
        JsonRep::Int(i) => if 0 <= i <= u32::MAX {
            Some(ColourView::Integer(i as u32))
        } else {
            None
        },
        JsonRep::Str(s) => Some(ColourView::NamedOrHex(s)),
        JsonRep::Obj(o) => {
            let r = byte_entry(entry_lookup(o, alias_keys("red"@, Some("r"@), None, None)));
            let g = byte_entry(entry_lookup(o, alias_keys("green"@, Some("g"@), None, None)));
            let b = byte_entry(entry_lookup(o, alias_keys("blue"@, Some("b"@), None, None)));
            match (r, g, b) {
                (Some(r), Some(g), Some(b)) => Some(ColourView::RGB(r, g, b)),
                _ => None,
            }
        },
        _ => None,
    }
}

/// What a field-shaped value parses to: an object with a required name,
/// a required value, and an optional inline flag.
pub open spec fn spec_parse_field(j: JsonRep) -> Option<FieldView> {
    match j {
        JsonRep::Obj(o) => {
            let name = required_str_entry(entry_lookup(o, alias_keys("name"@, None, None, None)));
            let value = required_str_entry(
                entry_lookup(o, alias_keys("value"@, None, None, None)),
            );
            let inline = bool_entry(entry_lookup(o, alias_keys("inline"@, None, None, None)));
            match (name, value, inline) {
                (Some(name), Some(value), Some(inline)) => Some(
                    FieldView { name, value, inline },
                ),
                _ => None,
            }
        },
        _ => None,
    }
}

/// What a fields-shaped value parses to: a single field object, or an
/// array of field objects.
pub open spec fn spec_parse_field_spec(j: JsonRep) -> Option<FieldSpecView> {
    match j {
        JsonRep::Obj(_) => match spec_parse_field(j) {
            Some(f) => Some(FieldSpecView::Single(f)),
            None => None,
        },
        JsonRep::Arr(a) => if forall|k: int|
            0 <= k < a.len() ==> spec_parse_field(#[trigger] a[k]) is Some {
            Some(
                FieldSpecView::Vector(
                    Seq::new(a.len(), |k: int| spec_parse_field(a[k]).unwrap()),
                ),
            )
        } else {
            None
        },
        _ => None,
    }
}

/// What a footer-shaped value parses to: a bare string, or an object with
/// optional text and url.
pub open spec fn spec_parse_footer_spec(j: JsonRep) -> Option<FooterSpecView> {
    match j {
        JsonRep::Str(s) => Some(FooterSpecView::TextOnly(s)),
        JsonRep::Obj(o) => {
            let text = str_entry(entry_lookup(o, alias_keys("text"@, None, None, None)));
            let url = str_entry(entry_lookup(o, alias_keys("url"@, None, None, None)));
            match (text, url) {
                (Some(text), Some(url)) => Some(FooterSpecView::Complex(FooterView { text, url })),
                _ => None,
            }
        },
        _ => None,
    }
}

/// What an author-shaped value parses to: an object with a required name
/// and optional link and icon.
pub open spec fn spec_parse_author(j: JsonRep) -> Option<AuthorView> {
    match j {
        JsonRep::Obj(o) => {
            let name = required_str_entry(entry_lookup(o, alias_keys("name"@, Some("n"@), None, None)));
            let link = str_entry(
                entry_lookup(o, alias_keys("link"@, Some("u"@), Some("url"@), Some("l"@))),
            );
            let icon = str_entry(entry_lookup(o, alias_keys("icon"@, Some("i"@), None, None)));
            match (name, link, icon) {
                (Some(name), Some(link), Some(icon)) => Some(AuthorView { name, link, icon }),
                _ => None,
            }
        },
        _ => None,
    }
}

/// Reads an optional colour field.
pub open spec fn colour_entry(e: Result<Option<JsonRep>, ()>) -> Option<Option<ColourView>> {
    match e {
        Ok(None) => Some(None),
        Ok(Some(j)) => match spec_parse_colour(j) {
            Some(c) => Some(Some(c)),
            None => None,
        },
        _ => None,
    }
}

/// Reads an optional fields field.
pub open spec fn field_spec_entry(e: Result<Option<JsonRep>, ()>) -> Option<
    Option<FieldSpecView>,
> {
    match e {
        Ok(None) => Some(None),
        Ok(Some(j)) => match spec_parse_field_spec(j) {
            Some(f) => Some(Some(f)),
            None => None,
        },
        _ => None,
    }
}

/// Reads an optional footer field.
pub open spec fn footer_spec_entry(e: Result<Option<JsonRep>, ()>) -> Option<
    Option<FooterSpecView>,
> {
    match e {
        Ok(None) => Some(None),
        Ok(Some(j)) => match spec_parse_footer_spec(j) {
            Some(f) => Some(Some(f)),
            None => None,
        },
        _ => None,
    }
}

/// Reads an optional author field.
pub open spec fn author_entry(e: Result<Option<JsonRep>, ()>) -> Option<Option<AuthorView>> {
    match e {
        Ok(None) => Some(None),
        Ok(Some(j)) => match spec_parse_author(j) {
            Some(a) => Some(Some(a)),
            None => None,
        },
        _ => None,
    }
}

/// What an embed-shaped value parses to.
pub open spec fn spec_parse_embed(j: JsonRep) -> Option<EmbedView> {
    match j {
        JsonRep::Obj(o) => {
            let colour = colour_entry(
                entry_lookup(o, alias_keys("colour"@, Some("c"@), Some("color"@), None)),
            );
            let description = str_entry(
                entry_lookup(o, alias_keys("description"@, Some("d"@), None, None)),
            );
            let field = field_spec_entry(
                entry_lookup(o, alias_keys("field"@, Some("f"@), Some("fields"@), None)),
            );
            let footer = footer_spec_entry(
                entry_lookup(o, alias_keys("footer"@, None, None, None)),
            );
            let author = author_entry(entry_lookup(o, alias_keys("author"@, Some("a"@), None, None)));
            match (colour, description, field, footer, author) {
                (Some(colour), Some(description), Some(field), Some(footer), Some(author)) => Some(
                    EmbedView { colour, description, field, footer, author },
                ),
                _ => None,
            }
        },
        _ => None,
    }
}

/// Reads an optional embed field.
pub open spec fn embed_entry(e: Result<Option<JsonRep>, ()>) -> Option<Option<EmbedView>> {
    match e {
        Ok(None) => Some(None),
        Ok(Some(j)) => match spec_parse_embed(j) {
            Some(em) => Some(Some(em)),
            None => None,
        },
        _ => None,
    }
}

/// What a message-shaped value parses to.
pub open spec fn spec_parse_message(j: JsonRep) -> Option<MessageView> {
    match j {
        JsonRep::Obj(o) => {
            let content = str_entry(entry_lookup(o, alias_keys("content"@, Some("c"@), None, None)));
            let embed = embed_entry(entry_lookup(o, alias_keys("embed"@, Some("e"@), None, None)));
            match (content, embed) {
                (Some(content), Some(embed)) => Some(MessageView { content, embed }),
                _ => None,
            }
        },
        _ => None,
    }
}

/// The error reported when a document does not fit the message schema.
fn schema_error() -> (e: ParseError)
    ensures
        e is InvalidJson,
{
    ParseError::InvalidJson("value does not fit the message schema".to_owned())
}

/// Parses a colour specification from a document value.
pub fn parse_colour_value(v: &JsonValue) -> (r: Result<EmbedColourEnum, ParseError>)
    ensures
        match spec_parse_colour(v@) {
            Some(c) => r matches Ok(col) && col@ == c,
            None => r matches Err(e) && e is InvalidJson,
        },
{
    match v {
        JsonValue::Int(i) => {
            if *i >= 0 && *i <= 0xFFFF_FFFFi64 {
                Ok(EmbedColourEnum::Integer(*i as u32))
            } else {
                Err(schema_error())
            }
        },
        JsonValue::Str(s) => Ok(EmbedColourEnum::NamedOrHex(s.clone())),
        JsonValue::Obj(kvs) => {
            let red: u8 = match get_byte_entry(kvs, "red", Some("r")) {
                Ok(b) => b,
                Err(e) => return Err(e),
            };
            let green: u8 = match get_byte_entry(kvs, "green", Some("g")) {
                Ok(b) => b,
                Err(e) => return Err(e),
            };
            let blue: u8 = match get_byte_entry(kvs, "blue", Some("b")) {
                Ok(b) => b,
                Err(e) => return Err(e),
            };
            Ok(EmbedColourEnum::RGB(RGBColour { red, green, blue }))
        },
        _ => Err(schema_error()),
    }
}

/// Reads one required byte channel of an RGB object.
fn get_byte_entry(kvs: &Vec<(String, JsonValue)>, k0: &str, k1: Option<&str>) -> (r: Result<
    u8,
    ParseError,
>)
    ensures
        ({
            let e = byte_entry(
                entry_lookup(
                    entries_view(kvs@),
                    alias_keys(k0@, crate::json::opt_key_view(k1), None, None),
                ),
            );
            match r {
                Ok(b) => e == Some(b),
                Err(err) => e is None && err is InvalidJson,
            }
        }),
{
    match get_entry(kvs, k0, k1, None, None) {
        Err(_) => Err(schema_error()),
        Ok(None) => Err(schema_error()),
        Ok(Some(jv)) => match jv {
            JsonValue::Int(i) => {
                if *i >= 0 && *i <= 255 {
                    Ok(*i as u8)
                } else {
                    Err(schema_error())
                }
            },
            _ => Err(schema_error()),
        },
    }
}

/// Parses one embed field from a document value.
pub fn parse_field_value(v: &JsonValue) -> (r: Result<EmbedField, ParseError>)
    ensures
        match spec_parse_field(v@) {
            Some(f) => r matches Ok(fl) && fl@ == f,
            None => r matches Err(e) && e is InvalidJson,
        },
{
    match v {
        JsonValue::Obj(kvs) => {
            let name: String = match get_entry(kvs, "name", None, None, None) {
                Ok(Some(JsonValue::Str(s))) => s.clone(),
                _ => return Err(schema_error()),
            };
            let value: String = match get_entry(kvs, "value", None, None, None) {
                Ok(Some(JsonValue::Str(s))) => s.clone(),
                _ => return Err(schema_error()),
            };
            let inline: Option<bool> = match get_entry(kvs, "inline", None, None, None) {
                Ok(None) => None,
                Ok(Some(JsonValue::Bool(b))) => Some(*b),
                _ => return Err(schema_error()),
            };
            Ok(EmbedField { name, value, inline })
        },
        _ => Err(schema_error()),
    }
}

/// Parses the fields part of an embed: one field object, or an array.
#[verifier::loop_isolation(false)]
pub fn parse_field_spec_value(v: &JsonValue) -> (r: Result<EmbedFieldEnum, ParseError>)
    ensures
        match spec_parse_field_spec(v@) {
            Some(f) => r matches Ok(fs) && fs@ == f,
            None => r matches Err(e) && e is InvalidJson,
        },
{
    match v {
        JsonValue::Obj(_) => match parse_field_value(v) {
            Ok(f) => Ok(EmbedFieldEnum::Single(f)),
            Err(e) => Err(e),
        },
        JsonValue::Arr(items) => {
            let ghost s = items_view(items@);
            let mut out: Vec<EmbedField> = Vec::new();
            let mut k: usize = 0;
            while k < items.len()
                invariant
                    k <= items.len(),
                    s == items_view(items@),
                    out@.len() == k,
                    forall|j: int|
                        0 <= j < k ==> spec_parse_field(#[trigger] s[j]) is Some && out@[j]@
                            == spec_parse_field(s[j]).unwrap(),
                decreases items.len() - k,
            {
                proof {
                    assert(s[k as int] == items@[k as int]@);
                }
                match parse_field_value(&items[k]) {
                    Ok(f) => {
                        out.push(f);
                    },
                    Err(e) => {
                        proof {
                            assert(spec_parse_field(s[k as int]) is None);
                        }
                        return Err(e);
                    },
                }
                k += 1;
            }
            proof {
                assert(forall|j: int|
                    0 <= j < s.len() ==> spec_parse_field(#[trigger] s[j]) is Some);
                assert(fields_view(out@) =~= Seq::new(
                    s.len(),
                    |j: int| spec_parse_field(s[j]).unwrap(),
                ));
            }
            Ok(EmbedFieldEnum::Vector(out))
        },
        _ => Err(schema_error()),
    }
}

/// Parses the footer part of an embed: a bare string, or an object.
pub fn parse_footer_spec_value(v: &JsonValue) -> (r: Result<EmbedFooterEnum, ParseError>)
    ensures
        match spec_parse_footer_spec(v@) {
            Some(f) => r matches Ok(fs) && fs@ == f,
            None => r matches Err(e) && e is InvalidJson,
        },
{
    match v {
        JsonValue::Str(s) => Ok(EmbedFooterEnum::TextOnly(s.clone())),
        JsonValue::Obj(kvs) => {
            let text: Option<String> = match get_entry(kvs, "text", None, None, None) {
                Ok(None) => None,
                Ok(Some(JsonValue::Str(s))) => Some(s.clone()),
                _ => return Err(schema_error()),
            };
            let url: Option<String> = match get_entry(kvs, "url", None, None, None) {
                Ok(None) => None,
                Ok(Some(JsonValue::Str(s))) => Some(s.clone()),
                _ => return Err(schema_error()),
            };
            Ok(EmbedFooterEnum::Complex(EmbedFooter { text, url }))
        },
        _ => Err(schema_error()),
    }
}

/// Parses the author part of an embed.
pub fn parse_author_value(v: &JsonValue) -> (r: Result<EmbedAuthor, ParseError>)
    ensures
        match spec_parse_author(v@) {
            Some(a) => r matches Ok(au) && au@ == a,
            None => r matches Err(e) && e is InvalidJson,
        },
{
    match v {
        JsonValue::Obj(kvs) => {
            let name: String = match get_entry(kvs, "name", Some("n"), None, None) {
                Ok(Some(JsonValue::Str(s))) => s.clone(),
                _ => return Err(schema_error()),
            };
            let link: Option<String> = match get_entry(kvs, "link", Some("u"), Some("url"), Some("l")) {
                Ok(None) => None,
                Ok(Some(JsonValue::Str(s))) => Some(s.clone()),
                _ => return Err(schema_error()),
            };
            let icon: Option<String> = match get_entry(kvs, "icon", Some("i"), None, None) {
                Ok(None) => None,
                Ok(Some(JsonValue::Str(s))) => Some(s.clone()),
                _ => return Err(schema_error()),
            };
            Ok(EmbedAuthor { name, link, icon })
        },
        _ => Err(schema_error()),
    }
}

/// Parses an embed from a document value.
pub fn parse_embed_value(v: &JsonValue) -> (r: Result<Embed, ParseError>)
    ensures
        match spec_parse_embed(v@) {
            Some(em) => r matches Ok(e) && e@ == em,
            None => r matches Err(e) && e is InvalidJson,
        },
{
    match v {
        JsonValue::Obj(kvs) => {
            let colour: Option<EmbedColourEnum> = match get_entry(
                kvs,
                "colour",
                Some("c"),
                Some("color"),
                None,
            ) {
                Err(_) => return Err(schema_error()),
                Ok(None) => None,
                Ok(Some(jv)) => match parse_colour_value(jv) {
                    Ok(c) => Some(c),
                    Err(e) => return Err(e),
                },
            };
            let description: Option<String> = match get_entry(
                kvs,
                "description",
                Some("d"),
                None,
                None,
            ) {
                Ok(None) => None,
                Ok(Some(JsonValue::Str(s))) => Some(s.clone()),
                _ => return Err(schema_error()),
            };
            let field: Option<EmbedFieldEnum> = match get_entry(
                kvs,
                "field",
                Some("f"),
                Some("fields"),
                None,
            ) {
                Err(_) => return Err(schema_error()),
                Ok(None) => None,
                Ok(Some(jv)) => match parse_field_spec_value(jv) {
                    Ok(f) => Some(f),
                    Err(e) => return Err(e),
                },
            };
            let footer: Option<EmbedFooterEnum> = match get_entry(kvs, "footer", None, None, None) {
                Err(_) => return Err(schema_error()),
                Ok(None) => None,
                Ok(Some(jv)) => match parse_footer_spec_value(jv) {
                    Ok(f) => Some(f),
                    Err(e) => return Err(e),
                },
            };
            let author: Option<EmbedAuthor> = match get_entry(kvs, "author", Some("a"), None, None) {
                Err(_) => return Err(schema_error()),
                Ok(None) => None,
                Ok(Some(jv)) => match parse_author_value(jv) {
                    Ok(a) => Some(a),
                    Err(e) => return Err(e),
                },
            };
            Ok(Embed { colour, description, field, footer, author })
        },
        _ => Err(schema_error()),
    }
}

/// Parses a whole message from a document value.
pub fn parse_message_value(v: &JsonValue) -> (r: Result<Message, ParseError>)
    ensures
        match spec_parse_message(v@) {
            Some(m) => r matches Ok(msg) && msg@ == m,
            None => r matches Err(e) && e is InvalidJson,
        },
{
    match v {
        JsonValue::Obj(kvs) => {
            let content: Option<String> = match get_entry(kvs, "content", Some("c"), None, None) {
                Ok(None) => None,
                Ok(Some(JsonValue::Str(s))) => Some(s.clone()),
                _ => return Err(schema_error()),
            };
            let embed: Option<Embed> = match get_entry(kvs, "embed", Some("e"), None, None) {
                Err(_) => return Err(schema_error()),
                Ok(None) => None,
                Ok(Some(jv)) => match parse_embed_value(jv) {
                    Ok(em) => Some(em),
                    Err(e) => return Err(e),
                },
            };
            Ok(Message { content, embed })
        },
        _ => Err(schema_error()),
    }
}

/// Parses a message from its compact textual form.
pub fn parse_message(s: &str) -> (r: Result<Message, ParseError>)
    ensures
        match json5_document(s@) {
            None => r matches Err(e) && e is InvalidJson,
            Some(doc) => match spec_parse_message(doc) {
                Some(m) => r matches Ok(msg) && msg@ == m,
                None => r matches Err(e) && e is InvalidJson,
            },
        },
{
    match parse_json5(s) {
        Err(diag) => Err(ParseError::InvalidJson(diag)),
        Ok(v) => parse_message_value(&v),
    }
}

/// Parses an embed from its compact textual form.
pub fn parse_embed(s: &str) -> (r: Result<Embed, ParseError>)
    ensures
        match json5_document(s@) {
            None => r matches Err(e) && e is InvalidJson,
            Some(doc) => match spec_parse_embed(doc) {
                Some(em) => r matches Ok(e) && e@ == em,
                None => r matches Err(e) && e is InvalidJson,
            },
        },
{
    match parse_json5(s) {
        Err(diag) => Err(ParseError::InvalidJson(diag)),
        Ok(v) => parse_embed_value(&v),
    }
}

/// Parses one embed field from its compact textual form.
pub fn parse_field(s: &str) -> (r: Result<EmbedField, ParseError>)
    ensures
        match json5_document(s@) {
            None => r matches Err(e) && e is InvalidJson,
            Some(doc) => match spec_parse_field(doc) {
                Some(f) => r matches Ok(fl) && fl@ == f,
                None => r matches Err(e) && e is InvalidJson,
            },
        },
{
    match parse_json5(s) {
        Err(diag) => Err(ParseError::InvalidJson(diag)),
        Ok(v) => parse_field_value(&v),
    }
}

/// Law: alias equivalence for the content field.  A document that gives
/// the content under its short spelling `c` parses to the same message as
/// one that gives the same value under `content`.
pub proof fn lemma_content_alias(v: JsonRep)
    ensures
        spec_parse_message(JsonRep::Obj(seq![("content"@, v)])) == spec_parse_message(
            JsonRep::Obj(seq![("c"@, v)]),
        ),
{
    reveal_strlit("content");
    reveal_strlit("c");
    reveal_strlit("embed");
    reveal_strlit("e");
    let o1 = seq![("content"@, v)];
    let o2 = seq![("c"@, v)];
    let ck = alias_keys("content"@, Some("c"@), None, None);
    let ek = alias_keys("embed"@, Some("e"@), None, None);
    assert(entry_search(o1, ck, 1) == Ok::<Option<JsonRep>, ()>(None));
    assert(entry_search(o2, ck, 1) == Ok::<Option<JsonRep>, ()>(None));
    assert(entry_lookup(o1, ck) == Ok::<Option<JsonRep>, ()>(Some(v)));
    assert(entry_lookup(o2, ck) == Ok::<Option<JsonRep>, ()>(Some(v)));
    assert("content"@.len() == 7);
    assert("embed"@.len() == 5);
    assert("e"@.len() == 1);
    assert("c"@.len() == 1);
    assert("c"@[0] == 'c');
    assert("e"@[0] == 'e');
    assert("content"@ !== "embed"@ && "content"@ !== "e"@);
    assert("c"@ !== "embed"@ && "c"@ !== "e"@);
    assert(!ek.contains("content"@));
    assert(!ek.contains("c"@));
    assert(entry_search(o1, ek, 1) == Ok::<Option<JsonRep>, ()>(None));
    assert(entry_search(o2, ek, 1) == Ok::<Option<JsonRep>, ()>(None));
    assert(entry_lookup(o1, ek) == Ok::<Option<JsonRep>, ()>(None));
    assert(entry_lookup(o2, ek) == Ok::<Option<JsonRep>, ()>(None));
}

} // verus!
