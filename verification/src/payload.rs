//! The message materializer.
//!
//! A parsed `Message` tree is turned into the concrete payload handed to
//! the send capability: the colour is resolved, the fields are normalized
//! to an ordered list, the footer to its text-and-url form.  URL
//! well-formedness and length limits are not checked here; the send
//! capability enforces them at call time.

use vstd::prelude::*;

use crate::colour::{resolve, spec_resolve, ColourView};
use crate::errors::{ColourErrorView, ParseError, ParseErrorView};
use crate::json::{json5_document, JsonRep};
use crate::message::{
    fields_view, parse_message, spec_parse_message, AuthorView, Embed, EmbedAuthor, EmbedField,
    EmbedFieldEnum, EmbedFooter, EmbedFooterEnum, EmbedView, FieldSpecView, FieldView,
    FooterSpecView, FooterView, Message, MessageView,
};
use crate::text::opt_str_view;

verus! {

/// The concrete form of a message, ready to be sent.
#[derive(Debug, PartialEq)]
pub struct SendPayload {
    pub content: Option<String>,
    pub embed: Option<EmbedPayload>,
}

/// The concrete form of an embed.
#[derive(Debug, PartialEq)]
pub struct EmbedPayload {
    /// The resolved 24-bit colour value.
    pub colour: Option<u32>,
    pub description: Option<String>,
    /// The fields, normalized to an ordered, possibly empty list.
    pub fields: Vec<FieldPayload>,
    /// The footer, normalized to its text-and-url form.
    pub footer: Option<EmbedFooter>,
    pub author: Option<EmbedAuthor>,
}

/// The concrete form of one field; an absent inline flag defaults to false.
#[derive(Debug, PartialEq)]
pub struct FieldPayload {
    pub name: String,
    pub value: String,
    pub inline: bool,
}

/// Spec-level view of `SendPayload`.
pub struct SendPayloadView {
    pub content: Option<Seq<char>>,
    pub embed: Option<EmbedPayloadView>,
}

/// Spec-level view of `EmbedPayload`.
pub struct EmbedPayloadView {
    pub colour: Option<u32>,
    pub description: Option<Seq<char>>,
    pub fields: Seq<FieldPayloadView>,
    pub footer: Option<FooterView>,
    pub author: Option<AuthorView>,
}

/// Spec-level view of `FieldPayload`.
pub struct FieldPayloadView {
    pub name: Seq<char>,
    pub value: Seq<char>,
    pub inline: bool,
}

impl View for FieldPayload {
    type V = FieldPayloadView;

    open spec fn view(&self) -> FieldPayloadView {
        FieldPayloadView { name: self.name@, value: self.value@, inline: self.inline }
    }
}

/// The views of a list of concrete fields.
pub open spec fn field_payloads_view(fs: Seq<FieldPayload>) -> Seq<FieldPayloadView> {
    Seq::new(fs.len(), |i: int| fs[i]@)
}

impl View for EmbedPayload {
    type V = EmbedPayloadView;

    open spec fn view(&self) -> EmbedPayloadView {
        EmbedPayloadView {
            colour: self.colour,
            description: opt_str_view(self.description),
            fields: field_payloads_view(self.fields@),
            footer: match self.footer {
                Some(f) => Some(f@),
                None => None,
            },
            author: match self.author {
                Some(a) => Some(a@),
                None => None,
            },
        }
    }
}

impl View for SendPayload {
    type V = SendPayloadView;

    open spec fn view(&self) -> SendPayloadView {
        SendPayloadView {
            content: opt_str_view(self.content),
            embed: match self.embed {
                Some(e) => Some(e@),
                None => None,
            },
        }
    }
}

/// One field, normalized: an absent inline flag becomes false.
pub open spec fn normal_field(f: FieldView) -> FieldPayloadView {
    FieldPayloadView {
        name: f.name,
        value: f.value,
        inline: match f.inline {
            Some(b) => b,
            None => false,
        },
    }
}

/// The fields part, normalized to an ordered list: absent means empty, a
/// single field becomes a one-element list, a list keeps its order.
pub open spec fn normal_fields(f: Option<FieldSpecView>) -> Seq<FieldPayloadView> {
    match f {
        None => Seq::empty(),
        Some(FieldSpecView::Single(fl)) => seq![normal_field(fl)],
        Some(FieldSpecView::Vector(fs)) => Seq::new(fs.len(), |i: int| normal_field(fs[i])),
    }
}

/// The footer, normalized: a bare text becomes text with no url.
pub open spec fn normal_footer(f: Option<FooterSpecView>) -> Option<FooterView> {
    match f {
        None => None,
        Some(FooterSpecView::TextOnly(t)) => Some(FooterView { text: Some(t), url: None }),
        Some(FooterSpecView::Complex(fv)) => Some(fv),
    }
}

/// What materializing an embed yields: the resolved colour and the
/// normalized parts, or the colour resolver's error.
pub open spec fn spec_materialize_embed(e: EmbedView) -> Result<
    EmbedPayloadView,
    ColourErrorView,
> {
    let colour_r: Result<Option<u32>, ColourErrorView> = match e.colour {
        None => Ok(None),
        Some(c) => match spec_resolve(c) {
            Ok(v) => Ok(Some(v)),
            Err(err) => Err(err),
        },
    };
    match colour_r {
        Err(err) => Err(err),
        Ok(colour) => Ok(
            EmbedPayloadView {
                colour,
                description: e.description,
                fields: normal_fields(e.field),
                footer: normal_footer(e.footer),
                author: e.author,
            },
        ),
    }
}

/// What materializing a message yields.
pub open spec fn spec_materialize(m: MessageView) -> Result<SendPayloadView, ColourErrorView> {
    match m.embed {
        None => Ok(SendPayloadView { content: m.content, embed: None }),
        Some(e) => match spec_materialize_embed(e) {
            Ok(ep) => Ok(SendPayloadView { content: m.content, embed: Some(ep) }),
            Err(err) => Err(err),
        },
    }
}

/// Normalizes the fields part of an embed into a concrete list.
fn materialize_fields(f: &Option<EmbedFieldEnum>) -> (r: Vec<FieldPayload>)
    ensures
        field_payloads_view(r@) == normal_fields(
            match f {
                Some(fs) => Some(fs@),
                None => None,
            },
        ),
{
    let mut out: Vec<FieldPayload> = Vec::new();
    match f {
        None => {
            proof {
                assert(field_payloads_view(out@) =~= Seq::<FieldPayloadView>::empty());
            }
        },
        Some(EmbedFieldEnum::Single(fl)) => {
            out.push(materialize_field(fl));
            proof {
                assert(field_payloads_view(out@) =~= seq![normal_field(fl@)]);
            }
        },
        Some(EmbedFieldEnum::Vector(fs)) => {
            let mut i: usize = 0;
            while i < fs.len()
                invariant
                    i <= fs.len(),
                    out@.len() == i,
                    forall|j: int| 0 <= j < i ==> out@[j]@ == normal_field(#[trigger] fs@[j]@),
                decreases fs.len() - i,
            {
                out.push(materialize_field(&fs[i]));
                i += 1;
            }
            proof {
                assert(field_payloads_view(out@) =~= Seq::new(
                    fields_view(fs@).len(),
                    |j: int| normal_field(fields_view(fs@)[j]),
                ));
            }
        },
    }
    out
}

/// Normalizes one field.
fn materialize_field(f: &EmbedField) -> (r: FieldPayload)
    ensures
        r@ == normal_field(f@),
{
    FieldPayload {
        name: f.name.clone(),
        value: f.value.clone(),
        inline: match f.inline {
            Some(b) => b,
            None => false,
        },
    }
}

/// Clones an optional string.
fn clone_opt_str(o: &Option<String>) -> (r: Option<String>)
    ensures
        opt_str_view(r) == opt_str_view(*o),
{
    match o {
        Some(s) => Some(s.clone()),
        None => None,
    }
}

/// Normalizes the footer part of an embed.
fn materialize_footer(f: &Option<EmbedFooterEnum>) -> (r: Option<EmbedFooter>)
    ensures
        ({
            let rv = match r {
                Some(fv) => Some(fv@),
                None => None,
            };
            rv == normal_footer(
                match f {
                    Some(fs) => Some(fs@),
                    None => None,
                },
            )
        }),
{
    match f {
        None => None,
        Some(EmbedFooterEnum::TextOnly(t)) => Some(
            EmbedFooter { text: Some(t.clone()), url: None },
        ),
        Some(EmbedFooterEnum::Complex(fv)) => Some(
            EmbedFooter { text: clone_opt_str(&fv.text), url: clone_opt_str(&fv.url) },
        ),
    }
}

/// Copies the author byline.
fn materialize_author(a: &Option<EmbedAuthor>) -> (r: Option<EmbedAuthor>)
    ensures
        ({
            let rv = match r {
                Some(av) => Some(av@),
                None => None,
            };
            rv == match a {
                Some(av) => Some(av@),
                None => None,
            }
        }),
{
    match a {
        None => None,
        Some(av) => Some(
            EmbedAuthor {
                name: av.name.clone(),
                link: clone_opt_str(&av.link),
                icon: clone_opt_str(&av.icon),
            },
        ),
    }
}

/// Materializes an embed: resolves its colour and normalizes its parts.
pub fn materialize_embed(e: &Embed) -> (r: Result<EmbedPayload, ParseError>)
    ensures
        match spec_materialize_embed(e@) {
            Ok(ep) => r matches Ok(p) && p@ == ep,
            Err(err) => r matches Err(pe) && pe@ == ParseErrorView::ColourParseError(err),
        },
{
    let colour: Option<u32> = match &e.colour {
        None => None,
        Some(c) => match resolve(c) {
            Ok(v) => Some(v),
            Err(err) => return Err(ParseError::ColourParseError(err)),
        },
    };
    Ok(
        EmbedPayload {
            colour,
            description: clone_opt_str(&e.description),
            fields: materialize_fields(&e.field),
            footer: materialize_footer(&e.footer),
            author: materialize_author(&e.author),
        },
    )
}

/// Materializes a message into the concrete payload handed to the sender.
/// The only thing that can fail is colour resolution, whose error is
/// passed on, wrapped.
pub fn materialize(m: &Message) -> (r: Result<SendPayload, ParseError>)
    ensures
        match spec_materialize(m@) {
            Ok(p) => r matches Ok(pay) && pay@ == p,
            Err(err) => r matches Err(pe) && pe@ == ParseErrorView::ColourParseError(err),
        },
{
    let embed: Option<EmbedPayload> = match &m.embed {
        None => None,
        Some(e) => match materialize_embed(e) {
            Ok(ep) => Some(ep),
            Err(err) => return Err(err),
        },
    };
    Ok(SendPayload { content: clone_opt_str(&m.content), embed })
}

/// What the whole textual path yields for a given text: the payload, or
/// the first error on the way.
pub open spec fn spec_deserialize_rich(s: Seq<char>) -> Result<SendPayloadView, Option<
    ColourErrorView,
>> {
    match json5_document(s) {
        None => Err(None),
        Some(doc) => match spec_parse_message(doc) {
            None => Err(None),
            Some(m) => match spec_materialize(m) {
                Ok(p) => Ok(p),
                Err(ce) => Err(Some(ce)),
            },
        },
    }
}

/// The whole textual path: parses a compact textual message and
/// materializes it into a payload.
pub fn deserialize_rich_message(s: &str) -> (r: Result<SendPayload, ParseError>)
    ensures
        match spec_deserialize_rich(s@) {
            Ok(p) => r matches Ok(pay) && pay@ == p,
            Err(None) => r matches Err(e) && e is InvalidJson,
            Err(Some(ce)) => r matches Err(e) && e@ == ParseErrorView::ColourParseError(ce),
        },
{
    match parse_message(s) {
        Err(e) => Err(e),
        Ok(msg) => materialize(&msg),
    }
}

/// The textual branch of the argument path: a text that opens a brace is
/// parsed as a compact message; any other text becomes the plain content
/// of an otherwise empty payload.
pub fn payload_from_text(text: &str) -> (r: Result<SendPayload, ParseError>)
    ensures
        ({
            if text@.len() > 0 && text@[0] == '{' {
                match spec_deserialize_rich(text@) {
                    Ok(p) => r matches Ok(pay) && pay@ == p,
                    Err(None) => r matches Err(e) && e is InvalidJson,
                    Err(Some(ce)) => r matches Err(e) && e@ == ParseErrorView::ColourParseError(ce),
                }
            } else {
                r matches Ok(pay) && pay@ == (SendPayloadView {
                    content: Some(text@),
                    embed: None,
                })
            }
        }),
{
    let n: usize = text.unicode_len();
    if n > 0 && text.get_char(0) == '{' {
        deserialize_rich_message(text)
    } else {
        Ok(SendPayload { content: Some(text.to_owned()), embed: None })
    }
}

/// Law: field normalization.  An object parsed as a single field yields,
/// after normalization, the same one-element list as the same object
/// wrapped in a one-element array.
pub proof fn lemma_field_normalization(j: JsonRep)
    requires
        j is Obj,
    ensures
        ({
            let single = crate::message::spec_parse_field_spec(j);
            let wrapped = crate::message::spec_parse_field_spec(JsonRep::Arr(seq![j]));
            match (single, wrapped) {
                (Some(fs1), Some(fs2)) => normal_fields(Some(fs1)) == normal_fields(Some(fs2)),
                (None, None) => true,
                _ => false,
            }
        }),
{
    let a = seq![j];
    assert(a.len() == 1 && a[0] == j);
    match crate::message::spec_parse_field(j) {
        Some(f) => {
            assert(forall|k: int|
                0 <= k < a.len() ==> crate::message::spec_parse_field(#[trigger] a[k]) is Some);
            let single = crate::message::spec_parse_field_spec(j);
            let wrapped = crate::message::spec_parse_field_spec(JsonRep::Arr(a));
            assert(single == Some(FieldSpecView::Single(f)));
            assert(wrapped matches Some(w) && w matches FieldSpecView::Vector(fs) && fs.len() == 1
                && fs[0] == f);
            assert(normal_fields(Some(FieldSpecView::Single(f))) =~= normal_fields(
                Some(FieldSpecView::Vector(seq![f])),
            ));
        },
        None => {
            assert(crate::message::spec_parse_field(a[0]) is None);
            assert(crate::message::spec_parse_field_spec(JsonRep::Arr(a)) is None);
        },
    }
}

/// Law: footer normalization.  A bare string footer yields, after
/// normalization, text and no url: the same as the object form that gives
/// only the text.
pub proof fn lemma_footer_normalization(s: Seq<char>)
    ensures
        ({
            let bare = crate::message::spec_parse_footer_spec(JsonRep::Str(s));
            let complex = crate::message::spec_parse_footer_spec(
                JsonRep::Obj(seq![("text"@, JsonRep::Str(s))]),
            );
            &&& bare matches Some(b) && normal_footer(Some(b)) == Some(
                FooterView { text: Some(s), url: None },
            )
            &&& complex matches Some(c) && normal_footer(Some(c)) == Some(
                FooterView { text: Some(s), url: None },
            )
        }),
{
    reveal_strlit("text");
    reveal_strlit("url");
    let o = seq![("text"@, JsonRep::Str(s))];
    let tk = crate::json::alias_keys("text"@, None, None, None);
    let uk = crate::json::alias_keys("url"@, None, None, None);
    assert(crate::json::entry_search(o, tk, 1) == Ok::<Option<JsonRep>, ()>(None));
    assert(crate::json::entry_search(o, uk, 1) == Ok::<Option<JsonRep>, ()>(None));
    assert(tk.contains("text"@));
    assert("text"@.len() == 4 && "url"@.len() == 3);
    assert("text"@ !== "url"@);
    assert(!uk.contains("text"@));
    assert(crate::json::entry_lookup(o, tk) == Ok::<Option<JsonRep>, ()>(
        Some(JsonRep::Str(s)),
    ));
    assert(crate::json::entry_lookup(o, uk) == Ok::<Option<JsonRep>, ()>(None));
}

} // verus!
