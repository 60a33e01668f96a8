//! The serialized form of a component and how it is read back.
//!
//! A component is written as one flat record. The fields of its kind come
//! first: `text`; `translate` and `with`; `score`, a record of `name`,
//! `objective` and, where a value is set, `value`; `selector`; or
//! `keybind`. The attributes of its style follow, each under its own name and
//! only where it is set. The siblings come last, as a list under `extra`,
//! which is left out where there are none.
//!
//! Reading goes by the names that are present. A record shows a kind when it
//! has every field name of that kind (`translate` and `with` for a
//! translation). It must show exactly one kind: a record that shows none, or
//! more than one, is refused. The fields of that kind and of the style must
//! have the right form, and `extra`, where present, must be a list. Fields
//! with other names are passed over. A record is checked in full before its
//! arguments and siblings are read; these are then read in order, the
//! arguments first, and the first failure among them is the result.
use crate::component::{
    lemma_views, lemma_views_push, views, ChatComponent, ComponentType, ComponentView,
    KeybindComponent, KeybindView, KindView, ScoreComponent, ScoreView, SelectorComponent,
    SelectorView, TextComponent, TextView, TranslationComponent, TranslationView,
};
use crate::proofs::lemma_round_trip;
use crate::record::{
    field_views, find, lemma_field_views_push, lemma_lookup_is_member, lookup, shape_of,
    value_views, Field, FieldView, Shape, ShapeView, Value, ValueView,
};
use crate::style::{ComponentStyle, StyleView};
use crate::text::text_of;
use vstd::prelude::*;

verus! {

/// A record of one field.
pub open spec fn one(name: Seq<char>, value: ValueView) -> Seq<FieldView> {
    seq![FieldView { name, value }]
}

/// The field of an optional flag: none where the flag is not set.
pub open spec fn flag_field(name: Seq<char>, flag: Option<bool>) -> Seq<FieldView> {
    match flag {
        Some(b) => one(name, ValueView::Bool(b)),
        None => Seq::empty(),
    }
}

/// The field of an optional text: none where the text is not set.
pub open spec fn text_field(name: Seq<char>, text: Option<Seq<char>>) -> Seq<FieldView> {
    match text {
        Some(s) => one(name, ValueView::Text(s)),
        None => Seq::empty(),
    }
}

/// The fields of a style: one for each attribute that is set.
pub open spec fn style_fields(s: StyleView) -> Seq<FieldView> {
    flag_field("bold"@, s.bold) + flag_field("italic"@, s.italic) + flag_field(
        "underlined"@,
        s.underlined,
    ) + flag_field("strikethrough"@, s.strikethrough) + flag_field("obfuscated"@, s.obfuscated)
        + text_field("color"@, s.color) + text_field("insertion"@, s.insertion) + text_field(
        "font"@,
        s.font,
    )
}

/// The fields of the record under `score`.
pub open spec fn score_fields(s: ScoreView) -> Seq<FieldView> {
    one("name"@, ValueView::Text(s.name)) + one("objective"@, ValueView::Text(s.objective))
        + text_field("value"@, s.value)
}

/// The fields that a kind contributes to the record of its component.
pub open spec fn kind_fields(k: KindView) -> Seq<FieldView>
    decreases k,
{
    match k {
        KindView::Text(t) => one("text"@, ValueView::Text(t.text)),
        KindView::Translation(t) => one("translate"@, ValueView::Text(t.key)) + one(
            "with"@,
            ValueView::List(encode_all(t.with)),
        ),
        KindView::Score(s) => one("score"@, ValueView::Record(score_fields(s))),
        KindView::Selector(s) => one("selector"@, ValueView::Text(s.selector)),
        KindView::Keybind(k) => one("keybind"@, ValueView::Text(k.keybind)),
    }
}

/// The `extra` field: the serialized siblings in order, or no field where
/// there are none.
pub open spec fn extra_field(siblings: Seq<ValueView>) -> Seq<FieldView> {
    if siblings.len() == 0 {
        Seq::empty()
    } else {
        one("extra"@, ValueView::List(siblings))
    }
}

/// The serialized form of a component.
pub open spec fn encode_spec(c: ComponentView) -> ValueView
    decreases c,
{
    ValueView::Record(
        kind_fields(c.kind) + style_fields(c.style) + extra_field(encode_all(c.siblings)),
    )
}

/// The serialized forms of a sequence of components, in the same order.
pub open spec fn encode_all(cs: Seq<ComponentView>) -> Seq<ValueView>
    decreases cs,
{
    Seq::new(
        cs.len(),
        |i: int|
            if 0 <= i < cs.len() {
                encode_spec(cs[i])
            } else {
                arbitrary()
            },
    )
}

/// Whether the record has a field called `name`.
pub open spec fn present(fields: Seq<FieldView>, name: Seq<char>) -> bool {
    lookup(fields, name) is Some
}

/// One for a kind that the record shows, zero for one that it does not.
pub open spec fn shown(b: bool) -> int {
    if b {
        1
    } else {
        0
    }
}

/// How many of the five kinds the record shows by its field names.
pub open spec fn kinds_shown(fields: Seq<FieldView>) -> int {
    shown(present(fields, "text"@)) + shown(
        present(fields, "translate"@) && present(fields, "with"@),
    ) + shown(present(fields, "score"@)) + shown(present(fields, "selector"@)) + shown(
        present(fields, "keybind"@),
    )
}

/// The score that the record under `score` describes, if its fields have
/// the right form.
pub open spec fn score_of(fields: Seq<FieldView>) -> Option<ScoreView> {
    match (lookup(fields, "name"@), lookup(fields, "objective"@), lookup(fields, "value"@)) {
        (Some(ValueView::Text(name)), Some(ValueView::Text(objective)), None) => Some(
            ScoreView { name, objective, value: None },
        ),
        (
            Some(ValueView::Text(name)),
            Some(ValueView::Text(objective)),
            Some(ValueView::Text(value)),
        ) => Some(ScoreView { name, objective, value: Some(value) }),
        _ => None,
    }
}

/// The kind that the record describes, a translation still without its
/// arguments; `None` where the record does not show exactly one kind or
/// where a field of that kind has the wrong form.
pub open spec fn head_of(fields: Seq<FieldView>) -> Option<KindView> {
    if kinds_shown(fields) != 1 {
        None
    } else if present(fields, "text"@) {
        match lookup(fields, "text"@) {
            Some(ValueView::Text(text)) => Some(KindView::Text(TextView { text })),
            _ => None,
        }
    } else if present(fields, "translate"@) && present(fields, "with"@) {
        match (lookup(fields, "translate"@), lookup(fields, "with"@)) {
            (Some(ValueView::Text(key)), Some(ValueView::List(_))) => Some(
                KindView::Translation(TranslationView { key, with: Seq::empty() }),
            ),
            _ => None,
        }
    } else if present(fields, "score"@) {
        match lookup(fields, "score"@) {
            Some(ValueView::Record(inner)) => match score_of(inner) {
                Some(score) => Some(KindView::Score(score)),
                None => None,
            },
            _ => None,
        }
    } else if present(fields, "selector"@) {
        match lookup(fields, "selector"@) {
            Some(ValueView::Text(selector)) => Some(KindView::Selector(SelectorView { selector })),
            _ => None,
        }
    } else {
        match lookup(fields, "keybind"@) {
            Some(ValueView::Text(keybind)) => Some(KindView::Keybind(KeybindView { keybind })),
            _ => None,
        }
    }
}

/// An optional flag read from a record: `Some(None)` where the field is
/// absent, `None` where it is there and is not a boolean.
pub open spec fn flag_of(fields: Seq<FieldView>, name: Seq<char>) -> Option<Option<bool>> {
    match lookup(fields, name) {
        None => Some(None),
        Some(ValueView::Bool(b)) => Some(Some(b)),
        Some(_) => None,
    }
}

/// An optional text read from a record: `Some(None)` where the field is
/// absent, `None` where it is there and is not a text.
pub open spec fn text_of_field(fields: Seq<FieldView>, name: Seq<char>) -> Option<
    Option<Seq<char>>,
> {
    match lookup(fields, name) {
        None => Some(None),
        Some(ValueView::Text(s)) => Some(Some(s)),
        Some(_) => None,
    }
}

/// The style that the record describes; `None` where an attribute has the
/// wrong form.
pub open spec fn style_of(fields: Seq<FieldView>) -> Option<StyleView> {
    let bold = flag_of(fields, "bold"@);
    let italic = flag_of(fields, "italic"@);
    let underlined = flag_of(fields, "underlined"@);
    let strikethrough = flag_of(fields, "strikethrough"@);
    let obfuscated = flag_of(fields, "obfuscated"@);
    let color = text_of_field(fields, "color"@);
    let insertion = text_of_field(fields, "insertion"@);
    let font = text_of_field(fields, "font"@);
    if bold is Some && italic is Some && underlined is Some && strikethrough is Some
        && obfuscated is Some && color is Some && insertion is Some && font is Some {
        Some(
            StyleView {
                bold: bold->0,
                italic: italic->0,
                underlined: underlined->0,
                strikethrough: strikethrough->0,
                obfuscated: obfuscated->0,
                color: color->0,
                insertion: insertion->0,
                font: font->0,
            },
        )
    } else {
        None
    }
}

/// Whether `extra` is absent or a list.
pub open spec fn extra_ok(fields: Seq<FieldView>) -> bool {
    match lookup(fields, "extra"@) {
        None => true,
        Some(ValueView::List(_)) => true,
        Some(_) => false,
    }
}

/// The kind `head` with `arguments` in place of the arguments of a
/// translation; any other kind as it is.
pub open spec fn with_arguments(head: KindView, arguments: Seq<ComponentView>) -> KindView {
    match head {
        KindView::Translation(t) => KindView::Translation(
            TranslationView { key: t.key, with: arguments },
        ),
        _ => head,
    }
}

/// What reading a serialized value gives: the component it describes, or
/// the outline of the first record that describes none.
pub open spec fn decode_spec(v: ValueView) -> Result<ComponentView, ShapeView>
    decreases v, 0int,
{
    match v {
        ValueView::Record(fields) => {
            let head = head_of(fields);
            let style = style_of(fields);
            if head is Some && style is Some && extra_ok(fields) {
                let arguments = match lookup(fields, "with"@) {
                    Some(ValueView::List(items)) if head->0 is Translation => {
                        proof {
                            lemma_lookup_is_member(fields, "with"@, 0);
                        }
                        decode_from(items, 0)
                    },
                    _ => Ok(Seq::empty()),
                };
                let siblings = match lookup(fields, "extra"@) {
                    Some(ValueView::List(items)) => {
                        proof {
                            lemma_lookup_is_member(fields, "extra"@, 0);
                        }
                        decode_from(items, 0)
                    },
                    _ => Ok(Seq::empty()),
                };
                match (arguments, siblings) {
                    (Err(e), _) => Err(e),
                    (Ok(_), Err(e)) => Err(e),
                    (Ok(a), Ok(s)) => Ok(
                        ComponentView {
                            kind: with_arguments(head->0, a),
                            style: style->0,
                            siblings: s,
                        },
                    ),
                }
            } else {
                Err(shape_of(v))
            }
        },
        _ => Err(shape_of(v)),
    }
}

/// What reading the values from position `start` on gives: the components
/// they describe, in order, or the first failure.
pub open spec fn decode_from(items: Seq<ValueView>, start: int) -> Result<
    Seq<ComponentView>,
    ShapeView,
>
    decreases items, items.len() - start,
{
    if start < 0 || start >= items.len() {
        Ok(Seq::empty())
    } else {
        match decode_spec(items[start]) {
            Err(e) => Err(e),
            Ok(first) => match decode_from(items, start + 1) {
                Err(e) => Err(e),
                Ok(rest) => Ok(seq![first] + rest),
            },
        }
    }
}

/// Why a value could not be read as a component: the outline of the record
/// that describes none.
#[derive(Debug, PartialEq, Eq)]
pub struct DecodeError {
    pub shape: Shape,
}

impl View for DecodeError {
    type V = ShapeView;

    open spec fn view(&self) -> ShapeView {
        self.shape@
    }
}

impl Clone for DecodeError {
    fn clone(&self) -> (r: Self)
        ensures
            r@ == self@,
    {
        DecodeError { shape: self.shape.clone() }
    }
}

/// The result of reading, as plain mathematical values.
pub open spec fn outcome(r: Result<ChatComponent, DecodeError>) -> Result<
    ComponentView,
    ShapeView,
> {
    match r {
        Ok(c) => Ok(c@),
        Err(e) => Err(e@),
    }
}

/// The result of reading a list, as plain mathematical values.
pub open spec fn outcomes(r: Result<Vec<ChatComponent>, DecodeError>) -> Result<
    Seq<ComponentView>,
    ShapeView,
> {
    match r {
        Ok(list) => Ok(views(list@)),
        Err(e) => Err(e@),
    }
}

/// Appends one field to a record under construction.
fn push_field(fields: &mut Vec<Field>, name: &str, value: Value)
    ensures
        field_views(final(fields)@) == field_views(old(fields)@) + one(name@, value@),
{
    let field = Field::new(name, value);
    proof {
        lemma_field_views_push(fields@, field);
        assert(field_views(fields@).push(field@) =~= field_views(fields@) + one(
            name@,
            value@,
        ));
    }
    fields.push(field);
}

/// Appends the field of a flag, if the flag is set.
fn push_flag(fields: &mut Vec<Field>, name: &str, flag: Option<bool>)
    ensures
        field_views(final(fields)@) == field_views(old(fields)@) + flag_field(name@, flag),
{
    match flag {
        Some(b) => push_field(fields, name, Value::Bool(b)),
        None => {
            assert(field_views(fields@) + Seq::<FieldView>::empty() =~= field_views(fields@));
        },
    }
}

/// Appends the field of a text, if the text is set.
fn push_text(fields: &mut Vec<Field>, name: &str, text: Option<&String>)
    ensures
        field_views(final(fields)@) == field_views(old(fields)@) + text_field(
            name@,
            text_of(text),
        ),
{
    match text {
        Some(s) => push_field(fields, name, Value::text(s.as_str())),
        None => {
            assert(field_views(fields@) + Seq::<FieldView>::empty() =~= field_views(fields@));
        },
    }
}

/// Appends the fields of a style.
fn push_style(fields: &mut Vec<Field>, style: &ComponentStyle)
    ensures
        field_views(final(fields)@) == field_views(old(fields)@) + style_fields(style@),
{
    push_flag(fields, "bold", style.get_bold());
    push_flag(fields, "italic", style.get_italic());
    push_flag(fields, "underlined", style.get_underlined());
    push_flag(fields, "strikethrough", style.get_strikethrough());
    push_flag(fields, "obfuscated", style.get_obfuscated());
    push_text(fields, "color", style.get_color());
    push_text(fields, "insertion", style.get_insertion());
    push_text(fields, "font", style.get_font());
    assert(field_views(fields@) =~= field_views(old(fields)@) + style_fields(style@));
}

/// The record written under `score`.
fn encode_score(score: &ScoreComponent) -> (v: Value)
    ensures
        v@ == ValueView::Record(score_fields(score@)),
{
    let mut fields: Vec<Field> = Vec::new();
    push_field(&mut fields, "name", Value::text(score.get_name().as_str()));
    push_field(&mut fields, "objective", Value::text(score.get_objective().as_str()));
    push_text(&mut fields, "value", score.get_value());
    assert(field_views(fields@) =~= score_fields(score@));
    Value::Record(fields)
}

/// Writes a component as a record. This never fails, and reading the
/// record gives the component back.
pub fn encode(c: &ChatComponent) -> (v: Value)
    ensures
        v@ == encode_spec(c@),
        decode_spec(v@) == Ok::<ComponentView, ShapeView>(c@),
    decreases c@,
{
    proof {
        lemma_round_trip(c@);
    }
    let mut fields: Vec<Field> = Vec::new();
    match c.get_kind() {
        ComponentType::Text(t) => {
            push_field(&mut fields, "text", Value::text(t.get_text().as_str()));
        },
        ComponentType::Translation(t) => {
            push_field(&mut fields, "translate", Value::text(t.get_key().as_str()));
            let arguments = encode_list(t.get_args());
            push_field(&mut fields, "with", Value::List(arguments));
        },
        ComponentType::Score(s) => {
            push_field(&mut fields, "score", encode_score(s));
        },
        ComponentType::Selector(s) => {
            push_field(&mut fields, "selector", Value::text(s.get_selector().as_str()));
        },
        ComponentType::Keybind(k) => {
            push_field(&mut fields, "keybind", Value::text(k.get_keybind().as_str()));
        },
    }
    assert(field_views(fields@) =~= kind_fields(c@.kind));
    push_style(&mut fields, c.get_style());
    let siblings = c.get_siblings();
    if siblings.len() > 0 {
        let extra = encode_list(siblings);
        push_field(&mut fields, "extra", Value::List(extra));
    } else {
        assert(field_views(fields@) + Seq::<FieldView>::empty() =~= field_views(fields@));
    }
    Value::Record(fields)
}

/// Writes each component of a list, in order.
pub fn encode_list(list: &Vec<ChatComponent>) -> (r: Vec<Value>)
    ensures
        value_views(r@) == encode_all(views(list@)),
    decreases views(list@),
{
    let mut out: Vec<Value> = Vec::new();
    let mut i: usize = 0;
    while i < list.len()
        invariant
            i <= list.len(),
            out.len() == i,
            forall|j: int| 0 <= j < i ==> out@[j]@ == encode_spec(list@[j]@),
        decreases list.len() - i,
    {
        proof {
            lemma_views(list@);
            assert(views(list@)[i as int] == list@[i as int]@);
        }
        let v = encode(&list[i]);
        out.push(v);
        i = i + 1;
    }
    proof {
        lemma_views(list@);
        assert(value_views(out@) =~= encode_all(views(list@)));
    }
    out
}

/// An optional flag of a record.
fn decode_flag(fields: &Vec<Field>, name: &str) -> (r: Option<Option<bool>>)
    ensures
        r == flag_of(field_views(fields@), name@),
{
    match find(fields, name) {
        None => Some(None),
        Some(Value::Bool(b)) => Some(Some(*b)),
        Some(_) => None,
    }
}

/// An optional text of a record.
fn decode_text<'a>(fields: &'a Vec<Field>, name: &str) -> (r: Option<Option<&'a str>>)
    ensures
        match r {
            Some(text) => text_of_field(field_views(fields@), name@) == Some(text_of(text)),
            None => text_of_field(field_views(fields@), name@) is None,
        },
{
    match find(fields, name) {
        None => Some(None),
        Some(Value::Text(s)) => Some(Some(s.as_str())),
        Some(_) => None,
    }
}

/// The style that a record describes.
fn decode_style(fields: &Vec<Field>) -> (r: Option<ComponentStyle>)
    ensures
        match r {
            Some(style) => style_of(field_views(fields@)) == Some(style@),
            None => style_of(field_views(fields@)) is None,
        },
{
    let bold = decode_flag(fields, "bold");
    let italic = decode_flag(fields, "italic");
    let underlined = decode_flag(fields, "underlined");
    let strikethrough = decode_flag(fields, "strikethrough");
    let obfuscated = decode_flag(fields, "obfuscated");
    let color = decode_text(fields, "color");
    let insertion = decode_text(fields, "insertion");
    let font = decode_text(fields, "font");
    match (bold, italic, underlined, strikethrough, obfuscated, color, insertion, font) {
        (
            Some(bold),
            Some(italic),
            Some(underlined),
            Some(strikethrough),
            Some(obfuscated),
            Some(color),
            Some(insertion),
            Some(font),
        ) => Some(
            ComponentStyle::new().bold(bold).italic(italic).underlined(underlined).strikethrough(
                strikethrough,
            ).obfuscated(obfuscated).color(color).insertion(insertion).font(font),
        ),
        _ => None,
    }
}

/// The score that the record under `score` describes.
fn decode_score(fields: &Vec<Field>) -> (r: Option<ScoreComponent>)
    ensures
        match r {
            Some(score) => score_of(field_views(fields@)) == Some(score@),
            None => score_of(field_views(fields@)) is None,
        },
{
    match (find(fields, "name"), find(fields, "objective"), find(fields, "value")) {
        (Some(Value::Text(name)), Some(Value::Text(objective)), None) => Some(
            ScoreComponent::from_score(name.as_str(), objective.as_str()),
        ),
        (Some(Value::Text(name)), Some(Value::Text(objective)), Some(Value::Text(value))) => Some(
            ScoreComponent::from_score(name.as_str(), objective.as_str()).value(
                Some(value.as_str()),
            ),
        ),
        _ => None,
    }
}

/// The kind that a record describes, a translation still without its
/// arguments.
fn decode_head(fields: &Vec<Field>) -> (r: Option<ComponentType>)
    ensures
        match r {
            Some(kind) => head_of(field_views(fields@)) == Some(kind@),
            None => head_of(field_views(fields@)) is None,
        },
{
    let text = find(fields, "text");
    let translate = find(fields, "translate");
    let with = find(fields, "with");
    let score = find(fields, "score");
    let selector = find(fields, "selector");
    let keybind = find(fields, "keybind");
    let mut count: u8 = 0;
    if text.is_some() {
        count = count + 1;
    }
    if translate.is_some() && with.is_some() {
        count = count + 1;
    }
    if score.is_some() {
        count = count + 1;
    }
    if selector.is_some() {
        count = count + 1;
    }
    if keybind.is_some() {
        count = count + 1;
    }
    assert(count == kinds_shown(field_views(fields@)));
    if count != 1 {
        None
    } else if text.is_some() {
        match text {
            Some(Value::Text(s)) => Some(ComponentType::Text(TextComponent::from_text(s.as_str()))),
            _ => None,
        }
    } else if translate.is_some() && with.is_some() {
        match (translate, with) {
            (Some(Value::Text(key)), Some(Value::List(_))) => Some(
                ComponentType::Translation(TranslationComponent::from_key(key.as_str())),
            ),
            _ => None,
        }
    } else if score.is_some() {
        match score {
            Some(Value::Record(inner)) => match decode_score(inner) {
                Some(s) => Some(ComponentType::Score(s)),
                None => None,
            },
            _ => None,
        }
    } else if selector.is_some() {
        match selector {
            Some(Value::Text(s)) => Some(
                ComponentType::Selector(SelectorComponent::from_selector(s.as_str())),
            ),
            _ => None,
        }
    } else {
        match keybind {
            Some(Value::Text(s)) => Some(
                ComponentType::Keybind(KeybindComponent::from_keybind(s.as_str())),
            ),
            _ => None,
        }
    }
}

/// Reads a component from its serialized form.
///
/// Fails, with the outline of the offending record, where the value or one
/// of the arguments or siblings inside it is not a record, shows no kind or
/// more than one, or holds a field of the wrong form.
pub fn decode(v: &Value) -> (r: Result<ChatComponent, DecodeError>)
    ensures
        outcome(r) == decode_spec(v@),
    decreases v@,
{
    let fields = match v {
        Value::Record(fields) => fields,
        _ => {
            return Err(DecodeError { shape: v.shape() });
        },
    };
    let head = decode_head(fields);
    let style = decode_style(fields);
    let extra = match find(fields, "extra") {
        None => None,
        Some(Value::List(items)) => Some(items),
        Some(_) => {
            return Err(DecodeError { shape: v.shape() });
        },
    };
    let (head, style) = match (head, style) {
        (Some(head), Some(style)) => (head, style),
        _ => {
            return Err(DecodeError { shape: v.shape() });
        },
    };
    let kind = match head {
        ComponentType::Translation(t) => match find(fields, "with") {
            Some(Value::List(items)) => {
                proof {
                    lemma_lookup_is_member(field_views(fields@), "with"@, 0);
                }
                match decode_list(items) {
                    Ok(arguments) => ComponentType::Translation(t.args(arguments)),
                    Err(e) => {
                        return Err(e);
                    },
                }
            },
            _ => ComponentType::Translation(t),
        },
        other => other,
    };
    let siblings = match extra {
        Some(items) => {
            proof {
                lemma_lookup_is_member(field_views(fields@), "extra"@, 0);
            }
            match decode_list(items) {
                Ok(siblings) => siblings,
                Err(e) => {
                    return Err(e);
                },
            }
        },
        None => Vec::new(),
    };
    let mut c = ChatComponent::from_component(kind, style);
    proof {
        let read = decode_spec(v@);
        assert(read is Ok);
        assert(read->Ok_0.kind == kind@);
        assert(read->Ok_0.style == style@);
        assert(read->Ok_0.siblings == views(siblings@));
    }
    *c.get_siblings_mut() = siblings;
    Ok(c)
}

/// Reads each value of a list as a component, in order, up to the first
/// that fails.
pub fn decode_list(items: &Vec<Value>) -> (r: Result<Vec<ChatComponent>, DecodeError>)
    ensures
        outcomes(r) == decode_from(value_views(items@), 0),
    decreases value_views(items@),
{
    let mut out: Vec<ChatComponent> = Vec::new();
    let mut i: usize = 0;
    while i < items.len()
        invariant
            i <= items.len(),
            out.len() == i,
            decode_from(value_views(items@), 0) == match decode_from(
                value_views(items@),
                i as int,
            ) {
                Ok(rest) => Ok(views(out@) + rest),
                Err(e) => Err(e),
            },
        decreases items.len() - i,
    {
        match decode(&items[i]) {
            Ok(c) => {
                proof {
                    lemma_views_push(out@, c);
                    let rest = decode_from(value_views(items@), i + 1);
                    if rest is Ok {
                        assert(views(out@) + (seq![c@] + rest->Ok_0) =~= views(out@).push(c@)
                            + rest->Ok_0);
                    }
                }
                out.push(c);
            },
            Err(e) => {
                return Err(e);
            },
        }
        i = i + 1;
    }
    proof {
        assert(views(out@) + Seq::<ComponentView>::empty() =~= views(out@));
    }
    Ok(out)
}

} // verus!
