//! What holds of the serialized form: which fields a component's record
//! has, and that reading a written component gives the component back.
use crate::codec::{
    decode_from, decode_spec, encode_all, encode_spec, extra_field, flag_field, head_of,
    kind_fields, one, score_fields, score_of, style_fields, style_of, text_field, with_arguments,
};
use crate::component::{ComponentView, KindView, ScoreView, TranslationView};
use crate::record::{
    lemma_lookup_concat, lemma_lookup_none, lookup, FieldView, ShapeView, ValueView,
};
use crate::style::StyleView;
use vstd::prelude::*;

verus! {

/// The field names differ from one another: each is told from the others by
/// its length and its first letter.
pub proof fn lemma_names()
    ensures
        "text"@.len() == 4 && "text"@[0] == 't',
        "translate"@.len() == 9 && "translate"@[0] == 't',
        "with"@.len() == 4 && "with"@[0] == 'w',
        "score"@.len() == 5 && "score"@[0] == 's',
        "selector"@.len() == 8 && "selector"@[0] == 's',
        "keybind"@.len() == 7 && "keybind"@[0] == 'k',
        "bold"@.len() == 4 && "bold"@[0] == 'b',
        "italic"@.len() == 6 && "italic"@[0] == 'i',
        "underlined"@.len() == 10 && "underlined"@[0] == 'u',
        "strikethrough"@.len() == 13 && "strikethrough"@[0] == 's',
        "obfuscated"@.len() == 10 && "obfuscated"@[0] == 'o',
        "color"@.len() == 5 && "color"@[0] == 'c',
        "insertion"@.len() == 9 && "insertion"@[0] == 'i',
        "font"@.len() == 4 && "font"@[0] == 'f',
        "extra"@.len() == 5 && "extra"@[0] == 'e',
        "name"@.len() == 4 && "name"@[0] == 'n',
        "objective"@.len() == 9 && "objective"@[0] == 'o',
        "value"@.len() == 5 && "value"@[0] == 'v',
{
    reveal_strlit("text");
    reveal_strlit("translate");
    reveal_strlit("with");
    reveal_strlit("score");
    reveal_strlit("selector");
    reveal_strlit("keybind");
    reveal_strlit("bold");
    reveal_strlit("italic");
    reveal_strlit("underlined");
    reveal_strlit("strikethrough");
    reveal_strlit("obfuscated");
    reveal_strlit("color");
    reveal_strlit("insertion");
    reveal_strlit("font");
    reveal_strlit("extra");
    reveal_strlit("name");
    reveal_strlit("objective");
    reveal_strlit("value");
}

/// The value under which a flag is written, if it is set.
pub open spec fn flag_value(flag: Option<bool>) -> Option<ValueView> {
    match flag {
        Some(b) => Some(ValueView::Bool(b)),
        None => None,
    }
}

/// The value under which a text is written, if it is set.
pub open spec fn text_value(text: Option<Seq<char>>) -> Option<ValueView> {
    match text {
        Some(s) => Some(ValueView::Text(s)),
        None => None,
    }
}

/// The value that the record of a style holds under `name`.
pub open spec fn style_field(s: StyleView, name: Seq<char>) -> Option<ValueView> {
    if name == "bold"@ {
        flag_value(s.bold)
    } else if name == "italic"@ {
        flag_value(s.italic)
    } else if name == "underlined"@ {
        flag_value(s.underlined)
    } else if name == "strikethrough"@ {
        flag_value(s.strikethrough)
    } else if name == "obfuscated"@ {
        flag_value(s.obfuscated)
    } else if name == "color"@ {
        text_value(s.color)
    } else if name == "insertion"@ {
        text_value(s.insertion)
    } else if name == "font"@ {
        text_value(s.font)
    } else {
        None
    }
}

/// The value that the record of a kind holds under `name`.
pub open spec fn kind_field(k: KindView, name: Seq<char>) -> Option<ValueView> {
    match k {
        KindView::Text(t) => if name == "text"@ {
            Some(ValueView::Text(t.text))
        } else {
            None
        },
        KindView::Translation(t) => if name == "translate"@ {
            Some(ValueView::Text(t.key))
        } else if name == "with"@ {
            Some(ValueView::List(encode_all(t.with)))
        } else {
            None
        },
        KindView::Score(s) => if name == "score"@ {
            Some(ValueView::Record(score_fields(s)))
        } else {
            None
        },
        KindView::Selector(s) => if name == "selector"@ {
            Some(ValueView::Text(s.selector))
        } else {
            None
        },
        KindView::Keybind(k) => if name == "keybind"@ {
            Some(ValueView::Text(k.keybind))
        } else {
            None
        },
    }
}

/// The value that the record of a component holds under `name`: that of
/// its kind, else that of its style, else its siblings under `extra` where it
/// has any.
pub open spec fn component_field(c: ComponentView, name: Seq<char>) -> Option<ValueView> {
    if kind_field(c.kind, name) is Some {
        kind_field(c.kind, name)
    } else if style_field(c.style, name) is Some {
        style_field(c.style, name)
    } else if name == "extra"@ && c.siblings.len() > 0 {
        Some(ValueView::List(encode_all(c.siblings)))
    } else {
        None
    }
}

/// A lookup in a record of one field.
proof fn lemma_lookup_one(field: Seq<char>, value: ValueView, name: Seq<char>)
    ensures
        lookup(one(field, value), name) == if field == name {
            Some(value)
        } else {
            None
        },
        lookup(Seq::<FieldView>::empty(), name) is None,
{
    reveal_with_fuel(crate::record::lookup_from, 3);
}

/// A lookup in the field of an optional flag.
proof fn lemma_lookup_flag(field: Seq<char>, flag: Option<bool>, name: Seq<char>)
    ensures
        lookup(flag_field(field, flag), name) == if field == name {
            flag_value(flag)
        } else {
            None
        },
{
    lemma_lookup_one(field, ValueView::Bool(flag.unwrap_or(false)), name);
}

/// A lookup in the field of an optional text.
proof fn lemma_lookup_text(field: Seq<char>, text: Option<Seq<char>>, name: Seq<char>)
    ensures
        lookup(text_field(field, text), name) == if field == name {
            text_value(text)
        } else {
            None
        },
{
    lemma_lookup_one(field, ValueView::Text(text.unwrap_or(Seq::empty())), name);
}

/// The record of a style holds each attribute that is set under its own
/// name, and nothing else.
pub proof fn lemma_style_field(s: StyleView, name: Seq<char>)
    ensures
        lookup(style_fields(s), name) == style_field(s, name),
{
    lemma_names();
    let f1 = flag_field("bold"@, s.bold);
    let f2 = flag_field("italic"@, s.italic);
    let f3 = flag_field("underlined"@, s.underlined);
    let f4 = flag_field("strikethrough"@, s.strikethrough);
    let f5 = flag_field("obfuscated"@, s.obfuscated);
    let f6 = text_field("color"@, s.color);
    let f7 = text_field("insertion"@, s.insertion);
    let f8 = text_field("font"@, s.font);
    lemma_lookup_flag("bold"@, s.bold, name);
    lemma_lookup_flag("italic"@, s.italic, name);
    lemma_lookup_flag("underlined"@, s.underlined, name);
    lemma_lookup_flag("strikethrough"@, s.strikethrough, name);
    lemma_lookup_flag("obfuscated"@, s.obfuscated, name);
    lemma_lookup_text("color"@, s.color, name);
    lemma_lookup_text("insertion"@, s.insertion, name);
    lemma_lookup_text("font"@, s.font, name);
    lemma_lookup_concat(f1, f2, name);
    lemma_lookup_concat(f1 + f2, f3, name);
    lemma_lookup_concat(f1 + f2 + f3, f4, name);
    lemma_lookup_concat(f1 + f2 + f3 + f4, f5, name);
    lemma_lookup_concat(f1 + f2 + f3 + f4 + f5, f6, name);
    lemma_lookup_concat(f1 + f2 + f3 + f4 + f5 + f6, f7, name);
    lemma_lookup_concat(f1 + f2 + f3 + f4 + f5 + f6 + f7, f8, name);
}

/// The record of a kind holds the fields of that kind, and nothing else.
pub proof fn lemma_kind_field(k: KindView, name: Seq<char>)
    ensures
        lookup(kind_fields(k), name) == kind_field(k, name),
{
    lemma_names();
    match k {
        KindView::Text(t) => {
            lemma_lookup_one("text"@, ValueView::Text(t.text), name);
        },
        KindView::Translation(t) => {
            lemma_lookup_one("translate"@, ValueView::Text(t.key), name);
            lemma_lookup_one("with"@, ValueView::List(encode_all(t.with)), name);
            lemma_lookup_concat(
                one("translate"@, ValueView::Text(t.key)),
                one("with"@, ValueView::List(encode_all(t.with))),
                name,
            );
        },
        KindView::Score(s) => {
            lemma_lookup_one("score"@, ValueView::Record(score_fields(s)), name);
        },
        KindView::Selector(s) => {
            lemma_lookup_one("selector"@, ValueView::Text(s.selector), name);
        },
        KindView::Keybind(b) => {
            lemma_lookup_one("keybind"@, ValueView::Text(b.keybind), name);
        },
    }
}

/// The record of a component holds the fields of its kind, the attributes of
/// its style that are set, and its siblings under `extra` where it has any;
/// it holds no other field, and no `extra` where there is no sibling.
pub proof fn lemma_component_field(c: ComponentView, name: Seq<char>)
    ensures
        encode_spec(c) is Record,
        lookup(encode_spec(c)->Record_0, name) == component_field(c, name),
{
    lemma_names();
    let k = kind_fields(c.kind);
    let s = style_fields(c.style);
    let e = extra_field(encode_all(c.siblings));
    lemma_kind_field(c.kind, name);
    lemma_style_field(c.style, name);
    lemma_lookup_one("extra"@, ValueView::List(encode_all(c.siblings)), name);
    lemma_lookup_concat(k, s, name);
    lemma_lookup_concat(k + s, e, name);
}

/// The value that the record of a score holds under `name`.
pub open spec fn score_field(s: ScoreView, name: Seq<char>) -> Option<ValueView> {
    if name == "name"@ {
        Some(ValueView::Text(s.name))
    } else if name == "objective"@ {
        Some(ValueView::Text(s.objective))
    } else if name == "value"@ {
        text_value(s.value)
    } else {
        None
    }
}

/// The record of a score holds the name, the objective and, where a value
/// is set, the value; it holds no `value` where none is set.
pub proof fn lemma_score_field(s: ScoreView, name: Seq<char>)
    ensures
        lookup(score_fields(s), name) == score_field(s, name),
{
    lemma_names();
    let a = one("name"@, ValueView::Text(s.name));
    let b = one("objective"@, ValueView::Text(s.objective));
    let c = text_field("value"@, s.value);
    lemma_lookup_one("name"@, ValueView::Text(s.name), name);
    lemma_lookup_one("objective"@, ValueView::Text(s.objective), name);
    lemma_lookup_text("value"@, s.value, name);
    lemma_lookup_concat(a, b, name);
    lemma_lookup_concat(a + b, c, name);
}

/// Reading the record of a score gives the score back.
pub proof fn lemma_score_round_trip(s: ScoreView)
    ensures
        score_of(score_fields(s)) == Some(s),
{
    lemma_names();
    lemma_score_field(s, "name"@);
    lemma_score_field(s, "objective"@);
    lemma_score_field(s, "value"@);
}

/// A score that shows the live value is written without any `value` field;
/// one with a fixed value has it under `value`. Setting a value and clearing
/// it again gives the record of the score as it was without one.
pub proof fn lemma_score_value(s: ScoreView, v: Seq<char>)
    ensures
        s.value is None ==> forall|i: int|
            0 <= i < score_fields(s).len() ==> (#[trigger] score_fields(s)[i]).name != "value"@,
        s.value is Some ==> lookup(score_fields(s), "value"@) == Some(
            ValueView::Text(s.value->0),
        ),
        score_fields(ScoreView { value: None, ..(ScoreView { value: Some(v), ..s }) })
            == score_fields(ScoreView { value: None, ..s }),
{
    lemma_names();
    lemma_score_field(s, "value"@);
    lemma_lookup_none(score_fields(s), "value"@);
}

/// A component without siblings is written without any `extra` field. One
/// with siblings has them under `extra`: as many values as there are
/// siblings, each the record of the sibling at the same place.
pub proof fn lemma_extra(c: ComponentView)
    ensures
        encode_spec(c) is Record,
        c.siblings.len() == 0 ==> forall|i: int|
            0 <= i < encode_spec(c)->Record_0.len() ==> (#[trigger] encode_spec(
                c,
            )->Record_0[i]).name != "extra"@,
        c.siblings.len() > 0 ==> lookup(encode_spec(c)->Record_0, "extra"@) == Some(
            ValueView::List(encode_all(c.siblings)),
        ),
        encode_all(c.siblings).len() == c.siblings.len(),
        forall|i: int|
            0 <= i < c.siblings.len() ==> #[trigger] encode_all(c.siblings)[i] == encode_spec(
                c.siblings[i],
            ),
{
    lemma_names();
    lemma_component_field(c, "extra"@);
    lemma_lookup_none(encode_spec(c)->Record_0, "extra"@);
}

/// The record of a component shows the kind of the component and no other.
proof fn lemma_head_round_trip(c: ComponentView)
    ensures
        head_of(encode_spec(c)->Record_0) == Some(with_arguments(c.kind, Seq::empty())),
{
    lemma_names();
    lemma_component_field(c, "text"@);
    lemma_component_field(c, "translate"@);
    lemma_component_field(c, "with"@);
    lemma_component_field(c, "score"@);
    lemma_component_field(c, "selector"@);
    lemma_component_field(c, "keybind"@);
    if let KindView::Score(s) = c.kind {
        lemma_score_round_trip(s);
    }
}

/// Reading the style out of the record of a component gives its style.
proof fn lemma_style_round_trip(c: ComponentView)
    ensures
        style_of(encode_spec(c)->Record_0) == Some(c.style),
{
    lemma_names();
    lemma_component_field(c, "bold"@);
    lemma_component_field(c, "italic"@);
    lemma_component_field(c, "underlined"@);
    lemma_component_field(c, "strikethrough"@);
    lemma_component_field(c, "obfuscated"@);
    lemma_component_field(c, "color"@);
    lemma_component_field(c, "insertion"@);
    lemma_component_field(c, "font"@);
}

/// Reading what was written gives the component back: for every component,
/// of whatever kind, with any number of arguments and siblings.
pub proof fn lemma_round_trip(c: ComponentView)
    ensures
        decode_spec(encode_spec(c)) == Ok::<ComponentView, ShapeView>(c),
    decreases c, 0int,
{
    lemma_names();
    lemma_head_round_trip(c);
    lemma_style_round_trip(c);
    lemma_component_field(c, "with"@);
    lemma_component_field(c, "extra"@);
    if let KindView::Translation(t) = c.kind {
        lemma_round_trip_from(t.with, 0);
        assert(t.with.subrange(0, t.with.len() as int) =~= t.with);
    }
    if c.siblings.len() > 0 {
        lemma_round_trip_from(c.siblings, 0);
        assert(c.siblings.subrange(0, c.siblings.len() as int) =~= c.siblings);
    } else {
        assert(c.siblings =~= Seq::empty());
    }
}

/// Reading the written forms of a sequence of components from `start` on
/// gives those components back, in order.
pub proof fn lemma_round_trip_from(cs: Seq<ComponentView>, start: int)
    requires
        0 <= start <= cs.len(),
    ensures
        decode_from(encode_all(cs), start) == Ok::<Seq<ComponentView>, ShapeView>(
            cs.subrange(start, cs.len() as int),
        ),
    decreases cs, cs.len() - start,
{
    if start < cs.len() {
        lemma_round_trip(cs[start]);
        lemma_round_trip_from(cs, start + 1);
        assert(seq![cs[start]] + cs.subrange(start + 1, cs.len() as int) =~= cs.subrange(
            start,
            cs.len() as int,
        ));
    } else {
        assert(cs.subrange(start, cs.len() as int) =~= Seq::empty());
    }
}

/// Setting a style attribute on a component is setting it on the style of
/// the component and putting that style back: the two ways give the same
/// component, and touch neither the kind nor the siblings.
pub proof fn lemma_style_forwarding(
    c: ComponentView,
    flag: Option<bool>,
    text: Option<Seq<char>>,
)
    ensures
        c.with_bold(flag) == c.with_style(c.style.with_bold(flag)),
        c.with_italic(flag) == c.with_style(c.style.with_italic(flag)),
        c.with_underlined(flag) == c.with_style(c.style.with_underlined(flag)),
        c.with_strikethrough(flag) == c.with_style(c.style.with_strikethrough(flag)),
        c.with_obfuscated(flag) == c.with_style(c.style.with_obfuscated(flag)),
        c.with_color(text) == c.with_style(c.style.with_color(text)),
        c.with_insertion(text) == c.with_style(c.style.with_insertion(text)),
        c.with_font(text) == c.with_style(c.style.with_font(text)),
{
}

/// Setting the fields of a score one after the other, by the setters or in
/// a chain of builders, gives the score with those fields: each step
/// replaces its own field and keeps the others, so the order of the steps
/// does not matter.
pub proof fn lemma_score_chain(
    s: ScoreView,
    name: Seq<char>,
    objective: Seq<char>,
    value: Option<Seq<char>>,
)
    ensures
        s.with_name(name).with_objective(objective).with_value(value) == (ScoreView {
            name,
            objective,
            value,
        }),
        s.with_name(name).with_objective(objective) == s.with_objective(objective).with_name(name),
        s.with_name(name).with_value(value) == s.with_value(value).with_name(name),
        s.with_objective(objective).with_value(value) == s.with_value(value).with_objective(
            objective,
        ),
{
}

/// Setting the key of a translation keeps its arguments, and adding an
/// argument keeps its key and the arguments before, whichever comes first.
pub proof fn lemma_translation_chain(t: TranslationView, key: Seq<char>, argument: ComponentView)
    ensures
        t.with_key(key).with_arg(argument) == (TranslationView {
            key,
            with: t.with.push(argument),
        }),
        t.with_key(key).with_arg(argument) == t.with_arg(argument).with_key(key),
{
}

} // verus!
