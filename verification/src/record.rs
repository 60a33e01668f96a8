//! The serialized form of a chat message: a tree of records, lists and
//! scalars, as a JSON-like format would carry it.
//!
//! A record keeps its fields in the order in which they were written. Where a
//! name occurs more than once, the first field with that name counts.
use crate::text::same_text;
use vstd::prelude::*;

verus! {

/// What a [`Value`] holds.
pub enum ValueView {
    Null,
    Bool(bool),
    Number(int),
    Text(Seq<char>),
    List(Seq<ValueView>),
    Record(Seq<FieldView>),
}

/// What a [`Field`] holds.
pub struct FieldView {
    pub name: Seq<char>,
    pub value: ValueView,
}

/// A serialized value.
#[derive(Debug, PartialEq, Eq)]
pub enum Value {
    Null,
    Bool(bool),
    Number(i64),
    Text(String),
    List(Vec<Value>),
    Record(Vec<Field>),
}

/// A named member of a record.
#[derive(Debug, PartialEq, Eq)]
pub struct Field {
    pub name: String,
    pub value: Value,
}

/// Which of the six forms a value has.
#[derive(Clone, Copy, Debug, PartialEq, Eq)]
pub enum ValueKind {
    Null,
    Bool,
    Number,
    Text,
    List,
    Record,
}

/// What a [`FieldShape`] holds.
pub struct FieldShapeView {
    pub name: Seq<char>,
    pub kind: ValueKind,
}

/// What a [`Shape`] holds.
pub struct ShapeView {
    pub kind: ValueKind,
    pub fields: Seq<FieldShapeView>,
}

/// The name of a field and the form of its value.
#[derive(Debug, PartialEq, Eq)]
pub struct FieldShape {
    pub name: String,
    pub kind: ValueKind,
}

/// The outline of a value: its form and, for a record, the names of its
/// fields with the forms of their values, in order. For any other value
/// `fields` is empty.
#[derive(Debug, PartialEq, Eq)]
pub struct Shape {
    pub kind: ValueKind,
    pub fields: Vec<FieldShape>,
}

/// The content of a value.
pub open spec fn value_view(v: Value) -> ValueView
    decreases v,
{
    match v {
        Value::Null => ValueView::Null,
        Value::Bool(b) => ValueView::Bool(b),
        Value::Number(n) => ValueView::Number(n as int),
        Value::Text(s) => ValueView::Text(s@),
        Value::List(items) => ValueView::List(value_views(items@)),
        Value::Record(fields) => ValueView::Record(field_views(fields@)),
    }
}

/// The contents of a sequence of values, in the same order.
pub open spec fn value_views(s: Seq<Value>) -> Seq<ValueView>
    decreases s,
{
    Seq::new(
        s.len(),
        |i: int|
            if 0 <= i < s.len() {
                value_view(s[i])
            } else {
                arbitrary()
            },
    )
}

/// The content of a field.
pub open spec fn field_view(f: Field) -> FieldView
    decreases f,
{
    FieldView { name: f.name@, value: value_view(f.value) }
}

/// The contents of a sequence of fields, in the same order.
pub open spec fn field_views(s: Seq<Field>) -> Seq<FieldView>
    decreases s,
{
    Seq::new(
        s.len(),
        |i: int|
            if 0 <= i < s.len() {
                field_view(s[i])
            } else {
                arbitrary()
            },
    )
}

impl View for Value {
    type V = ValueView;

    open spec fn view(&self) -> ValueView {
        value_view(*self)
    }
}

impl View for Field {
    type V = FieldView;

    open spec fn view(&self) -> FieldView {
        field_view(*self)
    }
}

impl View for FieldShape {
    type V = FieldShapeView;

    open spec fn view(&self) -> FieldShapeView {
        FieldShapeView { name: self.name@, kind: self.kind }
    }
}

impl View for Shape {
    type V = ShapeView;

    open spec fn view(&self) -> ShapeView {
        ShapeView { kind: self.kind, fields: self.fields@.map_values(|f: FieldShape| f@) }
    }
}

/// `field_views` of a sequence with one more element at its end.
pub proof fn lemma_field_views_push(s: Seq<Field>, f: Field)
    ensures
        field_views(s.push(f)) == field_views(s).push(f@),
{
    assert(field_views(s.push(f)) =~= field_views(s).push(f@));
}

/// The form of a value.
pub open spec fn kind_of(v: ValueView) -> ValueKind {
    match v {
        ValueView::Null => ValueKind::Null,
        ValueView::Bool(_) => ValueKind::Bool,
        ValueView::Number(_) => ValueKind::Number,
        ValueView::Text(_) => ValueKind::Text,
        ValueView::List(_) => ValueKind::List,
        ValueView::Record(_) => ValueKind::Record,
    }
}

/// The outline of a value.
pub open spec fn shape_of(v: ValueView) -> ShapeView {
    ShapeView {
        kind: kind_of(v),
        fields: match v {
            ValueView::Record(fields) => fields.map_values(
                |f: FieldView| FieldShapeView { name: f.name, kind: kind_of(f.value) },
            ),
            _ => Seq::empty(),
        },
    }
}

/// The value of the first field called `name` at or after position `start`.
pub open spec fn lookup_from(fields: Seq<FieldView>, name: Seq<char>, start: int) -> Option<
    ValueView,
>
    decreases fields.len() - start,
{
    if start < 0 || start >= fields.len() {
        None
    } else if fields[start].name == name {
        Some(fields[start].value)
    } else {
        lookup_from(fields, name, start + 1)
    }
}

/// The value of the first field called `name`, if the record has one.
pub open spec fn lookup(fields: Seq<FieldView>, name: Seq<char>) -> Option<ValueView> {
    lookup_from(fields, name, 0)
}

/// What a lookup finds is the value of one of the fields.
pub proof fn lemma_lookup_is_member(fields: Seq<FieldView>, name: Seq<char>, start: int)
    requires
        0 <= start,
        lookup_from(fields, name, start) is Some,
    ensures
        exists|i: int|
            start <= i < fields.len() && #[trigger] fields[i].name == name && fields[i].value
                == lookup_from(fields, name, start)->0,
        decreases_to!(fields => lookup_from(fields, name, start)->0),
    decreases fields.len() - start,
{
    if fields[start].name == name {
        assert(decreases_to!(fields => fields[start]));
    } else {
        lemma_lookup_is_member(fields, name, start + 1);
    }
}

/// From `start` on, a lookup finds nothing exactly where no field has the
/// name.
proof fn lemma_lookup_none_from(fields: Seq<FieldView>, name: Seq<char>, start: int)
    requires
        0 <= start,
    ensures
        lookup_from(fields, name, start) is None <==> forall|i: int|
            start <= i < fields.len() ==> (#[trigger] fields[i]).name != name,
    decreases fields.len() - start,
{
    if start < fields.len() {
        lemma_lookup_none_from(fields, name, start + 1);
        if fields[start].name != name {
            assert forall|i: int| start <= i < fields.len() && (forall|j: int|
                start + 1 <= j < fields.len() ==> (#[trigger] fields[j]).name != name) implies (
            #[trigger] fields[i]).name != name by {
                if i > start {
                    assert(fields[i].name != name);
                }
            }
        }
    }
}

/// A lookup finds nothing exactly where the record has no field of that
/// name.
pub proof fn lemma_lookup_none(fields: Seq<FieldView>, name: Seq<char>)
    ensures
        lookup(fields, name) is None <==> forall|i: int|
            0 <= i < fields.len() ==> (#[trigger] fields[i]).name != name,
{
    lemma_lookup_none_from(fields, name, 0);
}

/// Past the end of `a`, a lookup in `a + b` is a lookup in `b`.
proof fn lemma_lookup_past(a: Seq<FieldView>, b: Seq<FieldView>, name: Seq<char>, i: int)
    requires
        0 <= i <= b.len(),
    ensures
        lookup_from(a + b, name, a.len() + i) == lookup_from(b, name, i),
    decreases b.len() - i,
{
    if i < b.len() {
        assert((a + b)[a.len() + i] == b[i]);
        lemma_lookup_past(a, b, name, i + 1);
    }
}

/// Within `a`, a lookup in `a + b` finds what a lookup in `a` finds, and
/// goes on to `b` where `a` has no such field.
proof fn lemma_lookup_within(a: Seq<FieldView>, b: Seq<FieldView>, name: Seq<char>, start: int)
    requires
        0 <= start <= a.len(),
    ensures
        lookup_from(a + b, name, start) == match lookup_from(a, name, start) {
            Some(v) => Some(v),
            None => lookup(b, name),
        },
    decreases a.len() - start,
{
    if start < a.len() {
        assert((a + b)[start] == a[start]);
        lemma_lookup_within(a, b, name, start + 1);
    } else {
        lemma_lookup_past(a, b, name, 0);
    }
}

/// A lookup in two records written one after the other finds the field of
/// the first record, and that of the second where the first has none.
pub proof fn lemma_lookup_concat(a: Seq<FieldView>, b: Seq<FieldView>, name: Seq<char>)
    ensures
        lookup(a + b, name) == match lookup(a, name) {
            Some(v) => Some(v),
            None => lookup(b, name),
        },
{
    lemma_lookup_within(a, b, name, 0);
}

/// A deep copy of a list of values.
fn clone_values(list: &Vec<Value>) -> (r: Vec<Value>)
    ensures
        value_views(r@) == value_views(list@),
    decreases list,
{
    let mut copy: Vec<Value> = Vec::new();
    let mut i: usize = 0;
    while i < list.len()
        invariant
            i <= list.len(),
            copy.len() == i,
            forall|j: int| 0 <= j < i ==> copy@[j]@ == list@[j]@,
        decreases list.len() - i,
    {
        let item = list[i].clone();
        copy.push(item);
        i = i + 1;
    }
    proof {
        assert(value_views(copy@) =~= value_views(list@));
    }
    copy
}

/// A deep copy of a list of fields.
fn clone_fields(list: &Vec<Field>) -> (r: Vec<Field>)
    ensures
        field_views(r@) == field_views(list@),
    decreases list,
{
    let mut copy: Vec<Field> = Vec::new();
    let mut i: usize = 0;
    while i < list.len()
        invariant
            i <= list.len(),
            copy.len() == i,
            forall|j: int| 0 <= j < i ==> copy@[j]@ == list@[j]@,
        decreases list.len() - i,
    {
        let field = list[i].clone();
        copy.push(field);
        i = i + 1;
    }
    proof {
        assert(field_views(copy@) =~= field_views(list@));
    }
    copy
}

impl Clone for Value {
    /// A deep copy.
    fn clone(&self) -> (r: Self)
        ensures
            r@ == self@,
        decreases self,
    {
        match self {
            Value::Null => Value::Null,
            Value::Bool(b) => Value::Bool(*b),
            Value::Number(n) => Value::Number(*n),
            Value::Text(s) => Value::Text(s.clone()),
            Value::List(items) => Value::List(clone_values(items)),
            Value::Record(fields) => Value::Record(clone_fields(fields)),
        }
    }
}

impl Clone for Field {
    fn clone(&self) -> (r: Self)
        ensures
            r@ == self@,
        decreases self,
    {
        Field { name: self.name.clone(), value: self.value.clone() }
    }
}

impl Clone for FieldShape {
    fn clone(&self) -> (r: Self)
        ensures
            r@ == self@,
    {
        FieldShape { name: self.name.clone(), kind: self.kind }
    }
}

impl Clone for Shape {
    fn clone(&self) -> (r: Self)
        ensures
            r@ == self@,
    {
        let mut fields: Vec<FieldShape> = Vec::new();
        let mut i: usize = 0;
        while i < self.fields.len()
            invariant
                i <= self.fields.len(),
                fields.len() == i,
                forall|j: int| 0 <= j < i ==> fields@[j]@ == self.fields@[j]@,
            decreases self.fields.len() - i,
        {
            let field = self.fields[i].clone();
            fields.push(field);
            i = i + 1;
        }
        let r = Shape { kind: self.kind, fields };
        proof {
            assert(r@.fields =~= self@.fields);
        }
        r
    }
}

impl Field {
    /// A field with the given name and value.
    pub fn new(name: &str, value: Value) -> (r: Self)
        ensures
            r@ == (FieldView { name: name@, value: value@ }),
    {
        Field { name: name.to_owned(), value }
    }
}

impl Value {
    /// A text value.
    pub fn text(text: &str) -> (r: Self)
        ensures
            r@ == ValueView::Text(text@),
    {
        Value::Text(text.to_owned())
    }

    /// The form of this value.
    pub fn kind(&self) -> (r: ValueKind)
        ensures
            r == kind_of(self@),
    {
        match self {
            Value::Null => ValueKind::Null,
            Value::Bool(_) => ValueKind::Bool,
            Value::Number(_) => ValueKind::Number,
            Value::Text(_) => ValueKind::Text,
            Value::List(_) => ValueKind::List,
            Value::Record(_) => ValueKind::Record,
        }
    }

    /// The outline of this value.
    pub fn shape(&self) -> (r: Shape)
        ensures
            r@ == shape_of(self@),
    {
        let mut outline: Vec<FieldShape> = Vec::new();
        match self {
            Value::Record(fields) => {
                let mut i: usize = 0;
                while i < fields.len()
                    invariant
                        i <= fields.len(),
                        outline.len() == i,
                        forall|j: int|
                            0 <= j < i ==> outline@[j]@ == (FieldShapeView {
                                name: fields@[j]@.name,
                                kind: kind_of(fields@[j]@.value),
                            }),
                    decreases fields.len() - i,
                {
                    let field = &fields[i];
                    outline.push(FieldShape { name: field.name.clone(), kind: field.value.kind() });
                    i = i + 1;
                }
            },
            _ => {},
        }
        let r = Shape { kind: self.kind(), fields: outline };
        proof {
            assert(r@.fields =~= shape_of(self@).fields);
        }
        r
    }

    /// The value of the first field called `name`, if this is a record that
    /// has one.
    pub fn get(&self, name: &str) -> (r: Option<&Value>)
        ensures
            match r {
                Some(v) => self@ is Record && lookup(self@->Record_0, name@) == Some(v@),
                None => self@ is Record ==> lookup(self@->Record_0, name@) is None,
            },
    {
        match self {
            Value::Record(fields) => find(fields, name),
            _ => None,
        }
    }
}

/// The value of the first field called `name`, if there is one.
pub fn find<'a>(fields: &'a Vec<Field>, name: &str) -> (r: Option<&'a Value>)
    ensures
        match r {
            Some(v) => lookup(field_views(fields@), name@) == Some(v@),
            None => lookup(field_views(fields@), name@) is None,
        },
{
    let mut i: usize = 0;
    while i < fields.len()
        invariant
            i <= fields.len(),
            lookup(field_views(fields@), name@) == lookup_from(
                field_views(fields@),
                name@,
                i as int,
            ),
        decreases fields.len() - i,
    {
        if same_text(fields[i].name.as_str(), name) {
            return Some(&fields[i].value);
        }
        i = i + 1;
    }
    None
}

} // verus!
