//! A structured value: the input of the flattening serializer.

use vstd::prelude::*;

verus! {

/// A structured value: records, ordered sequences, optional values,
/// enumeration tags and primitive leaves.
#[derive(Debug)]
pub enum Value {
    /// The unit value; it contributes nothing when flattened.
    Unit,
    /// A boolean leaf.
    Bool(bool),
    /// A signed integer leaf.
    Int(i64),
    /// An unsigned integer leaf.
    UInt(u64),
    /// A single-character leaf.
    Char(char),
    /// A text leaf; also used for numbers that the caller has rendered.
    Str(String),
    /// A unit variant of an enumeration, by its tag name.
    UnitVariant(String),
    /// An absent optional value.
    Absent,
    /// A present optional value.
    Present(Box<Value>),
    /// An ordered sequence.
    Sequence(Vec<Value>),
    /// A record: named fields in declaration order.
    Record(Vec<Field>),
    /// A byte array; flattening rejects it.
    Bytes(Vec<u8>),
    /// A map; flattening rejects it.
    Mapping(Vec<(Value, Value)>),
}

/// One named field of a record.
#[derive(Debug)]
pub struct Field {
    pub name: String,
    pub value: Value,
}

/// The mathematical model of a [`Value`].
pub enum ValueView {
    Unit,
    Bool(bool),
    Int(int),
    Char(char),
    Str(Seq<char>),
    UnitVariant(Seq<char>),
    Absent,
    Present(Box<ValueView>),
    Sequence(Seq<ValueView>),
    Record(Seq<FieldView>),
    Bytes,
    Mapping,
}

/// The mathematical model of a [`Field`].
pub struct FieldView {
    pub name: Seq<char>,
    pub value: ValueView,
}

/// The models of a sequence of values, element by element.
pub open spec fn values_view(items: Seq<Value>) -> Seq<ValueView>
    decreases items, 0nat,
{
    if items.len() == 0 {
        Seq::empty()
    } else {
        values_view(items.drop_last()).push(value_view(items.last()))
    }
}

/// The models of a sequence of fields, element by element.
pub open spec fn fields_view(fields: Seq<Field>) -> Seq<FieldView>
    decreases fields, 0nat,
{
    if fields.len() == 0 {
        Seq::empty()
    } else {
        fields_view(fields.drop_last()).push(
            FieldView { name: fields.last().name@, value: value_view(fields.last().value) },
        )
    }
}

/// The model of a value.
pub open spec fn value_view(v: Value) -> ValueView
    decreases v, 1nat,
{
    match v {
        Value::Unit => ValueView::Unit,
        Value::Bool(b) => ValueView::Bool(b),
        Value::Int(i) => ValueView::Int(i as int),
        Value::UInt(u) => ValueView::Int(u as int),
        Value::Char(c) => ValueView::Char(c),
        Value::Str(s) => ValueView::Str(s@),
        Value::UnitVariant(s) => ValueView::UnitVariant(s@),
        Value::Absent => ValueView::Absent,
        Value::Present(b) => ValueView::Present(Box::new(value_view(*b))),
        Value::Sequence(items) => ValueView::Sequence(values_view(items@)),
        Value::Record(fields) => ValueView::Record(fields_view(fields@)),
        Value::Bytes(_) => ValueView::Bytes,
        Value::Mapping(_) => ValueView::Mapping,
    }
}

impl View for Value {
    type V = ValueView;

    open spec fn view(&self) -> ValueView {
        value_view(*self)
    }
}

impl View for Field {
    type V = FieldView;

    open spec fn view(&self) -> FieldView {
        FieldView { name: self.name@, value: self.value@ }
    }
}

/// `values_view` keeps the length and models each element in place.
pub proof fn lemma_values_view(items: Seq<Value>)
    ensures
        values_view(items).len() == items.len(),
        forall|i: int| 0 <= i < items.len() ==> #[trigger] values_view(items)[i] == items[i]@,
    decreases items.len(),
{
    if items.len() > 0 {
        lemma_values_view(items.drop_last());
    }
}

/// `fields_view` keeps the length and models each field in place.
pub proof fn lemma_fields_view(fields: Seq<Field>)
    ensures
        fields_view(fields).len() == fields.len(),
        forall|i: int| 0 <= i < fields.len() ==> #[trigger] fields_view(fields)[i] == fields[i]@,
    decreases fields.len(),
{
    if fields.len() > 0 {
        lemma_fields_view(fields.drop_last());
    }
}

/// Whether the first `n` elements of a sequence hold no byte array and
/// no map, however deep.
pub open spec fn supported_items(items: Seq<ValueView>, n: nat) -> bool
    decreases items, n,
{
    n == 0 || n > items.len() || (supported_items(items, (n - 1) as nat) && supported(
        items[n - 1],
    ))
}

/// Whether a value holds no byte array and no map, however deep.
pub open spec fn supported(v: ValueView) -> bool
    decreases v, 0nat,
{
    match v {
        ValueView::Present(inner) => supported(*inner),
        ValueView::Sequence(items) => supported_items(items, items.len()),
        ValueView::Record(fields) => forall|i: int|
            0 <= i < fields.len() ==> supported((#[trigger] fields[i]).value),
        ValueView::Bytes => false,
        ValueView::Mapping => false,
        _ => true,
    }
}

/// The first `n` elements of a sequence hold no byte array and no map
/// where each of them holds none.
pub proof fn lemma_supported_each(items: Seq<ValueView>, n: nat)
    requires
        n <= items.len(),
        forall|i: int| 0 <= i < n ==> supported(#[trigger] items[i]),
    ensures
        supported_items(items, n),
    decreases n,
{
    if n > 0 {
        lemma_supported_each(items, (n - 1) as nat);
    }
}

/// A type that has a structured value: what a field of this type
/// contributes to the record that holds it.
pub trait ToValue {
    /// The model of the structured value.
    spec fn value_view(&self) -> ValueView;

    /// The structured value holds no byte array and no map.
    proof fn lemma_supported(&self)
        ensures
            supported(self.value_view()),
    ;

    /// The structured value.
    fn to_value(&self) -> (v: Value)
        ensures
            v@ == self.value_view(),
    ;
}

impl ToValue for bool {
    open spec fn value_view(&self) -> ValueView {
        ValueView::Bool(*self)
    }

    proof fn lemma_supported(&self) {
    }

    fn to_value(&self) -> (v: Value) {
        Value::Bool(*self)
    }
}

impl ToValue for i64 {
    open spec fn value_view(&self) -> ValueView {
        ValueView::Int(*self as int)
    }

    proof fn lemma_supported(&self) {
    }

    fn to_value(&self) -> (v: Value) {
        Value::Int(*self)
    }
}

impl ToValue for i32 {
    open spec fn value_view(&self) -> ValueView {
        ValueView::Int(*self as int)
    }

    proof fn lemma_supported(&self) {
    }

    fn to_value(&self) -> (v: Value) {
        Value::Int(*self as i64)
    }
}

impl ToValue for String {
    open spec fn value_view(&self) -> ValueView {
        ValueView::Str(self@)
    }

    proof fn lemma_supported(&self) {
    }

    fn to_value(&self) -> (v: Value) {
        Value::Str(self.clone())
    }
}

impl<T: ToValue> ToValue for Option<T> {
    open spec fn value_view(&self) -> ValueView {
        match self {
            Some(inner) => ValueView::Present(Box::new(inner.value_view())),
            None => ValueView::Absent,
        }
    }

    proof fn lemma_supported(&self) {
        match self {
            Some(inner) => {
                inner.lemma_supported();
            },
            None => {},
        }
    }

    fn to_value(&self) -> (v: Value) {
        match self {
            Some(inner) => Value::Present(Box::new(inner.to_value())),
            None => Value::Absent,
        }
    }
}

impl<T: ToValue> ToValue for Vec<T> {
    open spec fn value_view(&self) -> ValueView {
        ValueView::Sequence(self@.map_values(|item: T| item.value_view()))
    }

    proof fn lemma_supported(&self) {
        let items = self@.map_values(|item: T| item.value_view());
        assert forall|i: int| 0 <= i < items.len() implies supported(#[trigger] items[i]) by {
            self@[i].lemma_supported();
        }
        lemma_supported_each(items, items.len());
    }

    fn to_value(&self) -> (v: Value) {
        let mut items: Vec<Value> = Vec::new();
        let mut i: usize = 0;
        while i < self.len()
            invariant
                i <= self.len(),
                values_view(items@) == self@.take(i as int).map_values(|item: T| item.value_view()),
            decreases self.len() - i,
        {
            let item = self[i].to_value();
            proof {
                let next = items@.push(item);
                assert(next.drop_last() =~= items@);
                assert(values_view(next) =~= self@.take(i + 1).map_values(
                    |item: T| item.value_view(),
                ));
            }
            items.push(item);
            i += 1;
        }
        assert(self@.take(i as int) =~= self@);
        Value::Sequence(items)
    }
}

/// A unit variant with the tag `tag`.
pub fn unit_variant(tag: &str) -> (v: Value)
    ensures
        v@ == ValueView::UnitVariant(tag@),
{
    Value::UnitVariant(tag.to_owned())
}

/// Appends the field `name` to the fields of a record.
pub fn record_push(fields: &mut Vec<Field>, name: &str, value: Value)
    ensures
        final(fields)@.len() == old(fields)@.len() + 1,
        fields_view(final(fields)@) == fields_view(old(fields)@).push(
            FieldView { name: name@, value: value@ },
        ),
{
    let field = Field { name: name.to_owned(), value };
    proof {
        assert(fields@.push(field).drop_last() =~= fields@);
    }
    fields.push(field);
}


} // verus!
