//! The flattening serializer: walks a structured value and emits
//! `KEY=VALUE` pairs whose keys are the upper-case paths of the leaves,
//! joined by a double underscore.

use crate::crds::value::{
    fields_view, lemma_fields_view, lemma_values_view, supported, supported_items, values_view,
    Field, FieldView, Value, ValueView,
};
use crate::text::{
    bool_text, bool_to_string, char_to_string, concat, decimal_int, decimal_nat, i64_to_string,
    str_eq, str_uppercase, to_uppercase, u64_to_string,
};
use vstd::prelude::*;
use vstd::string::StringExecFns;

verus! {

/// One frame of the path to the value being serialized.
#[derive(Debug, Clone)]
pub enum ViperEnvironmentSerializerStackElement {
    /// A record field, already in upper case.
    String(String),
    /// A position in a sequence.
    Index(usize),
}

/// The model of a path frame.
pub enum Segment {
    Name(Seq<char>),
    Index(nat),
}

impl View for ViperEnvironmentSerializerStackElement {
    type V = Segment;

    open spec fn view(&self) -> Segment {
        match self {
            ViperEnvironmentSerializerStackElement::String(s) => Segment::Name(s@),
            ViperEnvironmentSerializerStackElement::Index(i) => Segment::Index(*i as nat),
        }
    }
}

impl From<String> for ViperEnvironmentSerializerStackElement {
    fn from(s: String) -> (r: Self) {
        Self::String(s)
    }
}

impl vstd::std_specs::convert::FromSpecImpl<String> for ViperEnvironmentSerializerStackElement {
    open spec fn obeys_from_spec() -> bool {
        true
    }

    open spec fn from_spec(s: String) -> Self {
        Self::String(s)
    }
}

impl From<usize> for ViperEnvironmentSerializerStackElement {
    fn from(s: usize) -> (r: Self) {
        Self::Index(s)
    }
}

impl vstd::std_specs::convert::FromSpecImpl<usize> for ViperEnvironmentSerializerStackElement {
    open spec fn obeys_from_spec() -> bool {
        true
    }

    open spec fn from_spec(s: usize) -> Self {
        Self::Index(s)
    }
}

/// Why serialization failed.
#[derive(Debug)]
pub enum Error {
    /// A byte array was met.
    ByteArrayNotSupported,
    /// The frame popped from the path is not the one that was pushed: the
    /// expected frame, then the path that was found, innermost frame last
    /// (`None` where the path was empty).
    InvalidStack(
        ViperEnvironmentSerializerStackElement,
        Vec<Option<ViperEnvironmentSerializerStackElement>>,
    ),
    /// Any other failure, with its message.
    SerializeError(String),
}

/// The model of an [`Error`].
pub enum ErrorView {
    ByteArrayNotSupported,
    InvalidStack(Segment, Seq<Option<Segment>>),
    SerializeError(Seq<char>),
}

/// The model of an optional path frame.
pub open spec fn optional_segment(e: Option<ViperEnvironmentSerializerStackElement>) -> Option<
    Segment,
> {
    match e {
        Some(x) => Some(x@),
        None => None,
    }
}

impl View for Error {
    type V = ErrorView;

    open spec fn view(&self) -> ErrorView {
        match self {
            Error::ByteArrayNotSupported => ErrorView::ByteArrayNotSupported,
            Error::InvalidStack(expected, found) => ErrorView::InvalidStack(
                expected@,
                found@.map_values(|e: Option<ViperEnvironmentSerializerStackElement>|
                    optional_segment(e)),
            ),
            Error::SerializeError(m) => ErrorView::SerializeError(m@),
        }
    }
}

/// One emitted pair.
#[derive(Debug, Clone)]
pub struct EnvPair {
    pub key: String,
    pub value: String,
}

/// The model of an emitted pair.
pub struct EnvPairView {
    pub key: Seq<char>,
    pub value: Seq<char>,
}

impl View for EnvPair {
    type V = EnvPairView;

    open spec fn view(&self) -> EnvPairView {
        EnvPairView { key: self.key@, value: self.value@ }
    }
}

/// The text of one path frame: the name, or the index in decimal.
pub open spec fn segment_text(s: Segment) -> Seq<char> {
    match s {
        Segment::Name(n) => n,
        Segment::Index(i) => decimal_nat(i),
    }
}

/// The frames of a path joined by `__`.
pub open spec fn join_segments(path: Seq<Segment>) -> Seq<char>
    decreases path.len(),
{
    if path.len() == 0 {
        Seq::empty()
    } else if path.len() == 1 {
        segment_text(path[0])
    } else {
        join_segments(path.drop_last()) + "__"@ + segment_text(path.last())
    }
}

/// The key of the value at `path`: the joined path, after the prefix and
/// `__` where there is a prefix.
pub open spec fn key_of(prefix: Option<Seq<char>>, path: Seq<Segment>) -> Seq<char> {
    match prefix {
        Some(p) => p + "__"@ + join_segments(path),
        None => join_segments(path),
    }
}

/// The line `KEY=VALUE` of a pair.
pub open spec fn pair_line(p: EnvPairView) -> Seq<char> {
    p.key + "="@ + p.value
}

/// The kinds of value that cannot be flattened.
pub enum Unsupported {
    ByteArray,
    Mapping,
}

/// The message of the error that a map is answered with.
pub open spec fn mapping_message() -> Seq<char> {
    "Map is not supported"@
}

/// The error that an unsupported kind is answered with.
pub open spec fn unsupported_error(kind: Unsupported) -> ErrorView {
    match kind {
        Unsupported::ByteArray => ErrorView::ByteArrayNotSupported,
        Unsupported::Mapping => ErrorView::SerializeError(mapping_message()),
    }
}

/// What flattening a value yields: the pairs emitted, in order, and, where
/// an unsupported kind was met, the path at which the walk stopped.
pub struct Walk {
    pub pairs: Seq<EnvPairView>,
    pub failure: Option<(Seq<Segment>, Unsupported)>,
}

/// The walk that emits nothing.
pub open spec fn walk_nothing() -> Walk {
    Walk { pairs: Seq::empty(), failure: None }
}

/// The walk of a leaf: one pair under the key of `path`.
pub open spec fn walk_leaf(prefix: Option<Seq<char>>, path: Seq<Segment>, text: Seq<char>) -> Walk {
    Walk { pairs: seq![EnvPairView { key: key_of(prefix, path), value: text }], failure: None }
}

/// A walk followed by another, which only happens where the first did not
/// fail.
pub open spec fn walk_then(first: Walk, second: Walk) -> Walk {
    if first.failure is Some {
        first
    } else {
        Walk { pairs: first.pairs + second.pairs, failure: second.failure }
    }
}

/// The walk of the first `n` elements of a sequence found at `path`.
pub open spec fn walk_items(
    items: Seq<ValueView>,
    n: nat,
    prefix: Option<Seq<char>>,
    path: Seq<Segment>,
) -> Walk
    decreases items, n,
{
    if n == 0 || n > items.len() {
        walk_nothing()
    } else {
        walk_then(
            walk_items(items, (n - 1) as nat, prefix, path),
            walk(items[n - 1], prefix, path.push(Segment::Index((n - 1) as nat))),
        )
    }
}

/// The walk of the first `n` fields of a record found at `path`.
pub open spec fn walk_fields(
    fields: Seq<FieldView>,
    n: nat,
    prefix: Option<Seq<char>>,
    path: Seq<Segment>,
) -> Walk
    decreases fields, n,
{
    if n == 0 || n > fields.len() {
        walk_nothing()
    } else {
        walk_then(
            walk_fields(fields, (n - 1) as nat, prefix, path),
            walk(
                fields[n - 1].value,
                prefix,
                path.push(Segment::Name(str_uppercase(fields[n - 1].name))),
            ),
        )
    }
}

/// The walk of a value found at `path`.
pub open spec fn walk(v: ValueView, prefix: Option<Seq<char>>, path: Seq<Segment>) -> Walk
    decreases v, 0nat,
{
    match v {
        ValueView::Unit => walk_nothing(),
        ValueView::Absent => walk_nothing(),
        ValueView::Bool(b) => walk_leaf(prefix, path, bool_text(b)),
        ValueView::Int(i) => walk_leaf(prefix, path, decimal_int(i)),
        ValueView::Char(c) => walk_leaf(prefix, path, seq![c]),
        ValueView::Str(s) => walk_leaf(prefix, path, s),
        ValueView::UnitVariant(tag) => walk_leaf(prefix, path, tag),
        ValueView::Present(inner) => walk(*inner, prefix, path),
        ValueView::Sequence(items) => walk_items(items, items.len(), prefix, path),
        ValueView::Record(fields) => walk_fields(fields, fields.len(), prefix, path),
        ValueView::Bytes => Walk { pairs: Seq::empty(), failure: Some((path, Unsupported::ByteArray)) },
        ValueView::Mapping => Walk { pairs: Seq::empty(), failure: Some((path, Unsupported::Mapping)) },
    }
}

impl ViperEnvironmentSerializerStackElement {
    /// A copy of the frame.
    pub fn duplicate(&self) -> (r: Self)
        ensures
            r@ == self@,
    {
        match self {
            ViperEnvironmentSerializerStackElement::String(s) => {
                ViperEnvironmentSerializerStackElement::String(s.clone())
            },
            ViperEnvironmentSerializerStackElement::Index(i) => {
                ViperEnvironmentSerializerStackElement::Index(*i)
            },
        }
    }

    /// Whether two frames are the same.
    pub fn same(&self, other: &Self) -> (r: bool)
        ensures
            r == (self@ == other@),
    {
        match self {
            ViperEnvironmentSerializerStackElement::String(a) => match other {
                ViperEnvironmentSerializerStackElement::String(b) => str_eq(a.as_str(), b.as_str()),
                ViperEnvironmentSerializerStackElement::Index(_) => false,
            },
            ViperEnvironmentSerializerStackElement::Index(i) => match other {
                ViperEnvironmentSerializerStackElement::String(_) => false,
                ViperEnvironmentSerializerStackElement::Index(j) => *i == *j,
            },
        }
    }

    /// The text of the frame as it stands in a key.
    pub fn to_string(&self) -> (r: String)
        ensures
            r@ == segment_text(self@),
    {
        match self {
            ViperEnvironmentSerializerStackElement::String(s) => s.clone(),
            ViperEnvironmentSerializerStackElement::Index(i) => u64_to_string(*i as u64),
        }
    }
}

/// The path that an invalid-stack error reports: the frames that are left,
/// then the frame that was popped, or `None` where the path was empty.
pub open spec fn observed_path(before: Seq<Segment>) -> Seq<Option<Segment>> {
    if before.len() == 0 {
        seq![None]
    } else {
        before.map_values(|s: Segment| Some(s))
    }
}

/// The path after its innermost frame was popped.
pub open spec fn popped_path(before: Seq<Segment>) -> Seq<Segment> {
    if before.len() == 0 {
        before
    } else {
        before.drop_last()
    }
}

fn build_field_stack_state_error(
    field_stack: &Vec<ViperEnvironmentSerializerStackElement>,
    tail: Option<ViperEnvironmentSerializerStackElement>,
    expected: ViperEnvironmentSerializerStackElement,
) -> (e: Error)
    ensures
        e@ == ErrorView::InvalidStack(
            expected@,
            field_stack@.map_values(
                |x: ViperEnvironmentSerializerStackElement| Some(x@),
            ).push(optional_segment(tail)),
        ),
{
    let mut found: Vec<Option<ViperEnvironmentSerializerStackElement>> = Vec::new();
    let mut i: usize = 0;
    while i < field_stack.len()
        invariant
            i <= field_stack.len(),
            found@.len() == i,
            forall|k: int| 0 <= k < i ==> optional_segment(#[trigger] found@[k]) == Some(field_stack@[k]@),
        decreases field_stack.len() - i,
    {
        found.push(Some(field_stack[i].duplicate()));
        i += 1;
    }
    found.push(tail);
    let e = Error::InvalidStack(expected, found);
    proof {
        let reported = found@.map_values(
            |x: Option<ViperEnvironmentSerializerStackElement>| optional_segment(x),
        );
        let wanted = field_stack@.map_values(
            |x: ViperEnvironmentSerializerStackElement| Some(x@),
        ).push(optional_segment(tail));
        assert(reported =~= wanted);
    }
    e
}

/// The serializer: the pairs emitted so far, the optional prefix of every
/// key, and the path to the value being serialized.
#[derive(Debug)]
pub struct ViperEnvironmentSerializer {
    /// The emitted pairs as `KEY=VALUE` lines, in order.
    pub values: Vec<String>,
    /// The emitted pairs, in order.
    pub pairs: Vec<EnvPair>,
    /// The prefix of every key, if any.
    pub prefix: Option<String>,
    /// The path to the value being serialized, outermost frame first.
    pub field_stack: Vec<ViperEnvironmentSerializerStackElement>,
}

/// The emitted lines of a serializer.
pub open spec fn lines_of(s: ViperEnvironmentSerializer) -> Seq<Seq<char>> {
    s.values@.map_values(|line: String| line@)
}

/// The emitted pairs of a serializer.
pub open spec fn pairs_of(s: ViperEnvironmentSerializer) -> Seq<EnvPairView> {
    s.pairs@.map_values(|p: EnvPair| p@)
}

/// `after` is `before` with `pairs` emitted at the end, as pairs and as
/// lines; the prefix is the same.
pub open spec fn extends(
    after: ViperEnvironmentSerializer,
    before: ViperEnvironmentSerializer,
    pairs: Seq<EnvPairView>,
) -> bool {
    &&& after.prefix_view() == before.prefix_view()
    &&& pairs_of(after) == pairs_of(before) + pairs
    &&& lines_of(after) == lines_of(before) + pairs.map_values(|p: EnvPairView| pair_line(p))
}

/// `after` and `result` are what serializing a value whose walk is `w`
/// makes of `before`: the pairs of the walk are emitted; on success the
/// path is as before; at an unsupported kind the error names it and the
/// path is the one at which the walk stopped.
pub open spec fn serialized(
    before: ViperEnvironmentSerializer,
    after: ViperEnvironmentSerializer,
    result: Result<(), Error>,
    w: Walk,
) -> bool {
    &&& extends(after, before, w.pairs)
    &&& match w.failure {
        None => result is Ok && after.path() == before.path(),
        Some((at, kind)) => {
            &&& result matches Err(e)
            &&& e@ == unsupported_error(kind)
            &&& after.path() == at
        },
    }
}

/// `after` and `result` are what closing an element makes of the path
/// `before`: an index frame on top is replaced by the next index;
/// anything else is an invalid-stack error, with the top frame popped.
pub open spec fn advanced(before: Seq<Segment>, after: Seq<Segment>, result: Result<(), Error>) -> bool {
    if before.len() > 0 && before.last() is Index {
        &&& result is Ok
        &&& after == before.drop_last().push(Segment::Index(before.last()->Index_0 + 1))
    } else {
        &&& result matches Err(e)
        &&& e@ == ErrorView::InvalidStack(Segment::Index(0), observed_path(before))
        &&& after == popped_path(before)
    }
}

/// `after` and `result` are what closing a sequence makes of the path
/// `before`: an index frame on top is popped; anything else is an
/// invalid-stack error, with the top frame popped.
pub open spec fn closed(before: Seq<Segment>, after: Seq<Segment>, result: Result<(), Error>) -> bool {
    &&& after == popped_path(before)
    &&& if before.len() > 0 && before.last() is Index {
        result is Ok
    } else {
        &&& result matches Err(e)
        &&& e@ == ErrorView::InvalidStack(Segment::Index(0), observed_path(before))
    }
}

impl ViperEnvironmentSerializer {
    /// The prefix of every key, if any.
    pub open spec fn prefix_view(&self) -> Option<Seq<char>> {
        match self.prefix {
            Some(p) => Some(p@),
            None => None,
        }
    }

    /// The path to the value being serialized, outermost frame first.
    pub open spec fn path(&self) -> Seq<Segment> {
        self.field_stack@.map_values(|e: ViperEnvironmentSerializerStackElement| e@)
    }

    /// A serializer without prefix that has emitted nothing.
    pub fn new() -> (s: Self)
        ensures
            s.values@.len() == 0,
            s.pairs@.len() == 0,
            s.prefix_view() is None,
            s.path().len() == 0,
    {
        Self { values: Vec::new(), pairs: Vec::new(), prefix: None, field_stack: Vec::new() }
    }

    /// A serializer with a prefix that has emitted nothing.
    pub fn new_with_prefix(prefix: String) -> (s: Self)
        ensures
            s.values@.len() == 0,
            s.pairs@.len() == 0,
            s.prefix_view() == Some(prefix@),
            s.path().len() == 0,
    {
        Self { values: Vec::new(), pairs: Vec::new(), prefix: Some(prefix), field_stack: Vec::new() }
    }

    /// The key of the value at the current path.
    pub fn get_key(&self) -> (key: String)
        ensures
            key@ == key_of(self.prefix_view(), self.path()),
    {
        let mut key = String::new();
        let mut i: usize = 0;
        while i < self.field_stack.len()
            invariant
                i <= self.field_stack.len(),
                key@ == join_segments(self.path().take(i as int)),
            decreases self.field_stack.len() - i,
        {
            if i > 0 {
                key.append("__");
            }
            let text = self.field_stack[i].to_string();
            key.append(text.as_str());
            proof {
                let next = self.path().take(i + 1);
                assert(next.drop_last() =~= self.path().take(i as int));
                assert(next.last() == self.field_stack@[i as int]@);
                if i == 0 {
                    assert(key@ =~= segment_text(next[0]));
                }
            }
            i += 1;
        }
        assert(self.path().take(i as int) =~= self.path());
        match &self.prefix {
            Some(prefix) => {
                let mut full = concat(prefix.as_str(), "__");
                full.append(key.as_str());
                full
            },
            None => key,
        }
    }

    /// Emits the rendered leaf `v` under the key of the current path.
    pub fn add_value(&mut self, v: &str)
        ensures
            final(self).path() == old(self).path(),
            extends(
                *final(self),
                *old(self),
                seq![EnvPairView { key: key_of(old(self).prefix_view(), old(self).path()), value: v@ }],
            ),
    {
        let key = self.get_key();
        let mut line = concat(key.as_str(), "=");
        line.append(v);
        let pair = EnvPair { key, value: v.to_owned() };
        let ghost emitted = seq![pair@];
        self.values.push(line);
        self.pairs.push(pair);
        proof {
            assert(pairs_of(*self) =~= pairs_of(*old(self)) + emitted);
            assert(lines_of(*self) =~= lines_of(*old(self)) + emitted.map_values(
                |p: EnvPairView| pair_line(p),
            ));
        }
    }

    /// Emits a boolean leaf.
    pub fn serialize_bool(&mut self, v: bool) -> (r: Result<(), Error>)
        ensures
            serialized(
                *old(self),
                *final(self),
                r,
                walk(ValueView::Bool(v), old(self).prefix_view(), old(self).path()),
            ),
    {
        let text = bool_to_string(v);
        self.add_value(text.as_str());
        Ok(())
    }

    /// Emits a signed integer leaf in decimal.
    pub fn serialize_i8(&mut self, v: i8) -> (r: Result<(), Error>)
        ensures
            serialized(
                *old(self),
                *final(self),
                r,
                walk(ValueView::Int(v as int), old(self).prefix_view(), old(self).path()),
            ),
    {
        let text = i64_to_string(v as i64);
        self.add_value(text.as_str());
        Ok(())
    }

    /// Emits a signed integer leaf in decimal.
    pub fn serialize_i16(&mut self, v: i16) -> (r: Result<(), Error>)
        ensures
            serialized(
                *old(self),
                *final(self),
                r,
                walk(ValueView::Int(v as int), old(self).prefix_view(), old(self).path()),
            ),
    {
        let text = i64_to_string(v as i64);
        self.add_value(text.as_str());
        Ok(())
    }

    /// Emits a signed integer leaf in decimal.
    pub fn serialize_i32(&mut self, v: i32) -> (r: Result<(), Error>)
        ensures
            serialized(
                *old(self),
                *final(self),
                r,
                walk(ValueView::Int(v as int), old(self).prefix_view(), old(self).path()),
            ),
    {
        let text = i64_to_string(v as i64);
        self.add_value(text.as_str());
        Ok(())
    }

    /// Emits a signed integer leaf in decimal.
    pub fn serialize_i64(&mut self, v: i64) -> (r: Result<(), Error>)
        ensures
            serialized(
                *old(self),
                *final(self),
                r,
                walk(ValueView::Int(v as int), old(self).prefix_view(), old(self).path()),
            ),
    {
        let text = i64_to_string(v);
        self.add_value(text.as_str());
        Ok(())
    }

    /// Emits an unsigned integer leaf in decimal.
    pub fn serialize_u8(&mut self, v: u8) -> (r: Result<(), Error>)
        ensures
            serialized(
                *old(self),
                *final(self),
                r,
                walk(ValueView::Int(v as int), old(self).prefix_view(), old(self).path()),
            ),
    {
        let text = u64_to_string(v as u64);
        self.add_value(text.as_str());
        Ok(())
    }

    /// Emits an unsigned integer leaf in decimal.
    pub fn serialize_u16(&mut self, v: u16) -> (r: Result<(), Error>)
        ensures
            serialized(
                *old(self),
                *final(self),
                r,
                walk(ValueView::Int(v as int), old(self).prefix_view(), old(self).path()),
            ),
    {
        let text = u64_to_string(v as u64);
        self.add_value(text.as_str());
        Ok(())
    }

    /// Emits an unsigned integer leaf in decimal.
    pub fn serialize_u32(&mut self, v: u32) -> (r: Result<(), Error>)
        ensures
            serialized(
                *old(self),
                *final(self),
                r,
                walk(ValueView::Int(v as int), old(self).prefix_view(), old(self).path()),
            ),
    {
        let text = u64_to_string(v as u64);
        self.add_value(text.as_str());
        Ok(())
    }

    /// Emits an unsigned integer leaf in decimal.
    pub fn serialize_u64(&mut self, v: u64) -> (r: Result<(), Error>)
        ensures
            serialized(
                *old(self),
                *final(self),
                r,
                walk(ValueView::Int(v as int), old(self).prefix_view(), old(self).path()),
            ),
    {
        let text = u64_to_string(v);
        self.add_value(text.as_str());
        Ok(())
    }

    /// Emits a single-character leaf.
    pub fn serialize_char(&mut self, v: char) -> (r: Result<(), Error>)
        ensures
            serialized(
                *old(self),
                *final(self),
                r,
                walk(ValueView::Char(v), old(self).prefix_view(), old(self).path()),
            ),
    {
        let text = char_to_string(v);
        self.add_value(text.as_str());
        Ok(())
    }

    /// Emits a text leaf as it is.
    pub fn serialize_str(&mut self, v: &str) -> (r: Result<(), Error>)
        ensures
            serialized(
                *old(self),
                *final(self),
                r,
                walk(ValueView::Str(v@), old(self).prefix_view(), old(self).path()),
            ),
    {
        self.add_value(v);
        Ok(())
    }

    /// Rejects a byte array.
    pub fn serialize_bytes(&mut self, _v: &[u8]) -> (r: Result<(), Error>)
        ensures
            serialized(
                *old(self),
                *final(self),
                r,
                walk(ValueView::Bytes, old(self).prefix_view(), old(self).path()),
            ),
    {
        proof {
            assert(pairs_of(*self) + Seq::<EnvPairView>::empty() =~= pairs_of(*self));
            assert(lines_of(*self) + Seq::<EnvPairView>::empty().map_values(
                |p: EnvPairView| pair_line(p),
            ) =~= lines_of(*self));
        }
        Err(Error::ByteArrayNotSupported)
    }

    /// Rejects a map.
    pub fn serialize_map(&mut self, _len: Option<usize>) -> (r: Result<(), Error>)
        ensures
            serialized(
                *old(self),
                *final(self),
                r,
                walk(ValueView::Mapping, old(self).prefix_view(), old(self).path()),
            ),
    {
        proof {
            assert(pairs_of(*self) + Seq::<EnvPairView>::empty() =~= pairs_of(*self));
            assert(lines_of(*self) + Seq::<EnvPairView>::empty().map_values(
                |p: EnvPairView| pair_line(p),
            ) =~= lines_of(*self));
        }
        Err(Error::SerializeError("Map is not supported".to_owned()))
    }

    /// An absent optional value emits nothing.
    pub fn serialize_none(&mut self) -> (r: Result<(), Error>)
        ensures
            serialized(
                *old(self),
                *final(self),
                r,
                walk(ValueView::Absent, old(self).prefix_view(), old(self).path()),
            ),
    {
        proof {
            assert(pairs_of(*self) + Seq::<EnvPairView>::empty() =~= pairs_of(*self));
            assert(lines_of(*self) + Seq::<EnvPairView>::empty().map_values(
                |p: EnvPairView| pair_line(p),
            ) =~= lines_of(*self));
        }
        Ok(())
    }

    /// A present optional value is serialized as the value itself.
    pub fn serialize_some(&mut self, value: &Value) -> (r: Result<(), Error>)
        ensures
            serialized(
                *old(self),
                *final(self),
                r,
                walk(value@, old(self).prefix_view(), old(self).path()),
            ),
        decreases value, 1nat,
    {
        self.serialize(value)
    }

    /// The unit value emits nothing.
    pub fn serialize_unit(&mut self) -> (r: Result<(), Error>)
        ensures
            serialized(
                *old(self),
                *final(self),
                r,
                walk(ValueView::Unit, old(self).prefix_view(), old(self).path()),
            ),
    {
        proof {
            assert(pairs_of(*self) + Seq::<EnvPairView>::empty() =~= pairs_of(*self));
            assert(lines_of(*self) + Seq::<EnvPairView>::empty().map_values(
                |p: EnvPairView| pair_line(p),
            ) =~= lines_of(*self));
        }
        Ok(())
    }

    /// A unit struct emits nothing, whatever its name.
    pub fn serialize_unit_struct(&mut self, _name: &str) -> (r: Result<(), Error>)
        ensures
            serialized(
                *old(self),
                *final(self),
                r,
                walk(ValueView::Unit, old(self).prefix_view(), old(self).path()),
            ),
    {
        self.serialize_unit()
    }

    /// A unit variant emits its tag name as it is written.
    pub fn serialize_unit_variant(&mut self, _name: &str, _variant_index: u32, variant: &str) -> (r:
        Result<(), Error>)
        ensures
            serialized(
                *old(self),
                *final(self),
                r,
                walk(ValueView::UnitVariant(variant@), old(self).prefix_view(), old(self).path()),
            ),
    {
        self.add_value(variant);
        Ok(())
    }

    /// Opens a sequence: its first element is at index 0.
    pub fn serialize_seq(&mut self, _len: Option<usize>) -> (r: Result<(), Error>)
        ensures
            r is Ok,
            final(self).path() == old(self).path().push(Segment::Index(0)),
            extends(*final(self), *old(self), Seq::empty()),
    {
        self.field_stack.push(ViperEnvironmentSerializerStackElement::Index(0));
        proof {
            assert(self.path() =~= old(self).path().push(Segment::Index(0)));
            assert(pairs_of(*self) + Seq::<EnvPairView>::empty() =~= pairs_of(*self));
            assert(lines_of(*self) + Seq::<EnvPairView>::empty().map_values(
                |p: EnvPairView| pair_line(p),
            ) =~= lines_of(*self));
        }
        Ok(())
    }

    /// Opens a record, which changes nothing: each field pushes its own
    /// frame.
    pub fn serialize_struct(&mut self, _name: &str, _len: usize) -> (r: Result<(), Error>)
        ensures
            r is Ok,
            *final(self) == *old(self),
    {
        Ok(())
    }

    /// Closes a record, which changes nothing.
    pub fn end_struct(&mut self) -> (r: Result<(), Error>)
        ensures
            r is Ok,
            *final(self) == *old(self),
    {
        Ok(())
    }

    /// Serializes one element of the open sequence and moves the index
    /// frame on to the next element.
    pub fn serialize_element(&mut self, value: &Value) -> (r: Result<(), Error>)
        requires
            old(self).path().len() > 0 && old(self).path().last() is Index ==> old(
                self,
            ).path().last()->Index_0 < usize::MAX,
        ensures
            extends(
                *final(self),
                *old(self),
                walk(value@, old(self).prefix_view(), old(self).path()).pairs,
            ),
            match walk(value@, old(self).prefix_view(), old(self).path()).failure {
                Some((at, kind)) => {
                    &&& r matches Err(e)
                    &&& e@ == unsupported_error(kind)
                    &&& final(self).path() == at
                },
                None => advanced(old(self).path(), final(self).path(), r),
            },
        decreases value, 1nat,
    {
        match self.serialize(value) {
            Ok(()) => {},
            Err(e) => {
                return Err(e);
            },
        }
        let ghost before = self.path();
        let tail = self.field_stack.pop();
        proof {
            if before.len() > 0 {
                assert(self.path() =~= before.drop_last());
                assert(before.last() == optional_segment(tail)->0);
            }
        }
        match tail {
            Some(ViperEnvironmentSerializerStackElement::Index(idx)) => {
                self.field_stack.push(ViperEnvironmentSerializerStackElement::Index(idx + 1));
                proof {
                    assert(self.path() =~= before.drop_last().push(
                        Segment::Index((idx + 1) as nat),
                    ));
                }
                Ok(())
            },
            other => {
                let e = build_field_stack_state_error(
                    &self.field_stack,
                    other,
                    ViperEnvironmentSerializerStackElement::Index(0),
                );
                proof {
                    assert(self.path().map_values(|s: Segment| Some(s)) =~= self.field_stack@.map_values(
                        |x: ViperEnvironmentSerializerStackElement| Some(x@),
                    ));
                    if before.len() > 0 {
                        assert(before.map_values(|s: Segment| Some(s)) =~= self.path().map_values(
                            |s: Segment| Some(s),
                        ).push(optional_segment(other)));
                    } else {
                        assert(self.path().map_values(|s: Segment| Some(s)).push(
                            optional_segment(other),
                        ) =~= seq![None]);
                    }
                }
                Err(e)
            },
        }
    }

    /// Closes the open sequence: pops its index frame.
    pub fn end(&mut self) -> (r: Result<(), Error>)
        ensures
            closed(old(self).path(), final(self).path(), r),
            extends(*final(self), *old(self), Seq::empty()),
    {
        let ghost before = self.path();
        let tail = self.field_stack.pop();
        proof {
            if before.len() > 0 {
                assert(self.path() =~= before.drop_last());
                assert(before.last() == optional_segment(tail)->0);
            } else {
                assert(self.path() =~= before);
            }
            assert(pairs_of(*self) + Seq::<EnvPairView>::empty() =~= pairs_of(*self));
            assert(lines_of(*self) + Seq::<EnvPairView>::empty().map_values(
                |p: EnvPairView| pair_line(p),
            ) =~= lines_of(*self));
        }
        match tail {
            Some(ViperEnvironmentSerializerStackElement::Index(_)) => Ok(()),
            other => {
                let e = build_field_stack_state_error(
                    &self.field_stack,
                    other,
                    ViperEnvironmentSerializerStackElement::Index(0),
                );
                proof {
                    assert(self.path().map_values(|s: Segment| Some(s)) =~= self.field_stack@.map_values(
                        |x: ViperEnvironmentSerializerStackElement| Some(x@),
                    ));
                    if before.len() > 0 {
                        assert(before.map_values(|s: Segment| Some(s)) =~= self.path().map_values(
                            |s: Segment| Some(s),
                        ).push(optional_segment(other)));
                    } else {
                        assert(self.path().map_values(|s: Segment| Some(s)).push(
                            optional_segment(other),
                        ) =~= seq![None]);
                    }
                }
                Err(e)
            },
        }
    }

    /// Serializes the field `key` of a record: the value is walked under
    /// the frame that holds the key in upper case.
    pub fn serialize_field(&mut self, key: &str, value: &Value) -> (r: Result<(), Error>)
        ensures
            serialized(
                *old(self),
                *final(self),
                r,
                walk(
                    value@,
                    old(self).prefix_view(),
                    old(self).path().push(Segment::Name(str_uppercase(key@))),
                ),
            ),
        decreases value, 2nat,
    {
        let segment = to_uppercase(key);
        self.serialize_field_as(segment, value)
    }

    /// Serializes a record field under the frame `segment`, which holds
    /// its name as it will stand in the key.
    pub fn serialize_field_as(&mut self, segment: String, value: &Value) -> (r: Result<(), Error>)
        ensures
            serialized(
                *old(self),
                *final(self),
                r,
                walk(
                    value@,
                    old(self).prefix_view(),
                    old(self).path().push(Segment::Name(segment@)),
                ),
            ),
        decreases value, 1nat,
    {
        let expected = ViperEnvironmentSerializerStackElement::String(segment);
        self.field_stack.push(expected.duplicate());
        proof {
            assert(self.path() =~= old(self).path().push(Segment::Name(segment@)));
        }
        let ghost pushed = *self;
        match self.serialize(value) {
            Ok(()) => {},
            Err(e) => {
                return Err(e);
            },
        }
        let ghost inner = self.path();
        let popped = self.field_stack.pop();
        proof {
            assert(self.path() =~= inner.drop_last());
            assert(inner.drop_last() =~= old(self).path());
        }
        let matches_expected = match &popped {
            Some(frame) => frame.same(&expected),
            None => false,
        };
        if !matches_expected {
            Err(build_field_stack_state_error(&self.field_stack, popped, expected))
        } else {
            Ok(())
        }
    }

    /// Serializes a value: leaves emit one pair, optional values and
    /// units emit nothing of their own, sequences and records walk their
    /// parts in order, byte arrays and maps are rejected.
    pub fn serialize(&mut self, value: &Value) -> (r: Result<(), Error>)
        ensures
            serialized(
                *old(self),
                *final(self),
                r,
                walk(value@, old(self).prefix_view(), old(self).path()),
            ),
        decreases value, 0nat,
    {
        match value {
            Value::Unit => self.serialize_unit(),
            Value::Bool(b) => self.serialize_bool(*b),
            Value::Int(i) => self.serialize_i64(*i),
            Value::UInt(u) => self.serialize_u64(*u),
            Value::Char(c) => self.serialize_char(*c),
            Value::Str(s) => self.serialize_str(s.as_str()),
            Value::UnitVariant(tag) => self.serialize_unit_variant("", 0, tag.as_str()),
            Value::Absent => self.serialize_none(),
            Value::Present(inner) => self.serialize_some(inner),
            Value::Sequence(items) => {
                proof {
                    lemma_values_view(items@);
                }
                self.serialize_items(items)
            },
            Value::Record(fields) => {
                proof {
                    lemma_fields_view(fields@);
                }
                self.serialize_fields(fields)
            },
            Value::Bytes(bytes) => self.serialize_bytes(bytes.as_slice()),
            Value::Mapping(entries) => self.serialize_map(Some(entries.len())),
        }
    }

    /// Serializes a sequence: opens it, serializes each element under
    /// its index, closes it.
    pub fn serialize_items(&mut self, items: &Vec<Value>) -> (r: Result<(), Error>)
        ensures
            serialized(
                *old(self),
                *final(self),
                r,
                walk_items(
                    values_view(items@),
                    items@.len(),
                    old(self).prefix_view(),
                    old(self).path(),
                ),
            ),
        decreases items, 0nat,
    {
        let ghost prefix = self.prefix_view();
        let ghost base = self.path();
        let ghost models = values_view(items@);
        proof {
            lemma_values_view(items@);
        }
        let _ = self.serialize_seq(Some(items.len()));
        let mut i: usize = 0;
        while i < items.len()
            invariant
                i <= items.len(),
                models == values_view(items@),
                models.len() == items@.len(),
                forall|k: int| 0 <= k < items@.len() ==> #[trigger] models[k] == items@[k]@,
                self.prefix_view() == prefix,
                prefix == old(self).prefix_view(),
                base == old(self).path(),
                self.path() == base.push(Segment::Index(i as nat)),
                walk_items(models, i as nat, prefix, base).failure is None,
                extends(*self, *old(self), walk_items(models, i as nat, prefix, base).pairs),
            decreases items.len() - i,
        {
            let ghost so_far = walk_items(models, i as nat, prefix, base);
            let ghost step = walk(models[i as int], prefix, base.push(Segment::Index(i as nat)));
            let ghost entered = *self;
            let outcome = self.serialize_element(&items[i]);
            proof {
                assert(walk_items(models, (i + 1) as nat, prefix, base) == walk_then(so_far, step));
                assert(pairs_of(*self) =~= pairs_of(*old(self)) + (so_far.pairs + step.pairs));
                assert(lines_of(*self) =~= lines_of(*old(self)) + (so_far.pairs
                    + step.pairs).map_values(|p: EnvPairView| pair_line(p)));
            }
            match outcome {
                Ok(()) => {
                    proof {
                        assert(base.push(Segment::Index(i as nat)).drop_last() =~= base);
                    }
                },
                Err(e) => {
                    proof {
                        lemma_walk_items_failure(models, (i + 1) as nat, items@.len(), prefix, base);
                    }
                    return Err(e);
                },
            }
            i += 1;
        }
        let ghost full = *self;
        let r = self.end();
        proof {
            assert(base.push(Segment::Index(i as nat)).drop_last() =~= base);
            assert(pairs_of(*self) =~= pairs_of(full));
            assert(lines_of(*self) =~= lines_of(full));
        }
        r
    }

    /// Serializes a record: each field in order, under its name in upper
    /// case.
    pub fn serialize_fields(&mut self, fields: &Vec<Field>) -> (r: Result<(), Error>)
        ensures
            serialized(
                *old(self),
                *final(self),
                r,
                walk_fields(
                    fields_view(fields@),
                    fields@.len(),
                    old(self).prefix_view(),
                    old(self).path(),
                ),
            ),
        decreases fields, 0nat,
    {
        let ghost prefix = self.prefix_view();
        let ghost base = self.path();
        let ghost models = fields_view(fields@);
        proof {
            lemma_fields_view(fields@);
            assert(pairs_of(*self) + Seq::<EnvPairView>::empty() =~= pairs_of(*self));
            assert(lines_of(*self) + Seq::<EnvPairView>::empty().map_values(
                |p: EnvPairView| pair_line(p),
            ) =~= lines_of(*self));
        }
        let _ = self.serialize_struct("", fields.len());
        let mut i: usize = 0;
        while i < fields.len()
            invariant
                i <= fields.len(),
                models == fields_view(fields@),
                models.len() == fields@.len(),
                forall|k: int| 0 <= k < fields@.len() ==> #[trigger] models[k] == fields@[k]@,
                self.prefix_view() == prefix,
                prefix == old(self).prefix_view(),
                base == old(self).path(),
                self.path() == base,
                walk_fields(models, i as nat, prefix, base).failure is None,
                extends(*self, *old(self), walk_fields(models, i as nat, prefix, base).pairs),
            decreases fields.len() - i,
        {
            let ghost so_far = walk_fields(models, i as nat, prefix, base);
            let ghost step = walk(
                models[i as int].value,
                prefix,
                base.push(Segment::Name(str_uppercase(models[i as int].name))),
            );
            let outcome = self.serialize_field(fields[i].name.as_str(), &fields[i].value);
            proof {
                assert(walk_fields(models, (i + 1) as nat, prefix, base) == walk_then(so_far, step));
                assert(pairs_of(*self) =~= pairs_of(*old(self)) + (so_far.pairs + step.pairs));
                assert(lines_of(*self) =~= lines_of(*old(self)) + (so_far.pairs
                    + step.pairs).map_values(|p: EnvPairView| pair_line(p)));
            }
            match outcome {
                Ok(()) => {},
                Err(e) => {
                    proof {
                        lemma_walk_fields_failure(models, (i + 1) as nat, fields@.len(), prefix, base);
                    }
                    return Err(e);
                },
            }
            i += 1;
        }
        self.end_struct()
    }
}

/// The walk of the first `n` elements of a sequence that hold no byte
/// array and no map does not fail.
pub proof fn lemma_supported_items(
    items: Seq<ValueView>,
    n: nat,
    prefix: Option<Seq<char>>,
    path: Seq<Segment>,
)
    requires
        n <= items.len(),
        supported_items(items, n),
    ensures
        walk_items(items, n, prefix, path).failure is None,
    decreases items, n,
{
    if n > 0 {
        lemma_supported_items(items, (n - 1) as nat, prefix, path);
        lemma_supported_walk(items[n - 1], prefix, path.push(Segment::Index((n - 1) as nat)));
    }
}

/// The walk of the first `n` fields of a record that holds no byte
/// array and no map does not fail.
pub proof fn lemma_supported_fields(
    fields: Seq<FieldView>,
    n: nat,
    prefix: Option<Seq<char>>,
    path: Seq<Segment>,
)
    requires
        n <= fields.len(),
        supported(ValueView::Record(fields)),
    ensures
        walk_fields(fields, n, prefix, path).failure is None,
    decreases fields, n,
{
    if n > 0 {
        lemma_supported_fields(fields, (n - 1) as nat, prefix, path);
        let field = fields[n - 1];
        assert(supported(field.value));
        lemma_supported_walk(
            field.value,
            prefix,
            path.push(Segment::Name(str_uppercase(fields[n - 1].name))),
        );
    }
}

/// The walk of a value that holds no byte array and no map does not
/// fail.
pub proof fn lemma_supported_walk(v: ValueView, prefix: Option<Seq<char>>, path: Seq<Segment>)
    requires
        supported(v),
    ensures
        walk(v, prefix, path).failure is None,
    decreases v, 0nat,
{
    match v {
        ValueView::Present(inner) => {
            lemma_supported_walk(*inner, prefix, path);
        },
        ValueView::Sequence(items) => {
            lemma_supported_items(items, items.len(), prefix, path);
        },
        ValueView::Record(fields) => {
            lemma_supported_fields(fields, fields.len(), prefix, path);
        },
        _ => {},
    }
}

/// Once the walk of the first `n` elements has failed, the walk of any
/// more elements is the same walk.
pub proof fn lemma_walk_items_failure(
    items: Seq<ValueView>,
    n: nat,
    m: nat,
    prefix: Option<Seq<char>>,
    path: Seq<Segment>,
)
    requires
        n <= m <= items.len(),
        walk_items(items, n, prefix, path).failure is Some,
    ensures
        walk_items(items, m, prefix, path) == walk_items(items, n, prefix, path),
    decreases m,
{
    if n < m {
        lemma_walk_items_failure(items, n, (m - 1) as nat, prefix, path);
    }
}

/// Once the walk of the first `n` fields has failed, the walk of any more
/// fields is the same walk.
pub proof fn lemma_walk_fields_failure(
    fields: Seq<FieldView>,
    n: nat,
    m: nat,
    prefix: Option<Seq<char>>,
    path: Seq<Segment>,
)
    requires
        n <= m <= fields.len(),
        walk_fields(fields, n, prefix, path).failure is Some,
    ensures
        walk_fields(fields, m, prefix, path) == walk_fields(fields, n, prefix, path),
    decreases m,
{
    if n < m {
        lemma_walk_fields_failure(fields, n, (m - 1) as nat, prefix, path);
    }
}

} // verus!
