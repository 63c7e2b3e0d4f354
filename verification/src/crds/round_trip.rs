//! Flattening loses nothing: the pairs that a value flattens to can be
//! parsed back into the nested map of the value.

use crate::crds::value::{FieldView, ValueView};
use crate::crds::viper_environment_serializer::{
    join_segments, key_of, segment_text, walk, walk_fields, walk_items, EnvPairView, Segment,
};
use crate::text::{decimal_int, decimal_nat, digit_char, str_uppercase};
use vstd::prelude::*;

verus! {

/// Whether a label can stand in a key and be found again: it is not
/// empty, does not begin with an underscore and holds no double
/// underscore.
pub open spec fn is_clean(label: Seq<char>) -> bool {
    &&& label.len() > 0
    &&& label[0] != '_'
    &&& forall|i: int| 0 <= i < label.len() - 1 ==> !(#[trigger] label[i] == '_' && label[i + 1] == '_')
}

/// Whether every label of a path is clean.
pub open spec fn all_clean(labels: Seq<Seq<char>>) -> bool {
    forall|i: int| 0 <= i < labels.len() ==> is_clean(#[trigger] labels[i])
}

/// The labels of a path joined by `__`.
pub open spec fn join_labels(labels: Seq<Seq<char>>) -> Seq<char>
    decreases labels.len(),
{
    if labels.len() == 0 {
        Seq::empty()
    } else if labels.len() == 1 {
        labels[0]
    } else {
        join_labels(labels.drop_last()) + "__"@ + labels.last()
    }
}

/// The key of a path of labels: the joined labels, after the prefix and
/// `__` where there is a prefix.
pub open spec fn key_of_labels(prefix: Option<Seq<char>>, labels: Seq<Seq<char>>) -> Seq<char> {
    match prefix {
        Some(p) => p + "__"@ + join_labels(labels),
        None => join_labels(labels),
    }
}

/// Whether a double underscore begins at position `i` of a key.
pub open spec fn separator_at(key: Seq<char>, i: int) -> bool {
    0 <= i && i + 1 < key.len() && key[i] == '_' && key[i + 1] == '_'
}

/// The last position below `n` at which a double underscore begins, or
/// -1 where there is none.
pub open spec fn last_separator(key: Seq<char>, n: int) -> int
    decreases n,
{
    if n <= 0 {
        -1
    } else if separator_at(key, n - 1) {
        n - 1
    } else {
        last_separator(key, n - 1)
    }
}

/// The labels that a joined key is made of: the key is cut at its last
/// double underscore, and what stands before it is cut again.
pub open spec fn split_key(key: Seq<char>) -> Seq<Seq<char>>
    decreases key.len(),
{
    if key.len() == 0 {
        Seq::empty()
    } else {
        let cut = last_separator(key, key.len() as int);
        if cut < 0 || cut + 2 > key.len() {
            seq![key]
        } else {
            split_key(key.subrange(0, cut)).push(key.subrange(cut + 2, key.len() as int))
        }
    }
}

/// The labels that a key is made of, after its prefix.
pub open spec fn parse_key(prefix: Option<Seq<char>>, key: Seq<char>) -> Seq<Seq<char>> {
    match prefix {
        Some(p) => if key.len() >= p.len() + 2 {
            split_key(key.subrange(p.len() as int + 2, key.len() as int))
        } else {
            Seq::empty()
        },
        None => split_key(key),
    }
}

/// The last separator below `n` is `cut` where a separator begins at
/// `cut` and none begins after it.
pub proof fn lemma_last_separator(key: Seq<char>, cut: int, n: int)
    requires
        -1 <= cut < n,
        cut >= 0 ==> separator_at(key, cut),
        forall|j: int| cut < j < n ==> !separator_at(key, j),
    ensures
        last_separator(key, n) == cut,
    decreases n,
{
    if n > 0 && cut < n - 1 {
        lemma_last_separator(key, cut, n - 1);
    }
}

/// The text `__` is two underscores.
pub proof fn lemma_separator_text()
    ensures
        "__"@.len() == 2,
        "__"@[0] == '_',
        "__"@[1] == '_',
{
    reveal_strlit("__");
}

/// A clean label is its own only label.
pub proof fn lemma_split_single(label: Seq<char>)
    requires
        is_clean(label),
    ensures
        split_key(label) == seq![label],
{
    assert forall|j: int| -1 < j < label.len() implies !separator_at(label, j) by {
        if separator_at(label, j) {
            assert(label[j] == '_' && label[j + 1] == '_');
        }
    }
    lemma_last_separator(label, -1, label.len() as int);
}

/// A key that ends in `__` and a clean label is cut before that `__`.
pub proof fn lemma_split_last(head: Seq<char>, label: Seq<char>)
    requires
        is_clean(label),
    ensures
        split_key(head + "__"@ + label) == split_key(head).push(label),
{
    lemma_separator_text();
    let key = head + "__"@ + label;
    let cut = head.len() as int;
    assert(key.len() == head.len() + 2 + label.len());
    assert(key[cut] == "__"@[0]);
    assert(key[cut + 1] == "__"@[1]);
    assert(separator_at(key, cut));
    assert forall|j: int| cut < j < key.len() implies !separator_at(key, j) by {
        if separator_at(key, j) {
            if j == cut + 1 {
                assert(key[j + 1] == label[0]);
            } else {
                assert(key[j] == label[j - cut - 2]);
                assert(key[j + 1] == label[j - cut - 2 + 1]);
            }
        }
    }
    lemma_last_separator(key, cut, key.len() as int);
    assert(key.subrange(0, cut) =~= head);
    assert(key.subrange(cut + 2, key.len() as int) =~= label);
}

/// Joined clean labels are cut into the same labels again.
pub proof fn lemma_split_join(labels: Seq<Seq<char>>)
    requires
        all_clean(labels),
    ensures
        split_key(join_labels(labels)) == labels,
    decreases labels.len(),
{
    if labels.len() == 0 {
    } else if labels.len() == 1 {
        lemma_split_single(labels[0]);
        assert(seq![labels[0]] =~= labels);
    } else {
        let head = labels.drop_last();
        assert(all_clean(head)) by {
            assert forall|i: int| 0 <= i < head.len() implies is_clean(#[trigger] head[i]) by {
                assert(head[i] == labels[i]);
            }
        }
        lemma_split_join(head);
        lemma_split_last(join_labels(head), labels.last());
        assert(head.push(labels.last()) =~= labels);
    }
}

/// The key of a path of clean labels is parsed into the same labels
/// again, whatever the prefix.
pub proof fn lemma_parse_key(prefix: Option<Seq<char>>, labels: Seq<Seq<char>>)
    requires
        all_clean(labels),
    ensures
        parse_key(prefix, key_of_labels(prefix, labels)) == labels,
{
    lemma_split_join(labels);
    lemma_separator_text();
    match prefix {
        Some(p) => {
            let key = p + "__"@ + join_labels(labels);
            assert(key.subrange(p.len() as int + 2, key.len() as int) =~= join_labels(labels));
        },
        None => {},
    }
}

/// Whether a character is a decimal digit.
pub open spec fn is_digit(c: char) -> bool {
    c == '0' || c == '1' || c == '2' || c == '3' || c == '4' || c == '5' || c == '6' || c == '7'
        || c == '8' || c == '9'
}

/// A number in decimal is made of digits: of one digit exactly where
/// the number is below ten.
pub proof fn lemma_decimal_digits(n: nat)
    ensures
        decimal_nat(n).len() >= 1,
        n < 10 <==> decimal_nat(n).len() == 1,
        forall|i: int| 0 <= i < decimal_nat(n).len() ==> is_digit(#[trigger] decimal_nat(n)[i]),
    decreases n,
{
    if n >= 10 {
        lemma_decimal_digits(n / 10);
    }
}

/// A number in decimal is a clean label.
pub proof fn lemma_decimal_clean(n: nat)
    ensures
        is_clean(decimal_nat(n)),
{
    lemma_decimal_digits(n);
    let text = decimal_nat(n);
    assert(is_digit(text[0]));
    assert forall|i: int| 0 <= i < text.len() - 1 implies !(#[trigger] text[i] == '_' && text[i + 1]
        == '_') by {
        assert(is_digit(text[i]));
    }
}

/// Different numbers are different in decimal.
pub proof fn lemma_decimal_injective(a: nat, b: nat)
    requires
        decimal_nat(a) == decimal_nat(b),
    ensures
        a == b,
    decreases a,
{
    lemma_decimal_digits(a);
    lemma_decimal_digits(b);
    if a < 10 {
        assert(decimal_nat(a)[0] == digit_char(a as int));
        assert(decimal_nat(b)[0] == digit_char(b as int));
    } else {
        let x = decimal_nat(a / 10);
        let y = decimal_nat(b / 10);
        assert(decimal_nat(a).last() == digit_char((a % 10) as int));
        assert(decimal_nat(b).last() == digit_char((b % 10) as int));
        assert(decimal_nat(a).drop_last() =~= x);
        assert(decimal_nat(b).drop_last() =~= y);
        lemma_decimal_injective(a / 10, b / 10);
    }
}

/// A nested map: a leaf with its text, or a branch with its children by
/// their labels.
pub enum Shape {
    Leaf(Seq<char>),
    Branch(Map<Seq<char>, Shape>),
}

/// A leaf of a value: the labels on the way to it, and its text.
pub struct Entry {
    pub path: Seq<Seq<char>>,
    pub text: Seq<char>,
}

/// The children of a shape, if it is a branch.
pub open spec fn children_of(shape: Option<Shape>) -> Map<Seq<char>, Shape> {
    match shape {
        Some(Shape::Branch(children)) => children,
        _ => Map::empty(),
    }
}

/// The child of a shape under a label, if it has one.
pub open spec fn child_of(shape: Option<Shape>, label: Seq<char>) -> Option<Shape> {
    if children_of(shape).contains_key(label) {
        Some(children_of(shape)[label])
    } else {
        None
    }
}

/// A nested map with the text `text` put at `path`.
pub open spec fn insert_at(shape: Option<Shape>, path: Seq<Seq<char>>, text: Seq<char>) -> Shape
    decreases path.len(),
{
    if path.len() == 0 {
        Shape::Leaf(text)
    } else {
        Shape::Branch(
            children_of(shape).insert(
                path[0],
                insert_at(child_of(shape, path[0]), path.drop_first(), text),
            ),
        )
    }
}

/// The nested map that a list of entries builds up, one entry after
/// the other, from the nested map `shape`.
pub open spec fn unflatten(shape: Option<Shape>, entries: Seq<Entry>) -> Option<Shape>
    decreases entries.len(),
{
    if entries.len() == 0 {
        shape
    } else {
        Some(insert_at(unflatten(shape, entries.drop_last()), entries.last().path, entries.last().text))
    }
}

/// The entries of a list with one more label in front of each path.
pub open spec fn under(label: Seq<char>, entries: Seq<Entry>) -> Seq<Entry> {
    entries.map_values(|e: Entry| Entry { path: seq![label] + e.path, text: e.text })
}

/// A nested map with a child grafted on under a label; a child that is
/// nothing changes nothing.
pub open spec fn graft(shape: Option<Shape>, label: Seq<char>, child: Option<Shape>) -> Option<Shape> {
    match child {
        Some(c) => Some(Shape::Branch(children_of(shape).insert(label, c))),
        None => shape,
    }
}

/// The leaves of the first `n` elements of a sequence, each under its
/// index in decimal.
pub open spec fn item_leaves(items: Seq<ValueView>, n: nat) -> Seq<Entry>
    decreases items, n,
{
    if n == 0 || n > items.len() {
        Seq::empty()
    } else {
        item_leaves(items, (n - 1) as nat) + under(
            decimal_nat((n - 1) as nat),
            leaves(items[n - 1]),
        )
    }
}

/// The leaves of the first `n` fields of a record, each under its name
/// in upper case.
pub open spec fn field_leaves(fields: Seq<FieldView>, n: nat) -> Seq<Entry>
    decreases fields, n,
{
    if n == 0 || n > fields.len() {
        Seq::empty()
    } else {
        field_leaves(fields, (n - 1) as nat) + under(
            str_uppercase(fields[n - 1].name),
            leaves(fields[n - 1].value),
        )
    }
}

/// The leaves of a value, in order, each with the labels on the way to
/// it.
pub open spec fn leaves(v: ValueView) -> Seq<Entry>
    decreases v, 0nat,
{
    match v {
        ValueView::Unit => Seq::empty(),
        ValueView::Absent => Seq::empty(),
        ValueView::Bool(b) => seq![Entry { path: Seq::empty(), text: crate::text::bool_text(b) }],
        ValueView::Int(i) => seq![Entry { path: Seq::empty(), text: decimal_int(i) }],
        ValueView::Char(c) => seq![Entry { path: Seq::empty(), text: seq![c] }],
        ValueView::Str(s) => seq![Entry { path: Seq::empty(), text: s }],
        ValueView::UnitVariant(tag) => seq![Entry { path: Seq::empty(), text: tag }],
        ValueView::Present(inner) => leaves(*inner),
        ValueView::Sequence(items) => item_leaves(items, items.len()),
        ValueView::Record(fields) => field_leaves(fields, fields.len()),
        ValueView::Bytes => Seq::empty(),
        ValueView::Mapping => Seq::empty(),
    }
}

/// The nested map of the first `n` elements of a sequence: each element
/// that is not nothing under its index in decimal.
pub open spec fn items_shape(items: Seq<ValueView>, n: nat) -> Option<Shape>
    decreases items, n,
{
    if n == 0 || n > items.len() {
        None
    } else {
        graft(
            items_shape(items, (n - 1) as nat),
            decimal_nat((n - 1) as nat),
            shape_of(items[n - 1]),
        )
    }
}

/// The nested map of the first `n` fields of a record: each field that
/// is not nothing under its name in upper case.
pub open spec fn fields_shape(fields: Seq<FieldView>, n: nat) -> Option<Shape>
    decreases fields, n,
{
    if n == 0 || n > fields.len() {
        None
    } else {
        graft(
            fields_shape(fields, (n - 1) as nat),
            str_uppercase(fields[n - 1].name),
            shape_of(fields[n - 1].value),
        )
    }
}

/// The nested map of a value: a leaf for a primitive, a branch for a
/// sequence or a record with the nested maps of its parts, and nothing
/// for what is absent or has no part that is something.
pub open spec fn shape_of(v: ValueView) -> Option<Shape>
    decreases v, 0nat,
{
    match v {
        ValueView::Unit => None,
        ValueView::Absent => None,
        ValueView::Bool(b) => Some(Shape::Leaf(crate::text::bool_text(b))),
        ValueView::Int(i) => Some(Shape::Leaf(decimal_int(i))),
        ValueView::Char(c) => Some(Shape::Leaf(seq![c])),
        ValueView::Str(s) => Some(Shape::Leaf(s)),
        ValueView::UnitVariant(tag) => Some(Shape::Leaf(tag)),
        ValueView::Present(inner) => shape_of(*inner),
        ValueView::Sequence(items) => items_shape(items, items.len()),
        ValueView::Record(fields) => fields_shape(fields, fields.len()),
        ValueView::Bytes => None,
        ValueView::Mapping => None,
    }
}

/// Building up from two lists of entries, one after the other, is
/// building up from the two lists joined.
pub proof fn lemma_unflatten_concat(shape: Option<Shape>, first: Seq<Entry>, second: Seq<Entry>)
    ensures
        unflatten(shape, first + second) == unflatten(unflatten(shape, first), second),
    decreases second.len(),
{
    if second.len() == 0 {
        assert(first + second =~= first);
    } else {
        lemma_unflatten_concat(shape, first, second.drop_last());
        assert((first + second).drop_last() =~= first + second.drop_last());
        assert((first + second).last() == second.last());
    }
}

/// Entries under a label that the nested map does not hold yet build
/// up their own nested map, which is grafted on under the label.
pub proof fn lemma_unflatten_under(shape: Option<Shape>, label: Seq<char>, entries: Seq<Entry>)
    requires
        !(shape is Some && shape->0 is Leaf),
        !children_of(shape).contains_key(label),
    ensures
        unflatten(shape, under(label, entries)) == graft(shape, label, unflatten(None, entries)),
        entries.len() > 0 <==> unflatten(None, entries) is Some,
    decreases entries.len(),
{
    if entries.len() > 0 {
        let before = entries.drop_last();
        let e = entries.last();
        lemma_unflatten_under(shape, label, before);
        assert(under(label, entries).drop_last() =~= under(label, before));
        let path = seq![label] + e.path;
        assert(under(label, entries).last() == Entry { path, text: e.text });
        assert(path[0] == label);
        assert(path.drop_first() =~= e.path);
        let built = unflatten(shape, under(label, before));
        let own = unflatten(None, before);
        if before.len() == 0 {
            assert(built == shape);
            assert(child_of(built, label) is None);
        } else {
            assert(built == Some(Shape::Branch(children_of(shape).insert(label, own->0))));
            assert(child_of(built, label) == own);
            assert(children_of(built).insert(label, insert_at(own, e.path, e.text))
                =~= children_of(shape).insert(label, insert_at(own, e.path, e.text)));
        }
    }
}

/// Whether the first `n` elements of a sequence can be flattened and
/// parsed back.
pub open spec fn admitted_items(items: Seq<ValueView>, n: nat) -> bool
    decreases items, n,
{
    n == 0 || n > items.len() || (admitted_items(items, (n - 1) as nat) && admitted(items[n - 1]))
}

/// Whether the first `n` fields of a record can be flattened and parsed
/// back: each of them can, and their names in upper case are clean
/// labels that differ from one another.
pub open spec fn admitted_fields(fields: Seq<FieldView>, n: nat) -> bool
    decreases fields, n,
{
    n == 0 || n > fields.len() || {
        &&& admitted_fields(fields, (n - 1) as nat)
        &&& admitted(fields[n - 1].value)
        &&& is_clean(str_uppercase(fields[n - 1].name))
        &&& forall|j: int|
            0 <= j < n - 1 ==> str_uppercase(#[trigger] fields[j].name) != str_uppercase(
                fields[n - 1].name,
            )
    }
}

/// Whether a value can be flattened and parsed back: it holds no byte
/// array and no map, and the names of the fields of each of its
/// records are, in upper case, clean labels that differ from one
/// another.
pub open spec fn admitted(v: ValueView) -> bool
    decreases v, 0nat,
{
    match v {
        ValueView::Present(inner) => admitted(*inner),
        ValueView::Sequence(items) => admitted_items(items, items.len()),
        ValueView::Record(fields) => admitted_fields(fields, fields.len()),
        ValueView::Bytes => false,
        ValueView::Mapping => false,
        _ => true,
    }
}

/// The nested map of the first `n` elements of a sequence is no leaf,
/// and the labels of its children are indices below `n` in decimal.
pub proof fn lemma_items_shape_labels(items: Seq<ValueView>, n: nat)
    ensures
        !(items_shape(items, n) is Some && items_shape(items, n)->0 is Leaf),
        forall|label: Seq<char>| #[trigger]
            children_of(items_shape(items, n)).contains_key(label) ==> exists|i: nat|
                i < n && label == #[trigger] decimal_nat(i),
    decreases n,
{
    if !(n == 0 || n > items.len()) {
        lemma_items_shape_labels(items, (n - 1) as nat);
        let before = items_shape(items, (n - 1) as nat);
        assert forall|label: Seq<char>| #[trigger]
            children_of(items_shape(items, n)).contains_key(label) implies exists|i: nat|
            i < n && label == #[trigger] decimal_nat(i) by {
            if children_of(before).contains_key(label) {
                let i = choose|i: nat| i < n - 1 && label == #[trigger] decimal_nat(i);
                assert(i < n && label == decimal_nat(i));
            } else {
                assert(label == decimal_nat((n - 1) as nat));
            }
        }
    }
}

/// The nested map of the first `n` fields of a record is no leaf, and
/// the labels of its children are names of those fields in upper
/// case.
pub proof fn lemma_fields_shape_labels(fields: Seq<FieldView>, n: nat)
    ensures
        !(fields_shape(fields, n) is Some && fields_shape(fields, n)->0 is Leaf),
        forall|label: Seq<char>| #[trigger]
            children_of(fields_shape(fields, n)).contains_key(label) ==> exists|i: int|
                0 <= i < n && i < fields.len() && label == str_uppercase(#[trigger] fields[i].name),
    decreases n,
{
    if !(n == 0 || n > fields.len()) {
        lemma_fields_shape_labels(fields, (n - 1) as nat);
        let before = fields_shape(fields, (n - 1) as nat);
        assert forall|label: Seq<char>| #[trigger]
            children_of(fields_shape(fields, n)).contains_key(label) implies exists|i: int|
            0 <= i < n && i < fields.len() && label == str_uppercase(#[trigger] fields[i].name) by {
            if children_of(before).contains_key(label) {
                let i = choose|i: int|
                    0 <= i < n - 1 && i < fields.len() && label == str_uppercase(
                        #[trigger] fields[i].name,
                    );
                assert(0 <= i < n && label == str_uppercase(fields[i].name));
            } else {
                assert(label == str_uppercase(fields[n - 1].name));
            }
        }
    }
}

/// The leaves of the first `n` elements of an admitted sequence build
/// up the nested map of those elements.
pub proof fn lemma_items_round_trip(items: Seq<ValueView>, n: nat)
    requires
        n <= items.len(),
        admitted_items(items, n),
    ensures
        unflatten(None, item_leaves(items, n)) == items_shape(items, n),
    decreases items, n,
{
    if n > 0 {
        let label = decimal_nat((n - 1) as nat);
        let before = items_shape(items, (n - 1) as nat);
        lemma_items_round_trip(items, (n - 1) as nat);
        lemma_tree_round_trip(items[n - 1]);
        lemma_unflatten_concat(
            None,
            item_leaves(items, (n - 1) as nat),
            under(label, leaves(items[n - 1])),
        );
        lemma_items_shape_labels(items, (n - 1) as nat);
        if children_of(before).contains_key(label) {
            let i = choose|i: nat| i < n - 1 && label == #[trigger] decimal_nat(i);
            lemma_decimal_injective(i, (n - 1) as nat);
        }
        lemma_unflatten_under(before, label, leaves(items[n - 1]));
    }
}

/// The leaves of the first `n` fields of an admitted record build up
/// the nested map of those fields.
pub proof fn lemma_fields_round_trip(fields: Seq<FieldView>, n: nat)
    requires
        n <= fields.len(),
        admitted_fields(fields, n),
    ensures
        unflatten(None, field_leaves(fields, n)) == fields_shape(fields, n),
    decreases fields, n,
{
    if n > 0 {
        let label = str_uppercase(fields[n - 1].name);
        let before = fields_shape(fields, (n - 1) as nat);
        lemma_fields_round_trip(fields, (n - 1) as nat);
        lemma_tree_round_trip(fields[n - 1].value);
        lemma_unflatten_concat(
            None,
            field_leaves(fields, (n - 1) as nat),
            under(label, leaves(fields[n - 1].value)),
        );
        lemma_fields_shape_labels(fields, (n - 1) as nat);
        if children_of(before).contains_key(label) {
            let i = choose|i: int|
                0 <= i < n - 1 && i < fields.len() && label == str_uppercase(
                    #[trigger] fields[i].name,
                );
            assert(str_uppercase(fields[i].name) != str_uppercase(fields[n - 1].name));
        }
        lemma_unflatten_under(before, label, leaves(fields[n - 1].value));
    }
}

/// The leaves of an admitted value build up the nested map of the
/// value.
pub proof fn lemma_tree_round_trip(v: ValueView)
    requires
        admitted(v),
    ensures
        unflatten(None, leaves(v)) == shape_of(v),
    decreases v, 0nat,
{
    match v {
        ValueView::Present(inner) => {
            lemma_tree_round_trip(*inner);
        },
        ValueView::Sequence(items) => {
            lemma_items_round_trip(items, items.len());
        },
        ValueView::Record(fields) => {
            lemma_fields_round_trip(fields, fields.len());
        },
        ValueView::Unit => {},
        ValueView::Absent => {},
        _ => {
            let only = leaves(v);
            assert(only.len() == 1);
            assert(only.drop_last() =~= Seq::<Entry>::empty());
            assert(unflatten(None, only.drop_last()) is None);
        },
    }
}

/// The labels of a path: the text of each of its frames.
pub open spec fn labels_of(path: Seq<Segment>) -> Seq<Seq<char>> {
    path.map_values(|s: Segment| segment_text(s))
}

/// The pairs of a list of leaves found below the labels `base`: each
/// leaf under the key of its whole path.
pub open spec fn keyed(prefix: Option<Seq<char>>, base: Seq<Seq<char>>, entries: Seq<Entry>) -> Seq<
    EnvPairView,
> {
    entries.map_values(
        |e: Entry| EnvPairView { key: key_of_labels(prefix, base + e.path), value: e.text },
    )
}

/// The entries that a list of pairs is parsed into: each key is cut
/// into its labels.
pub open spec fn parsed(prefix: Option<Seq<char>>, pairs: Seq<EnvPairView>) -> Seq<Entry> {
    pairs.map_values(|p: EnvPairView| Entry { path: parse_key(prefix, p.key), text: p.value })
}

/// Whether the paths of a list of entries are made of clean labels.
pub open spec fn clean_entries(entries: Seq<Entry>) -> bool {
    forall|i: int| 0 <= i < entries.len() ==> all_clean((#[trigger] entries[i]).path)
}

/// The key of a path is the key of its labels.
pub proof fn lemma_key_of_labels(prefix: Option<Seq<char>>, path: Seq<Segment>)
    ensures
        key_of(prefix, path) == key_of_labels(prefix, labels_of(path)),
        join_segments(path) == join_labels(labels_of(path)),
    decreases path.len(),
{
    if path.len() > 1 {
        lemma_key_of_labels(prefix, path.drop_last());
        assert(labels_of(path).drop_last() =~= labels_of(path.drop_last()));
    }
}

/// Leaves under a label below `base` are keyed as the leaves
/// themselves below `base` with the label.
pub proof fn lemma_keyed_under(
    prefix: Option<Seq<char>>,
    base: Seq<Seq<char>>,
    label: Seq<char>,
    entries: Seq<Entry>,
)
    ensures
        keyed(prefix, base, under(label, entries)) == keyed(prefix, base.push(label), entries),
{
    assert forall|i: int| 0 <= i < entries.len() implies keyed(prefix, base, under(label, entries))[i]
        == keyed(prefix, base.push(label), entries)[i] by {
        assert(base + (seq![label] + entries[i].path) =~= base.push(label) + entries[i].path);
    }
    assert(keyed(prefix, base, under(label, entries)) =~= keyed(prefix, base.push(label), entries));
}

/// Entries under a clean label are clean where the entries are.
pub proof fn lemma_clean_under(label: Seq<char>, entries: Seq<Entry>)
    requires
        is_clean(label),
        clean_entries(entries),
    ensures
        clean_entries(under(label, entries)),
{
    assert forall|i: int| 0 <= i < under(label, entries).len() implies all_clean(
        (#[trigger] under(label, entries)[i]).path,
    ) by {
        let path = under(label, entries)[i].path;
        assert(path == seq![label] + entries[i].path);
        assert forall|k: int| 0 <= k < path.len() implies is_clean(#[trigger] path[k]) by {
            if k > 0 {
                assert(path[k] == entries[i].path[k - 1]);
            }
        }
    }
}

/// The first `n` elements of an admitted sequence flatten without
/// failure to their leaves, keyed below the path of the sequence, and
/// the paths of those leaves are made of clean labels.
pub proof fn lemma_walk_items(
    items: Seq<ValueView>,
    n: nat,
    prefix: Option<Seq<char>>,
    path: Seq<Segment>,
)
    requires
        n <= items.len(),
        admitted_items(items, n),
    ensures
        walk_items(items, n, prefix, path).failure is None,
        walk_items(items, n, prefix, path).pairs == keyed(
            prefix,
            labels_of(path),
            item_leaves(items, n),
        ),
        clean_entries(item_leaves(items, n)),
    decreases items, n,
{
    if n > 0 {
        let label = decimal_nat((n - 1) as nat);
        let inner = path.push(Segment::Index((n - 1) as nat));
        lemma_walk_items(items, (n - 1) as nat, prefix, path);
        lemma_walk(items[n - 1], prefix, inner);
        assert(labels_of(inner) =~= labels_of(path).push(label));
        lemma_keyed_under(prefix, labels_of(path), label, leaves(items[n - 1]));
        lemma_decimal_clean((n - 1) as nat);
        lemma_clean_under(label, leaves(items[n - 1]));
        assert(keyed(prefix, labels_of(path), item_leaves(items, n)) =~= keyed(
            prefix,
            labels_of(path),
            item_leaves(items, (n - 1) as nat),
        ) + keyed(prefix, labels_of(path), under(label, leaves(items[n - 1]))));
    } else {
        assert(keyed(prefix, labels_of(path), item_leaves(items, n)) =~= Seq::<
            EnvPairView,
        >::empty());
    }
}

/// The first `n` fields of an admitted record flatten without failure
/// to their leaves, keyed below the path of the record, and the paths
/// of those leaves are made of clean labels.
pub proof fn lemma_walk_fields(
    fields: Seq<FieldView>,
    n: nat,
    prefix: Option<Seq<char>>,
    path: Seq<Segment>,
)
    requires
        n <= fields.len(),
        admitted_fields(fields, n),
    ensures
        walk_fields(fields, n, prefix, path).failure is None,
        walk_fields(fields, n, prefix, path).pairs == keyed(
            prefix,
            labels_of(path),
            field_leaves(fields, n),
        ),
        clean_entries(field_leaves(fields, n)),
    decreases fields, n,
{
    if n > 0 {
        let label = str_uppercase(fields[n - 1].name);
        let inner = path.push(Segment::Name(label));
        lemma_walk_fields(fields, (n - 1) as nat, prefix, path);
        lemma_walk(fields[n - 1].value, prefix, inner);
        assert(labels_of(inner) =~= labels_of(path).push(label));
        lemma_keyed_under(prefix, labels_of(path), label, leaves(fields[n - 1].value));
        lemma_clean_under(label, leaves(fields[n - 1].value));
        assert(keyed(prefix, labels_of(path), field_leaves(fields, n)) =~= keyed(
            prefix,
            labels_of(path),
            field_leaves(fields, (n - 1) as nat),
        ) + keyed(prefix, labels_of(path), under(label, leaves(fields[n - 1].value))));
    } else {
        assert(keyed(prefix, labels_of(path), field_leaves(fields, n)) =~= Seq::<
            EnvPairView,
        >::empty());
    }
}

/// An admitted value flattens without failure to its leaves, keyed
/// below the path of the value, and the paths of its leaves are made
/// of clean labels.
pub proof fn lemma_walk(v: ValueView, prefix: Option<Seq<char>>, path: Seq<Segment>)
    requires
        admitted(v),
    ensures
        walk(v, prefix, path).failure is None,
        walk(v, prefix, path).pairs == keyed(prefix, labels_of(path), leaves(v)),
        clean_entries(leaves(v)),
    decreases v, 0nat,
{
    match v {
        ValueView::Present(inner) => {
            lemma_walk(*inner, prefix, path);
        },
        ValueView::Sequence(items) => {
            lemma_walk_items(items, items.len(), prefix, path);
        },
        ValueView::Record(fields) => {
            lemma_walk_fields(fields, fields.len(), prefix, path);
        },
        ValueView::Unit => {
            assert(keyed(prefix, labels_of(path), leaves(v)) =~= Seq::<EnvPairView>::empty());
        },
        ValueView::Absent => {
            assert(keyed(prefix, labels_of(path), leaves(v)) =~= Seq::<EnvPairView>::empty());
        },
        _ => {
            lemma_key_of_labels(prefix, path);
            assert(labels_of(path) + Seq::<Seq<char>>::empty() =~= labels_of(path));
            assert(keyed(prefix, labels_of(path), leaves(v)) =~= walk(v, prefix, path).pairs);
        },
    }
}

/// Flattening and parsing back: the pairs that an admitted value
/// flattens to, each key cut into its labels again, build up the
/// nested map of the value.
pub proof fn lemma_flatten_round_trip(v: ValueView, prefix: Option<Seq<char>>)
    requires
        admitted(v),
    ensures
        walk(v, prefix, Seq::empty()).failure is None,
        unflatten(None, parsed(prefix, walk(v, prefix, Seq::empty()).pairs)) == shape_of(v),
{
    let root = Seq::<Segment>::empty();
    lemma_walk(v, prefix, root);
    lemma_tree_round_trip(v);
    let pairs = walk(v, prefix, root).pairs;
    assert(labels_of(root) =~= Seq::<Seq<char>>::empty());
    assert forall|i: int| 0 <= i < leaves(v).len() implies #[trigger] parsed(prefix, pairs)[i]
        == leaves(v)[i] by {
        let e = leaves(v)[i];
        assert(Seq::<Seq<char>>::empty() + e.path =~= e.path);
        lemma_parse_key(prefix, e.path);
    }
    assert(parsed(prefix, pairs) =~= leaves(v));
}

} // verus!
