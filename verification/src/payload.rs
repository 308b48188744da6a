//! The keyword payload of a toolkit call.
//!
//! The toolkit tells "argument not passed" from "argument passed as nothing":
//! the first leaves the toolkit's own default in force, the second overrides
//! it.  So an absent setting contributes no key at all.
use crate::plain::Plain;
use crate::text::str_eq;
use crate::value::{names_distinct, Field, FieldView, Value, ValueView};
use vstd::prelude::*;

verus! {

/// The fields of `fields` that hold a value, in their order.
pub open spec fn present(fields: Seq<FieldView>) -> Seq<FieldView>
    decreases fields.len(),
{
    if fields.len() == 0 {
        Seq::empty()
    } else if fields.last().value is Null {
        present(fields.drop_last())
    } else {
        present(fields.drop_last()).push(fields.last())
    }
}

/// `fields` with the value of its field number `index` replaced by `value`.
pub open spec fn with_value(
    fields: Seq<FieldView>,
    index: int,
    value: ValueView,
) -> Seq<FieldView> {
    fields.update(index, FieldView { name: fields[index].name, value })
}

/// An ordered mapping from keys to values, as a call takes its keyword
/// arguments.
#[derive(Clone, Debug, PartialEq)]
pub struct PyDict {
    pub entries: Vec<Field>,
}

impl DeepView for PyDict {
    type V = Seq<FieldView>;

    open spec fn deep_view(&self) -> Seq<FieldView> {
        self.entries.deep_view()
    }
}

impl View for PyDict {
    type V = Seq<FieldView>;

    open spec fn view(&self) -> Seq<FieldView> {
        self.entries.deep_view()
    }
}

impl PyDict {
    /// The mapping without any key.
    pub fn new() -> (dict: PyDict)
        ensures
            dict@ == Seq::<FieldView>::empty(),
    {
        let dict = PyDict { entries: Vec::new() };
        assert(dict@ =~= Seq::<FieldView>::empty());
        dict
    }

    /// The number of keys.
    pub fn len(&self) -> (count: usize)
        ensures
            count == self@.len(),
    {
        self.entries.len()
    }

    /// The value under the first entry with `key`, if there is one.
    pub fn get(&self, key: &str) -> (found: Option<&Value>)
        ensures
            match found {
                Some(value) => exists|i: int|
                    0 <= i < self@.len() && self@[i].name == key@ && self@[i].value == value@
                        && forall|j: int| 0 <= j < i ==> self@[j].name != key@,
                None => forall|i: int| 0 <= i < self@.len() ==> self@[i].name != key@,
            },
    {
        let mut i: usize = 0;
        while i < self.entries.len()
            invariant
                i <= self.entries.len(),
                forall|j: int| 0 <= j < i ==> self@[j].name != key@,
            decreases self.entries.len() - i,
        {
            if str_eq(self.entries[i].name.as_str(), key) {
                assert(self@[i as int].name == key@);
                return Some(&self.entries[i].value);
            }
            i += 1;
        }
        None
    }
}

/// Marshals named values into a payload: every field that holds a value
/// becomes an entry under its name, in the order of `fields`; a field that
/// holds none leaves no trace.
pub fn marshal(fields: &Vec<Field>) -> (dict: PyDict)
    ensures
        dict@ == present(fields.deep_view()),
{
    let mut entries: Vec<Field> = Vec::new();
    let mut i: usize = 0;
    assert(fields.deep_view().take(0) =~= Seq::<FieldView>::empty());
    assert(entries.deep_view() =~= Seq::<FieldView>::empty());
    while i < fields.len()
        invariant
            i <= fields.len(),
            entries.deep_view() == present(fields.deep_view().take(i as int)),
        decreases fields.len() - i,
    {
        let ghost before = entries.deep_view();
        let ghost all = fields.deep_view();
        assert(all.take(i + 1).drop_last() =~= all.take(i as int));
        assert(all.take(i + 1).last() == fields[i as int].deep_view());
        if !fields[i].value.is_null() {
            entries.push(fields[i].copy());
            assert(entries.deep_view() =~= before.push(fields[i as int].deep_view()));
        }
        i += 1;
    }
    assert(fields.deep_view().take(fields.len() as int) =~= fields.deep_view());
    PyDict { entries }
}

/// Marshalling distributes over concatenation: what one field contributes
/// does not depend on the fields around it.
pub proof fn lemma_present_concat(a: Seq<FieldView>, b: Seq<FieldView>)
    ensures
        present(a + b) == present(a) + present(b),
    decreases b.len(),
{
    if b.len() == 0 {
        assert(a + b =~= a);
        assert(present(a) + present(b) =~= present(a));
    } else {
        lemma_present_concat(a, b.drop_last());
        assert((a + b).drop_last() =~= a + b.drop_last());
        assert((a + b).last() == b.last());
        if b.last().value is Null {
        } else {
            assert(present(a + b) =~= present(a) + present(b));
        }
    }
}

/// Omission: fields of which none holds a value marshal into the mapping
/// without any key.
pub proof fn lemma_nothing_set_marshals_empty(fields: Seq<FieldView>)
    requires
        forall|i: int| 0 <= i < fields.len() ==> fields[i].value is Null,
    ensures
        present(fields) == Seq::<FieldView>::empty(),
    decreases fields.len(),
{
    if fields.len() > 0 {
        lemma_nothing_set_marshals_empty(fields.drop_last());
    }
}

/// Fields that all hold a value marshal into themselves.
pub proof fn lemma_all_set_marshals_all(fields: Seq<FieldView>)
    requires
        forall|i: int| 0 <= i < fields.len() ==> !(fields[i].value is Null),
    ensures
        present(fields) == fields,
    decreases fields.len(),
{
    if fields.len() > 0 {
        lemma_all_set_marshals_all(fields.drop_last());
        assert(fields.drop_last().push(fields.last()) =~= fields);
    }
}

/// A payload never holds a key without a value, and holds nothing that is
/// not a field.
pub proof fn lemma_present_entries(fields: Seq<FieldView>)
    ensures
        present(fields).len() <= fields.len(),
        forall|k: int|
            0 <= k < present(fields).len() ==> !(#[trigger] present(fields)[k].value is Null)
                && fields.contains(present(fields)[k]),
        forall|i: int|
            0 <= i < fields.len() && !(fields[i].value is Null) ==> present(fields).contains(
                #[trigger] fields[i],
            ),
    decreases fields.len(),
{
    if fields.len() > 0 {
        let rest = fields.drop_last();
        lemma_present_entries(rest);
        assert forall|k: int| 0 <= k < present(fields).len() implies !(
        #[trigger] present(fields)[k].value is Null) && fields.contains(present(fields)[k]) by {
            if k < present(rest).len() {
                assert(present(fields)[k] == present(rest)[k]);
                let j = choose|j: int| 0 <= j < rest.len() && rest[j] == present(rest)[k];
                assert(fields[j] == present(fields)[k]);
            } else {
                assert(fields[fields.len() - 1] == present(fields)[k]);
            }
        }
        assert forall|i: int|
            0 <= i < fields.len() && !(fields[i].value is Null) implies present(fields).contains(
            #[trigger] fields[i],
        ) by {
            if i < rest.len() {
                assert(rest[i] == fields[i]);
                let k = choose|k: int| 0 <= k < present(rest).len() && present(rest)[k] == rest[i];
                assert(present(fields)[k] == fields[i]);
            } else {
                assert(present(fields)[present(fields).len() - 1] == fields[i]);
            }
        }
    }
}

/// Whether `entries` are those of a mapping: no key occurs twice and every
/// key has a value.
pub open spec fn is_mapping(entries: Seq<FieldView>) -> bool {
    &&& names_distinct(entries)
    &&& forall|k: int| 0 <= k < entries.len() ==> !(#[trigger] entries[k].value is Null)
}

/// The fields that hold a value keep their order: of two entries of the
/// payload, the earlier one is the earlier field.
pub proof fn lemma_present_keeps_order(fields: Seq<FieldView>, a: int, b: int)
    requires
        0 <= a < b < present(fields).len(),
    ensures
        exists|i: int, j: int|
            0 <= i < j < fields.len() && fields[i] == present(fields)[a] && fields[j] == present(
                fields,
            )[b],
    decreases fields.len(),
{
    let rest = fields.drop_last();
    let last = fields.len() - 1;
    if b < present(rest).len() {
        lemma_present_keeps_order(rest, a, b);
        let (i, j) = choose|i: int, j: int|
            0 <= i < j < rest.len() && rest[i] == present(rest)[a] && rest[j] == present(rest)[b];
        assert(fields[i] == present(fields)[a] && fields[j] == present(fields)[b]);
    } else {
        lemma_present_entries(rest);
        assert(b == present(rest).len());
        assert(!(present(rest)[a].value is Null));
        assert(rest.contains(present(rest)[a]));
        let i = choose|i: int| 0 <= i < rest.len() && rest[i] == present(rest)[a];
        assert(fields[i] == present(fields)[a] && fields[last] == present(fields)[b]);
    }
}

/// Fields with distinct names marshal into a mapping.
pub proof fn lemma_present_is_mapping(fields: Seq<FieldView>)
    requires
        names_distinct(fields),
    ensures
        is_mapping(present(fields)),
{
    lemma_present_entries(fields);
    assert forall|a: int, b: int| 0 <= a < b < present(fields).len() implies present(
        fields,
    )[a].name != present(fields)[b].name by {
        lemma_present_keeps_order(fields, a, b);
    }
}

/// Independence: giving one field a value puts exactly that entry into the
/// payload, between what the fields before it and the fields after it
/// contribute, and those contributions are the same as before.
pub proof fn lemma_set_field_independent(
    fields: Seq<FieldView>,
    index: int,
    value: ValueView,
)
    requires
        0 <= index < fields.len(),
        !(value is Null),
    ensures
        present(with_value(fields, index, value)) == present(fields.take(index)).push(
            FieldView { name: fields[index].name, value },
        ) + present(fields.skip(index + 1)),
        present(fields) == present(fields.take(index)) + present(seq![fields[index]]) + present(
            fields.skip(index + 1),
        ),
        present(with_value(fields, index, value)).contains(
            FieldView { name: fields[index].name, value },
        ),
{
    let entry = FieldView { name: fields[index].name, value };
    let changed = with_value(fields, index, value);
    let before = fields.take(index);
    let after = fields.skip(index + 1);
    assert(changed =~= before + seq![entry] + after);
    assert(fields =~= before + seq![fields[index]] + after);
    lemma_present_concat(before + seq![entry], after);
    lemma_present_concat(before, seq![entry]);
    lemma_present_concat(before + seq![fields[index]], after);
    lemma_present_concat(before, seq![fields[index]]);
    assert(present(seq![entry]) =~= seq![entry]) by {
        assert(seq![entry].drop_last() =~= Seq::<FieldView>::empty());
        assert(present(Seq::<FieldView>::empty()) =~= Seq::<FieldView>::empty());
        assert(seq![entry].last() == entry);
    }
    assert(present(before) + seq![entry] =~= present(before).push(entry));
    let result = present(changed);
    assert(result[present(before).len() as int] == entry);
}

} // verus!
