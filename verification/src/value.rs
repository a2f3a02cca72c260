//! The decoded wire values that shape resolution inspects: a JSON-like
//! structured value, reduced to the distinctions the decoder makes.

use vstd::prelude::*;

verus! {

broadcast use vstd::seq::axiom_seq_index_decreases, vstd::seq::axiom_seq_subrange_decreases,
    vstd::std_specs::vec::axiom_vec_decreases_to_view;

/// A structured wire value.  `Other` stands for any value that is neither a
/// string, an array, nor a record (a null, boolean or number): the decoder
/// treats all of those alike.
#[derive(Debug)]
pub enum Value {
    /// A string.
    Text(String),
    /// An array, in wire order.
    Array(Vec<Value>),
    /// A record: its fields as (key, value) pairs, in wire order.
    Record(Vec<(String, Value)>),
    /// Any other value.
    Other,
}

/// The mathematical counterpart of `Value`.
#[verifier::ext_equal]
pub enum ValueModel {
    Text(Seq<char>),
    Array(Seq<ValueModel>),
    Record(Seq<(Seq<char>, ValueModel)>),
    Other,
}

impl View for Value {
    type V = ValueModel;

    open spec fn view(&self) -> ValueModel
        decreases self,
    {
        match self {
            Value::Text(s) => ValueModel::Text(s@),
            Value::Array(items) => ValueModel::Array(view_items(items@)),
            Value::Record(fields) => ValueModel::Record(view_fields(fields@)),
            Value::Other => ValueModel::Other,
        }
    }
}

/// The models of an array's elements, in order.
pub open spec fn view_items(items: Seq<Value>) -> Seq<ValueModel>
    decreases items,
{
    if items.len() == 0 {
        Seq::empty()
    } else {
        seq![items[0]@] + view_items(items.subrange(1, items.len() as int))
    }
}

/// The models of a record's fields, in order.
pub open spec fn view_fields(fields: Seq<(String, Value)>) -> Seq<(Seq<char>, ValueModel)>
    decreases fields,
{
    if fields.len() == 0 {
        Seq::empty()
    } else {
        seq![(fields[0].0@, fields[0].1@)] + view_fields(fields.subrange(1, fields.len() as int))
    }
}

/// An array's element models are its elements' models, pointwise.
pub broadcast proof fn lemma_view_items(items: Seq<Value>)
    ensures
        (#[trigger] view_items(items)).len() == items.len(),
        forall|i: int| 0 <= i < items.len() ==> view_items(items)[i] == items[i]@,
    decreases items,
{
    if items.len() > 0 {
        let rest = items.subrange(1, items.len() as int);
        lemma_view_items(rest);
        assert(view_items(items) == seq![items[0]@] + view_items(rest));
        assert(view_items(items).len() == items.len());
        assert forall|i: int| 0 <= i < items.len() implies view_items(items)[i] == items[i]@ by {
            if i > 0 {
                assert(view_items(items)[i] == view_items(rest)[i - 1]);
                assert(rest[i - 1] == items[i]);
            }
        }
    }
}

/// A record's field models are its fields' models, pointwise.
pub broadcast proof fn lemma_view_fields(fields: Seq<(String, Value)>)
    ensures
        (#[trigger] view_fields(fields)).len() == fields.len(),
        forall|i: int| 0 <= i < fields.len() ==> view_fields(fields)[i] == (
            fields[i].0@,
            fields[i].1@,
        ),
    decreases fields,
{
    if fields.len() > 0 {
        let rest = fields.subrange(1, fields.len() as int);
        lemma_view_fields(rest);
        assert(view_fields(fields) == seq![(fields[0].0@, fields[0].1@)] + view_fields(rest));
        assert(view_fields(fields).len() == fields.len());
        assert forall|i: int| 0 <= i < fields.len() implies view_fields(fields)[i] == (
            fields[i].0@,
            fields[i].1@,
        ) by {
            if i > 0 {
                assert(view_fields(fields)[i] == view_fields(rest)[i - 1]);
                assert(rest[i - 1] == fields[i]);
            }
        }
    }
}

/// The value of the first field named `k`, if any.  Later fields under the
/// same key are shadowed, as a single-pass decoder would see them.
pub open spec fn record_get(fields: Seq<(Seq<char>, ValueModel)>, k: Seq<char>) -> Option<ValueModel>
    decreases fields.len(),
{
    if fields.len() == 0 {
        None
    } else if fields[0].0 == k {
        Some(fields[0].1)
    } else {
        record_get(fields.drop_first(), k)
    }
}

/// Appending one element appends its model.
pub proof fn lemma_view_items_push(items: Seq<Value>, item: Value)
    ensures
        view_items(items.push(item)) == view_items(items).push(item@),
{
    lemma_view_items(items);
    lemma_view_items(items.push(item));
    assert(view_items(items.push(item)) =~= view_items(items).push(item@));
}

/// Appending one field appends its model.
pub proof fn lemma_view_fields_push(fields: Seq<(String, Value)>, entry: (String, Value))
    ensures
        view_fields(fields.push(entry)) == view_fields(fields).push((entry.0@, entry.1@)),
{
    lemma_view_fields(fields);
    lemma_view_fields(fields.push(entry));
    assert(view_fields(fields.push(entry)) =~= view_fields(fields).push((entry.0@, entry.1@)));
}

proof fn lemma_record_get_at(fields: Seq<(Seq<char>, ValueModel)>, k: Seq<char>, i: int)
    requires
        0 <= i < fields.len(),
        forall|j: int| 0 <= j < i ==> fields[j].0 != k,
        fields[i].0 == k,
    ensures
        record_get(fields, k) == Some(fields[i].1),
    decreases i,
{
    if i > 0 {
        lemma_record_get_at(fields.drop_first(), k, i - 1);
    }
}

proof fn lemma_record_get_none(fields: Seq<(Seq<char>, ValueModel)>, k: Seq<char>)
    requires
        forall|j: int| 0 <= j < fields.len() ==> fields[j].0 != k,
    ensures
        record_get(fields, k) is None,
    decreases fields.len(),
{
    if fields.len() > 0 {
        lemma_record_get_none(fields.drop_first(), k);
    }
}

/// True when two strings hold the same characters.
pub fn str_eq(a: &str, b: &str) -> (r: bool)
    ensures
        r == (a@ == b@),
{
    let owned_a = a.to_owned();
    let owned_b = b.to_owned();
    owned_a == owned_b
}

/// Looks up the first field named `key` in a record's field list.
pub fn lookup<'a>(fields: &'a Vec<(String, Value)>, key: &str) -> (r: Option<&'a Value>)
    ensures
        match r {
            Some(v) => record_get(view_fields(fields@), key@) == Some(v@),
            None => record_get(view_fields(fields@), key@) is None,
        },
{
    proof {
        lemma_view_fields(fields@);
    }
    let n = fields.len();
    let mut i: usize = 0;
    while i < n
        invariant
            n == fields@.len(),
            0 <= i <= n,
            forall|j: int| 0 <= j < i ==> fields@[j].0@ != key@,
        decreases n - i,
    {
        proof {
            lemma_view_fields(fields@);
        }
        if str_eq(fields[i].0.as_str(), key) {
            proof {
                lemma_record_get_at(view_fields(fields@), key@, i as int);
            }
            return Some(&fields[i].1);
        }
        i += 1;
    }
    proof {
        lemma_record_get_none(view_fields(fields@), key@);
    }
    None
}

} // verus!
