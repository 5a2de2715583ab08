use vstd::prelude::*;

verus! {

#[verifier::external_type_specification]
#[verifier::external_body]
pub struct ExJsonValue(serde_json::Value);

#[verifier::external_type_specification]
#[verifier::external_body]
#[verifier::reject_recursive_types(K)]
#[verifier::reject_recursive_types(V)]
pub struct ExJsonMap<K, V>(serde_json::Map<K, V>);

/// The text-valued entries that a data object holds: each key to its text.
pub uninterp spec fn obj_strings(m: serde_json::Map<String, serde_json::Value>) -> Map<
    Seq<char>,
    Seq<char>,
>;

/// The sequence-valued entries that a data object holds: each key to the
/// ordered texts under it.
pub uninterp spec fn obj_lists(m: serde_json::Map<String, serde_json::Value>) -> Map<
    Seq<char>,
    Seq<Seq<char>>,
>;

/// Whether every entry of the data object has one of the two recorded
/// shapes: a text recorded in `obj_strings`, or a sequence of texts recorded
/// in `obj_lists`.
pub uninterp spec fn obj_wf(m: serde_json::Map<String, serde_json::Value>) -> bool;

/// The text bindings of an object that holds none.
pub open spec fn no_texts() -> Map<Seq<char>, Seq<char>> {
    Map::empty()
}

/// The sequence bindings of an object that holds none.
pub open spec fn no_seqs() -> Map<Seq<char>, Seq<Seq<char>>> {
    Map::empty()
}

/// Relies on serde_json::Map::new: a fresh data object holds no entry.
#[verifier::external_body]
pub(crate) fn obj_new() -> (m: serde_json::Map<String, serde_json::Value>)
    ensures
        obj_strings(m) == no_texts(),
        obj_lists(m) == no_seqs(),
        obj_wf(m),
{
    serde_json::Map::new()
}

/// Relies on serde_json::Map::insert and serde_json::Value::String: binds
/// the key to the text, replacing whatever entry the key held before.
#[verifier::external_body]
pub(crate) fn obj_insert_text(m: &mut serde_json::Map<String, serde_json::Value>, k: &str, v: &str)
    ensures
        obj_strings(*final(m)) == obj_strings(*old(m)).insert(k@, v@),
        obj_lists(*final(m)) == obj_lists(*old(m)).remove(k@),
        obj_wf(*old(m)) ==> obj_wf(*final(m)),
{
    m.insert(k.to_string(), serde_json::Value::String(v.to_string()));
}

/// Relies on serde_json::Map::insert and on serde_json's Vec-to-Value
/// conversion, which turns a vector of texts into an array of texts in the
/// same order: binds the key to the sequence, replacing whatever entry the
/// key held before.
#[verifier::external_body]
pub(crate) fn obj_insert_list(
    m: &mut serde_json::Map<String, serde_json::Value>,
    k: &str,
    v: &[String],
)
    ensures
        obj_lists(*final(m)) == obj_lists(*old(m)).insert(k@, v.deep_view()),
        obj_strings(*final(m)) == obj_strings(*old(m)).remove(k@),
        obj_wf(*old(m)) ==> obj_wf(*final(m)),
{
    m.insert(k.to_string(), serde_json::Value::from(v.to_vec()));
}

} // verus!
