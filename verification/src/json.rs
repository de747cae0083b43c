//! JSON emitted by the backend, parsed by `serde_json` and turned into Nu
//! values.

use vstd::prelude::*;
use vstd::string::to_string_from_display_ensures;
use crate::text::{decimal, signed_decimal};
use crate::value::{NuModel, NuValue, nu_models, nu_field_models};

verus! {

/// The document type of `serde_json`.
#[verifier::external_type_specification]
#[verifier::external_body]
pub struct ExJsonValue(serde_json::Value);

/// The parse error of `serde_json`.
#[verifier::external_type_specification]
#[verifier::external_body]
pub struct ExJsonError(serde_json::Error);

/// The content of a JSON document as `serde_json` represents it.
pub enum JsonTree {
    Null,
    Bool(bool),
    /// An integer that `serde_json` holds exactly (as `i64` or `u64`).
    Integer(int),
    /// Any other number, as the decimal text that `serde_json` displays for it.
    Float(Seq<char>),
    Str(Seq<char>),
    Array(Seq<JsonTree>),
    /// Members in the order in which the parsed object yields them.
    Object(Seq<(Seq<char>, JsonTree)>),
}

/// What `serde_json::from_str::<serde_json::Value>` makes of a text: the
/// document, or `None` when the text is not JSON.
pub uninterp spec fn json_document(text: Seq<char>) -> Option<JsonTree>;

/// The text of the error that `serde_json::from_str::<serde_json::Value>`
/// reports for a text that is not JSON (its `Display`).
pub uninterp spec fn json_error_text(text: Seq<char>) -> Seq<char>;

/// What a `serde_json::Value` holds.
pub uninterp spec fn json_contents(value: serde_json::Value) -> JsonTree;

/// One level of a `serde_json::Value`: which kind of value it is, with its
/// scalar content or the children that it holds.
pub enum JsonNode<'a> {
    Null,
    Bool(bool),
    Number,
    Str(&'a String),
    Array(&'a Vec<serde_json::Value>),
    Object(Vec<(&'a String, &'a serde_json::Value)>),
}

/// Whether `node` is the top level of a value that holds `tree`.
pub open spec fn node_of(node: JsonNode, tree: JsonTree) -> bool {
    match node {
        JsonNode::Null => tree == JsonTree::Null,
        JsonNode::Bool(b) => tree == JsonTree::Bool(b),
        JsonNode::Number => match tree {
            JsonTree::Integer(n) => i64::MIN <= n <= u64::MAX,
            JsonTree::Float(_) => true,
            _ => false,
        },
        JsonNode::Str(s) => tree == JsonTree::Str(s@),
        JsonNode::Array(items) => match tree {
            JsonTree::Array(children) => {
                &&& items@.len() == children.len()
                &&& forall|k: int|
                    0 <= k < children.len() ==> json_contents(#[trigger] items@[k]) == children[k]
            },
            _ => false,
        },
        JsonNode::Object(members) => match tree {
            JsonTree::Object(children) => {
                &&& members@.len() == children.len()
                &&& forall|k: int|
                    0 <= k < children.len() ==> (#[trigger] members@[k]).0@ == children[k].0
                        && json_contents(*members@[k].1) == children[k].1
            },
            _ => false,
        },
    }
}

/// Parse `text` as one JSON document.
///
/// Trusted: it calls `serde_json::from_str::<serde_json::Value>`, whose
/// result, and the display text of its error, depend on `text` alone; the
/// contract names both.
#[verifier::external_body]
pub(crate) fn json_from_str(text: &str) -> (r: Result<serde_json::Value, serde_json::Error>)
    ensures
        r is Ok <==> json_document(text@) is Some,
        r matches Ok(v) ==> json_document(text@) == Some(json_contents(v)),
        r matches Err(e) ==> forall|s: String|
            #[trigger] to_string_from_display_ensures::<serde_json::Error>(&e, s) ==> s@
                == json_error_text(text@),
{
    serde_json::from_str(text)
}

/// The top level of `value`.
///
/// Trusted: it matches on the variants of `serde_json::Value`, one arm each,
/// and hands out an object's members, in the order of
/// `serde_json::Map::iter`. A number is an integer that `serde_json` holds
/// exactly (as `i64` or `u64`) or a float.
#[verifier::external_body]
pub(crate) fn json_node(value: &serde_json::Value) -> (r: JsonNode<'_>)
    ensures
        node_of(r, json_contents(*value)),
{
    match value {
        serde_json::Value::Null => JsonNode::Null,
        serde_json::Value::Bool(b) => JsonNode::Bool(*b),
        serde_json::Value::Number(_) => JsonNode::Number,
        serde_json::Value::String(s) => JsonNode::Str(s),
        serde_json::Value::Array(items) => JsonNode::Array(items),
        serde_json::Value::Object(members) => JsonNode::Object(members.iter().collect()),
    }
}

/// `value` as an `i64`.
///
/// Trusted: it calls `serde_json::Value::as_i64`, which represents an integer
/// that fits in `i64` and returns `None` for anything else.
#[verifier::external_body]
pub(crate) fn json_as_i64(value: &serde_json::Value) -> (r: Option<i64>)
    ensures
        r == (match json_contents(*value) {
            JsonTree::Integer(n) => if i64::MIN <= n <= i64::MAX {
                Some(n as i64)
            } else {
                None
            },
            _ => None,
        }),
{
    value.as_i64()
}

/// `value` as a `u64`.
///
/// Trusted: it calls `serde_json::Value::as_u64`, which represents an integer
/// that fits in `u64` and returns `None` for anything else.
#[verifier::external_body]
pub(crate) fn json_as_u64(value: &serde_json::Value) -> (r: Option<u64>)
    ensures
        r == (match json_contents(*value) {
            JsonTree::Integer(n) => if 0 <= n <= u64::MAX {
                Some(n as u64)
            } else {
                None
            },
            _ => None,
        }),
{
    value.as_u64()
}

/// The JSON text of `value`.
///
/// Trusted: it calls `serde_json::Value`'s `Display`, which writes a float
/// as the text that [`JsonTree::Float`] holds. The text of other values is
/// not stated.
#[verifier::external_body]
pub(crate) fn json_text(value: &serde_json::Value) -> (r: String)
    ensures
        json_contents(*value) matches JsonTree::Float(t) ==> r@ == t,
{
    value.to_string()
}

/// The Nu values of a sequence of JSON values.
pub open spec fn nu_of_jsons(items: Seq<JsonTree>) -> Seq<NuModel>
    decreases items,
{
    if items.len() == 0 {
        Seq::empty()
    } else {
        nu_of_jsons(items.subrange(0, items.len() - 1)).push(nu_of_json(items[items.len() - 1]))
    }
}

/// The Nu fields of a sequence of JSON object members.
pub open spec fn nu_of_members(members: Seq<(Seq<char>, JsonTree)>) -> Seq<(Seq<char>, NuModel)>
    decreases members,
{
    if members.len() == 0 {
        Seq::empty()
    } else {
        nu_of_members(members.subrange(0, members.len() - 1)).push(
            (members[members.len() - 1].0, nu_of_json(members[members.len() - 1].1)),
        )
    }
}

/// The Nu value of a JSON value: `null` is nothing, scalars keep their
/// value, an integer that does not fit in `i64` becomes its decimal text,
/// arrays become lists and objects become records with the same members in
/// the same order.
pub open spec fn nu_of_json(j: JsonTree) -> NuModel
    decreases j,
{
    match j {
        JsonTree::Null => NuModel::Nothing,
        JsonTree::Bool(b) => NuModel::Bool(b),
        JsonTree::Integer(n) => if i64::MIN <= n <= i64::MAX {
            NuModel::Int(n)
        } else {
            NuModel::Str(signed_decimal(n))
        },
        JsonTree::Float(t) => NuModel::Float(t),
        JsonTree::Str(s) => NuModel::Str(s),
        JsonTree::Array(items) => NuModel::List(nu_of_jsons(items)),
        JsonTree::Object(members) => NuModel::Record(nu_of_members(members)),
    }
}

/// Converting an array keeps its shape: the list has one value per element,
/// in order.
pub proof fn lemma_list_keeps_shape(items: Seq<JsonTree>)
    ensures
        nu_of_jsons(items).len() == items.len(),
        forall|k: int| 0 <= k < items.len() ==> nu_of_jsons(items)[k] == nu_of_json(#[trigger] items[k]),
    decreases items.len(),
{
    if items.len() > 0 {
        let prefix = items.subrange(0, items.len() - 1);
        lemma_list_keeps_shape(prefix);
        assert forall|k: int| 0 <= k < items.len() implies nu_of_jsons(items)[k] == nu_of_json(
            #[trigger] items[k],
        ) by {
            if k < items.len() - 1 {
                assert(prefix[k] == items[k]);
            }
        }
    }
}

/// Converting an object keeps its shape: the record has the object's
/// members, with the same names, in the same order.
pub proof fn lemma_record_keeps_shape(members: Seq<(Seq<char>, JsonTree)>)
    ensures
        nu_of_members(members).len() == members.len(),
        forall|k: int|
            0 <= k < members.len() ==> nu_of_members(members)[k] == (
                (#[trigger] members[k]).0,
                nu_of_json(members[k].1),
            ),
    decreases members.len(),
{
    if members.len() > 0 {
        let prefix = members.subrange(0, members.len() - 1);
        lemma_record_keeps_shape(prefix);
        assert forall|k: int| 0 <= k < members.len() implies nu_of_members(members)[k] == (
            (#[trigger] members[k]).0,
            nu_of_json(members[k].1),
        ) by {
            if k < members.len() - 1 {
                assert(prefix[k] == members[k]);
            }
        }
    }
}

/// Every scalar converts to the Nu value with the same content: `null` is
/// nothing, a boolean stays that boolean, a float keeps its text, and a
/// string keeps exactly its characters, the empty string included.
pub proof fn lemma_scalars_convert_exactly(b: bool, t: Seq<char>, s: Seq<char>)
    ensures
        nu_of_json(JsonTree::Null) == NuModel::Nothing,
        nu_of_json(JsonTree::Bool(b)) == NuModel::Bool(b),
        nu_of_json(JsonTree::Float(t)) == NuModel::Float(t),
        nu_of_json(JsonTree::Str(s)) == NuModel::Str(s),
{
}

/// Every array, the empty one included, becomes a list of exactly its
/// converted elements in order, and every object, the empty one included,
/// becomes a record of exactly its members, with the same names in the same
/// order and converted values.
pub proof fn lemma_containers_convert_exactly(
    items: Seq<JsonTree>,
    members: Seq<(Seq<char>, JsonTree)>,
)
    ensures
        nu_of_json(JsonTree::Array(items)) matches NuModel::List(values) && values.len()
            == items.len() && (forall|k: int|
            0 <= k < items.len() ==> values[k] == nu_of_json(#[trigger] items[k])),
        nu_of_json(JsonTree::Object(members)) matches NuModel::Record(fields) && fields.len()
            == members.len() && (forall|k: int|
            0 <= k < members.len() ==> fields[k] == (
                (#[trigger] members[k]).0,
                nu_of_json(members[k].1),
            )),
{
    lemma_list_keeps_shape(items);
    lemma_record_keeps_shape(members);
}

/// JSON integers are never rounded: one that fits in `i64` stays that
/// integer, and a larger one becomes decimal text that reads back as exactly
/// that integer.
pub proof fn lemma_integers_are_not_rounded(n: int)
    requires
        i64::MIN <= n <= u64::MAX,
    ensures
        n <= i64::MAX ==> nu_of_json(JsonTree::Integer(n)) == NuModel::Int(n),
        n > i64::MAX ==> (nu_of_json(JsonTree::Integer(n)) matches NuModel::Str(s)
            && crate::text::decimal_value(s) == n),
{
    if n > i64::MAX {
        crate::text::lemma_decimal_reads_back(n as nat);
    }
}

/// Convert a JSON value into the Nu value that [`nu_of_json`] describes.
pub fn json_to_value(json: &serde_json::Value) -> (r: NuValue)
    ensures
        r@ == nu_of_json(json_contents(*json)),
    decreases json_contents(*json),
{
    let ghost tree = json_contents(*json);
    match json_node(json) {
        JsonNode::Null => NuValue::Nothing,
        JsonNode::Bool(b) => NuValue::Bool(b),
        JsonNode::Number => {
            if let Some(value) = json_as_i64(json) {
                NuValue::Int(value)
            } else if let Some(value) = json_as_u64(json) {
                if value <= i64::MAX as u64 {
                    NuValue::Int(value as i64)
                } else {
                    let text = crate::text::u64_decimal(value);
                    assert(signed_decimal(value as int) == decimal(value as nat));
                    NuValue::String(text)
                }
            } else {
                NuValue::Float(json_text(json))
            }
        },
        JsonNode::Str(s) => NuValue::String(s.clone()),
        JsonNode::Array(items) => {
            let ghost children = tree->Array_0;
            let mut out: Vec<NuValue> = Vec::new();
            let mut k: usize = 0;
            while k < items.len()
                invariant
                    tree == json_contents(*json),
                    tree == JsonTree::Array(children),
                    items@.len() == children.len(),
                    forall|m: int|
                        0 <= m < children.len() ==> json_contents(#[trigger] items@[m])
                            == children[m],
                    k <= items@.len(),
                    out@.len() == k,
                    nu_models(out@) == nu_of_jsons(children.subrange(0, k as int)),
                decreases items@.len() - k,
            {
                assert(json_contents(items@[k as int]) == children[k as int]);
                assert(decreases_to!(tree => tree->Array_0));
                assert(decreases_to!(children => children[k as int]));
                assert(decreases_to!(tree => children[k as int]));
                let v = json_to_value(&items[k]);
                let ghost before = out@;
                out.push(v);
                assert(out@.subrange(0, k as int) =~= before);
                assert(children.subrange(0, k + 1).subrange(0, k as int) =~= children.subrange(
                    0,
                    k as int,
                ));
                k = k + 1;
            }
            assert(children.subrange(0, k as int) =~= children);
            NuValue::List(out)
        },
        JsonNode::Object(members) => {
            let ghost children = tree->Object_0;
            let mut out: Vec<(String, NuValue)> = Vec::new();
            let mut k: usize = 0;
            while k < members.len()
                invariant
                    tree == json_contents(*json),
                    tree == JsonTree::Object(children),
                    members@.len() == children.len(),
                    forall|m: int|
                        0 <= m < children.len() ==> (#[trigger] members@[m]).0@ == children[m].0
                            && json_contents(*members@[m].1) == children[m].1,
                    k <= members@.len(),
                    out@.len() == k,
                    nu_field_models(out@) == nu_of_members(children.subrange(0, k as int)),
                decreases members@.len() - k,
            {
                let (key, member) = members[k];
                assert(json_contents(*member) == children[k as int].1);
                assert(decreases_to!(tree => tree->Object_0));
                assert(decreases_to!(children => children[k as int]));
                assert(decreases_to!(children[k as int] => children[k as int].1));
                assert(decreases_to!(tree => children[k as int].1));
                let v = json_to_value(member);
                let ghost before = out@;
                out.push((key.clone(), v));
                assert(out@.subrange(0, k as int) =~= before);
                assert(children.subrange(0, k + 1).subrange(0, k as int) =~= children.subrange(
                    0,
                    k as int,
                ));
                k = k + 1;
            }
            assert(children.subrange(0, k as int) =~= children);
            NuValue::Record(out)
        },
    }
}

} // verus!
