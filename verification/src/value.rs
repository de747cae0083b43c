//! The structured values that the adapter hands to Nushell.

use vstd::prelude::*;

verus! {

/// A Nu value produced by the adapter.
#[derive(Debug)]
pub enum NuValue {
    /// The absence of a value.
    Nothing,
    /// A boolean.
    Bool(bool),
    /// A 64-bit integer.
    Int(i64),
    /// A floating-point number, held as its decimal text.
    Float(String),
    /// A string.
    String(String),
    /// Raw bytes.
    Binary(Vec<u8>),
    /// A list of values.
    List(Vec<NuValue>),
    /// A record: named fields in order.
    Record(Vec<(String, NuValue)>),
}

/// The mathematical content of a [`NuValue`].
pub enum NuModel {
    Nothing,
    Bool(bool),
    Int(int),
    Float(Seq<char>),
    Str(Seq<char>),
    Binary(Seq<u8>),
    List(Seq<NuModel>),
    Record(Seq<(Seq<char>, NuModel)>),
}

/// The models of a sequence of values.
pub open spec fn nu_models(vs: Seq<NuValue>) -> Seq<NuModel>
    decreases vs,
{
    if vs.len() == 0 {
        Seq::empty()
    } else {
        nu_models(vs.subrange(0, vs.len() - 1)).push(nu_model(vs[vs.len() - 1]))
    }
}

/// The models of a sequence of record fields.
pub open spec fn nu_field_models(fs: Seq<(String, NuValue)>) -> Seq<(Seq<char>, NuModel)>
    decreases fs,
{
    if fs.len() == 0 {
        Seq::empty()
    } else {
        nu_field_models(fs.subrange(0, fs.len() - 1)).push(
            (fs[fs.len() - 1].0@, nu_model(fs[fs.len() - 1].1)),
        )
    }
}

/// The model of a value.
pub open spec fn nu_model(v: NuValue) -> NuModel
    decreases v,
{
    match v {
        NuValue::Nothing => NuModel::Nothing,
        NuValue::Bool(b) => NuModel::Bool(b),
        NuValue::Int(i) => NuModel::Int(i as int),
        NuValue::Float(t) => NuModel::Float(t@),
        NuValue::String(s) => NuModel::Str(s@),
        NuValue::Binary(b) => NuModel::Binary(b@),
        NuValue::List(vs) => NuModel::List(nu_models(vs@)),
        NuValue::Record(fs) => NuModel::Record(nu_field_models(fs@)),
    }
}

/// The models of a sequence of values are, one for one and in order, the
/// models of its values.
pub proof fn lemma_models_one_for_one(vs: Seq<NuValue>, fs: Seq<(String, NuValue)>)
    ensures
        nu_models(vs).len() == vs.len(),
        forall|k: int| 0 <= k < vs.len() ==> nu_models(vs)[k] == nu_model(#[trigger] vs[k]),
        nu_field_models(fs).len() == fs.len(),
        forall|k: int|
            0 <= k < fs.len() ==> nu_field_models(fs)[k] == ((#[trigger] fs[k]).0@, nu_model(
                fs[k].1,
            )),
    decreases vs.len() + fs.len(),
{
    if vs.len() > 0 {
        let prefix = vs.subrange(0, vs.len() - 1);
        lemma_models_one_for_one(prefix, fs);
        assert forall|k: int| 0 <= k < vs.len() implies nu_models(vs)[k] == nu_model(
            #[trigger] vs[k],
        ) by {
            if k < vs.len() - 1 {
                assert(prefix[k] == vs[k]);
            }
        }
    }
    if fs.len() > 0 {
        let prefix = fs.subrange(0, fs.len() - 1);
        lemma_models_one_for_one(vs, prefix);
        assert forall|k: int| 0 <= k < fs.len() implies nu_field_models(fs)[k] == (
            (#[trigger] fs[k]).0@,
            nu_model(fs[k].1),
        ) by {
            if k < fs.len() - 1 {
                assert(prefix[k] == fs[k]);
            }
        }
    }
}

/// A value's model carries exactly its content: each kind of value maps to
/// the same kind with the same scalar, text or bytes, and a list or record
/// maps to one model per element or field, in order, with the same names.
pub proof fn lemma_model_is_faithful(v: NuValue)
    ensures
        v is Nothing ==> v@ == NuModel::Nothing,
        v matches NuValue::Bool(b) ==> v@ == NuModel::Bool(b),
        v matches NuValue::Int(i) ==> v@ == NuModel::Int(i as int),
        v matches NuValue::Float(t) ==> v@ == NuModel::Float(t@),
        v matches NuValue::String(s) ==> v@ == NuModel::Str(s@),
        v matches NuValue::Binary(b) ==> v@ == NuModel::Binary(b@),
        v matches NuValue::List(vs) ==> (v@ matches NuModel::List(ms) && ms.len() == vs@.len()
            && (forall|k: int| 0 <= k < ms.len() ==> ms[k] == (#[trigger] vs@[k])@)),
        v matches NuValue::Record(fs) ==> (v@ matches NuModel::Record(ms) && ms.len()
            == fs@.len() && (forall|k: int|
            0 <= k < ms.len() ==> ms[k] == ((#[trigger] fs@[k]).0@, fs@[k].1@))),
{
    match v {
        NuValue::List(vs) => lemma_models_one_for_one(vs@, Seq::empty()),
        NuValue::Record(fs) => lemma_models_one_for_one(Seq::empty(), fs@),
        _ => {},
    }
}

impl View for NuValue {
    type V = NuModel;

    open spec fn view(&self) -> NuModel {
        nu_model(*self)
    }
}

} // verus!
