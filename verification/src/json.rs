//! A JSON-like value tree of the library's own, with a mathematical
//! view, plus the trusted frontier to `serde_yaml` / `serde_json` for
//! reading and writing text.
//!
//! Host variables, step-registered outputs and the serialized form of a
//! task list are all values of [`Json`]. Every rule the library proves
//! about them is stated over [`JsonV`], the spec-level mirror.

use vstd::prelude::*;

verus! {

/// A JSON value held as plain data.
pub enum Json {
    Null,
    Bool(bool),
    Int(i64),
    Str(String),
    Arr(Vec<Json>),
    Obj(Vec<(String, Json)>),
}

/// The mathematical mirror of [`Json`].
pub enum JsonV {
    Null,
    Bool(bool),
    Int(int),
    Str(Seq<char>),
    Arr(Seq<JsonV>),
    Obj(Seq<(Seq<char>, JsonV)>),
}

pub open spec fn view_arr(v: Seq<Json>) -> Seq<JsonV>
    decreases v,
{
    if v.len() == 0 {
        Seq::empty()
    } else {
        view_arr(v.drop_last()).push(v.last()@)
    }
}

pub open spec fn view_obj(v: Seq<(String, Json)>) -> Seq<(Seq<char>, JsonV)>
    decreases v,
{
    if v.len() == 0 {
        Seq::empty()
    } else {
        view_obj(v.drop_last()).push((v.last().0@, v.last().1@))
    }
}

impl View for Json {
    type V = JsonV;

    open spec fn view(&self) -> JsonV
        decreases self,
    {
        match self {
            Json::Null => JsonV::Null,
            Json::Bool(b) => JsonV::Bool(*b),
            Json::Int(i) => JsonV::Int(*i as int),
            Json::Str(s) => JsonV::Str(s@),
            Json::Arr(items) => JsonV::Arr(view_arr(items@)),
            Json::Obj(fields) => JsonV::Obj(view_obj(fields@)),
        }
    }
}

pub broadcast proof fn lemma_view_arr_len(v: Seq<Json>)
    ensures
        (#[trigger] view_arr(v)).len() == v.len(),
        forall|i: int| 0 <= i < v.len() ==> #[trigger] view_arr(v)[i] == v[i]@,
    decreases v,
{
    if v.len() > 0 {
        lemma_view_arr_len(v.drop_last());
        assert(view_arr(v) == view_arr(v.drop_last()).push(v.last()@));
        assert(v.drop_last().len() == v.len() - 1);
        assert forall|i: int| 0 <= i < v.len() implies #[trigger] view_arr(v)[i] == v[i]@ by {
            if i < v.len() - 1 {
                assert(v.drop_last()[i] == v[i]);
            }
        }
    }
}

pub broadcast proof fn lemma_view_obj_len(v: Seq<(String, Json)>)
    ensures
        (#[trigger] view_obj(v)).len() == v.len(),
        forall|i: int|
            0 <= i < v.len() ==> #[trigger] view_obj(v)[i] == (v[i].0@, v[i].1@),
    decreases v,
{
    if v.len() > 0 {
        lemma_view_obj_len(v.drop_last());
        assert(view_obj(v) == view_obj(v.drop_last()).push((v.last().0@, v.last().1@)));
        assert(v.drop_last().len() == v.len() - 1);
        assert forall|i: int|
            0 <= i < v.len() implies #[trigger] view_obj(v)[i] == (v[i].0@, v[i].1@) by {
            if i < v.len() - 1 {
                assert(v.drop_last()[i] == v[i]);
            }
        }
    }
}

/// The value under the first field named `key`, in an object's fields.
pub open spec fn spec_obj_lookup(fields: Seq<(Seq<char>, JsonV)>, key: Seq<char>) -> Option<
    JsonV,
>
    decreases fields,
{
    if fields.len() == 0 {
        None
    } else if fields.first().0 == key {
        Some(fields.first().1)
    } else {
        spec_obj_lookup(fields.drop_first(), key)
    }
}

/// A key found at position `i`, with no earlier occurrence, is what the
/// lookup returns.
pub proof fn lemma_lookup_at(fields: Seq<(Seq<char>, JsonV)>, i: int, key: Seq<char>)
    requires
        0 <= i < fields.len(),
        fields[i].0 == key,
        forall|j: int| 0 <= j < i ==> (#[trigger] fields[j]).0 != key,
    ensures
        spec_obj_lookup(fields, key) == Some(fields[i].1),
    decreases i,
{
    if i == 0 {
    } else {
        assert(fields.first().0 != key);
        assert forall|j: int| 0 <= j < i - 1 implies (#[trigger] fields.drop_first()[j]).0
            != key by {
            assert(fields.drop_first()[j] == fields[j + 1]);
        }
        assert(fields.drop_first()[i - 1] == fields[i]);
        lemma_lookup_at(fields.drop_first(), i - 1, key);
    }
}

/// A key occurring nowhere is what the lookup misses.
pub proof fn lemma_lookup_absent(fields: Seq<(Seq<char>, JsonV)>, key: Seq<char>)
    requires
        forall|j: int| 0 <= j < fields.len() ==> (#[trigger] fields[j]).0 != key,
    ensures
        spec_obj_lookup(fields, key) is None,
    decreases fields.len(),
{
    if fields.len() > 0 {
        assert forall|j: int|
            0 <= j < fields.drop_first().len() implies (#[trigger] fields.drop_first()[j]).0
            != key by {
            assert(fields.drop_first()[j] == fields[j + 1]);
        }
        lemma_lookup_absent(fields.drop_first(), key);
    }
}

/// Changing the value carried by entries of one key leaves every other
/// key's lookup unchanged.
pub proof fn lemma_lookup_other(
    f1: Seq<(Seq<char>, JsonV)>,
    f2: Seq<(Seq<char>, JsonV)>,
    key: Seq<char>,
    k: Seq<char>,
)
    requires
        f1.len() == f2.len(),
        forall|j: int| 0 <= j < f1.len() ==> (#[trigger] f1[j]).0 == f2[j].0,
        forall|j: int| 0 <= j < f1.len() && (#[trigger] f1[j]).0 != key ==> f1[j] == f2[j],
        k != key,
    ensures
        spec_obj_lookup(f1, k) == spec_obj_lookup(f2, k),
    decreases f1.len(),
{
    if f1.len() > 0 {
        assert(f1[0].0 == f2[0].0);
        if f1[0].0 == k {
            assert(f1[0] == f2[0]);
        } else {
            assert forall|j: int|
                0 <= j < f1.drop_first().len() implies (#[trigger] f1.drop_first()[j]).0
                == f2.drop_first()[j].0 by {
                assert(f1.drop_first()[j] == f1[j + 1]);
                assert(f2.drop_first()[j] == f2[j + 1]);
            }
            assert forall|j: int|
                0 <= j < f1.drop_first().len() && (#[trigger] f1.drop_first()[j]).0
                != key implies f1.drop_first()[j] == f2.drop_first()[j] by {
                assert(f1.drop_first()[j] == f1[j + 1]);
                assert(f2.drop_first()[j] == f2[j + 1]);
            }
            lemma_lookup_other(f1.drop_first(), f2.drop_first(), key, k);
        }
    }
}

/// Appending an entry of another key leaves a key's lookup unchanged.
pub proof fn lemma_lookup_push_other(
    fields: Seq<(Seq<char>, JsonV)>,
    e: (Seq<char>, JsonV),
    k: Seq<char>,
)
    requires
        e.0 != k,
    ensures
        spec_obj_lookup(fields.push(e), k) == spec_obj_lookup(fields, k),
    decreases fields.len(),
{
    if fields.len() == 0 {
        assert(fields.push(e).first() == e);
        assert(fields.push(e).drop_first() =~= Seq::<(Seq<char>, JsonV)>::empty());
    } else {
        assert(fields.push(e).first() == fields.first());
        assert(fields.push(e).drop_first() =~= fields.drop_first().push(e));
        lemma_lookup_push_other(fields.drop_first(), e, k);
    }
}

impl Json {
    /// The value under `key` when this is an object holding that key.
    pub fn obj_get<'a>(&'a self, key: &str) -> (r: Option<&'a Json>)
        ensures
            match r {
                Some(v) => self@ matches JsonV::Obj(fields) && spec_obj_lookup(fields, key@)
                    == Some(v@),
                None => !(self@ matches JsonV::Obj(fields) && spec_obj_lookup(fields, key@)
                    is Some),
            },
    {
        match self {
            Json::Obj(fields) => {
                proof {
                    lemma_view_obj_len(fields@);
                    assert(view_obj(fields@).skip(0) =~= view_obj(fields@));
                }
                let mut i: usize = 0;
                while i < fields.len()
                    invariant
                        i <= fields@.len(),
                        self@ matches JsonV::Obj(fv) && fv == view_obj(fields@),
                        view_obj(fields@).len() == fields@.len(),
                        forall|j: int|
                            0 <= j < fields@.len() ==> #[trigger] view_obj(fields@)[j] == (
                            fields@[j].0@,
                            fields@[j].1@,
                            ),
                        spec_obj_lookup(view_obj(fields@).skip(i as int), key@) == spec_obj_lookup(
                            view_obj(fields@),
                            key@,
                        ),
                        forall|j: int| 0 <= j < i ==> #[trigger] fields@[j].0@ != key@,
                    decreases fields@.len() - i,
                {
                    if crate::strutil::str_eq(fields[i].0.as_str(), key) {
                        proof {
                            assert(view_obj(fields@).skip(i as int).first() == (
                                fields@[i as int].0@,
                                fields@[i as int].1@,
                            ));
                        }
                        return Some(&fields[i].1);
                    }
                    proof {
                        assert(view_obj(fields@).skip(i as int).drop_first() =~= view_obj(
                            fields@,
                        ).skip(i as int + 1));
                    }
                    i = i + 1;
                }
                proof {
                    assert(view_obj(fields@).skip(i as int) =~= Seq::empty());
                }
                None
            },
            _ => None,
        }
    }

    /// The text when this is a string value.
    pub fn as_str_value<'a>(&'a self) -> (r: Option<&'a String>)
        ensures
            match r {
                Some(s) => self@ == JsonV::Str(s@),
                None => !(self@ is Str),
            },
    {
        match self {
            Json::Str(s) => Some(s),
            _ => None,
        }
    }

    /// The flag when this is a boolean value.
    pub fn as_bool_value(&self) -> (r: Option<bool>)
        ensures
            match r {
                Some(b) => self@ == JsonV::Bool(b),
                None => !(self@ is Bool),
            },
    {
        match self {
            Json::Bool(b) => Some(*b),
            _ => None,
        }
    }
}

impl Clone for Json {
    /// A structural copy: the view is preserved.
    fn clone(&self) -> (r: Json)
        ensures
            r@ == self@,
        decreases self,
    {
        match self {
            Json::Null => Json::Null,
            Json::Bool(b) => Json::Bool(*b),
            Json::Int(i) => Json::Int(*i),
            Json::Str(s) => Json::Str(s.clone()),
            Json::Arr(items) => {
                let mut out: Vec<Json> = Vec::new();
                let mut i: usize = 0;
                proof {
                    lemma_view_arr_len(items@);
                }
                while i < items.len()
                    invariant
                        i <= items@.len(),
                        *self matches Json::Arr(its) && its@ == items@,
                        view_arr(out@) == view_arr(items@).take(i as int),
                        view_arr(items@).len() == items@.len(),
                        forall|j: int|
                            0 <= j < items@.len() ==> #[trigger] view_arr(items@)[j]
                                == items@[j]@,
                    decreases items@.len() - i,
                {
                    proof {
                        assert(decreases_to!(*self => self->Arr_0));
                        assert(decreases_to!(self->Arr_0 => self->Arr_0@));
                        assert(decreases_to!(self->Arr_0@ => self->Arr_0@[i as int]));
                    }
                    let ghost prev = out@;
                    let item_clone = items[i].clone();
                    out.push(item_clone);
                    i = i + 1;
                    proof {
                        assert(out@.drop_last() =~= prev);
                        assert(view_arr(out@) == view_arr(prev).push(items@[i - 1]@));
                        assert(view_arr(items@).take(i as int) =~= view_arr(items@).take(
                            i - 1,
                        ).push(view_arr(items@)[i - 1]));
                    }
                }
                proof {
                    assert(view_arr(items@).take(i as int) =~= view_arr(items@));
                }
                Json::Arr(out)
            },
            Json::Obj(fields) => {
                let mut out: Vec<(String, Json)> = Vec::new();
                let mut i: usize = 0;
                proof {
                    lemma_view_obj_len(fields@);
                }
                while i < fields.len()
                    invariant
                        i <= fields@.len(),
                        *self matches Json::Obj(fs) && fs@ == fields@,
                        view_obj(out@) == view_obj(fields@).take(i as int),
                        view_obj(fields@).len() == fields@.len(),
                        forall|j: int|
                            0 <= j < fields@.len() ==> #[trigger] view_obj(fields@)[j] == (
                            fields@[j].0@,
                            fields@[j].1@,
                            ),
                    decreases fields@.len() - i,
                {
                    proof {
                        assert(decreases_to!(*self => self->Obj_0));
                        assert(decreases_to!(self->Obj_0 => self->Obj_0@));
                        assert(decreases_to!(self->Obj_0@ => self->Obj_0@[i as int]));
                        assert(decreases_to!(self->Obj_0@[i as int] => self->Obj_0@[i as int].1));
                    }
                    let ghost prev = out@;
                    let key_clone = fields[i].0.clone();
                    let val_clone = fields[i].1.clone();
                    out.push((key_clone, val_clone));
                    i = i + 1;
                    proof {
                        assert(out@.drop_last() =~= prev);
                        assert(view_obj(out@) == view_obj(prev).push((
                            fields@[i - 1].0@,
                            fields@[i - 1].1@,
                        )));
                        assert(view_obj(fields@).take(i as int) =~= view_obj(fields@).take(
                            i - 1,
                        ).push(view_obj(fields@)[i - 1]));
                    }
                }
                proof {
                    assert(view_obj(fields@).take(i as int) =~= view_obj(fields@));
                }
                Json::Obj(out)
            },
        }
    }
}

#[verifier::external_type_specification]
#[verifier::external_body]
pub struct ExSerdeValue(serde_json::Value);

/// The value a YAML document denotes, when it parses: the library's
/// whole knowledge of `serde_yaml`'s grammar is this name.
pub uninterp spec fn yaml_doc_of(s: Seq<char>) -> Option<JsonV>;

/// The value a JSON document denotes, when it parses.
pub uninterp spec fn json_doc_of(s: Seq<char>) -> Option<JsonV>;

/// The compact JSON text of a value.
pub uninterp spec fn json_text_of(j: JsonV) -> Seq<char>;

/// The pretty-printed JSON text of a value.
pub uninterp spec fn json_pretty_text_of(j: JsonV) -> Seq<char>;

/// Relies on `serde_json::Value`'s recursive structure: each variant is
/// moved field by field into the library's own tree. Numbers that are
/// not `i64` are kept as their decimal text.
#[verifier::external_body]
fn json_of_value(v: serde_json::Value) -> Json {
    match v {
        serde_json::Value::Null => Json::Null,
        serde_json::Value::Bool(b) => Json::Bool(b),
        serde_json::Value::Number(n) => match n.as_i64() {
            Some(i) => Json::Int(i),
            None => Json::Str(n.to_string()),
        },
        serde_json::Value::String(s) => Json::Str(s),
        serde_json::Value::Array(items) => Json::Arr(
            items.into_iter().map(json_of_value).collect(),
        ),
        serde_json::Value::Object(fields) => Json::Obj(
            fields.into_iter().map(|(k, f)| (k, json_of_value(f))).collect(),
        ),
    }
}

/// Relies on `serde_json::Value` being buildable variant by variant;
/// the exact inverse of `json_of_value` on the values the library
/// holds.
#[verifier::external_body]
pub fn value_of_json(j: &Json) -> serde_json::Value {
    match j {
        Json::Null => serde_json::Value::Null,
        Json::Bool(b) => serde_json::Value::Bool(*b),
        Json::Int(i) => serde_json::Value::Number(serde_json::Number::from(*i)),
        Json::Str(s) => serde_json::Value::String(s.clone()),
        Json::Arr(items) => serde_json::Value::Array(items.iter().map(value_of_json).collect()),
        Json::Obj(fields) => serde_json::Value::Object(
            fields.iter().map(|(k, f)| (k.clone(), value_of_json(f))).collect(),
        ),
    }
}

/// Relies on `serde_yaml::from_str`: a YAML document read into a value
/// tree; `Err` when the text is not valid YAML for a value (including
/// documents beyond the reader's fixed recursion depth).
#[verifier::external_body]
pub fn parse_yaml(s: &str) -> (r: Result<Json, String>)
    ensures
        match r {
            Ok(j) => yaml_doc_of(s@) == Some(j@),
            Err(_) => yaml_doc_of(s@) is None,
        },
{
    match serde_yaml::from_str::<serde_json::Value>(s) {
        Ok(v) => Ok(json_of_value(v)),
        Err(e) => Err(e.to_string()),
    }
}

/// Relies on `serde_json::from_str`: a JSON document read into a value
/// tree; `Err` when the text is not valid JSON (including documents
/// beyond the reader's fixed recursion depth).
#[verifier::external_body]
pub fn parse_json(s: &str) -> (r: Result<Json, String>)
    ensures
        match r {
            Ok(j) => json_doc_of(s@) == Some(j@),
            Err(_) => json_doc_of(s@) is None,
        },
{
    match serde_json::from_str::<serde_json::Value>(s) {
        Ok(v) => Ok(json_of_value(v)),
        Err(e) => Err(e.to_string()),
    }
}

/// Relies on `serde_json::to_string`: the compact JSON text of a value.
#[verifier::external_body]
pub fn write_json(j: &Json) -> (r: String)
    ensures
        r@ == json_text_of(j@),
{
    serde_json::to_string(&value_of_json(j)).unwrap_or_default()
}

/// Relies on `serde_json::to_string_pretty`: the indented JSON text of
/// a value.
#[verifier::external_body]
pub fn write_json_pretty(j: &Json) -> (r: String)
    ensures
        r@ == json_pretty_text_of(j@),
{
    serde_json::to_string_pretty(&value_of_json(j)).unwrap_or_default()
}

} // verus!
