//! JSON values built by the library and written out by `serde_json`.
use vstd::prelude::*;

verus! {

/// A JSON value: booleans, texts, lists and objects (keys in order).
pub enum JsonValue {
    Bool(bool),
    Text(String),
    List(Vec<JsonValue>),
    Object(Vec<(String, JsonValue)>),
}

/// The mathematical form of a JSON value.
pub enum Json {
    Bool(bool),
    Text(Seq<char>),
    List(Seq<Json>),
    Object(Seq<(Seq<char>, Json)>),
}

/// A JSON value's form.
pub open spec fn json_of(v: JsonValue) -> Json
    decreases v, 0nat,
{
    match v {
        JsonValue::Bool(b) => Json::Bool(b),
        JsonValue::Text(s) => Json::Text(s@),
        JsonValue::List(items) => {
            proof {
                assert(decreases_to!(items => items@));
            }
            Json::List(jsons_of(items@))
        },
        JsonValue::Object(entries) => {
            proof {
                assert(decreases_to!(entries => entries@));
            }
            Json::Object(members_of(entries@))
        },
    }
}

/// The forms of a list's items.
pub open spec fn jsons_of(s: Seq<JsonValue>) -> Seq<Json>
    decreases s, s.len(),
{
    if s.len() == 0 {
        Seq::empty()
    } else {
        proof {
            assert(decreases_to!(s => s[s.len() - 1]));
            assert(decreases_to!(s => s.subrange(0, s.len() - 1)));
        }
        jsons_of(s.subrange(0, s.len() - 1)).push(json_of(s[s.len() - 1]))
    }
}

/// The forms of an object's members.
pub open spec fn members_of(s: Seq<(String, JsonValue)>) -> Seq<(Seq<char>, Json)>
    decreases s, s.len(),
{
    if s.len() == 0 {
        Seq::empty()
    } else {
        proof {
            assert(decreases_to!(s => s[s.len() - 1]));
            assert(decreases_to!(s[s.len() - 1] => s[s.len() - 1].1));
            assert(decreases_to!(s => s.subrange(0, s.len() - 1)));
        }
        members_of(s.subrange(0, s.len() - 1)).push((s[s.len() - 1].0@, json_of(s[s.len() - 1].1)))
    }
}

/// Appending an item appends its form.
pub proof fn lemma_jsons_push(s: Seq<JsonValue>, v: JsonValue)
    ensures
        jsons_of(s.push(v)) == jsons_of(s).push(json_of(v)),
{
    assert(s.push(v).subrange(0, s.len() as int) =~= s);
}

/// Appending a member appends its form.
pub proof fn lemma_members_push(s: Seq<(String, JsonValue)>, e: (String, JsonValue))
    ensures
        members_of(s.push(e)) == members_of(s).push((e.0@, json_of(e.1))),
{
    assert(s.push(e).subrange(0, s.len() as int) =~= s);
}

} // verus!
