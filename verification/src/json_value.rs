//! JSON text, by way of `serde_json`.
//!
//! The items that call `serde_json` are believed, not proved; each says what
//! it claims. Above them stand the conversions between `serde_json::Value`
//! and [`Json`], and the two functions that the rest of the crate uses:
//! [`parse_json`] reads a value from its text, [`json_text`] writes one.

use crate::json::{
    items_model, lemma_items_model, lemma_items_push, lemma_member_names, member, members_model,
    no_members, push_member, Json, JsonModel, Members,
};
use vstd::prelude::*;

verus! {

/// `serde_json::Value`, the tree that `serde_json` itself works on.
#[verifier::external_type_specification]
#[verifier::external_body]
pub struct ExValue(serde_json::Value);

/// `serde_json::Number`, which is carried through as it is.
#[verifier::external_type_specification]
#[verifier::external_body]
pub struct ExNumber(serde_json::Number);

/// `serde_json::Map`, which holds the members of an object.
#[verifier::external_type_specification]
#[verifier::external_body]
#[verifier::reject_recursive_types(K)]
#[verifier::reject_recursive_types(V)]
pub struct ExMap<K, V>(serde_json::Map<K, V>);

/// What a `serde_json::Value` holds.
pub uninterp spec fn value_model(value: serde_json::Value) -> JsonModel;

/// What a `serde_json::Map` holds, by name.
pub uninterp spec fn map_model(map: serde_json::Map<String, serde_json::Value>) -> Members;

/// The whole number from 0 to `u64::MAX` that a `serde_json::Number` holds,
/// where it holds one.
pub uninterp spec fn number_u64(number: serde_json::Number) -> Option<u64>;

/// Whether a `serde_json::Number` holds a float.
pub uninterp spec fn number_is_float(number: serde_json::Number) -> bool;

/// The `serde_json::Number` that is made from a `u64`.
pub uninterp spec fn number_of(number: u64) -> serde_json::Number;

/// What `serde_json` reads from a text, where it is the text of one JSON value.
pub uninterp spec fn parsed_json(text: Seq<char>) -> Option<JsonModel>;

/// The compact text that `serde_json` writes for a value, with the members of
/// an object in the order of their names.
pub uninterp spec fn written_json(json: JsonModel) -> Seq<char>;

/// How deep arrays and objects may be nested in a text that `serde_json` reads.
pub const READABLE_DEPTH: usize = 127;

/// Whether a value holds no float, and its arrays and objects are nested no
/// deeper than that.
pub open spec fn exact(json: JsonModel, depth: nat) -> bool
    decreases depth,
{
    match json {
        JsonModel::Number(number) => !number_is_float(number),
        JsonModel::Array(items) => depth > 0 && forall|i: int|
            0 <= i < items.len() ==> exact(#[trigger] items[i], (depth - 1) as nat),
        JsonModel::Object(members) => depth > 0 && forall|name: Seq<char>| #[trigger]
            members.contains_key(name) ==> exact(members[name], (depth - 1) as nat),
        _ => true,
    }
}

/// The outermost layer of a `serde_json::Value`.
pub enum ValueNode {
    Null,
    Bool(bool),
    Number(serde_json::Number),
    Str(String),
    Array(Vec<serde_json::Value>),
    Object(serde_json::Map<String, serde_json::Value>),
}

/// What the value with that outermost layer holds.
pub open spec fn node_model(node: ValueNode) -> JsonModel {
    match node {
        ValueNode::Null => JsonModel::Null,
        ValueNode::Bool(b) => JsonModel::Bool(b),
        ValueNode::Number(n) => JsonModel::Number(n),
        ValueNode::Str(s) => JsonModel::Str(s@),
        ValueNode::Array(items) => JsonModel::Array(values_model(items@)),
        ValueNode::Object(map) => JsonModel::Object(map_model(map)),
    }
}

/// What each of the values holds, in their order.
pub open spec fn values_model(values: Seq<serde_json::Value>) -> Seq<JsonModel> {
    values.map_values(|value: serde_json::Value| value_model(value))
}

/// What a list of names and values holds, by name.
pub open spec fn entries_model(entries: Seq<(String, serde_json::Value)>) -> Members
    decreases entries.len(),
{
    if entries.len() == 0 {
        no_members()
    } else {
        entries_model(entries.drop_last()).insert(entries.last().0@, value_model(entries.last().1))
    }
}

/// Whether no name occurs twice in the list.
pub open spec fn names_differ(entries: Seq<(String, serde_json::Value)>) -> bool {
    forall|i: int, j: int|
        0 <= i < j < entries.len() ==> #[trigger] entries[i].0@ != #[trigger] entries[j].0@
}

/// What a value that may be missing holds.
pub open spec fn option_value(value: Option<serde_json::Value>) -> Option<JsonModel> {
    match value {
        Some(value) => Some(value_model(value)),
        None => None,
    }
}

/// The model of a value that may be missing.
pub open spec fn option_model(json: Option<Json>) -> Option<JsonModel> {
    match json {
        Some(json) => Some(json@),
        None => None,
    }
}

/// `serde_json::Number::as_u64`: hands out the number where it is held as a
/// `u64`, and so not as a float.
pub assume_specification[ serde_json::Number::as_u64 ](number: &serde_json::Number) -> (held:
    Option<u64>)
    ensures
        held == number_u64(*number),
        held is Some ==> !number_is_float(*number),
;

/// `serde_json::Number::is_f64`: whether the number is held as a float.
pub assume_specification[ serde_json::Number::is_f64 ](number: &serde_json::Number) -> (float: bool)
    ensures
        float == number_is_float(*number),
;

/// `serde_json::Number::clone`: the same number again.
pub assume_specification[ <serde_json::Number as Clone>::clone ](
    number: &serde_json::Number,
) -> (copy: serde_json::Number)
    ensures
        copy == *number,
;

/// `serde_json::Number::from` on a `u64`: the number that holds just this one,
/// and not as a float.
#[verifier::external_body]
fn number_from(number: u64) -> (held: serde_json::Number)
    ensures
        held == number_of(number),
        number_u64(held) == Some(number),
        !number_is_float(held),
{
    serde_json::Number::from(number)
}

/// `serde_json::Map::new`: a map without members.
pub assume_specification[ serde_json::Map::<String, serde_json::Value>::new ]() -> (map:
    serde_json::Map<String, serde_json::Value>)
    ensures
        map_model(map) == no_members(),
;

/// `serde_json::Map::insert`: the member of that name is now this value, and
/// the others are as before.
pub assume_specification[ serde_json::Map::<String, serde_json::Value>::insert ](
    map: &mut serde_json::Map<String, serde_json::Value>,
    k: String,
    v: serde_json::Value,
) -> (replaced: Option<serde_json::Value>)
    ensures
        map_model(*final(map)) == map_model(*old(map)).insert(k@, value_model(v)),
        option_value(replaced) == member(map_model(*old(map)), k@),
;

/// `serde_json::Map::into_iter`: hands out each member once, under its name.
#[verifier::external_body]
fn map_entries(map: serde_json::Map<String, serde_json::Value>) -> (entries: Vec<
    (String, serde_json::Value),
>)
    ensures
        names_differ(entries@),
        entries_model(entries@) == map_model(map),
{
    map.into_iter().collect()
}

/// Takes the outermost layer of a `serde_json::Value` off, variant by variant.
#[verifier::external_body]
fn open_value(value: serde_json::Value) -> (node: ValueNode)
    ensures
        node_model(node) == value_model(value),
{
    match value {
        serde_json::Value::Null => ValueNode::Null,
        serde_json::Value::Bool(b) => ValueNode::Bool(b),
        serde_json::Value::Number(n) => ValueNode::Number(n),
        serde_json::Value::String(s) => ValueNode::Str(s),
        serde_json::Value::Array(items) => ValueNode::Array(items),
        serde_json::Value::Object(map) => ValueNode::Object(map),
    }
}

/// Makes the `serde_json::Value` with that outermost layer, variant by variant.
#[verifier::external_body]
fn close_value(node: ValueNode) -> (value: serde_json::Value)
    ensures
        value_model(value) == node_model(node),
{
    match node {
        ValueNode::Null => serde_json::Value::Null,
        ValueNode::Bool(b) => serde_json::Value::Bool(b),
        ValueNode::Number(n) => serde_json::Value::Number(n),
        ValueNode::Str(s) => serde_json::Value::String(s),
        ValueNode::Array(items) => serde_json::Value::Array(items),
        ValueNode::Object(map) => serde_json::Value::Object(map),
    }
}

/// `serde_json::from_str` into a `serde_json::Value`: what is read, and
/// whether the text can be read at all, depends on the text alone.
#[verifier::external_body]
fn value_from_str(text: &str) -> (value: Option<serde_json::Value>)
    ensures
        option_value(value) == parsed_json(text@),
{
    serde_json::from_str::<serde_json::Value>(text).ok()
}

/// `serde_json::Value::to_string`: the compact text depends only on what the
/// value holds, and `serde_json::from_str` reads the same value from it, as
/// long as the value holds no float and is not nested deeper than can be read.
/// Of a float nothing is said: it may be read as one of its neighbours.
#[verifier::external_body]
fn value_to_string(value: &serde_json::Value) -> (text: String)
    ensures
        text@ == written_json(value_model(*value)),
        exact(value_model(*value), READABLE_DEPTH as nat) ==> parsed_json(text@) == Some(
            value_model(*value),
        ),
{
    value.to_string()
}

/// Each listed value is held under its name, where no name occurs twice.
proof fn lemma_entries_model(entries: Seq<(String, serde_json::Value)>)
    requires
        names_differ(entries),
    ensures
        entries_model(entries).dom().finite(),
        forall|i: int|
            0 <= i < entries.len() ==> {
                &&& entries_model(entries).contains_key((#[trigger] entries[i]).0@)
                &&& entries_model(entries)[entries[i].0@] == value_model(entries[i].1)
            },
    decreases entries.len(),
{
    if entries.len() > 0 {
        let front = entries.drop_last();
        lemma_entries_model(front);
        assert forall|i: int| 0 <= i < entries.len() implies {
            &&& entries_model(entries).contains_key((#[trigger] entries[i]).0@)
            &&& entries_model(entries)[entries[i].0@] == value_model(entries[i].1)
        } by {
            if i < front.len() {
                assert(entries[i] == front[i]);
                assert(entries[i].0@ != entries[entries.len() - 1].0@);
            }
        }
    }
}

/// A value that is nested no deeper than some depth is nested no deeper than any
/// greater one.
pub proof fn law_nested_less_deep(json: JsonModel, depth: nat, greater: nat)
    requires
        exact(json, depth),
        depth <= greater,
    ensures
        exact(json, greater),
    decreases depth,
{
    match json {
        JsonModel::Array(items) => {
            assert forall|i: int| 0 <= i < items.len() implies exact(
                #[trigger] items[i],
                (greater - 1) as nat,
            ) by {
                law_nested_less_deep(items[i], (depth - 1) as nat, (greater - 1) as nat);
            }
        },
        JsonModel::Object(members) => {
            assert forall|name: Seq<char>| #[trigger] members.contains_key(name) implies exact(
                members[name],
                (greater - 1) as nat,
            ) by {
                law_nested_less_deep(members[name], (depth - 1) as nat, (greater - 1) as nat);
            }
        },
        _ => {},
    }
}

/// The [`Json`] that holds what a `serde_json::Value` holds.
pub fn json_from_value(value: serde_json::Value) -> (json: Json)
    ensures
        json@ == value_model(value),
    decreases value_model(value),
{
    let ghost model = value_model(value);
    match open_value(value) {
        ValueNode::Null => Json::Null,
        ValueNode::Bool(b) => Json::Bool(b),
        ValueNode::Number(number) => Json::Number(number),
        ValueNode::Str(text) => Json::Str(text),
        ValueNode::Array(values) => {
            let ghost all = values@;
            let mut items: Vec<Json> = Vec::new();
            for inner in iter: values
                invariant
                    model == value_model(value),
                    iter.seq() == all,
                    model == JsonModel::Array(values_model(all)),
                    items_model(items@) == values_model(all).take(iter.index() as int),
            {
                assert(decreases_to!(model => model->Array_0));
                assert(decreases_to!(model->Array_0 => values_model(all)[iter.index() as int]));
                let item = json_from_value(inner);
                proof {
                    lemma_items_push(items@, item);
                }
                items.push(item);
            }
            assert(values_model(all).take(all.len() as int) =~= values_model(all));
            Json::Array(items)
        },
        ValueNode::Object(map) => {
            let entries = map_entries(map);
            let ghost all = entries@;
            let mut members: Vec<(String, Json)> = Vec::new();
            proof {
                lemma_entries_model(all);
            }
            for entry in iter: entries
                invariant
                    model == value_model(value),
                    iter.seq() == all,
                    names_differ(all),
                    model == JsonModel::Object(entries_model(all)),
                    members_model(members@) == entries_model(all.take(iter.index() as int)),
            {
                let ghost i = iter.index() as int;
                proof {
                    lemma_entries_model(all);
                    assert(all.take(i + 1).drop_last() =~= all.take(i));
                    assert(entry == all[i]);
                    assert(decreases_to!(model => model->Object_0));
                    assert(decreases_to!(model->Object_0 => entries_model(all)[all[i].0@]));
                }
                let inner = json_from_value(entry.1);
                push_member(&mut members, entry.0.as_str(), inner);
            }
            assert(all.take(all.len() as int) =~= all);
            Json::Object(members)
        },
    }
}

/// The `serde_json::Value` that holds what a [`Json`] holds.
pub fn value_from_json(json: &Json) -> (value: serde_json::Value)
    ensures
        value_model(value) == json@,
    decreases json,
{
    let node = match json {
        Json::Null => ValueNode::Null,
        Json::Bool(b) => ValueNode::Bool(*b),
        Json::Number(number) => ValueNode::Number(number.clone()),
        Json::Str(text) => ValueNode::Str(text.clone()),
        Json::Array(items) => {
            let mut values: Vec<serde_json::Value> = Vec::new();
            for i in 0..items.len()
                invariant
                    json == Json::Array(*items),
                    values_model(values@) == items_model(items@.take(i as int)),
            {
                assert(decreases_to!(*json => json->Array_0));
                assert(decreases_to!(json->Array_0 => items@));
                let value = value_from_json(&items[i]);
                proof {
                    lemma_items_push(items@.take(i as int), items@[i as int]);
                    assert(items@.take(i as int).push(items@[i as int]) =~= items@.take(i + 1));
                    assert(values_model(values@.push(value)) =~= values_model(values@).push(
                        value_model(value),
                    ));
                }
                values.push(value);
            }
            assert(items@.take(items.len() as int) =~= items@);
            ValueNode::Array(values)
        },
        Json::Object(members) => {
            let mut map = serde_json::Map::new();
            for i in 0..members.len()
                invariant
                    json == Json::Object(*members),
                    map_model(map) == members_model(members@.take(i as int)),
            {
                assert(decreases_to!(*json => json->Object_0));
                assert(decreases_to!(json->Object_0 => members@));
                assert(decreases_to!(members@ => members@[i as int]));
                let value = value_from_json(&members[i].1);
                let _ = map.insert(members[i].0.clone(), value);
                assert(members@.take(i + 1).drop_last() =~= members@.take(i as int));
            }
            assert(members@.take(members.len() as int) =~= members@);
            ValueNode::Object(map)
        },
    };
    close_value(node)
}

/// The number `number`.
pub fn json_number(number: u64) -> (json: Json)
    ensures
        json@ == JsonModel::Number(number_of(number)),
        json@.as_u64() == Some(number),
        exact(json@, 0),
{
    Json::Number(number_from(number))
}

/// The value whose text `text` is, where it is the text of one JSON value.
pub fn parse_json(text: &str) -> (json: Option<Json>)
    ensures
        option_model(json) == parsed_json(text@),
{
    match value_from_str(text) {
        Some(value) => Some(json_from_value(value)),
        None => None,
    }
}

/// The compact text of a value. A value without floats that is not nested too
/// deep can be read from it again.
pub fn json_text(json: &Json) -> (text: String)
    ensures
        text@ == written_json(json@),
        exact(json@, READABLE_DEPTH as nat) ==> parsed_json(text@) == Some(json@),
{
    value_to_string(&value_from_json(json))
}

/// Whether a value holds no float, and its arrays and objects are nested no
/// deeper than `depth`. With [`READABLE_DEPTH`] it says that the value can be
/// read again from its text.
pub fn is_exact(json: &Json, depth: usize) -> (yes: bool)
    ensures
        yes == exact(json@, depth as nat),
    decreases depth,
{
    match json {
        Json::Number(number) => !number.is_f64(),
        Json::Array(items) => {
            if depth == 0 {
                return false;
            }
            proof {
                lemma_items_model(items@);
            }
            for i in 0..items.len()
                invariant
                    depth > 0,
                    json@ == JsonModel::Array(items_model(items@)),
                    items_model(items@).len() == items@.len(),
                    forall|j: int|
                        0 <= j < items@.len() ==> #[trigger] items_model(items@)[j] == items@[j]@,
                    forall|j: int|
                        0 <= j < i ==> exact(#[trigger] items_model(items@)[j], (depth - 1) as nat),
            {
                if !is_exact(&items[i], depth - 1) {
                    assert(!exact(json@->Array_0[i as int], (depth - 1) as nat));
                    return false;
                }
            }
            true
        },
        Json::Object(members) => {
            if depth == 0 {
                return false;
            }
            proof {
                lemma_member_names(members@);
            }
            for i in 0..members.len()
                invariant
                    depth > 0,
                    json@ == JsonModel::Object(members_model(members@)),
                    forall|j: int|
                        0 <= j < members@.len() ==> members_model(members@).contains_key(
                            (#[trigger] members@[j]).0@,
                        ),
                    forall|j: int|
                        0 <= j < i ==> exact(
                            members_model(members@)[(#[trigger] members@[j]).0@],
                            (depth - 1) as nat,
                        ),
            {
                if let Some(value) = json.get(members[i].0.as_str()) {
                    if !is_exact(value, depth - 1) {
                        return false;
                    }
                }
            }
            true
        },
        _ => true,
    }
}

} // verus!
