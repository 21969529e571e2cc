//! What holds of every JSON value.

use crate::json::{
    decimal, is_index, items_model, lemma_items_model, members_model, option_json, option_str,
    path_model, Json, JsonModel, Members,
};
use crate::json_value::{exact, number_is_float, number_u64, option_model};
use vstd::prelude::*;

verus! {

/// An object is its members: each is found under its name, and nothing is found
/// elsewhere.
pub proof fn law_members_are_found(members: Members, name: Seq<char>, value: JsonModel)
    ensures
        JsonModel::Object(members.insert(name, value)).get(name) == Some(value),
        !members.contains_key(name) ==> JsonModel::Object(members).get(name) is None,
        !(value is Object) ==> value.get(name) is None,
{
}

/// A member that is listed later takes the place of one of the same name, and
/// leaves the others alone.
pub proof fn law_later_member_counts(
    members: Seq<(String, Json)>,
    name: String,
    value: Json,
    other: Seq<char>,
)
    ensures
        ({
            let before = JsonModel::Object(members_model(members));
            let after = JsonModel::Object(members_model(members.push((name, value))));
            &&& after.get(name@) == Some(value@)
            &&& other != name@ ==> after.get(other) == before.get(other)
        }),
{
    assert(members.push((name, value)).drop_last() =~= members);
}

/// A value means what it is: an array its items, one by one, a string its text.
pub proof fn law_a_value_means_what_it_is(items: Vec<Json>, text: String, b: bool)
    ensures
        Json::Null@ == JsonModel::Null,
        Json::Bool(b)@ == JsonModel::Bool(b),
        Json::Str(text)@ == JsonModel::Str(text@),
        Json::Array(items)@ matches JsonModel::Array(models) && models.len() == items@.len() && (
        forall|i: int| 0 <= i < items@.len() ==> #[trigger] models[i] == items@[i]@),
{
    lemma_items_model(items@);
    assert(Json::Array(items)@ == JsonModel::Array(items_model(items@)));
}

/// A path is followed step by step, and the empty path stays where it is.
pub proof fn law_paths_are_followed(value: JsonModel, token: Seq<char>, rest: Seq<Seq<char>>)
    ensures
        value.pointer(Seq::empty()) == Some(value),
        value.child(token) matches Some(child) ==> value.pointer(seq![token] + rest)
            == child.pointer(rest),
        value.child(token) is None ==> value.pointer(seq![token] + rest) is None,
{
    let path = seq![token] + rest;
    assert(path.drop_first() =~= rest);
    assert(path.first() == token);
}

/// One step leads to the member of an object, and to the item of an array whose
/// index the token writes; from any other value it leads nowhere.
pub proof fn law_one_step(value: JsonModel, token: Seq<char>)
    ensures
        value is Object ==> value.child(token) == value.get(token),
        value matches JsonModel::Array(items) ==> {
            &&& is_index(token) && decimal(token) < items.len() ==> value.child(token) == Some(
                items[decimal(token) as int],
            )
            &&& !is_index(token) || decimal(token) >= items.len() ==> value.child(token) is None
        },
        !(value is Object) && !(value is Array) ==> value.child(token) is None,
{
}

/// Whether the text is made of decimal digits.
pub open spec fn all_digits(text: Seq<char>) -> bool {
    forall|i: int| 0 <= i < text.len() ==> '0' <= #[trigger] text[i] <= '9'
}

/// One more digit makes ten times the number and the digit; a digit by itself is
/// its own number. An index has digits alone, and a zero in front only where it
/// is zero.
pub proof fn law_indices_are_decimal(digits: Seq<char>, digit: char)
    requires
        all_digits(digits),
        '0' <= digit <= '9',
    ensures
        decimal(digits.push(digit)) == decimal(digits) * 10 + (digit as int - '0' as int),
        decimal(seq![digit]) == digit as int - '0' as int,
        is_index(seq![digit]),
        digits.len() > 0 ==> (is_index(digits.push(digit)) <==> digits[0] != '0'),
{
    let longer = digits.push(digit);
    assert(longer.drop_last() =~= digits);
    assert(seq![digit].drop_last() =~= Seq::<char>::empty());
    assert(decimal(Seq::<char>::empty()) == 0);
    assert forall|i: int| 0 <= i < longer.len() implies '0' <= #[trigger] longer[i] <= '9' by {
        if i < digits.len() {
            assert(longer[i] == digits[i]);
        }
    }
}

/// A token that does not begin with a digit is no index.
pub proof fn law_names_are_no_indices(token: Seq<char>)
    requires
        token.len() == 0 || !('0' <= token[0] <= '9'),
    ensures
        !is_index(token),
{
}

/// A string is a text and nothing else is; a number is the whole number that it
/// holds, and nothing else is one.
pub proof fn law_texts_and_numbers(value: JsonModel)
    ensures
        value matches JsonModel::Str(text) ==> value.as_str() == Some(text),
        !(value is Str) ==> value.as_str() is None,
        value matches JsonModel::Number(number) ==> value.as_u64() == number_u64(number),
        !(value is Number) ==> value.as_u64() is None,
{
}

/// A text, a mark and nothing can be read again from their text at any depth, and
/// a number can where it is no float. An array or an object can where everything
/// in it can, one level less deep.
pub proof fn law_what_is_exact(value: JsonModel, depth: nat)
    ensures
        value is Null || value is Bool || value is Str ==> exact(value, depth),
        value matches JsonModel::Number(number) ==> (exact(value, depth) <==> !number_is_float(
            number,
        )),
        value matches JsonModel::Array(items) ==> (exact(value, depth + 1) <==> forall|i: int|
            0 <= i < items.len() ==> exact(#[trigger] items[i], depth)),
        value matches JsonModel::Object(members) ==> (exact(value, depth + 1) <==> forall|
            name: Seq<char>,
        | #[trigger] members.contains_key(name) ==> exact(members[name], depth)),
        value is Array || value is Object ==> !exact(value, 0),
{
}

/// A path means its tokens, in their order, and a value that may be missing means
/// the value.
pub proof fn law_paths_and_missing_values(path: Seq<&str>, i: int, json: Json)
    requires
        0 <= i < path.len(),
    ensures
        path_model(path).len() == path.len(),
        path_model(path)[i] == path[i]@,
        option_json(Some(&json)) == Some(json@),
        option_json(None) is None,
        option_model(Some(json)) == Some(json@),
        option_model(None) is None,
        option_str(Some(json@)) == json@.as_str(),
        option_str(None) is None,
{
}

} // verus!
