//! JSON values, as the rest of the crate reads and writes them.
//!
//! A [`Json`] is a plain tree. [`JsonModel`] is its mathematical model, in
//! which an object is a map from member names to values, so that two trees
//! that list the same members in another order mean the same.

use crate::text::{characters, same_text};
use vstd::prelude::*;

verus! {

/// A JSON value.
///
/// Where an object lists a name more than once, the last one counts.
#[derive(Debug, PartialEq, Eq)]
pub enum Json {
    Null,
    Bool(bool),
    Number(serde_json::Number),
    Str(String),
    Array(Vec<Json>),
    Object(Vec<(String, Json)>),
}

/// What a [`Json`] means.
pub enum JsonModel {
    Null,
    Bool(bool),
    Number(serde_json::Number),
    Str(Seq<char>),
    Array(Seq<JsonModel>),
    Object(Map<Seq<char>, JsonModel>),
}

/// The members of an object, by name.
pub type Members = Map<Seq<char>, JsonModel>;

impl View for Json {
    type V = JsonModel;

    open spec fn view(&self) -> JsonModel {
        json_model(*self)
    }
}

/// The model of a JSON value.
pub open spec fn json_model(json: Json) -> JsonModel
    decreases json,
{
    match json {
        Json::Null => JsonModel::Null,
        Json::Bool(b) => JsonModel::Bool(b),
        Json::Number(n) => JsonModel::Number(n),
        Json::Str(s) => JsonModel::Str(s@),
        Json::Array(items) => JsonModel::Array(items_model(items@)),
        Json::Object(members) => JsonModel::Object(members_model(members@)),
    }
}

/// The models of the items of an array, in their order.
pub open spec fn items_model(items: Seq<Json>) -> Seq<JsonModel>
    decreases items,
{
    if items.len() == 0 {
        Seq::empty()
    } else {
        items_model(items.drop_last()).push(json_model(items.last()))
    }
}

/// The members that a list of names and values stands for: of two with the
/// same name the later one counts.
pub open spec fn members_model(members: Seq<(String, Json)>) -> Members
    decreases members,
{
    if members.len() == 0 {
        no_members()
    } else {
        members_model(members.drop_last()).insert(members.last().0@, json_model(members.last().1))
    }
}

/// The members of the empty object.
pub open spec fn no_members() -> Members {
    Map::empty()
}

/// The member of that name, where there is one.
pub open spec fn member(members: Members, name: Seq<char>) -> Option<JsonModel> {
    if members.contains_key(name) {
        Some(members[name])
    } else {
        None
    }
}

/// Whether the token is a decimal index: digits alone, without a leading zero
/// unless it is `0` itself.
pub open spec fn is_index(token: Seq<char>) -> bool {
    &&& token.len() > 0
    &&& forall|i: int| 0 <= i < token.len() ==> '0' <= #[trigger] token[i] <= '9'
    &&& token[0] == '0' ==> token.len() == 1
}

/// The number that some decimal digits write.
pub open spec fn decimal(digits: Seq<char>) -> nat
    decreases digits.len(),
{
    if digits.len() == 0 {
        0
    } else {
        (decimal(digits.drop_last()) * 10 + (digits.last() as int - '0' as int)) as nat
    }
}

impl JsonModel {
    /// The member of that name, where this is an object that has one.
    pub open spec fn get(self, name: Seq<char>) -> Option<JsonModel> {
        match self {
            JsonModel::Object(members) => member(members, name),
            _ => None,
        }
    }

    /// One step of a path: the member of that name in an object, and the item
    /// at that index in an array.
    pub open spec fn child(self, token: Seq<char>) -> Option<JsonModel> {
        match self {
            JsonModel::Object(members) => member(members, token),
            JsonModel::Array(items) => if is_index(token) && decimal(token) < items.len() {
                Some(items[decimal(token) as int])
            } else {
                None
            },
            _ => None,
        }
    }

    /// The value that a path leads to, step by step.
    pub open spec fn pointer(self, path: Seq<Seq<char>>) -> Option<JsonModel>
        decreases path.len(),
    {
        if path.len() == 0 {
            Some(self)
        } else {
            match self.child(path.first()) {
                Some(child) => child.pointer(path.drop_first()),
                None => None,
            }
        }
    }

    /// The text, where this is a string.
    pub open spec fn as_str(self) -> Option<Seq<char>> {
        match self {
            JsonModel::Str(text) => Some(text),
            _ => None,
        }
    }

    /// The number, where this is a whole number from 0 to `u64::MAX`.
    pub open spec fn as_u64(self) -> Option<u64> {
        match self {
            JsonModel::Number(number) => crate::json_value::number_u64(number),
            _ => None,
        }
    }
}

/// The model of a value that may be missing.
pub open spec fn option_json(json: Option<&Json>) -> Option<JsonModel> {
    match json {
        Some(json) => Some(json@),
        None => None,
    }
}

/// The text of a value that may be missing, where it is a string.
pub open spec fn option_str(json: Option<JsonModel>) -> Option<Seq<char>> {
    match json {
        Some(json) => json.as_str(),
        None => None,
    }
}

/// The tokens of a path as text.
pub open spec fn path_model(path: Seq<&str>) -> Seq<Seq<char>> {
    path.map_values(|token: &str| token@)
}

/// The models of the items are as many as the items, and stand in their order.
pub proof fn lemma_items_model(items: Seq<Json>)
    ensures
        items_model(items).len() == items.len(),
        forall|i: int| 0 <= i < items.len() ==> #[trigger] items_model(items)[i] == items[i]@,
    decreases items.len(),
{
    if items.len() > 0 {
        lemma_items_model(items.drop_last());
    }
}

/// One more item is one more model.
pub proof fn lemma_items_push(items: Seq<Json>, item: Json)
    ensures
        items_model(items.push(item)) == items_model(items).push(item@),
{
    assert(items.push(item).drop_last() =~= items);
}

/// An object has the members that are listed, and no others.
pub proof fn lemma_member_names(members: Seq<(String, Json)>)
    ensures
        forall|i: int|
            0 <= i < members.len() ==> members_model(members).contains_key(
                (#[trigger] members[i]).0@,
            ),
        forall|name: Seq<char>| #[trigger]
            members_model(members).contains_key(name) ==> exists|i: int|
                0 <= i < members.len() && (#[trigger] members[i]).0@ == name,
    decreases members.len(),
{
    if members.len() > 0 {
        let front = members.drop_last();
        let last = members.len() - 1;
        lemma_member_names(front);
        assert forall|i: int| 0 <= i < members.len() implies members_model(members).contains_key(
            (#[trigger] members[i]).0@,
        ) by {
            if i < last {
                assert(members[i] == front[i]);
            }
        }
        assert forall|name: Seq<char>| #[trigger]
            members_model(members).contains_key(name) implies exists|i: int|
            0 <= i < members.len() && (#[trigger] members[i]).0@ == name by {
            if name == members[last].0@ {
            } else {
                assert(members_model(front).contains_key(name));
                let i = choose|i: int| 0 <= i < front.len() && (#[trigger] front[i]).0@ == name;
                assert(members[i] == front[i]);
            }
        }
    }
}

/// The index that the token writes, where it writes one below `len`.
fn index_below(token: &str, len: usize) -> (index: Option<usize>)
    ensures
        index is Some <==> is_index(token@) && decimal(token@) < len,
        index matches Some(index) ==> index == decimal(token@),
{
    let digits = characters(token);
    if digits.len() == 0 || (digits[0] == '0' && digits.len() > 1) {
        return None;
    }
    // The number of the digits so far, as long as it is below `len`.
    let mut below: Option<usize> = if len > 0 {
        Some(0)
    } else {
        None
    };
    for i in 0..digits.len()
        invariant
            digits@ == token@,
            forall|j: int| 0 <= j < i ==> '0' <= #[trigger] token@[j] <= '9',
            below is Some <==> decimal(token@.take(i as int)) < len,
            below matches Some(number) ==> number == decimal(token@.take(i as int)),
    {
        let c = digits[i];
        if c < '0' || '9' < c {
            return None;
        }
        assert(token@.take(i + 1).drop_last() =~= token@.take(i as int));
        let digit: usize = (c as u32 - '0' as u32) as usize;
        below = match below {
            Some(number) => match number.checked_mul(10) {
                Some(tens) => match tens.checked_add(digit) {
                    Some(more) => if more < len {
                        Some(more)
                    } else {
                        None
                    },
                    None => None,
                },
                None => None,
            },
            None => None,
        };
    }
    assert(token@.take(digits.len() as int) =~= token@);
    below
}

/// Adds a member at the end of the list.
pub fn push_member(members: &mut Vec<(String, Json)>, name: &str, value: Json)
    ensures
        members_model(final(members)@) == members_model(old(members)@).insert(name@, value@),
        final(members)@.len() == old(members)@.len() + 1,
{
    let ghost before = members@;
    members.push((name.to_owned(), value));
    assert(members@.drop_last() =~= before);
}

impl Json {
    /// The string `text`.
    pub fn text(text: &str) -> (json: Json)
        ensures
            json@ == JsonModel::Str(text@),
    {
        Json::Str(text.to_owned())
    }

    /// The member of that name, where this is an object that has one.
    pub fn get(&self, name: &str) -> (found: Option<&Json>)
        ensures
            option_json(found) == self@.get(name@),
    {
        match self {
            Json::Object(members) => {
                let mut end: usize = members.len();
                assert(members@.take(end as int) =~= members@);
                while end > 0
                    invariant
                        self == Json::Object(*members),
                        end <= members.len(),
                        member(members_model(members@.take(end as int)), name@) == member(
                            members_model(members@),
                            name@,
                        ),
                    decreases end,
                {
                    assert(members@.take(end as int).drop_last() =~= members@.take(end - 1));
                    if same_text(members[end - 1].0.as_str(), name) {
                        return Some(&members[end - 1].1);
                    }
                    end = end - 1;
                }
                None
            },
            _ => None,
        }
    }

    /// One step of a path: the member of that name in an object, and the item
    /// at that index in an array.
    pub fn child(&self, token: &str) -> (found: Option<&Json>)
        ensures
            option_json(found) == self@.child(token@),
    {
        match self {
            Json::Array(items) => {
                proof {
                    lemma_items_model(items@);
                }
                match index_below(token, items.len()) {
                    Some(index) => Some(&items[index]),
                    None => None,
                }
            },
            _ => self.get(token),
        }
    }

    /// The value that a path leads to, step by step. The tokens are taken as
    /// they are: nothing in them is escaped.
    pub fn pointer(&self, path: &[&str]) -> (found: Option<&Json>)
        ensures
            option_json(found) == self@.pointer(path_model(path@)),
    {
        let ghost tokens = path_model(path@);
        let mut at: &Json = self;
        assert(tokens.skip(0) =~= tokens);
        for i in 0..path.len()
            invariant
                tokens == path_model(path@),
                at@.pointer(tokens.skip(i as int)) == self@.pointer(tokens),
        {
            assert(tokens.skip(i as int).drop_first() =~= tokens.skip(i + 1));
            match at.child(path[i]) {
                Some(child) => {
                    at = child;
                },
                None => {
                    return None;
                },
            }
        }
        Some(at)
    }

    /// The text, where this is a string.
    pub fn as_str(&self) -> (text: Option<&str>)
        ensures
            text is Some <==> self@.as_str() is Some,
            text matches Some(text) ==> self@.as_str() == Some(text@),
    {
        match self {
            Json::Str(text) => Some(text.as_str()),
            _ => None,
        }
    }

    /// The number, where this is a whole number from 0 to `u64::MAX`.
    pub fn as_u64(&self) -> (number: Option<u64>)
        ensures
            number == self@.as_u64(),
    {
        match self {
            Json::Number(number) => number.as_u64(),
            _ => None,
        }
    }

    /// A value of its own that means the same.
    pub fn copy(&self) -> (json: Json)
        ensures
            json@ == self@,
        decreases self,
    {
        match self {
            Json::Null => Json::Null,
            Json::Bool(b) => Json::Bool(*b),
            Json::Number(number) => Json::Number(number.clone()),
            Json::Str(text) => Json::Str(text.clone()),
            Json::Array(items) => {
                let mut copies: Vec<Json> = Vec::new();
                for i in 0..items.len()
                    invariant
                        self == Json::Array(*items),
                        items_model(copies@) == items_model(items@.take(i as int)),
                {
                    assert(decreases_to!(*self => self->Array_0));
                    assert(decreases_to!(self->Array_0 => items@));
                    let copy = items[i].copy();
                    proof {
                        lemma_items_push(copies@, copy);
                        lemma_items_push(items@.take(i as int), items@[i as int]);
                        assert(items@.take(i as int).push(items@[i as int]) =~= items@.take(i + 1));
                    }
                    copies.push(copy);
                }
                assert(items@.take(items.len() as int) =~= items@);
                Json::Array(copies)
            },
            Json::Object(members) => {
                let mut copies: Vec<(String, Json)> = Vec::new();
                for i in 0..members.len()
                    invariant
                        self == Json::Object(*members),
                        members_model(copies@) == members_model(members@.take(i as int)),
                {
                    assert(decreases_to!(*self => self->Object_0));
                    assert(decreases_to!(self->Object_0 => members@));
                    assert(decreases_to!(members@ => members@[i as int]));
                    let copy = members[i].1.copy();
                    push_member(&mut copies, members[i].0.as_str(), copy);
                    assert(members@.take(i + 1).drop_last() =~= members@.take(i as int));
                }
                assert(members@.take(members.len() as int) =~= members@);
                Json::Object(copies)
            },
        }
    }
}

} // verus!
