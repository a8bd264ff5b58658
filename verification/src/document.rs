//! The documents that a manifest is read from and written to: the values of
//! JSON, as far as a manifest needs them.

use vstd::prelude::*;
use vstd::string::*;
use crate::text::str_eq;

verus! {

/// A value of a document.
#[derive(Debug)]
pub enum Json {
    Null,
    Bool(bool),
    /// A number that is a natural number.
    Integer(u64),
    /// A number that is no natural number. A manifest holds none, so what
    /// the number is does not matter.
    Fraction,
    Text(String),
    List(Vec<Json>),
    /// The members of an object with their names, in the order in which
    /// they were handed over. A document that was read from JSON text
    /// holds them in ascending order of their names and holds no name
    /// twice; one that was put together by hand may hold them in any order
    /// and may hold a name more than once.
    Object(Vec<(String, Json)>),
}

/// A `Json` as plain values.
pub enum JsonModel {
    Null,
    Bool(bool),
    Integer(nat),
    Fraction,
    Text(Seq<char>),
    List(Seq<JsonModel>),
    Object(Seq<(Seq<char>, JsonModel)>),
}

/// The plain value of a document's value.
pub open spec fn model_of(j: Json) -> JsonModel
    decreases j,
{
    match j {
        Json::Null => JsonModel::Null,
        Json::Bool(b) => JsonModel::Bool(b),
        Json::Integer(n) => JsonModel::Integer(n as nat),
        Json::Fraction => JsonModel::Fraction,
        Json::Text(s) => JsonModel::Text(s@),
        Json::List(items) => JsonModel::List(
            Seq::new(
                items.len() as nat,
                |i: int|
                    if 0 <= i < items.len() {
                        model_of(items[i])
                    } else {
                        JsonModel::Null
                    },
            ),
        ),
        Json::Object(members) => JsonModel::Object(
            Seq::new(
                members.len() as nat,
                |i: int|
                    if 0 <= i < members.len() {
                        (members[i].0@, model_of(members[i].1))
                    } else {
                        (Seq::empty(), JsonModel::Null)
                    },
            ),
        ),
    }
}

impl DeepView for Json {
    type V = JsonModel;

    open spec fn deep_view(&self) -> JsonModel {
        model_of(*self)
    }
}

/// The value of a list is the list of its items' values, and the value of
/// an object is the list of its members' names and values.
pub proof fn lemma_model_of_parts(j: Json)
    ensures
        j matches Json::List(items) ==> j.deep_view() == JsonModel::List(items.deep_view()),
        j matches Json::Object(members) ==> j.deep_view() == JsonModel::Object(
            members.deep_view(),
        ),
{
    match j {
        Json::List(items) => {
            assert(model_of(j)->List_0 =~= items.deep_view());
        },
        Json::Object(members) => {
            assert(model_of(j)->Object_0 =~= members.deep_view());
        },
        _ => {},
    }
}

/// The value of the first member from place `i` on that goes by the name
/// `key`.
pub open spec fn member_from(
    members: Seq<(Seq<char>, JsonModel)>,
    key: Seq<char>,
    i: int,
) -> Option<JsonModel>
    decreases members.len() - i,
{
    if i < 0 || i >= members.len() {
        None
    } else if members[i].0 == key {
        Some(members[i].1)
    } else {
        member_from(members, key, i + 1)
    }
}

/// The value of the first member that goes by the name `key`. Members of
/// other names stand in nobody's way: a reader that asks for the names it
/// knows passes over the others.
pub open spec fn member(members: Seq<(Seq<char>, JsonModel)>, key: Seq<char>) -> Option<
    JsonModel,
> {
    member_from(members, key, 0)
}

/// Finds the value of the first member that goes by the name `key`.
pub fn get<'a>(members: &'a Vec<(String, Json)>, key: &str) -> (r: Option<&'a Json>)
    ensures
        r.deep_view() == member(members.deep_view(), key@),
{
    let mut i: usize = 0;
    while i < members.len()
        invariant
            i <= members.len(),
            member(members.deep_view(), key@) == member_from(members.deep_view(), key@, i as int),
        decreases members.len() - i,
    {
        if str_eq(members[i].0.as_str(), key) {
            return Some(&members[i].1);
        }
        i = i + 1;
    }
    None
}

/// A text as a value of a document.
pub fn text(s: &str) -> (r: Json)
    ensures
        r.deep_view() == JsonModel::Text(s@),
{
    Json::Text(String::from_str(s))
}

/// A list as a value of a document.
pub fn list(items: Vec<Json>) -> (r: Json)
    ensures
        r.deep_view() == JsonModel::List(items.deep_view()),
{
    let r = Json::List(items);
    proof {
        lemma_model_of_parts(r);
    }
    r
}

/// An object as a value of a document.
pub fn object(members: Vec<(String, Json)>) -> (r: Json)
    ensures
        r.deep_view() == JsonModel::Object(members.deep_view()),
{
    let r = Json::Object(members);
    proof {
        lemma_model_of_parts(r);
    }
    r
}

} // verus!
