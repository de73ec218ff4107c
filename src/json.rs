//! A JSON value tree, and its mathematical model.
use vstd::prelude::*;

verus! {

/// A JSON value. Object members keep the order in which they were written.
#[derive(Debug, PartialEq)]
pub enum Json {
    Null,
    Bool(bool),
    /// An integer number.
    Int(i128),
    /// A number that is not an integer, as its decimal text.
    Real(String),
    Str(String),
    Array(Vec<Json>),
    Object(Vec<(String, Json)>),
}

/// The model of a [`Json`] value.
pub enum JsonV {
    Null,
    Bool(bool),
    Int(int),
    Real(Seq<char>),
    Str(Seq<char>),
    Array(Seq<JsonV>),
    Object(Seq<(Seq<char>, JsonV)>),
}

pub open spec fn json_view(j: Json) -> JsonV
    decreases j,
{
    match j {
        Json::Null => JsonV::Null,
        Json::Bool(b) => JsonV::Bool(b),
        Json::Int(n) => JsonV::Int(n as int),
        Json::Real(s) => JsonV::Real(s@),
        Json::Str(s) => JsonV::Str(s@),
        Json::Array(a) => JsonV::Array(jsons_view(a@)),
        Json::Object(ms) => JsonV::Object(members_view(ms@)),
    }
}

pub open spec fn jsons_view(s: Seq<Json>) -> Seq<JsonV>
    decreases s,
{
    if s.len() == 0 {
        Seq::empty()
    } else {
        jsons_view(s.subrange(0, s.len() - 1)).push(json_view(s[s.len() - 1]))
    }
}

pub open spec fn members_view(s: Seq<(String, Json)>) -> Seq<(Seq<char>, JsonV)>
    decreases s,
{
    if s.len() == 0 {
        Seq::empty()
    } else {
        members_view(s.subrange(0, s.len() - 1)).push(
            (s[s.len() - 1].0@, json_view(s[s.len() - 1].1)),
        )
    }
}

pub proof fn lemma_jsons_view(s: Seq<Json>)
    ensures
        jsons_view(s).len() == s.len(),
        forall|i: int| 0 <= i < s.len() ==> #[trigger] jsons_view(s)[i] == json_view(s[i]),
    decreases s.len(),
{
    if s.len() > 0 {
        lemma_jsons_view(s.subrange(0, s.len() - 1));
    }
}

pub proof fn lemma_members_view(s: Seq<(String, Json)>)
    ensures
        members_view(s).len() == s.len(),
        forall|i: int|
            0 <= i < s.len() ==> #[trigger] members_view(s)[i] == (s[i].0@, json_view(s[i].1)),
    decreases s.len(),
{
    if s.len() > 0 {
        lemma_members_view(s.subrange(0, s.len() - 1));
    }
}

pub proof fn lemma_jsons_view_push(s: Seq<Json>, x: Json)
    ensures
        jsons_view(s.push(x)) == jsons_view(s).push(json_view(x)),
{
    assert(s.push(x).subrange(0, s.len() as int) =~= s);
}

pub proof fn lemma_members_view_push(s: Seq<(String, Json)>, x: (String, Json))
    ensures
        members_view(s.push(x)) == members_view(s).push((x.0@, json_view(x.1))),
{
    assert(s.push(x).subrange(0, s.len() as int) =~= s);
}

impl View for Json {
    type V = JsonV;

    open spec fn view(&self) -> JsonV {
        json_view(*self)
    }
}

} // verus!
