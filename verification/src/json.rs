//! JSON values.
use crate::text::{decimal, decimal_text, str_equal};
use vstd::prelude::*;
use vstd::string::*;

verus! {

/// A JSON value.
#[derive(Debug)]
pub enum Json {
    Null,
    Bool(bool),
    /// A number, as it is written.
    Number(String),
    Text(String),
    Array(Vec<Json>),
    Object(Vec<(String, Json)>),
}

/// What a JSON value is.
pub enum JsonView {
    Null,
    Bool(bool),
    Number(Seq<char>),
    Text(Seq<char>),
    Array(Seq<JsonView>),
    Object(Seq<(Seq<char>, JsonView)>),
}

/// What a JSON value is.
pub open spec fn json_view(j: Json) -> JsonView
    decreases j,
{
    match j {
        Json::Null => JsonView::Null,
        Json::Bool(b) => JsonView::Bool(b),
        Json::Number(s) => JsonView::Number(s@),
        Json::Text(s) => JsonView::Text(s@),
        Json::Array(v) => JsonView::Array(
            Seq::new(
                v@.len(),
                |i: int|
                    if 0 <= i < v@.len() {
                        json_view(v@[i])
                    } else {
                        JsonView::Null
                    },
            ),
        ),
        Json::Object(v) => JsonView::Object(
            Seq::new(
                v@.len(),
                |i: int|
                    if 0 <= i < v@.len() {
                        (v@[i].0@, json_view(v@[i].1))
                    } else {
                        (Seq::empty(), JsonView::Null)
                    },
            ),
        ),
    }
}

impl View for Json {
    type V = JsonView;

    open spec fn view(&self) -> JsonView {
        json_view(*self)
    }
}

/// What JSON values are.
pub open spec fn json_list(v: Seq<Json>) -> Seq<JsonView> {
    Seq::new(v.len(), |i: int| v[i]@)
}

/// What the members of an object are.
pub open spec fn json_members(v: Seq<(String, Json)>) -> Seq<(Seq<char>, JsonView)> {
    Seq::new(v.len(), |i: int| (v[i].0@, v[i].1@))
}

proof fn lemma_array_view(v: Vec<Json>)
    ensures
        Json::Array(v)@ == JsonView::Array(json_list(v@)),
{
    if let JsonView::Array(s) = Json::Array(v)@ {
        assert(s =~= json_list(v@));
    }
}

proof fn lemma_object_view(v: Vec<(String, Json)>)
    ensures
        Json::Object(v)@ == JsonView::Object(json_members(v@)),
{
    if let JsonView::Object(s) = Json::Object(v)@ {
        assert(s =~= json_members(v@));
    }
}

/// A text.
pub fn text_value(s: &str) -> (r: Json)
    ensures
        r@ == JsonView::Text(s@),
{
    Json::Text(s.to_owned())
}

/// A whole number.
pub fn number_value(n: u64) -> (r: Json)
    ensures
        r@ == JsonView::Number(decimal(n as nat)),
{
    Json::Number(decimal_text(n))
}

/// A truth value.
pub fn bool_value(b: bool) -> (r: Json)
    ensures
        r@ == JsonView::Bool(b),
{
    Json::Bool(b)
}

/// An array.
pub fn array_value(v: Vec<Json>) -> (r: Json)
    ensures
        r@ == JsonView::Array(json_list(v@)),
{
    proof {
        lemma_array_view(v);
    }
    Json::Array(v)
}

/// An object.
pub fn object_value(v: Vec<(String, Json)>) -> (r: Json)
    ensures
        r@ == JsonView::Object(json_members(v@)),
{
    proof {
        lemma_object_view(v);
    }
    Json::Object(v)
}

/// Puts one more member behind the others.
pub fn put(members: &mut Vec<(String, Json)>, key: &str, value: Json)
    ensures
        json_members(final(members)@) == json_members(old(members)@).push((key@, value@)),
{
    members.push((key.to_owned(), value));
    assert(json_members(members@) =~= json_members(old(members)@).push((key@, value@)));
}

/// Puts one more text behind the others.
pub fn put_text(list: &mut Vec<Json>, text: &str)
    ensures
        json_list(final(list)@) == json_list(old(list)@).push(JsonView::Text(text@)),
{
    list.push(text_value(text));
    assert(json_list(list@) =~= json_list(old(list)@).push(JsonView::Text(text@)));
}

/// No members.
pub fn no_members() -> (r: Vec<(String, Json)>)
    ensures
        json_members(r@) == Seq::<(Seq<char>, JsonView)>::empty(),
{
    let r: Vec<(String, Json)> = Vec::new();
    assert(json_members(r@) =~= Seq::empty());
    r
}

/// No values.
pub fn no_values() -> (r: Vec<Json>)
    ensures
        json_list(r@) == Seq::<JsonView>::empty(),
{
    let r: Vec<Json> = Vec::new();
    assert(json_list(r@) =~= Seq::empty());
    r
}

/// The same value once more.
pub fn copy_json(j: &Json) -> (r: Json)
    ensures
        r@ == j@,
    decreases j,
{
    match j {
        Json::Null => Json::Null,
        Json::Bool(b) => Json::Bool(*b),
        Json::Number(s) => Json::Number(s.clone()),
        Json::Text(s) => Json::Text(s.clone()),
        Json::Array(v) => {
            let mut out: Vec<Json> = Vec::new();
            let mut i: usize = 0;
            while i < v.len()
                invariant
                    i <= v@.len(),
                    *j == Json::Array(*v),
                    out@.len() == i,
                    forall|k: int| 0 <= k < i ==> (#[trigger] out@[k])@ == v@[k]@,
                decreases v.len() - i,
            {
                assert(decreases_to!(*j => j->Array_0));
                assert(decreases_to!(v@ => v@[i as int]));
                out.push(copy_json(&v[i]));
                i = i + 1;
            }
            proof {
                lemma_array_view(*v);
                lemma_array_view(out);
                assert(json_list(out@) =~= json_list(v@));
            }
            Json::Array(out)
        },
        Json::Object(v) => {
            let mut out: Vec<(String, Json)> = Vec::new();
            let mut i: usize = 0;
            while i < v.len()
                invariant
                    i <= v@.len(),
                    *j == Json::Object(*v),
                    out@.len() == i,
                    forall|k: int|
                        0 <= k < i ==> (#[trigger] out@[k]).0@ == v@[k].0@ && out@[k].1@ == v@[k].1@,
                decreases v.len() - i,
            {
                assert(decreases_to!(*j => j->Object_0));
                assert(decreases_to!(v@ => v@[i as int]));
                assert(decreases_to!(v@[i as int] => v@[i as int].1));
                out.push((v[i].0.clone(), copy_json(&v[i].1)));
                i = i + 1;
            }
            proof {
                lemma_object_view(*v);
                lemma_object_view(out);
                assert(json_members(out@) =~= json_members(v@));
            }
            Json::Object(out)
        },
    }
}

impl Clone for Json {
    fn clone(&self) -> (r: Self)
        ensures
            r@ == self@,
    {
        copy_json(self)
    }
}

/// What stands under a key among members from index `from` on.
pub open spec fn member_from(v: Seq<(Seq<char>, JsonView)>, key: Seq<char>, from: int) -> Option<
    JsonView,
>
    decreases v.len() - from,
{
    if from >= v.len() {
        None
    } else if v[from].0 == key {
        Some(v[from].1)
    } else {
        member_from(v, key, from + 1)
    }
}

impl JsonView {
    /// What stands under a key.
    pub open spec fn member(self, key: Seq<char>) -> Option<JsonView> {
        match self {
            JsonView::Object(v) => member_from(v, key, 0),
            _ => None,
        }
    }
}

impl Json {
    /// What stands under a key of an object.
    pub fn get(&self, key: &str) -> (r: Option<&Json>)
        ensures
            match r {
                Some(found) => self@.member(key@) == Some(found@),
                None => self@.member(key@) is None,
            },
    {
        match self {
            Json::Object(v) => {
                proof {
                    lemma_object_view(*v);
                }
                let mut i: usize = 0;
                while i < v.len()
                    invariant
                        i <= v@.len(),
                        self@ == JsonView::Object(json_members(v@)),
                        self@.member(key@) == member_from(json_members(v@), key@, i as int),
                    decreases v.len() - i,
                {
                    if str_equal(v[i].0.as_str(), key) {
                        return Some(&v[i].1);
                    }
                    i = i + 1;
                }
                None
            },
            _ => None,
        }
    }

    /// The text of a text.
    pub fn as_str(&self) -> (r: Option<&str>)
        ensures
            match r {
                Some(s) => self@ == JsonView::Text(s@),
                None => !(self@ is Text),
            },
    {
        match self {
            Json::Text(s) => Some(s.as_str()),
            _ => None,
        }
    }

    /// The values of an array.
    pub fn as_array(&self) -> (r: Option<&Vec<Json>>)
        ensures
            match r {
                Some(v) => self@ == JsonView::Array(json_list(v@)),
                None => !(self@ is Array),
            },
    {
        match self {
            Json::Array(v) => {
                proof {
                    lemma_array_view(*v);
                }
                Some(v)
            },
            _ => None,
        }
    }
}

/// What is found under a key is the value of its first member, and is found exactly where there is
/// such a member.
pub proof fn law_member_is_the_first(v: Seq<(Seq<char>, JsonView)>, key: Seq<char>, from: int)
    requires
        0 <= from,
    ensures
        match member_from(v, key, from) {
            Some(found) => exists|i: int|
                {
                    &&& from <= i < v.len()
                    &&& (#[trigger] v[i]).0 == key
                    &&& v[i].1 == found
                    &&& forall|j: int| from <= j < i ==> (#[trigger] v[j]).0 != key
                },
            None => forall|i: int| from <= i < v.len() ==> (#[trigger] v[i]).0 != key,
        },
    decreases v.len() - from,
{
    if from < v.len() && v[from].0 != key {
        law_member_is_the_first(v, key, from + 1);
    }
}

} // verus!
