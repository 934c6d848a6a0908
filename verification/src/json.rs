//! JSON values, as `serde_json` reads them from text.

use crate::error::DlsiteError;
use crate::text::{parse_i32, parse_i64, parsed_i32, parsed_i64, str_eq};
use vstd::prelude::*;

verus! {

/// A JSON value. The members of an object are in the order of the text.
#[derive(Debug)]
pub enum Json {
    Null,
    Bool(bool),
    /// A number, in the digits in which `serde_json` writes it.
    Number(String),
    Str(String),
    Array(Vec<Json>),
    Object(Vec<Member>),
}

/// A member of an object: its name and its value.
#[derive(Debug)]
pub struct Member {
    pub name: String,
    pub value: Json,
}

pub struct MemberView {
    pub name: Seq<char>,
    pub value: JsonView,
}

impl DeepView for Member {
    type V = MemberView;

    open spec fn deep_view(&self) -> MemberView
        decreases self,
    {
        MemberView { name: self.name@, value: self.value.deep_view() }
    }
}

pub enum JsonView {
    Null,
    Bool(bool),
    Number(Seq<char>),
    Str(Seq<char>),
    Array(Seq<JsonView>),
    Object(Seq<MemberView>),
}

impl DeepView for Json {
    type V = JsonView;

    open spec fn deep_view(&self) -> JsonView
        decreases self,
    {
        match self {
            Json::Null => JsonView::Null,
            Json::Bool(b) => JsonView::Bool(*b),
            Json::Number(n) => JsonView::Number(n@),
            Json::Str(s) => JsonView::Str(s@),
            Json::Array(items) => JsonView::Array(
                Seq::new(
                    items.len() as nat,
                    |i: int|
                        if 0 <= i < items.len() {
                            items[i].deep_view()
                        } else {
                            JsonView::Null
                        },
                ),
            ),
            Json::Object(members) => JsonView::Object(
                Seq::new(
                    members.len() as nat,
                    |i: int|
                        if 0 <= i < members.len() {
                            members[i].deep_view()
                        } else {
                            MemberView { name: Seq::empty(), value: JsonView::Null }
                        },
                ),
            ),
        }
    }
}

/// A value of `serde_json`. It is carried from the parser to the
/// conversion, never looked into.
#[verifier::external_type_specification]
#[verifier::external_body]
pub struct ExValue(serde_json::Value);

/// The value that `serde_json::from_str` reads from `text`; nothing where it
/// reports an error.
pub uninterp spec fn value_of_text(text: Seq<char>) -> Option<serde_json::Value>;

/// `value` as a [`Json`]: the same value, variant by variant, with a number
/// in the digits that `serde_json::Number` writes and the members of an
/// object in the order in which `serde_json::Map` yields them.
pub uninterp spec fn json_of_value(value: serde_json::Value) -> JsonView;

/// Calls `serde_json::from_str` for a `serde_json::Value`.
#[verifier::external_body]
pub(crate) fn parse_value(text: &str) -> (r: Result<serde_json::Value, serde_json::Error>)
    ensures
        match r {
            Ok(v) => value_of_text(text@) == Some(v),
            Err(_) => value_of_text(text@) is None,
        },
{
    serde_json::from_str::<serde_json::Value>(text)
}

/// Moves a `serde_json::Value` into a [`Json`], one variant for one. A
/// number is written out with `to_string`; the items of an array and the
/// members of an object are converted in the order in which the value
/// yields them.
#[verifier::external_body]
pub(crate) fn json_from_value(value: serde_json::Value) -> (j: Json)
    ensures
        j.deep_view() == json_of_value(value),
{
    match value {
        serde_json::Value::Null => Json::Null,
        serde_json::Value::Bool(b) => Json::Bool(b),
        serde_json::Value::Number(n) => Json::Number(n.to_string()),
        serde_json::Value::String(s) => Json::Str(s),
        serde_json::Value::Array(a) => Json::Array(a.into_iter().map(json_from_value).collect()),
        serde_json::Value::Object(o) => Json::Object(
            o.into_iter().map(|(k, v)| Member { name: k, value: json_from_value(v) }).collect(),
        ),
    }
}

/// The JSON value that `text` writes; nothing where it writes none.
pub open spec fn json_of_text(text: Seq<char>) -> Option<JsonView> {
    match value_of_text(text) {
        Some(v) => Some(json_of_value(v)),
        None => None,
    }
}

/// Reads `text` as JSON.
pub fn parse_json(text: &str) -> (r: Result<Json, DlsiteError>)
    ensures
        match r {
            Ok(j) => json_of_text(text@) == Some(j.deep_view()),
            Err(e) => json_of_text(text@) is None && e is SerdeJson,
        },
{
    match parse_value(text) {
        Ok(v) => Ok(json_from_value(v)),
        Err(e) => Err(DlsiteError::SerdeJson(e)),
    }
}

/// The value of the first of `members` that is named `key`.
pub open spec fn find_member(members: Seq<MemberView>, key: Seq<char>) -> Option<JsonView>
    decreases members.len(),
{
    if members.len() == 0 {
        None
    } else if members[0].name == key {
        Some(members[0].value)
    } else {
        find_member(members.drop_first(), key)
    }
}

impl JsonView {
    /// The member `key` of an object; nothing for anything else.
    pub open spec fn member(self, key: Seq<char>) -> Option<JsonView> {
        match self {
            JsonView::Object(members) => find_member(members, key),
            _ => None,
        }
    }

    /// The `i64` that this value writes as a number.
    pub open spec fn as_i64(self) -> Option<i64> {
        match self {
            JsonView::Number(n) => parsed_i64(n),
            _ => None,
        }
    }

    /// The `i32` that this value writes as a number.
    pub open spec fn as_i32(self) -> Option<i32> {
        match self {
            JsonView::Number(n) => parsed_i32(n),
            _ => None,
        }
    }

}

/// The members of an object, seen one by one.
pub proof fn lemma_object_view(j: Json)
    requires
        j is Object,
    ensures
        j.deep_view() is Object,
        j.deep_view()->Object_0.len() == j->Object_0.len(),
        forall|i: int|
            0 <= i < j->Object_0.len() ==> #[trigger] j.deep_view()->Object_0[i]
                == j->Object_0[i].deep_view(),
{
}

/// The items of an array, seen one by one.
pub proof fn lemma_array_view(j: Json)
    requires
        j is Array,
    ensures
        j.deep_view() is Array,
        j.deep_view()->Array_0.len() == j->Array_0.len(),
        forall|i: int|
            0 <= i < j->Array_0.len() ==> #[trigger] j.deep_view()->Array_0[i]
                == j->Array_0[i].deep_view(),
{
}

impl Json {
    /// The member `key` of an object.
    pub fn get(&self, key: &str) -> (r: Option<&Json>)
        ensures
            r.deep_view() == self.deep_view().member(key@),
    {
        match self {
            Json::Object(members) => {
                let ghost all = self.deep_view()->Object_0;
                let mut i: usize = 0;
                proof {
                    lemma_object_view(*self);
                    assert(all.skip(0) =~= all);
                }
                while i < members.len()
                    invariant
                        i <= members.len(),
                        self.deep_view() == JsonView::Object(all),
                        all.len() == members.len(),
                        forall|j: int|
                            0 <= j < members.len() ==> all[j] == members[j].deep_view(),
                        find_member(all, key@) == find_member(all.skip(i as int), key@),
                    decreases members.len() - i,
                {
                    proof {
                        assert(all.skip(i as int).drop_first() =~= all.skip(i as int + 1));
                    }
                    assert(all.skip(i as int)[0] == all[i as int]);
                    assert(all[i as int].name == members[i as int].name@);
                    assert(all[i as int].value == members[i as int].value.deep_view());
                    if str_eq(members[i].name.as_str(), key) {
                        return Some(&members[i].value);
                    }
                    i += 1;
                }
                None
            },
            _ => None,
        }
    }

    /// The `i64` that this value writes as a number.
    pub fn as_i64(&self) -> (r: Option<i64>)
        ensures
            r == self.deep_view().as_i64(),
    {
        match self {
            Json::Number(n) => parse_i64(n.as_str()),
            _ => None,
        }
    }

    /// A copy of this value.
    pub fn copy(&self) -> (r: Json)
        ensures
            r.deep_view() == self.deep_view(),
        decreases self,
    {
        match self {
            Json::Null => Json::Null,
            Json::Bool(b) => Json::Bool(*b),
            Json::Number(n) => Json::Number(n.clone()),
            Json::Str(s) => Json::Str(s.clone()),
            Json::Array(items) => {
                let mut copies: Vec<Json> = Vec::new();
                let mut i: usize = 0;
                while i < items.len()
                    invariant
                        i <= items.len(),
                        forall|k: int|
                            0 <= k < items.len() ==> decreases_to!(*self => #[trigger] items[k]),
                        copies.len() == i,
                        forall|k: int|
                            0 <= k < i ==> (#[trigger] copies[k]).deep_view()
                                == items[k].deep_view(),
                    decreases items.len() - i,
                {
                    proof {
                        assert(decreases_to!(*self => items[i as int]));
                    }
                    copies.push(items[i].copy());
                    i += 1;
                }
                let r = Json::Array(copies);
                proof {
                    lemma_array_view(*self);
                    lemma_array_view(r);
                    assert(r.deep_view()->Array_0 =~= self.deep_view()->Array_0);
                }
                r
            },
            Json::Object(members) => {
                let mut copies: Vec<Member> = Vec::new();
                let mut i: usize = 0;
                while i < members.len()
                    invariant
                        i <= members.len(),
                        forall|k: int|
                            0 <= k < members.len() ==> decreases_to!(*self => (#[trigger] members[k]).value),
                        copies.len() == i,
                        forall|k: int|
                            0 <= k < i ==> (#[trigger] copies[k]).deep_view()
                                == members[k].deep_view(),
                    decreases members.len() - i,
                {
                    proof {
                        assert(decreases_to!(*self => members[i as int].value));
                    }
                    let member = Member {
                        name: members[i].name.clone(),
                        value: members[i].value.copy(),
                    };
                    copies.push(member);
                    i += 1;
                }
                let r = Json::Object(copies);
                proof {
                    lemma_object_view(*self);
                    lemma_object_view(r);
                    assert(r.deep_view()->Object_0 =~= self.deep_view()->Object_0);
                }
                r
            },
        }
    }

    /// The `i32` that this value writes as a number.
    pub fn as_i32(&self) -> (r: Option<i32>)
        ensures
            r == self.deep_view().as_i32(),
    {
        match self {
            Json::Number(n) => parse_i32(n.as_str()),
            _ => None,
        }
    }
}

} // verus!
