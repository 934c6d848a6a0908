//! Decoding JSON values whose shape the service does not keep stable.
//!
//! A type that can be read from JSON says, for every value, why the value
//! is none of its own ([`FromJson::failure`]) and which of its values the
//! JSON value writes ([`FromJson::decoded_from`]). The decoders of this file
//! put such types together: a member of an object, a list, an optional
//! value, one of two shapes, a sequence that may come as a keyed map, a
//! value that falls back to nothing where it is malformed.

use crate::error::{DlsiteError, FailureKind};
use crate::json::{find_member, lemma_array_view, lemma_object_view, Json, JsonView, MemberView};
use crate::text::{decimal_digits, decimal_string, parse_i32, parsed_i32, str_eq};
use vstd::prelude::*;

verus! {

/// A type whose values JSON can write.
pub trait FromJson: Sized {
    /// Why `j` writes no value of this type; `None` where it writes one.
    spec fn failure(j: JsonView) -> Option<Seq<char>>;

    /// Whether this is the value that `j` writes. It is meant for a `j`
    /// without failure.
    spec fn decoded_from(&self, j: JsonView) -> bool;

    /// The value that `j` writes, or the mismatch of shape that says why it
    /// writes none.
    fn from_json(j: &Json) -> (r: Result<Self, DlsiteError>)
        ensures
            match r {
                Ok(v) => Self::failure(j.deep_view()) is None && v.decoded_from(j.deep_view()),
                Err(e) => Self::failure(j.deep_view()) is Some && e.is_shape(
                    Self::failure(j.deep_view())->0,
                ),
            },
    ;
}

impl FromJson for String {
    open spec fn failure(j: JsonView) -> Option<Seq<char>> {
        if j is Str {
            None
        } else {
            Some("expected a string"@)
        }
    }

    open spec fn decoded_from(&self, j: JsonView) -> bool {
        j == JsonView::Str(self@)
    }

    fn from_json(j: &Json) -> (r: Result<String, DlsiteError>) {
        match j {
            Json::Str(s) => Ok(s.clone()),
            _ => Err(DlsiteError::shape("expected a string")),
        }
    }
}

impl FromJson for bool {
    open spec fn failure(j: JsonView) -> Option<Seq<char>> {
        if j is Bool {
            None
        } else {
            Some("expected a boolean"@)
        }
    }

    open spec fn decoded_from(&self, j: JsonView) -> bool {
        j == JsonView::Bool(*self)
    }

    fn from_json(j: &Json) -> (r: Result<bool, DlsiteError>) {
        match j {
            Json::Bool(b) => Ok(*b),
            _ => Err(DlsiteError::shape("expected a boolean")),
        }
    }
}

impl FromJson for i32 {
    open spec fn failure(j: JsonView) -> Option<Seq<char>> {
        if j.as_i32() is Some {
            None
        } else {
            Some("expected an integer"@)
        }
    }

    open spec fn decoded_from(&self, j: JsonView) -> bool {
        j.as_i32() == Some(*self)
    }

    fn from_json(j: &Json) -> (r: Result<i32, DlsiteError>) {
        match j.as_i32() {
            Some(n) => Ok(n),
            None => Err(DlsiteError::shape("expected an integer")),
        }
    }
}

impl FromJson for i64 {
    open spec fn failure(j: JsonView) -> Option<Seq<char>> {
        if j.as_i64() is Some {
            None
        } else {
            Some("expected an integer"@)
        }
    }

    open spec fn decoded_from(&self, j: JsonView) -> bool {
        j.as_i64() == Some(*self)
    }

    fn from_json(j: &Json) -> (r: Result<i64, DlsiteError>) {
        match j.as_i64() {
            Some(n) => Ok(n),
            None => Err(DlsiteError::shape("expected an integer")),
        }
    }
}

impl FromJson for () {
    open spec fn failure(j: JsonView) -> Option<Seq<char>> {
        if j is Null {
            None
        } else {
            Some("expected null"@)
        }
    }

    open spec fn decoded_from(&self, j: JsonView) -> bool {
        j is Null
    }

    fn from_json(j: &Json) -> (r: Result<(), DlsiteError>) {
        match j {
            Json::Null => Ok(()),
            _ => Err(DlsiteError::shape("expected null")),
        }
    }
}

impl FromJson for Json {
    /// Any value is a value.
    open spec fn failure(j: JsonView) -> Option<Seq<char>> {
        None
    }

    open spec fn decoded_from(&self, j: JsonView) -> bool {
        self.deep_view() == j
    }

    fn from_json(j: &Json) -> (r: Result<Json, DlsiteError>) {
        Ok(j.copy())
    }
}

/// A number with a fraction, kept in the digits of the text.
#[derive(Debug)]
pub struct Decimal {
    pub digits: String,
}

impl FromJson for Decimal {
    open spec fn failure(j: JsonView) -> Option<Seq<char>> {
        if j is Number {
            None
        } else {
            Some("expected a number"@)
        }
    }

    open spec fn decoded_from(&self, j: JsonView) -> bool {
        j == JsonView::Number(self.digits@)
    }

    fn from_json(j: &Json) -> (r: Result<Decimal, DlsiteError>) {
        match j {
            Json::Number(n) => Ok(Decimal { digits: n.clone() }),
            _ => Err(DlsiteError::shape("expected a number")),
        }
    }
}

impl<T: FromJson> FromJson for Option<T> {
    open spec fn failure(j: JsonView) -> Option<Seq<char>> {
        if j is Null {
            None
        } else {
            T::failure(j)
        }
    }

    open spec fn decoded_from(&self, j: JsonView) -> bool {
        if j is Null {
            self is None
        } else {
            self is Some && self->0.decoded_from(j)
        }
    }

    fn from_json(j: &Json) -> (r: Result<Option<T>, DlsiteError>) {
        match j {
            Json::Null => Ok(None),
            _ => match T::from_json(j) {
                Ok(v) => Ok(Some(v)),
                Err(e) => Err(e),
            },
        }
    }
}

/// The failure `inner` of the item at the place `index` of a list.
pub open spec fn at_index(index: nat, inner: Seq<char>) -> Seq<char> {
    "["@ + decimal_digits(index) + "]: "@ + inner
}

/// The first failure among `items` read as values of `T`, in order, where
/// the first of `items` stands at the place `start` of its list.
pub open spec fn items_failure_from<T: FromJson>(items: Seq<JsonView>, start: nat) -> Option<
    Seq<char>,
>
    decreases items.len(),
{
    if items.len() == 0 {
        None
    } else {
        match T::failure(items[0]) {
            Some(inner) => Some(at_index(start, inner)),
            None => items_failure_from::<T>(items.drop_first(), start + 1),
        }
    }
}

/// The first failure among `items` read as values of `T`, in order: the
/// failure of the item, after its place in the list.
pub open spec fn items_failure<T: FromJson>(items: Seq<JsonView>) -> Option<Seq<char>> {
    items_failure_from::<T>(items, 0)
}

/// The items fail alike, wherever in a list they stand.
pub proof fn lemma_items_fail_alike<T: FromJson>(items: Seq<JsonView>, a: nat, b: nat)
    ensures
        items_failure_from::<T>(items, a) is None <==> items_failure_from::<T>(items, b) is None,
    decreases items.len(),
{
    if items.len() > 0 && T::failure(items[0]) is None {
        lemma_items_fail_alike::<T>(items.drop_first(), a + 1, b + 1);
    }
}

/// Whether `list` holds the values that `items` write, one for one and in
/// order.
pub open spec fn items_decoded<T: FromJson>(list: Seq<T>, items: Seq<JsonView>) -> bool {
    &&& list.len() == items.len()
    &&& forall|i: int| 0 <= i < items.len() ==> (#[trigger] list[i]).decoded_from(items[i])
}

/// Reads each of `items` as a `T`. The first that fails makes the whole
/// list fail.
pub fn items_from_json<T: FromJson>(items: &Vec<Json>) -> (r: Result<Vec<T>, DlsiteError>)
    ensures
        match r {
            Ok(list) => items_failure::<T>(items.deep_view()) is None && items_decoded(
                list@,
                items.deep_view(),
            ),
            Err(e) => items_failure::<T>(items.deep_view()) is Some && e.is_shape(
                items_failure::<T>(items.deep_view())->0,
            ),
        },
{
    let ghost all = items.deep_view();
    let mut list: Vec<T> = Vec::new();
    let mut i: usize = 0;
    proof {
        assert(all.skip(0) =~= all);
    }
    while i < items.len()
        invariant
            i <= items.len(),
            all == items.deep_view(),
            list.len() == i,
            items_failure::<T>(all) == items_failure_from::<T>(all.skip(i as int), i as nat),
            forall|k: int| 0 <= k < i ==> (#[trigger] list[k]).decoded_from(all[k]),
        decreases items.len() - i,
    {
        proof {
            assert(all.skip(i as int).drop_first() =~= all.skip(i as int + 1));
            assert(all.skip(i as int)[0] == items[i as int].deep_view());
        }
        match T::from_json(&items[i]) {
            Ok(v) => {
                list.push(v);
            },
            Err(e) => {
                let mut message = "[".to_owned();
                message.append(decimal_string(i as u64).as_str());
                message.append("]: ");
                message.append(e.message().as_str());
                return Err(DlsiteError::Parse(FailureKind::ShapeMismatch, message));
            },
        }
        i += 1;
    }
    Ok(list)
}

impl<T: FromJson> FromJson for Vec<T> {
    open spec fn failure(j: JsonView) -> Option<Seq<char>> {
        match j {
            JsonView::Array(items) => items_failure::<T>(items),
            _ => Some("expected an array"@),
        }
    }

    open spec fn decoded_from(&self, j: JsonView) -> bool {
        j is Array && items_decoded(self@, j->Array_0)
    }

    fn from_json(j: &Json) -> (r: Result<Vec<T>, DlsiteError>) {
        match j {
            Json::Array(items) => {
                proof {
                    lemma_array_view(*j);
                    assert(j.deep_view()->Array_0 =~= items.deep_view());
                }
                items_from_json(items)
            },
            _ => Err(DlsiteError::shape("expected an array")),
        }
    }
}

/// The message for a member that is not there.
pub open spec fn missing(name: Seq<char>) -> Seq<char> {
    "missing field `"@ + name + "`"@
}

/// The value under `name`: a member that is not there counts as null.
pub open spec fn field_value(obj: JsonView, name: Seq<char>) -> JsonView {
    match obj.member(name) {
        Some(v) => v,
        None => JsonView::Null,
    }
}

/// Why the member `name` of `obj` writes no `T`: the failure of its value
/// after the name, or that it is missing where `T` has no value for null.
pub open spec fn field_failure<T: FromJson>(obj: JsonView, name: Seq<char>) -> Option<Seq<char>> {
    match obj.member(name) {
        Some(v) => match T::failure(v) {
            Some(m) => Some(name + ": "@ + m),
            None => None,
        },
        None => if T::failure(JsonView::Null) is None {
            None
        } else {
            Some(missing(name))
        },
    }
}

/// Whether `r` is the outcome of reading the member `name` of `obj` as a
/// `T`.
pub open spec fn field_decodes<T: FromJson>(
    r: Result<T, DlsiteError>,
    obj: JsonView,
    name: Seq<char>,
) -> bool {
    match r {
        Ok(v) => field_failure::<T>(obj, name) is None && v.decoded_from(field_value(obj, name)),
        Err(e) => field_failure::<T>(obj, name) is Some && e.is_shape(
            field_failure::<T>(obj, name)->0,
        ),
    }
}

/// Reads the member `name` of `obj`. A member that is not there is read as
/// null: an optional value is then absent, any other is an error.
pub fn field<T: FromJson>(obj: &Json, name: &str) -> (r: Result<T, DlsiteError>)
    ensures
        field_decodes(r, obj.deep_view(), name@),
{
    match obj.get(name) {
        Some(v) => match T::from_json(v) {
            Ok(value) => Ok(value),
            Err(DlsiteError::Parse(_, m)) => {
                let mut message = name.to_owned();
                message.append(": ");
                message.append(m.as_str());
                Err(DlsiteError::Parse(FailureKind::ShapeMismatch, message))
            },
            Err(e) => Err(e),
        },
        None => {
            let null = Json::Null;
            match T::from_json(&null) {
                Ok(value) => Ok(value),
                Err(_) => {
                    let mut message = "missing field `".to_owned();
                    message.append(name);
                    message.append("`");
                    Err(DlsiteError::Parse(FailureKind::ShapeMismatch, message))
                },
            }
        },
    }
}

/// Why the member `name` of `obj`, which must be there, writes no `T`.
pub open spec fn present_failure<T: FromJson>(obj: JsonView, name: Seq<char>) -> Option<Seq<char>> {
    if obj.member(name) is None {
        Some(missing(name))
    } else {
        field_failure::<T>(obj, name)
    }
}

/// Reads the member `name` of `obj`, which must be there even where `T`
/// has a value for null.
pub fn present_field<T: FromJson>(obj: &Json, name: &str) -> (r: Result<T, DlsiteError>)
    ensures
        match r {
            Ok(v) => present_failure::<T>(obj.deep_view(), name@) is None && v.decoded_from(
                field_value(obj.deep_view(), name@),
            ),
            Err(e) => present_failure::<T>(obj.deep_view(), name@) is Some && e.is_shape(
                present_failure::<T>(obj.deep_view(), name@)->0,
            ),
        },
{
    match obj.get(name) {
        Some(_) => field::<T>(obj, name),
        None => {
            let mut message = "missing field `".to_owned();
            message.append(name);
            message.append("`");
            Err(DlsiteError::Parse(FailureKind::ShapeMismatch, message))
        },
    }
}

/// A value that arrives in one of two shapes. Both are values in their own
/// right; neither stands for the other.
#[derive(Debug)]
pub enum Either<T, V> {
    Left(T),
    Right(V),
}

impl<T: FromJson, V: FromJson> FromJson for Either<T, V> {
    /// The first shape is tried first; the second only where the first
    /// fails.
    open spec fn failure(j: JsonView) -> Option<Seq<char>> {
        if T::failure(j) is None || V::failure(j) is None {
            None
        } else {
            Some("data did not match any variant"@)
        }
    }

    open spec fn decoded_from(&self, j: JsonView) -> bool {
        if T::failure(j) is None {
            self is Left && self->Left_0.decoded_from(j)
        } else {
            self is Right && self->Right_0.decoded_from(j)
        }
    }

    fn from_json(j: &Json) -> (r: Result<Either<T, V>, DlsiteError>) {
        match T::from_json(j) {
            Ok(left) => Ok(Either::Left(left)),
            Err(_) => match V::from_json(j) {
                Ok(right) => Ok(Either::Right(right)),
                Err(_) => Err(DlsiteError::shape("data did not match any variant")),
            },
        }
    }
}

/// A value under a key.
#[derive(Debug)]
pub struct Entry<T> {
    pub key: String,
    pub value: T,
}

/// The members of an object, each read as a `T`, in the order of the text.
/// The type does not ask that no key occurs twice, though none does in an
/// object that was read from text; where one does, its first entry is the
/// one that is found.
#[derive(Debug)]
pub struct Keyed<T> {
    pub entries: Vec<Entry<T>>,
}

/// The first failure among `members` whose values are read as values of
/// `T`, in order: the failure of the value, after the name of the member.
pub open spec fn members_failure<T: FromJson>(members: Seq<MemberView>) -> Option<Seq<char>>
    decreases members.len(),
{
    if members.len() == 0 {
        None
    } else {
        match T::failure(members[0].value) {
            Some(inner) => Some(members[0].name + ": "@ + inner),
            None => members_failure::<T>(members.drop_first()),
        }
    }
}

/// The values of `members`, in order.
pub open spec fn member_values(members: Seq<MemberView>) -> Seq<JsonView> {
    members.map_values(|m: MemberView| m.value)
}

impl<T: FromJson> FromJson for Keyed<T> {
    open spec fn failure(j: JsonView) -> Option<Seq<char>> {
        match j {
            JsonView::Object(members) => members_failure::<T>(members),
            _ => Some("expected an object"@),
        }
    }

    open spec fn decoded_from(&self, j: JsonView) -> bool {
        &&& j is Object
        &&& self.entries.len() == j->Object_0.len()
        &&& forall|i: int|
            0 <= i < self.entries.len() ==> (#[trigger] self.entries[i]).key@ == j->Object_0[i].name
                && self.entries[i].value.decoded_from(j->Object_0[i].value)
    }

    fn from_json(j: &Json) -> (r: Result<Keyed<T>, DlsiteError>) {
        match j {
            Json::Object(members) => {
                let ghost all = j.deep_view()->Object_0;
                let mut entries: Vec<Entry<T>> = Vec::new();
                let mut i: usize = 0;
                proof {
                    lemma_object_view(*j);
                    assert(all.skip(0) =~= all);
                }
                while i < members.len()
                    invariant
                        i <= members.len(),
                        j.deep_view() is Object,
                        all == j.deep_view()->Object_0,
                        all.len() == members.len(),
                        forall|k: int|
                            0 <= k < members.len() ==> #[trigger] all[k] == members[k].deep_view(),
                        entries.len() == i,
                        members_failure::<T>(all) == members_failure::<T>(all.skip(i as int)),
                        forall|k: int|
                            0 <= k < i ==> (#[trigger] entries[k]).key@ == all[k].name
                                && entries[k].value.decoded_from(all[k].value),
                    decreases members.len() - i,
                {
                    proof {
                        assert(all.skip(i as int).drop_first() =~= all.skip(i as int + 1));
                        assert(all.skip(i as int)[0] == all[i as int]);
                        assert(all[i as int] == members[i as int].deep_view());
                        assert(members[i as int].deep_view().value
                            == members[i as int].value.deep_view());
                        assert(members[i as int].deep_view().name == members[i as int].name@);
                    }
                    match T::from_json(&members[i].value) {
                        Ok(value) => {
                            entries.push(Entry { key: members[i].name.clone(), value });
                        },
                        Err(e) => {
                            let mut message = members[i].name.clone();
                            message.append(": ");
                            message.append(e.message().as_str());
                            return Err(DlsiteError::Parse(FailureKind::ShapeMismatch, message));
                        },
                    }
                    i += 1;
                }
                Ok(Keyed { entries })
            },
            _ => Err(DlsiteError::shape("expected an object")),
        }
    }
}

/// Takes the value under `key` out of `keyed`, which was read from `j`: the
/// value of the member `key` of `j`.
pub fn take_member<T: FromJson>(keyed: Keyed<T>, j: &Json, key: &str) -> (r: Option<T>)
    requires
        keyed.decoded_from(j.deep_view()),
    ensures
        match j.deep_view().member(key@) {
            Some(one) => r is Some && r->0.decoded_from(one),
            None => r is None,
        },
{
    let mut entries = keyed.entries;
    let ghost members = j.deep_view()->Object_0;
    let mut i: usize = 0;
    proof {
        assert(members.skip(0) =~= members);
    }
    while i < entries.len()
        invariant
            i <= entries.len(),
            j.deep_view() is Object,
            members == j.deep_view()->Object_0,
            entries.len() == members.len(),
            forall|k: int|
                0 <= k < entries.len() ==> (#[trigger] entries[k]).key@ == members[k].name
                    && entries[k].value.decoded_from(members[k].value),
            find_member(members, key@) == find_member(members.skip(i as int), key@),
        decreases entries.len() - i,
    {
        proof {
            assert(members.skip(i as int).drop_first() =~= members.skip(i as int + 1));
            assert(members.skip(i as int)[0] == members[i as int]);
        }
        if str_eq(entries[i].key.as_str(), key) {
            let entry = entries.remove(i);
            return Some(entry.value);
        }
        i += 1;
    }
    None
}

/// The sequence that `j` writes, whether as an array or as a keyed map whose
/// keys do not matter: the items, or the values of the members.
pub open spec fn sequence_of(j: JsonView) -> Option<Seq<JsonView>> {
    match j {
        JsonView::Array(items) => Some(items),
        JsonView::Object(members) => Some(member_values(members)),
        _ => None,
    }
}

/// Why `j` writes no sequence of `T`.
pub open spec fn sequence_failure<T: FromJson>(j: JsonView) -> Option<Seq<char>> {
    match j {
        JsonView::Array(items) => items_failure::<T>(items),
        JsonView::Object(members) => members_failure::<T>(members),
        _ => Some("expected an array or an object"@),
    }
}

/// Reads a sequence that may come as an array or as a keyed map. Either
/// way the outcome is the sequence of the values, in the order of the text;
/// the keys of a map are dropped.
pub fn seq_or_map<T: FromJson>(j: &Json) -> (r: Result<Vec<T>, DlsiteError>)
    ensures
        match r {
            Ok(list) => sequence_failure::<T>(j.deep_view()) is None && items_decoded(
                list@,
                sequence_of(j.deep_view())->0,
            ),
            Err(e) => sequence_failure::<T>(j.deep_view()) is Some && e.is_shape(
                sequence_failure::<T>(j.deep_view())->0,
            ),
        },
{
    match j {
        Json::Array(_) => Vec::<T>::from_json(j),
        Json::Object(_) => match Keyed::<T>::from_json(j) {
            Ok(keyed) => {
                let mut entries = keyed.entries;
                let ghost all = entries@;
                let ghost values = sequence_of(j.deep_view())->0;
                let mut list: Vec<T> = Vec::new();
                while entries.len() > 0
                    invariant
                        all.len() == values.len(),
                        forall|k: int|
                            0 <= k < all.len() ==> (#[trigger] all[k]).value.decoded_from(values[k]),
                        list.len() + entries.len() == all.len(),
                        forall|k: int|
                            0 <= k < entries.len() ==> (#[trigger] entries[k]) == all[list.len() + k],
                        forall|k: int|
                            0 <= k < list.len() ==> (#[trigger] list[k]).decoded_from(values[k]),
                    decreases entries.len(),
                {
                    let entry = entries.remove(0);
                    list.push(entry.value);
                }
                Ok(list)
            },
            Err(e) => Err(e),
        },
        _ => Err(DlsiteError::shape("expected an array or an object")),
    }
}

/// Why `j` writes neither a `T` nor a list of `T`.
pub open spec fn one_or_many_failure<T: FromJson>(j: JsonView) -> Option<Seq<char>> {
    match j {
        JsonView::Array(items) => items_failure::<T>(items),
        _ => T::failure(j),
    }
}

/// The items of the list that `j` writes: those of an array, or `j` alone.
pub open spec fn one_or_many_of(j: JsonView) -> Seq<JsonView> {
    match j {
        JsonView::Array(items) => items,
        _ => seq![j],
    }
}

/// Reads a list that may come as a single value in place of a list of one.
pub fn one_or_many<T: FromJson>(j: &Json) -> (r: Result<Vec<T>, DlsiteError>)
    ensures
        match r {
            Ok(list) => one_or_many_failure::<T>(j.deep_view()) is None && items_decoded(
                list@,
                one_or_many_of(j.deep_view()),
            ),
            Err(e) => one_or_many_failure::<T>(j.deep_view()) is Some && e.is_shape(
                one_or_many_failure::<T>(j.deep_view())->0,
            ),
        },
{
    match j {
        Json::Array(_) => Vec::<T>::from_json(j),
        _ => match T::from_json(j) {
            Ok(v) => {
                let mut list: Vec<T> = Vec::new();
                list.push(v);
                Ok(list)
            },
            Err(e) => Err(e),
        },
    }
}

/// Reads a value of a field that is known to be unstable: where `j` is null
/// or writes no `T`, the value is absent, and that is no error.
pub fn default_on_error<T: FromJson>(j: &Json) -> (r: Option<T>)
    ensures
        match r {
            Some(v) => !(j.deep_view() is Null) && T::failure(j.deep_view()) is None
                && v.decoded_from(j.deep_view()),
            None => j.deep_view() is Null || T::failure(j.deep_view()) is Some,
        },
{
    match j {
        Json::Null => None,
        _ => match T::from_json(j) {
            Ok(v) => Some(v),
            Err(_) => None,
        },
    }
}

/// A sequence that may come as an array or as a keyed map: see
/// [`seq_or_map`].
#[derive(Debug)]
pub struct SeqOrMap<T> {
    pub items: Vec<T>,
}

impl<T: FromJson> FromJson for SeqOrMap<T> {
    open spec fn failure(j: JsonView) -> Option<Seq<char>> {
        sequence_failure::<T>(j)
    }

    open spec fn decoded_from(&self, j: JsonView) -> bool {
        items_decoded(self.items@, sequence_of(j)->0)
    }

    fn from_json(j: &Json) -> (r: Result<SeqOrMap<T>, DlsiteError>) {
        match seq_or_map(j) {
            Ok(items) => Ok(SeqOrMap { items }),
            Err(e) => Err(e),
        }
    }
}

/// A list that may come as a single value: see [`one_or_many`].
#[derive(Debug)]
pub struct OneOrMany<T> {
    pub items: Vec<T>,
}

impl<T: FromJson> FromJson for OneOrMany<T> {
    open spec fn failure(j: JsonView) -> Option<Seq<char>> {
        one_or_many_failure::<T>(j)
    }

    open spec fn decoded_from(&self, j: JsonView) -> bool {
        items_decoded(self.items@, one_or_many_of(j))
    }

    fn from_json(j: &Json) -> (r: Result<OneOrMany<T>, DlsiteError>) {
        match one_or_many(j) {
            Ok(items) => Ok(OneOrMany { items }),
            Err(e) => Err(e),
        }
    }
}

/// A value of a field that is known to be unstable: see
/// [`default_on_error`].
#[derive(Debug)]
pub struct Lenient<T> {
    pub value: Option<T>,
}

impl<T: FromJson> FromJson for Lenient<T> {
    /// Nothing is a failure here.
    open spec fn failure(j: JsonView) -> Option<Seq<char>> {
        None
    }

    open spec fn decoded_from(&self, j: JsonView) -> bool {
        match self.value {
            Some(v) => !(j is Null) && T::failure(j) is None && v.decoded_from(j),
            None => j is Null || T::failure(j) is Some,
        }
    }

    fn from_json(j: &Json) -> (r: Result<Lenient<T>, DlsiteError>) {
        Ok(Lenient { value: default_on_error(j) })
    }
}

/// The `i32` that `j` writes as a number, or as a string of the digits.
pub open spec fn number_or_text(j: JsonView) -> Option<i32> {
    match j {
        JsonView::Str(s) => parsed_i32(s),
        _ => j.as_i32(),
    }
}

/// An integer that may come as a string of its digits.
#[derive(Debug)]
pub struct NumberOrText {
    pub value: i32,
}

impl FromJson for NumberOrText {
    open spec fn failure(j: JsonView) -> Option<Seq<char>> {
        if number_or_text(j) is Some {
            None
        } else {
            Some("expected an integer or a string of digits"@)
        }
    }

    open spec fn decoded_from(&self, j: JsonView) -> bool {
        number_or_text(j) == Some(self.value)
    }

    fn from_json(j: &Json) -> (r: Result<NumberOrText, DlsiteError>) {
        let read = match j {
            Json::Str(s) => parse_i32(s.as_str()),
            _ => j.as_i32(),
        };
        match read {
            Some(value) => Ok(NumberOrText { value }),
            None => Err(DlsiteError::shape("expected an integer or a string of digits")),
        }
    }
}

/// Whether `j` stands for no number: null, or the empty string.
pub open spec fn no_number(j: JsonView) -> bool {
    j is Null || j == JsonView::Str(Seq::empty())
}

/// An integer that may come as a string of its digits, and may be absent:
/// null and the empty string stand for no number.
#[derive(Debug)]
pub struct OptionNumberOrText {
    pub value: Option<i32>,
}

impl FromJson for OptionNumberOrText {
    open spec fn failure(j: JsonView) -> Option<Seq<char>> {
        if no_number(j) || number_or_text(j) is Some {
            None
        } else {
            Some("expected an integer or a string of digits"@)
        }
    }

    open spec fn decoded_from(&self, j: JsonView) -> bool {
        if no_number(j) {
            self.value is None
        } else {
            self.value == number_or_text(j)
        }
    }

    fn from_json(j: &Json) -> (r: Result<OptionNumberOrText, DlsiteError>) {
        match j {
            Json::Null => Ok(OptionNumberOrText { value: None }),
            Json::Str(s) => {
                if s.as_str().unicode_len() == 0 {
                    proof {
                        assert(s@ =~= Seq::empty());
                    }
                    Ok(OptionNumberOrText { value: None })
                } else {
                    match parse_i32(s.as_str()) {
                        Some(n) => Ok(OptionNumberOrText { value: Some(n) }),
                        None => Err(
                            DlsiteError::shape("expected an integer or a string of digits"),
                        ),
                    }
                }
            },
            _ => match j.as_i32() {
                Some(n) => Ok(OptionNumberOrText { value: Some(n) }),
                None => Err(DlsiteError::shape("expected an integer or a string of digits")),
            },
        }
    }
}

/// A keyed sequence that may come as an array. Either way the outcome is
/// the sequence of the values under their keys, in the order of the text;
/// the key of an item of an array is its place, written in decimal digits.
#[derive(Debug)]
pub struct KeyedOrSeq<T> {
    pub entries: Vec<Entry<T>>,
}

impl<T: FromJson> FromJson for KeyedOrSeq<T> {
    open spec fn failure(j: JsonView) -> Option<Seq<char>> {
        sequence_failure::<T>(j)
    }

    open spec fn decoded_from(&self, j: JsonView) -> bool {
        match j {
            JsonView::Array(items) => {
                &&& self.entries.len() == items.len()
                &&& forall|i: int|
                    0 <= i < items.len() ==> (#[trigger] self.entries[i]).key@ == decimal_digits(
                        i as nat,
                    ) && self.entries[i].value.decoded_from(items[i])
            },
            JsonView::Object(members) => {
                &&& self.entries.len() == members.len()
                &&& forall|i: int|
                    0 <= i < members.len() ==> (#[trigger] self.entries[i]).key@ == members[i].name
                        && self.entries[i].value.decoded_from(members[i].value)
            },
            _ => false,
        }
    }

    fn from_json(j: &Json) -> (r: Result<KeyedOrSeq<T>, DlsiteError>) {
        match j {
            Json::Array(_) => match Vec::<T>::from_json(j) {
                Ok(list) => {
                    let mut list = list;
                    let ghost all = list@;
                    let ghost items = j.deep_view()->Array_0;
                    let mut entries: Vec<Entry<T>> = Vec::new();
                    while list.len() > 0
                        invariant
                            all.len() == items.len(),
                            forall|k: int|
                                0 <= k < all.len() ==> (#[trigger] all[k]).decoded_from(items[k]),
                            entries.len() + list.len() == all.len(),
                            forall|k: int|
                                0 <= k < list.len() ==> (#[trigger] list[k]) == all[entries.len()
                                    + k],
                            forall|k: int|
                                0 <= k < entries.len() ==> (#[trigger] entries[k]).key@
                                    == decimal_digits(k as nat) && entries[k].value.decoded_from(
                                    items[k],
                                ),
                        decreases list.len(),
                    {
                        let key = decimal_string(entries.len() as u64);
                        let value = list.remove(0);
                        entries.push(Entry { key, value });
                    }
                    Ok(KeyedOrSeq { entries })
                },
                Err(e) => Err(e),
            },
            Json::Object(_) => match Keyed::<T>::from_json(j) {
                Ok(keyed) => Ok(KeyedOrSeq { entries: keyed.entries }),
                Err(e) => Err(e),
            },
            _ => Err(DlsiteError::shape("expected an array or an object")),
        }
    }
}

/// The members fail exactly where their values fail as items.
pub proof fn lemma_members_fail_as_their_values<T: FromJson>(members: Seq<MemberView>, start: nat)
    ensures
        members_failure::<T>(members) is None <==> items_failure_from::<T>(
            member_values(members),
            start,
        ) is None,
    decreases members.len(),
{
    if members.len() > 0 {
        assert(member_values(members)[0] == members[0].value);
        assert(member_values(members).drop_first() =~= member_values(members.drop_first()));
        if T::failure(members[0].value) is None {
            lemma_members_fail_as_their_values::<T>(members.drop_first(), start + 1);
        }
    }
}

/// A sequence is the same sequence whether it comes as an array or as a
/// keyed map. An array of `items` and an object whose members hold `items`
/// as their values, in the same order, write the same sequence: one is
/// accepted exactly where the other is, and then they decode to the same
/// values.
pub proof fn law_array_and_map_write_the_same_sequence<T: FromJson>(
    items: Seq<JsonView>,
    members: Seq<MemberView>,
    list: SeqOrMap<T>,
)
    requires
        member_values(members) == items,
    ensures
        sequence_of(JsonView::Array(items)) == Some(items),
        sequence_of(JsonView::Object(members)) == Some(items),
        sequence_failure::<T>(JsonView::Array(items)) is None <==> sequence_failure::<T>(
            JsonView::Object(members),
        ) is None,
        list.decoded_from(JsonView::Array(items)) <==> list.decoded_from(JsonView::Object(members)),
{
    lemma_members_fail_as_their_values::<T>(members, 0);
}

/// A keyed sequence is the same whether it comes as a map keyed by the
/// places of its items or as an array: both are accepted alike, and they
/// decode to the same values under the same keys.
pub proof fn law_array_and_map_write_the_same_pairs<T: FromJson>(
    items: Seq<JsonView>,
    members: Seq<MemberView>,
    pairs: KeyedOrSeq<T>,
)
    requires
        members.len() == items.len(),
        forall|i: int|
            0 <= i < items.len() ==> (#[trigger] members[i]).name == decimal_digits(i as nat)
                && members[i].value == items[i],
    ensures
        sequence_failure::<T>(JsonView::Array(items)) is None <==> sequence_failure::<T>(
            JsonView::Object(members),
        ) is None,
        pairs.decoded_from(JsonView::Array(items)) <==> pairs.decoded_from(
            JsonView::Object(members),
        ),
{
    assert(member_values(members) =~= items);
    lemma_members_fail_as_their_values::<T>(members, 0);
}

/// The keyed sequence that `j` writes: the members of an object, or the
/// items of an array, each under its place in decimal digits.
pub open spec fn pairs_of(j: JsonView) -> Option<Seq<MemberView>> {
    match j {
        JsonView::Array(items) => Some(
            Seq::new(
                items.len(),
                |i: int| MemberView { name: decimal_digits(i as nat), value: items[i] },
            ),
        ),
        JsonView::Object(members) => Some(members),
        _ => None,
    }
}

/// Whether two members are the same sequence, whatever the shape of each:
/// they are equal, or both write a sequence and the two sequences are equal.
pub open spec fn same_sequence(a: Option<JsonView>, b: Option<JsonView>) -> bool {
    a == b || (a is Some && b is Some && sequence_of(a->0) is Some && sequence_of(a->0)
        == sequence_of(b->0))
}

/// Whether two members are the same keyed sequence, whatever the shape of
/// each: they are equal, or both write a keyed sequence and the two are
/// equal.
pub open spec fn same_pairs(a: Option<JsonView>, b: Option<JsonView>) -> bool {
    a == b || (a is Some && b is Some && pairs_of(a->0) is Some && pairs_of(a->0) == pairs_of(
        b->0,
    ))
}

/// A value is accepted as a sequence exactly where the items of the
/// sequence are.
pub proof fn lemma_sequence_fails_as_its_items<T: FromJson>(j: JsonView)
    requires
        sequence_of(j) is Some,
    ensures
        sequence_failure::<T>(j) is None <==> items_failure::<T>(sequence_of(j)->0) is None,
{
    match j {
        JsonView::Object(members) => {
            lemma_members_fail_as_their_values::<T>(members, 0);
        },
        _ => {},
    }
}

/// A member that is a sequence is read alike from two objects that hold
/// the same sequence under its name, whichever shape it has in each: it is
/// accepted in one exactly where it is in the other, and the values that
/// it decodes to in one are those that it decodes to in the other.
pub proof fn law_same_sequence_reads_alike<T: FromJson>(a: JsonView, b: JsonView, name: Seq<char>)
    requires
        same_sequence(a.member(name), b.member(name)),
    ensures
        field_failure::<SeqOrMap<T>>(a, name) is None <==> field_failure::<SeqOrMap<T>>(
            b,
            name,
        ) is None,
        forall|list: SeqOrMap<T>|
            #[trigger] list.decoded_from(field_value(a, name)) <==> list.decoded_from(
                field_value(b, name),
            ),
{
    if a.member(name) != b.member(name) {
        lemma_sequence_fails_as_its_items::<T>(a.member(name)->0);
        lemma_sequence_fails_as_its_items::<T>(b.member(name)->0);
    }
}

/// A member that is a keyed sequence is read alike from two objects that
/// hold the same keyed sequence under its name, whichever shape it has in
/// each.
pub proof fn law_same_pairs_read_alike<T: FromJson>(a: JsonView, b: JsonView, name: Seq<char>)
    requires
        same_pairs(a.member(name), b.member(name)),
    ensures
        field_failure::<KeyedOrSeq<T>>(a, name) is None <==> field_failure::<KeyedOrSeq<T>>(
            b,
            name,
        ) is None,
        forall|pairs: KeyedOrSeq<T>|
            #[trigger] pairs.decoded_from(field_value(a, name)) <==> pairs.decoded_from(
                field_value(b, name),
            ),
{
    if a.member(name) != b.member(name) {
        let x = a.member(name)->0;
        let y = b.member(name)->0;
        lemma_pairs(x);
        lemma_pairs(y);
        lemma_sequence_fails_as_its_items::<T>(x);
        lemma_sequence_fails_as_its_items::<T>(y);
        assert forall|pairs: KeyedOrSeq<T>| #[trigger]
            pairs.decoded_from(field_value(a, name)) <==> pairs.decoded_from(
                field_value(b, name),
            ) by {
            lemma_decoded_from_pairs(pairs, x);
            lemma_decoded_from_pairs(pairs, y);
        }
    }
}

/// The values of the keyed sequence that `j` writes are the sequence that
/// it writes.
proof fn lemma_pairs(j: JsonView)
    requires
        pairs_of(j) is Some,
    ensures
        sequence_of(j) == Some(member_values(pairs_of(j)->0)),
{
    match j {
        JsonView::Array(items) => {
            assert(member_values(pairs_of(j)->0) =~= items);
        },
        _ => {},
    }
}

/// Whether `pairs` are the values that `members` hold, key for key.
pub open spec fn pairs_decoded<T: FromJson>(pairs: KeyedOrSeq<T>, members: Seq<MemberView>) -> bool {
    &&& pairs.entries.len() == members.len()
    &&& forall|i: int|
        0 <= i < members.len() ==> (#[trigger] pairs.entries[i]).key@ == members[i].name
            && pairs.entries[i].value.decoded_from(members[i].value)
}

proof fn lemma_decoded_from_pairs<T: FromJson>(pairs: KeyedOrSeq<T>, j: JsonView)
    requires
        pairs_of(j) is Some,
    ensures
        pairs.decoded_from(j) <==> pairs_decoded(pairs, pairs_of(j)->0),
{
}

} // verus!
