//! Writing typed values as JSON documents.

use crate::json::{entries_of, items_of, Json, JsonValue};
use vstd::prelude::*;
use vstd::string::StringExecFns;

verus! {

/// A type whose values can be written as JSON documents.
pub trait ToJson: DeepView {
    /// The document that stands for `value`.
    spec fn encoded(value: Self::V) -> JsonValue;

    fn to_json(&self) -> (document: Json)
        ensures
            document@ == Self::encoded(self.deep_view()),
    ;
}

/// The member that an object gets for `value` under `key`.
pub open spec fn member_for<T: ToJson>(key: Seq<char>, value: T::V) -> Seq<(Seq<char>, JsonValue)> {
    seq![(key, T::encoded(value))]
}

/// The member that an object gets for an optional `value` under `key`:
/// none at all for `None`.
pub open spec fn optional_member_for<T: ToJson>(key: Seq<char>, value: Option<T::V>) -> Seq<
    (Seq<char>, JsonValue),
> {
    match value {
        Some(v) => seq![(key, T::encoded(v))],
        None => Seq::empty(),
    }
}

/// Appends the member for `value` under `key`.
pub fn put<T: ToJson>(fields: &mut Vec<(String, Json)>, key: &str, value: &T)
    ensures
        entries_of(final(fields)@) == entries_of(old(fields)@) + member_for::<T>(
            key@,
            value.deep_view(),
        ),
{
    let document = value.to_json();
    fields.push((String::from_str(key), document));
    assert(entries_of(fields@) =~= entries_of(old(fields)@) + member_for::<T>(
        key@,
        value.deep_view(),
    ));
}

/// Appends the member for `value` under `key`, if there is a value.
pub fn put_optional<T: ToJson>(fields: &mut Vec<(String, Json)>, key: &str, value: &Option<T>)
    ensures
        entries_of(final(fields)@) == entries_of(old(fields)@) + optional_member_for::<T>(
            key@,
            value.deep_view(),
        ),
{
    match value {
        Some(v) => {
            let document = v.to_json();
            fields.push((String::from_str(key), document));
            assert(entries_of(fields@) =~= entries_of(old(fields)@) + optional_member_for::<T>(
                key@,
                value.deep_view(),
            ));
        },
        None => {
            assert(entries_of(fields@) =~= entries_of(old(fields)@) + optional_member_for::<T>(
                key@,
                value.deep_view(),
            ));
        },
    }
}

impl ToJson for String {
    open spec fn encoded(value: Seq<char>) -> JsonValue {
        JsonValue::Str(value)
    }

    fn to_json(&self) -> (document: Json) {
        Json::Str(self.clone())
    }
}

impl ToJson for bool {
    open spec fn encoded(value: bool) -> JsonValue {
        JsonValue::Bool(value)
    }

    fn to_json(&self) -> (document: Json) {
        Json::Bool(*self)
    }
}

impl ToJson for i32 {
    open spec fn encoded(value: i32) -> JsonValue {
        if value >= 0 {
            JsonValue::Unsigned(value as u64)
        } else {
            JsonValue::Signed(value as i64)
        }
    }

    fn to_json(&self) -> (document: Json) {
        if *self >= 0 {
            Json::Unsigned(*self as u64)
        } else {
            Json::Signed(*self as i64)
        }
    }
}

impl ToJson for i16 {
    open spec fn encoded(value: i16) -> JsonValue {
        if value >= 0 {
            JsonValue::Unsigned(value as u64)
        } else {
            JsonValue::Signed(value as i64)
        }
    }

    fn to_json(&self) -> (document: Json) {
        if *self >= 0 {
            Json::Unsigned(*self as u64)
        } else {
            Json::Signed(*self as i64)
        }
    }
}

impl ToJson for i64 {
    open spec fn encoded(value: i64) -> JsonValue {
        if value >= 0 {
            JsonValue::Unsigned(value as u64)
        } else {
            JsonValue::Signed(value)
        }
    }

    fn to_json(&self) -> (document: Json) {
        if *self >= 0 {
            Json::Unsigned(*self as u64)
        } else {
            Json::Signed(*self)
        }
    }
}

impl ToJson for u64 {
    open spec fn encoded(value: u64) -> JsonValue {
        JsonValue::Unsigned(value)
    }

    fn to_json(&self) -> (document: Json) {
        Json::Unsigned(*self)
    }
}

impl ToJson for () {
    open spec fn encoded(value: ()) -> JsonValue {
        JsonValue::Null
    }

    fn to_json(&self) -> (document: Json) {
        Json::Null
    }
}

impl<T: ToJson> ToJson for Vec<T> {
    open spec fn encoded(value: Seq<T::V>) -> JsonValue {
        JsonValue::Array(Seq::new(value.len(), |i: int| T::encoded(value[i])))
    }

    fn to_json(&self) -> (document: Json) {
        let mut items: Vec<Json> = Vec::new();
        let mut i: usize = 0;
        while i < self.len()
            invariant
                i <= self.len(),
                items@.len() == i,
                forall|k: int|
                    0 <= k < i ==> (#[trigger] items@[k])@ == T::encoded(self@[k].deep_view()),
            decreases self.len() - i,
        {
            items.push(self[i].to_json());
            i = i + 1;
        }
        assert(items_of(items@) =~= Seq::new(
            self.deep_view().len(),
            |i: int| T::encoded(self.deep_view()[i]),
        ));
        Json::array(items)
    }
}

impl<T: ToJson> ToJson for Vec<(String, T)> {
    open spec fn encoded(value: Seq<(Seq<char>, T::V)>) -> JsonValue {
        JsonValue::Object(Seq::new(value.len(), |i: int| (value[i].0, T::encoded(value[i].1))))
    }

    fn to_json(&self) -> (document: Json) {
        let mut fields: Vec<(String, Json)> = Vec::new();
        let mut i: usize = 0;
        while i < self.len()
            invariant
                i <= self.len(),
                fields@.len() == i,
                forall|k: int|
                    0 <= k < i ==> (#[trigger] fields@[k]).0@ == self@[k].0@ && fields@[k].1@
                        == T::encoded(self@[k].1.deep_view()),
            decreases self.len() - i,
        {
            fields.push((self[i].0.clone(), self[i].1.to_json()));
            i = i + 1;
        }
        assert(entries_of(fields@) =~= Seq::new(
            self.deep_view().len(),
            |i: int| (self.deep_view()[i].0, T::encoded(self.deep_view()[i].1)),
        ));
        Json::object(fields)
    }
}

} // verus!
