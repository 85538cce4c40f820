//! Reading typed values out of JSON documents.
//!
//! [`FromJson`] says, for each type, which documents stand for a value of it
//! and which value that is. A structured type is read member by member: a
//! member that is absent takes the type's blank value, unless the shape
//! demands it; a member that is present has to fit.

use crate::json::{distinct_keys, lemma_member_well_formed, member, Json, JsonValue};
use vstd::prelude::*;

verus! {

/// The integer that a document writes, if it writes one.
pub open spec fn integer_of(document: JsonValue) -> Option<int> {
    match document {
        JsonValue::Unsigned(u) => Some(u as int),
        JsonValue::Signed(i) => Some(i as int),
        _ => None,
    }
}

/// The integer of `document` where it lies in `lo ..= hi`.
pub open spec fn integer_within(document: JsonValue, lo: int, hi: int) -> Option<int> {
    match integer_of(document) {
        Some(n) => if lo <= n <= hi {
            Some(n)
        } else {
            None
        },
        None => None,
    }
}

/// A type whose values can be read out of JSON documents.
pub trait FromJson: Sized + DeepView {
    /// The value that `document` stands for; `None` where it does not fit.
    spec fn decoded(document: JsonValue) -> Option<Self::V>;

    /// The value that an absent member takes.
    spec fn blank() -> Self::V;

    fn from_json(document: &Json) -> (r: Option<Self>)
        ensures
            match r {
                Some(v) => Self::decoded(document@) == Some(v.deep_view()),
                None => Self::decoded(document@) is None,
            },
    ;

    fn absent() -> (r: Self)
        ensures
            r.deep_view() == Self::blank(),
    ;

    /// Whether every dictionary in `value`, at any depth, has each of its
    /// keys once.
    spec fn sound(value: Self::V) -> bool;

    /// What a well-formed document decodes to is sound.
    proof fn lemma_decoded_sound(document: JsonValue)
        requires
            document.well_formed(),
            Self::decoded(document) is Some,
        ensures
            Self::sound(Self::decoded(document)->0),
    ;

    /// The blank value is sound.
    proof fn lemma_blank_sound()
        ensures
            Self::sound(Self::blank()),
    ;
}

/// Whether every dictionary in a value of type `T` has each of its keys
/// once.
pub open spec fn sound_of<T: FromJson>(value: T::V) -> bool {
    T::sound(value)
}

/// A member read out of a well-formed document is sound.
pub proof fn lemma_field_sound<T: FromJson>(document: JsonValue, key: Seq<char>)
    requires
        document.well_formed(),
    ensures
        field_of::<T>(document, key) is Some ==> T::sound(field_of::<T>(document, key)->0),
        required_of::<T>(document, key) is Some ==> T::sound(required_of::<T>(document, key)->0),
{
    if member(document, key) is Some {
        lemma_member_well_formed(document, key);
        if T::decoded(member(document, key)->0) is Some {
            T::lemma_decoded_sound(member(document, key)->0);
        }
    } else {
        T::lemma_blank_sound();
    }
}

/// The value that an absent member of type `T` takes.
pub open spec fn blank_of<T: FromJson>() -> T::V {
    T::blank()
}

/// What the member `key` of `document` decodes to, an absent member taking
/// the blank value.
pub open spec fn field_of<T: FromJson>(document: JsonValue, key: Seq<char>) -> Option<T::V> {
    match member(document, key) {
        Some(v) => T::decoded(v),
        None => Some(T::blank()),
    }
}

/// What the member `key` of `document` decodes to, an absent member not
/// fitting.
pub open spec fn required_of<T: FromJson>(document: JsonValue, key: Seq<char>) -> Option<T::V> {
    match member(document, key) {
        Some(v) => T::decoded(v),
        None => None,
    }
}

/// Reads the member `key`, or takes the blank value where there is none.
pub fn field<T: FromJson>(document: &Json, key: &str) -> (r: Option<T>)
    ensures
        match r {
            Some(v) => field_of::<T>(document@, key@) == Some(v.deep_view()),
            None => field_of::<T>(document@, key@) is None,
        },
{
    match document.get(key) {
        Some(found) => T::from_json(found),
        None => Some(T::absent()),
    }
}

/// Reads the member `key`, which has to be there.
pub fn required<T: FromJson>(document: &Json, key: &str) -> (r: Option<T>)
    ensures
        match r {
            Some(v) => required_of::<T>(document@, key@) == Some(v.deep_view()),
            None => required_of::<T>(document@, key@) is None,
        },
{
    match document.get(key) {
        Some(found) => T::from_json(found),
        None => None,
    }
}

impl FromJson for String {
    open spec fn decoded(document: JsonValue) -> Option<Seq<char>> {
        match document {
            JsonValue::Str(s) => Some(s),
            _ => None,
        }
    }

    open spec fn blank() -> Seq<char> {
        Seq::empty()
    }

    fn from_json(document: &Json) -> (r: Option<String>) {
        match document {
            Json::Str(s) => Some(s.clone()),
            _ => None,
        }
    }

    fn absent() -> (r: String) {
        String::new()
    }

    open spec fn sound(value: Seq<char>) -> bool {
        true
    }

    proof fn lemma_decoded_sound(document: JsonValue) {
    }

    proof fn lemma_blank_sound() {
    }
}

impl FromJson for bool {
    open spec fn decoded(document: JsonValue) -> Option<bool> {
        match document {
            JsonValue::Bool(b) => Some(b),
            _ => None,
        }
    }

    open spec fn blank() -> bool {
        false
    }

    fn from_json(document: &Json) -> (r: Option<bool>) {
        match document {
            Json::Bool(b) => Some(*b),
            _ => None,
        }
    }

    fn absent() -> (r: bool) {
        false
    }

    open spec fn sound(value: bool) -> bool {
        true
    }

    proof fn lemma_decoded_sound(document: JsonValue) {
    }

    proof fn lemma_blank_sound() {
    }
}

impl FromJson for u64 {
    open spec fn decoded(document: JsonValue) -> Option<u64> {
        match integer_within(document, 0, u64::MAX as int) {
            Some(n) => Some(n as u64),
            None => None,
        }
    }

    open spec fn blank() -> u64 {
        0
    }

    fn from_json(document: &Json) -> (r: Option<u64>) {
        match document {
            Json::Unsigned(u) => Some(*u),
            Json::Signed(i) => if *i >= 0 {
                Some(*i as u64)
            } else {
                None
            },
            _ => None,
        }
    }

    fn absent() -> (r: u64) {
        0
    }

    open spec fn sound(value: u64) -> bool {
        true
    }

    proof fn lemma_decoded_sound(document: JsonValue) {
    }

    proof fn lemma_blank_sound() {
    }
}

impl<T: FromJson> FromJson for Vec<T> {
    open spec fn decoded(document: JsonValue) -> Option<Seq<T::V>> {
        match document {
            JsonValue::Array(items) => if forall|i: int|
                0 <= i < items.len() ==> (#[trigger] T::decoded(items[i])) is Some {
                Some(Seq::new(items.len(), |i: int| T::decoded(items[i])->0))
            } else {
                None
            },
            _ => None,
        }
    }

    open spec fn blank() -> Seq<T::V> {
        Seq::empty()
    }

    fn from_json(document: &Json) -> (r: Option<Vec<T>>) {
        match document {
            Json::Array(items) => {
                let ghost all = document@->Array_0;
                let mut out: Vec<T> = Vec::new();
                let mut i: usize = 0;
                while i < items.len()
                    invariant
                        i <= items.len(),
                        document@ == JsonValue::Array(all),
                        all.len() == items@.len(),
                        forall|k: int| 0 <= k < items@.len() ==> all[k] == items@[k]@,
                        out@.len() == i,
                        forall|k: int|
                            0 <= k < i ==> T::decoded(all[k]) == Some(
                                (#[trigger] out@[k]).deep_view(),
                            ),
                    decreases items.len() - i,
                {
                    match T::from_json(&items[i]) {
                        Some(v) => {
                            out.push(v);
                        },
                        None => {
                            assert(T::decoded(all[i as int]) is None);
                            return None;
                        },
                    }
                    i = i + 1;
                }
                proof {
                    assert forall|k: int| 0 <= k < all.len() implies (#[trigger] T::decoded(
                        all[k],
                    )) is Some by {
                        assert(T::decoded(all[k]) == Some(out@[k].deep_view()));
                    }
                    assert forall|k: int| 0 <= k < all.len() implies out.deep_view()[k]
                        == T::decoded(all[k])->0 by {
                        assert(T::decoded(all[k]) == Some(out@[k].deep_view()));
                    }
                    assert(out.deep_view() =~= Seq::new(
                        all.len(),
                        |i: int| T::decoded(all[i])->0,
                    ));
                }
                Some(out)
            },
            _ => None,
        }
    }

    fn absent() -> (r: Vec<T>) {
        let r: Vec<T> = Vec::new();
        assert(r.deep_view() =~= Seq::empty());
        r
    }

    open spec fn sound(value: Seq<T::V>) -> bool {
        forall|i: int| 0 <= i < value.len() ==> T::sound(#[trigger] value[i])
    }

    proof fn lemma_decoded_sound(document: JsonValue) {
        let items = document->Array_0;
        let value = Self::decoded(document)->0;
        assert forall|i: int| 0 <= i < value.len() implies T::sound(#[trigger] value[i]) by {
            assert(items[i].well_formed());
            assert(T::decoded(items[i]) is Some);
            T::lemma_decoded_sound(items[i]);
        }
    }

    proof fn lemma_blank_sound() {
    }
}

impl FromJson for u8 {
    open spec fn decoded(document: JsonValue) -> Option<u8> {
        match integer_within(document, 0, u8::MAX as int) {
            Some(n) => Some(n as u8),
            None => None,
        }
    }

    open spec fn blank() -> u8 {
        0
    }

    fn from_json(document: &Json) -> (r: Option<u8>) {
        match document {
            Json::Unsigned(u) => if *u <= u8::MAX as u64 {
                Some(*u as u8)
            } else {
                None
            },
            Json::Signed(i) => if 0 <= *i && *i <= u8::MAX as i64 {
                Some(*i as u8)
            } else {
                None
            },
            _ => None,
        }
    }

    fn absent() -> (r: u8) {
        0
    }

    open spec fn sound(value: u8) -> bool {
        true
    }

    proof fn lemma_decoded_sound(document: JsonValue) {
    }

    proof fn lemma_blank_sound() {
    }
}

impl FromJson for u16 {
    open spec fn decoded(document: JsonValue) -> Option<u16> {
        match integer_within(document, 0, u16::MAX as int) {
            Some(n) => Some(n as u16),
            None => None,
        }
    }

    open spec fn blank() -> u16 {
        0
    }

    fn from_json(document: &Json) -> (r: Option<u16>) {
        match document {
            Json::Unsigned(u) => if *u <= u16::MAX as u64 {
                Some(*u as u16)
            } else {
                None
            },
            Json::Signed(i) => if 0 <= *i && *i <= u16::MAX as i64 {
                Some(*i as u16)
            } else {
                None
            },
            _ => None,
        }
    }

    fn absent() -> (r: u16) {
        0
    }

    open spec fn sound(value: u16) -> bool {
        true
    }

    proof fn lemma_decoded_sound(document: JsonValue) {
    }

    proof fn lemma_blank_sound() {
    }
}

impl FromJson for u32 {
    open spec fn decoded(document: JsonValue) -> Option<u32> {
        match integer_within(document, 0, u32::MAX as int) {
            Some(n) => Some(n as u32),
            None => None,
        }
    }

    open spec fn blank() -> u32 {
        0
    }

    fn from_json(document: &Json) -> (r: Option<u32>) {
        match document {
            Json::Unsigned(u) => if *u <= u32::MAX as u64 {
                Some(*u as u32)
            } else {
                None
            },
            Json::Signed(i) => if 0 <= *i && *i <= u32::MAX as i64 {
                Some(*i as u32)
            } else {
                None
            },
            _ => None,
        }
    }

    fn absent() -> (r: u32) {
        0
    }

    open spec fn sound(value: u32) -> bool {
        true
    }

    proof fn lemma_decoded_sound(document: JsonValue) {
    }

    proof fn lemma_blank_sound() {
    }
}

impl FromJson for i16 {
    open spec fn decoded(document: JsonValue) -> Option<i16> {
        match integer_within(document, i16::MIN as int, i16::MAX as int) {
            Some(n) => Some(n as i16),
            None => None,
        }
    }

    open spec fn blank() -> i16 {
        0
    }

    fn from_json(document: &Json) -> (r: Option<i16>) {
        match document {
            Json::Unsigned(u) => if *u <= i16::MAX as u64 {
                Some(*u as i16)
            } else {
                None
            },
            Json::Signed(i) => if i16::MIN as i64 <= *i && *i <= i16::MAX as i64 {
                Some(*i as i16)
            } else {
                None
            },
            _ => None,
        }
    }

    fn absent() -> (r: i16) {
        0
    }

    open spec fn sound(value: i16) -> bool {
        true
    }

    proof fn lemma_decoded_sound(document: JsonValue) {
    }

    proof fn lemma_blank_sound() {
    }
}

impl FromJson for i32 {
    open spec fn decoded(document: JsonValue) -> Option<i32> {
        match integer_within(document, i32::MIN as int, i32::MAX as int) {
            Some(n) => Some(n as i32),
            None => None,
        }
    }

    open spec fn blank() -> i32 {
        0
    }

    fn from_json(document: &Json) -> (r: Option<i32>) {
        match document {
            Json::Unsigned(u) => if *u <= i32::MAX as u64 {
                Some(*u as i32)
            } else {
                None
            },
            Json::Signed(i) => if i32::MIN as i64 <= *i && *i <= i32::MAX as i64 {
                Some(*i as i32)
            } else {
                None
            },
            _ => None,
        }
    }

    fn absent() -> (r: i32) {
        0
    }

    open spec fn sound(value: i32) -> bool {
        true
    }

    proof fn lemma_decoded_sound(document: JsonValue) {
    }

    proof fn lemma_blank_sound() {
    }
}

impl FromJson for i64 {
    open spec fn decoded(document: JsonValue) -> Option<i64> {
        match integer_within(document, i64::MIN as int, i64::MAX as int) {
            Some(n) => Some(n as i64),
            None => None,
        }
    }

    open spec fn blank() -> i64 {
        0
    }

    fn from_json(document: &Json) -> (r: Option<i64>) {
        match document {
            Json::Unsigned(u) => if *u <= i64::MAX as u64 {
                Some(*u as i64)
            } else {
                None
            },
            Json::Signed(i) => if i64::MIN as i64 <= *i && *i <= i64::MAX as i64 {
                Some(*i as i64)
            } else {
                None
            },
            _ => None,
        }
    }

    fn absent() -> (r: i64) {
        0
    }

    open spec fn sound(value: i64) -> bool {
        true
    }

    proof fn lemma_decoded_sound(document: JsonValue) {
    }

    proof fn lemma_blank_sound() {
    }
}

impl FromJson for () {
    open spec fn decoded(document: JsonValue) -> Option<()> {
        match document {
            JsonValue::Null => Some(()),
            _ => None,
        }
    }

    open spec fn blank() -> () {
        ()
    }

    fn from_json(document: &Json) -> (r: Option<()>) {
        match document {
            Json::Null => Some(()),
            _ => None,
        }
    }

    fn absent() -> (r: ()) {
        ()
    }

    open spec fn sound(value: ()) -> bool {
        true
    }

    proof fn lemma_decoded_sound(document: JsonValue) {
    }

    proof fn lemma_blank_sound() {
    }
}

impl FromJson for Json {
    open spec fn decoded(document: JsonValue) -> Option<JsonValue> {
        Some(document)
    }

    open spec fn blank() -> JsonValue {
        JsonValue::Null
    }

    fn from_json(document: &Json) -> (r: Option<Json>) {
        Some(document.duplicate())
    }

    fn absent() -> (r: Json) {
        Json::Null
    }

    open spec fn sound(value: JsonValue) -> bool {
        value.well_formed()
    }

    proof fn lemma_decoded_sound(document: JsonValue) {
    }

    proof fn lemma_blank_sound() {
    }
}

impl<T: FromJson> FromJson for Option<T> {
    open spec fn decoded(document: JsonValue) -> Option<Option<T::V>> {
        match document {
            JsonValue::Null => Some(None),
            _ => match T::decoded(document) {
                Some(v) => Some(Some(v)),
                None => None,
            },
        }
    }

    open spec fn blank() -> Option<T::V> {
        None
    }

    fn from_json(document: &Json) -> (r: Option<Option<T>>) {
        match document {
            Json::Null => Some(None),
            _ => match T::from_json(document) {
                Some(v) => Some(Some(v)),
                None => None,
            },
        }
    }

    fn absent() -> (r: Option<T>) {
        None
    }

    open spec fn sound(value: Option<T::V>) -> bool {
        match value {
            Some(v) => T::sound(v),
            None => true,
        }
    }

    proof fn lemma_decoded_sound(document: JsonValue) {
        if !(document is Null) {
            T::lemma_decoded_sound(document);
        }
    }

    proof fn lemma_blank_sound() {
    }
}

impl<T: FromJson> FromJson for Vec<(String, T)> {
    open spec fn decoded(document: JsonValue) -> Option<Seq<(Seq<char>, T::V)>> {
        match document {
            JsonValue::Object(fields) => if forall|i: int|
                0 <= i < fields.len() ==> (#[trigger] T::decoded(fields[i].1)) is Some {
                Some(Seq::new(fields.len(), |i: int| (fields[i].0, T::decoded(fields[i].1)->0)))
            } else {
                None
            },
            _ => None,
        }
    }

    open spec fn blank() -> Seq<(Seq<char>, T::V)> {
        Seq::empty()
    }

    fn from_json(document: &Json) -> (r: Option<Vec<(String, T)>>) {
        match document {
            Json::Object(fields) => {
                let ghost all = document@->Object_0;
                let mut out: Vec<(String, T)> = Vec::new();
                let mut i: usize = 0;
                while i < fields.len()
                    invariant
                        i <= fields.len(),
                        document@ == JsonValue::Object(all),
                        all.len() == fields@.len(),
                        forall|k: int|
                            0 <= k < fields@.len() ==> all[k] == (fields@[k].0@, fields@[k].1@),
                        out@.len() == i,
                        forall|k: int|
                            0 <= k < i ==> (#[trigger] out@[k]).0@ == all[k].0 && T::decoded(
                                all[k].1,
                            ) == Some(out@[k].1.deep_view()),
                    decreases fields.len() - i,
                {
                    match T::from_json(&fields[i].1) {
                        Some(v) => {
                            out.push((fields[i].0.clone(), v));
                        },
                        None => {
                            assert(T::decoded(all[i as int].1) is None);
                            return None;
                        },
                    }
                    i = i + 1;
                }
                proof {
                    assert forall|k: int| 0 <= k < all.len() implies (#[trigger] T::decoded(
                        all[k].1,
                    )) is Some by {
                        assert(T::decoded(all[k].1) == Some(out@[k].1.deep_view()));
                    }
                    assert forall|k: int| 0 <= k < all.len() implies out.deep_view()[k] == (
                        all[k].0,
                        T::decoded(all[k].1)->0,
                    ) by {
                        assert(T::decoded(all[k].1) == Some(out@[k].1.deep_view()));
                    }
                    assert(out.deep_view() =~= Seq::new(
                        all.len(),
                        |i: int| (all[i].0, T::decoded(all[i].1)->0),
                    ));
                }
                Some(out)
            },
            _ => None,
        }
    }

    fn absent() -> (r: Vec<(String, T)>) {
        let r: Vec<(String, T)> = Vec::new();
        assert(r.deep_view() =~= Seq::empty());
        r
    }

    open spec fn sound(value: Seq<(Seq<char>, T::V)>) -> bool {
        distinct_keys(value) && forall|i: int|
            0 <= i < value.len() ==> T::sound((#[trigger] value[i]).1)
    }

    proof fn lemma_decoded_sound(document: JsonValue) {
        let fields = document->Object_0;
        let value = Self::decoded(document)->0;
        assert forall|i: int| 0 <= i < value.len() implies T::sound((#[trigger] value[i]).1) by {
            assert(fields[i].1.well_formed());
            assert(T::decoded(fields[i].1) is Some);
            T::lemma_decoded_sound(fields[i].1);
        }
        assert forall|i: int, j: int| 0 <= i < j < value.len() implies (#[trigger] value[i]).0 != (
        #[trigger] value[j]).0 by {
            assert(fields[i].0 != fields[j].0);
        }
    }

    proof fn lemma_blank_sound() {
    }
}

} // verus!
