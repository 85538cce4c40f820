//! Copies that are known to hold the same value.

use crate::json::Json;
use vstd::prelude::*;

verus! {

/// A type whose values can be copied, the copy holding the same value.
pub trait Duplicate: Sized + DeepView {
    /// A copy with the same value.
    fn duplicate(&self) -> (copy: Self)
        ensures
            copy.deep_view() == self.deep_view(),
    ;
}

impl Duplicate for String {
    fn duplicate(&self) -> (copy: String) {
        self.clone()
    }
}

impl Duplicate for Json {
    fn duplicate(&self) -> (copy: Json) {
        self.clone()
    }
}

impl<T: Duplicate> Duplicate for Option<T> {
    fn duplicate(&self) -> (copy: Option<T>) {
        match self {
            Some(v) => Some(v.duplicate()),
            None => None,
        }
    }
}

impl<T: Duplicate> Duplicate for Vec<T> {
    fn duplicate(&self) -> (copy: Vec<T>) {
        let mut copy: Vec<T> = Vec::new();
        let mut i: usize = 0;
        while i < self.len()
            invariant
                i <= self.len(),
                copy@.len() == i,
                forall|k: int|
                    0 <= k < i ==> (#[trigger] copy@[k]).deep_view() == self@[k].deep_view(),
            decreases self.len() - i,
        {
            copy.push(self[i].duplicate());
            i = i + 1;
        }
        assert(copy.deep_view() =~= self.deep_view());
        copy
    }
}

impl<T: Duplicate> Duplicate for Vec<(String, T)> {
    fn duplicate(&self) -> (copy: Vec<(String, T)>) {
        let mut copy: Vec<(String, T)> = Vec::new();
        let mut i: usize = 0;
        while i < self.len()
            invariant
                i <= self.len(),
                copy@.len() == i,
                forall|k: int|
                    0 <= k < i ==> (#[trigger] copy@[k]).deep_view() == self@[k].deep_view(),
            decreases self.len() - i,
        {
            copy.push((self[i].0.clone(), self[i].1.duplicate()));
            i = i + 1;
        }
        assert(copy.deep_view() =~= self.deep_view());
        copy
    }
}

impl Duplicate for bool {
    fn duplicate(&self) -> (copy: bool) {
        *self
    }
}

impl Duplicate for u8 {
    fn duplicate(&self) -> (copy: u8) {
        *self
    }
}

impl Duplicate for u16 {
    fn duplicate(&self) -> (copy: u16) {
        *self
    }
}

impl Duplicate for u32 {
    fn duplicate(&self) -> (copy: u32) {
        *self
    }
}

impl Duplicate for u64 {
    fn duplicate(&self) -> (copy: u64) {
        *self
    }
}

impl Duplicate for i16 {
    fn duplicate(&self) -> (copy: i16) {
        *self
    }
}

impl Duplicate for i32 {
    fn duplicate(&self) -> (copy: i32) {
        *self
    }
}

impl Duplicate for i64 {
    fn duplicate(&self) -> (copy: i64) {
        *self
    }
}

impl Duplicate for () {
    fn duplicate(&self) -> (copy: ()) {
        *self
    }
}

} // verus!
