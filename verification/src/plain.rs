//! Plain data: values that can be copied and compared through their deep view.
use vstd::prelude::*;

verus! {

/// Data whose meaning is its deep view: a copy has the same deep view, and two
/// values are the same exactly when their deep views are equal.
pub trait Plain: Sized + DeepView {
    /// A copy of this value.
    fn copy(&self) -> (copy: Self)
        ensures
            copy.deep_view() == self.deep_view(),
    ;

    /// Whether this value and `other` mean the same.
    fn same(&self, other: &Self) -> (same: bool)
        ensures
            same == (self.deep_view() == other.deep_view()),
    ;
}

impl Plain for usize {
    fn copy(&self) -> (copy: Self) {
        *self
    }

    fn same(&self, other: &Self) -> (same: bool) {
        *self == *other
    }
}

impl Plain for String {
    fn copy(&self) -> (copy: Self) {
        self.clone()
    }

    fn same(&self, other: &Self) -> (same: bool) {
        *self == *other
    }
}

impl<A: Plain, B: Plain> Plain for (A, B) {
    fn copy(&self) -> (copy: Self) {
        (self.0.copy(), self.1.copy())
    }

    fn same(&self, other: &Self) -> (same: bool) {
        self.0.same(&other.0) && self.1.same(&other.1)
    }
}

impl<T: Plain> Plain for Option<T> {
    fn copy(&self) -> (copy: Self) {
        match self {
            Some(inner) => Some(inner.copy()),
            None => None,
        }
    }

    fn same(&self, other: &Self) -> (same: bool) {
        match (self, other) {
            (Some(a), Some(b)) => a.same(b),
            (None, None) => true,
            _ => false,
        }
    }
}

impl<T: Plain> Plain for Vec<T> {
    fn copy(&self) -> (copy: Self) {
        let mut copy: Vec<T> = Vec::new();
        let mut i: usize = 0;
        while i < self.len()
            invariant
                i <= self.len(),
                copy.len() == i,
                forall|j: int| 0 <= j < i ==> copy[j].deep_view() == self[j].deep_view(),
            decreases self.len() - i,
        {
            copy.push(self[i].copy());
            i += 1;
        }
        assert(copy.deep_view() =~= self.deep_view());
        copy
    }

    fn same(&self, other: &Self) -> (same: bool) {
        if self.len() != other.len() {
            assert(self.deep_view().len() != other.deep_view().len());
            return false;
        }
        let mut i: usize = 0;
        while i < self.len()
            invariant
                i <= self.len(),
                self.len() == other.len(),
                forall|j: int| 0 <= j < i ==> self[j].deep_view() == other[j].deep_view(),
            decreases self.len() - i,
        {
            if !self[i].same(&other[i]) {
                assert(self.deep_view()[i as int] != other.deep_view()[i as int]);
                return false;
            }
            i += 1;
        }
        assert(self.deep_view() =~= other.deep_view());
        true
    }
}

} // verus!
