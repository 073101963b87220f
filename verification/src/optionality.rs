//! How a value that is absent is held in memory: as nothing at all, or as a
//! fixed value of its type that stands for "absent".

use crate::ch_date_format::{Date, Ymd};
use vstd::prelude::*;

verus! {

/// The two ways of holding an absent value.
#[derive(Clone, Copy, Debug, PartialEq, Eq, Structural)]
pub enum Optionality {
    /// An absent value is held as `None`.
    Nullable,
    /// An absent value is held as the sentinel of its type.
    Sentinel,
}

/// A type with a value that stands for "absent".
pub trait Sentinel: DeepView + Sized {
    /// The value that stands for "absent".
    spec fn sentinel() -> <Self as DeepView>::V;

    /// Makes the value that stands for "absent".
    fn empty_value() -> (v: Self)
        ensures
            v.deep_view() == Self::sentinel(),
    ;

    /// The value is the one that stands for "absent".
    fn is_empty(&self) -> (b: bool)
        ensures
            b == (self.deep_view() == Self::sentinel()),
    ;
}

impl Sentinel for Date {
    open spec fn sentinel() -> Ymd {
        Ymd::epoch()
    }

    fn empty_value() -> (v: Date) {
        crate::ch_date_format::empty_value()
    }

    fn is_empty(&self) -> (b: bool) {
        crate::ch_date_format::is_empty(*self)
    }
}

impl Optionality {
    /// How an absent value is held, given the sentinel of its type.
    pub open spec fn empty<V>(self, sentinel: V) -> Option<V> {
        match self {
            Optionality::Nullable => None,
            Optionality::Sentinel => Some(sentinel),
        }
    }

    /// The value counts as absent: it is nothing, or, under the sentinel
    /// policy, the sentinel.
    pub open spec fn holds_empty<V>(self, value: Option<V>, sentinel: V) -> bool {
        match self {
            Optionality::Nullable => value is None,
            Optionality::Sentinel => value is None || value == Some(sentinel),
        }
    }

    /// The value that an absent field takes.
    pub fn empty_value<T: Sentinel>(self) -> (value: Option<T>)
        ensures
            value.deep_view() == self.empty(T::sentinel()),
            self.holds_empty(value.deep_view(), T::sentinel()),
    {
        match self {
            Optionality::Nullable => None,
            Optionality::Sentinel => Some(T::empty_value()),
        }
    }

    /// The value counts as absent.
    pub fn is_empty<T: Sentinel>(self, value: &Option<T>) -> (b: bool)
        ensures
            b == self.holds_empty(value.deep_view(), T::sentinel()),
    {
        match value {
            None => true,
            Some(inner) => match self {
                Optionality::Nullable => false,
                Optionality::Sentinel => inner.is_empty(),
            },
        }
    }
}

/// The value that an absent field takes counts as absent, under either policy
/// and for every type.
pub proof fn lemma_empty_is_empty<V>(policy: Optionality, sentinel: V)
    ensures
        policy.holds_empty(policy.empty(sentinel), sentinel),
{
}

} // verus!
