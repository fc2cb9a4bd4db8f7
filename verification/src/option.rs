//! The on-chain `Option` type. Its constructors come in the backend's
//! order: the one with a value first, then the empty one.
use vstd::prelude::*;

verus! {

/// An optional value.
#[derive(Debug, PartialEq)]
pub enum Option<T> {
    Just { value: T },
    Nothing,
}

impl<T> Option<T> {
    /// There is a value.
    pub fn is_some(&self) -> (r: bool)
        ensures
            r == (self is Just),
    {
        match self {
            Option::Just { .. } => true,
            Option::Nothing => false,
        }
    }

    /// There is no value.
    pub fn is_none(&self) -> (r: bool)
        ensures
            r == (self is Nothing),
    {
        match self {
            Option::Just { .. } => false,
            Option::Nothing => true,
        }
    }

    /// The value (there must be one).
    pub fn unwrap(self) -> (r: T)
        requires
            self is Just,
        ensures
            r == self->value,
    {
        match self {
            Option::Just { value } => value,
            Option::Nothing => vstd::pervasive::unreached(),
        }
    }

    /// `f` applied to the value, if any.
    pub fn map<U, F: FnOnce(T) -> U>(self, f: F) -> (r: Option<U>)
        requires
            self matches Option::Just { value } ==> f.requires((value,)),
        ensures
            self is Nothing ==> r is Nothing,
            self matches Option::Just { value } ==> r matches Option::Just { value: u } && f.ensures((value,), u),
    {
        match self {
            Option::Just { value } => Option::Just { value: f(value) },
            Option::Nothing => Option::Nothing,
        }
    }
}

impl<T> From<std::option::Option<T>> for Option<T> {
    fn from(opt: std::option::Option<T>) -> (r: Option<T>) {
        match opt {
            std::option::Option::Some(v) => Option::Just { value: v },
            std::option::Option::None => Option::Nothing,
        }
    }
}

impl<T> vstd::std_specs::convert::FromSpecImpl<std::option::Option<T>> for Option<T> {
    open spec fn obeys_from_spec() -> bool {
        true
    }

    open spec fn from_spec(opt: std::option::Option<T>) -> Option<T> {
        match opt {
            std::option::Option::Some(v) => Option::Just { value: v },
            std::option::Option::None => Option::Nothing,
        }
    }
}

} // verus!
