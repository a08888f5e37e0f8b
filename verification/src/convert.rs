//! What std's two blanket conversions into `Option` return.
//!
//! The builders and setters of the table state take any value that converts into an
//! `Option`, as std's `Into` allows; a bare index and an `Option` of one are the two forms
//! callers use. vstd specifies `Into::into` by the `From` impl it goes through, but gives
//! those two `From` impls no contract of their own, so they get one here.
use vstd::prelude::*;

verus! {

/// `impl<T> From<T> for Option<T>`: std documents that it moves the value into a new `Some`.
/// Trusted: the contract states exactly that and nothing more.
pub assume_specification<V>[ <Option<V> as std::convert::From<V>>::from ](val: V) -> (r: Option<V>)
    ensures
        r == Some(val),
;

/// `impl<T> From<T> for T`: std documents that it returns the argument unchanged.
/// Trusted: the contract states exactly that and nothing more.
pub assume_specification<V>[ <V as std::convert::From<V>>::from ](t: V) -> (r: V)
    ensures
        r == t,
;

/// `value` converts into `into` through std's `Into`: the relation that the call of
/// `Into::into` guarantees between its argument and its result.
pub open spec fn converts_to<T, U>(value: T, into: U) -> bool
    where
        T: Into<U>,
{
    call_ensures(<T as Into<U>>::into, (value,), into)
}

/// A value converts into an `Option` of its own type only as `Some` of itself, and into its
/// own type only as itself.
pub proof fn lemma_conversions_into_option<Item>(value: Item, into: Option<Item>, same: Item)
    ensures
        converts_to(value, into) ==> into == Some(value),
        converts_to(value, same) ==> same == value,
{
}

} // verus!
