//! What holds of [`OrAny`] for every value, stated over the same spec
//! functions as the contracts of its methods and proved from them.

use crate::or_any::OrAny;
use vstd::prelude::*;
use vstd::std_specs::cmp::PartialEqSpec;

verus! {

/// A concrete value is a value and not the wildcard; the wildcard is the
/// wildcard and not a value.
pub proof fn lemma_is_some_is_any<T>(v: T)
    ensures
        OrAny::Value(v).is_some(),
        !OrAny::Value(v).is_any(),
        OrAny::<T>::Any.is_any(),
        !OrAny::<T>::Any.is_some(),
{
}

/// Exactly one of `is_any` and `is_some` holds of every `OrAny`.
pub proof fn lemma_one_variant<T>(a: OrAny<T>)
    ensures
        a.is_any() != a.is_some(),
{
}

/// A concrete value contains exactly the probes that it is equal to.
pub proof fn lemma_value_contains<T: PartialEq>(v: T, x: T)
    ensures
        OrAny::Value(v).spec_contains(&x) == v.eq_spec(&x),
{
}

/// The wildcard contains every probe.
pub proof fn lemma_any_contains<T: PartialEq>(x: T)
    ensures
        OrAny::<T>::Any.spec_contains(&x),
{
}

/// Two `OrAny` are equal as soon as one of them is the wildcard, whatever the
/// other one holds.
pub proof fn lemma_any_eq_all<T: PartialEq>(a: OrAny<T>, b: OrAny<T>)
    requires
        a is Any || b is Any,
    ensures
        a.eq_spec(&b),
        b.eq_spec(&a),
{
}

/// Two concrete values are equal exactly when what they hold is equal; so two
/// that hold different things are not equal.
pub proof fn lemma_value_eq<T: PartialEq>(v1: T, v2: T)
    ensures
        OrAny::Value(v1).eq_spec(&OrAny::Value(v2)) == v1.eq_spec(&v2),
        !v1.eq_spec(&v2) ==> !OrAny::Value(v1).eq_spec(&OrAny::Value(v2)),
{
}

/// Equality is not transitive: two concrete values that differ are both equal
/// to the wildcard, and not to each other.
pub proof fn lemma_eq_not_transitive<T: PartialEq>(v1: T, v2: T)
    requires
        !v1.eq_spec(&v2),
    ensures
        OrAny::Value(v1).eq_spec(&OrAny::Any),
        OrAny::<T>::Any.eq_spec(&OrAny::Value(v2)),
        !OrAny::Value(v1).eq_spec(&OrAny::Value(v2)),
{
}

/// Mapping through a function that hands its argument back changes nothing.
pub proof fn lemma_map_identity<T, F: FnOnce(T) -> T>(a: OrAny<T>, f: F, r: OrAny<T>)
    requires
        forall|v: T, w: T| call_ensures(f, (v,), w) ==> w == v,
        a.mapped_by(f, r),
    ensures
        r == a,
{
}

/// Mapping the wildcard gives the wildcard, whatever the function.
pub proof fn lemma_map_any<T, U, F: FnOnce(T) -> U>(f: F, r: OrAny<U>)
    requires
        OrAny::<T>::Any.mapped_by(f, r),
    ensures
        r is Any,
{
}

/// Filtering never invents a value: the result is the input or the wildcard.
pub proof fn lemma_filter_narrows<T, P: FnOnce(&T) -> bool>(a: OrAny<T>, predicate: P, r: OrAny<T>)
    requires
        a.filtered_by(predicate, r),
    ensures
        r == a || r is Any,
{
}

/// Filtering twice by one predicate gives what filtering once gives, as long
/// as the predicate has one answer for the held value.
pub proof fn lemma_filter_idempotent<T, P: FnOnce(&T) -> bool>(
    a: OrAny<T>,
    predicate: P,
    once: OrAny<T>,
    twice: OrAny<T>,
)
    requires
        a matches OrAny::Value(v) ==> !(call_ensures(predicate, (&v,), true) && call_ensures(
            predicate,
            (&v,),
            false,
        )),
        a.filtered_by(predicate, once),
        once.filtered_by(predicate, twice),
    ensures
        twice == once,
{
}

/// `unwrap_or` gives the default for the wildcard and the held value
/// otherwise.
pub proof fn lemma_unwrap_or<T>(a: OrAny<T>, def: T)
    ensures
        a.is_any() ==> a.unwrap_or(def) == def,
        !a.is_any() ==> OrAny::Value(a.unwrap_or(def)) == a,
{
}

} // verus!
