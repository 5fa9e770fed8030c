//! The type [`OrAny`]: a concrete value, or a wildcard that matches any value.
//!
//! `OrAny` looks like `Option`, but its empty variant does not mean "no value":
//! it means "any value will do". A wildcard therefore compares equal to
//! everything and contains every probe.
//!
//! # Equality is not an equivalence
//!
//! `==` on `OrAny` answers "can these two stand for the same value?". It is
//! `true` whenever either side is the wildcard, so two different concrete
//! values are both equal to `Any` without being equal to each other: the
//! relation is not transitive. Do not use an `OrAny` as a key, and do not
//! deduplicate by it.

use vstd::prelude::*;
use vstd::std_specs::cmp::PartialEqSpec;

verus! {

/// A concrete value, or a wildcard that matches every value.
#[derive(Debug)]
pub enum OrAny<T> {
    /// The wildcard: matches every value.
    Any,
    /// One concrete value.
    Value(T),
}

impl<T> OrAny<T> {
    /// Whether this is the wildcard.
    pub open spec fn spec_is_any(&self) -> bool {
        self is Any
    }

    /// Whether this holds a concrete value.
    pub open spec fn spec_is_some(&self) -> bool {
        self is Value
    }

    /// The held value as an `Option`: `None` for the wildcard.
    pub open spec fn spec_some(&self) -> Option<&T> {
        match self {
            OrAny::Any => None,
            OrAny::Value(v) => Some(v),
        }
    }

    /// The same variant, holding a reference to the value.
    pub open spec fn spec_as_ref(&self) -> OrAny<&T> {
        match self {
            OrAny::Any => OrAny::Any,
            OrAny::Value(v) => OrAny::Value(v),
        }
    }

    /// The held value, or `def` for the wildcard.
    pub open spec fn spec_unwrap_or(self, def: T) -> T {
        match self {
            OrAny::Any => def,
            OrAny::Value(v) => v,
        }
    }

    /// Whether `r` is what mapping `self` through `f` may give.
    ///
    /// The wildcard stays the wildcard. A concrete value becomes a concrete
    /// value that `f` may return for it.
    pub open spec fn mapped_by<U, F: FnOnce(T) -> U>(self, f: F, r: OrAny<U>) -> bool {
        match self {
            OrAny::Any => r is Any,
            OrAny::Value(v) => r is Value && call_ensures(f, (v,), r->Value_0),
        }
    }

    /// Whether `r` is what filtering `self` by `predicate` may give.
    ///
    /// The wildcard stays the wildcard. A concrete value is kept where the
    /// predicate answered `true` for it, and gives way to the wildcard where
    /// the predicate answered `false`.
    pub open spec fn filtered_by<P: FnOnce(&T) -> bool>(self, predicate: P, r: Self) -> bool {
        match self {
            OrAny::Any => r is Any,
            OrAny::Value(v) => {
                ||| call_ensures(predicate, (&v,), true) && r == self
                ||| call_ensures(predicate, (&v,), false) && r is Any
            },
        }
    }

    /// Borrows the held value without moving it.
    #[verifier::when_used_as_spec(spec_as_ref)]
    pub fn as_ref(&self) -> (r: OrAny<&T>)
        ensures
            r == self.spec_as_ref(),
    {
        match self {
            OrAny::Value(v) => OrAny::Value(v),
            _ => OrAny::Any,
        }
    }

    /// Borrows the held value for writing. The variant cannot change through
    /// the borrow: a wildcard stays a wildcard, and a concrete value ends up
    /// as whatever was last written through the returned reference.
    pub fn as_mut(&mut self) -> (r: OrAny<&mut T>)
        ensures
            match *old(self) {
                OrAny::Any => r is Any && *final(self) is Any,
                OrAny::Value(v) => {
                    &&& r is Value
                    &&& *r->Value_0 == v
                    &&& *final(self) == OrAny::Value(*final(r->Value_0))
                },
            },
    {
        match self {
            OrAny::Value(x) => OrAny::Value(x),
            _ => OrAny::Any,
        }
    }

    /// The total way to look at the held value: `None` for the wildcard.
    #[verifier::when_used_as_spec(spec_some)]
    pub fn some(&self) -> (r: Option<&T>)
        ensures
            r == self.spec_some(),
    {
        match self {
            OrAny::Value(v) => Option::Some(v),
            _ => Option::None,
        }
    }

    /// Puts `value` in and hands the previous state back to the caller.
    pub fn replace(&mut self, value: T) -> (r: OrAny<T>)
        ensures
            r == *old(self),
            *final(self) == OrAny::Value(value),
    {
        let mut previous = OrAny::Value(value);
        core::mem::swap(self, &mut previous);
        previous
    }

    /// Returns `true` exactly for the wildcard.
    #[verifier::when_used_as_spec(spec_is_any)]
    pub fn is_any(&self) -> (r: bool)
        ensures
            r == (self is Any),
    {
        match self {
            OrAny::Any => true,
            _ => false,
        }
    }

    /// Returns `true` exactly when a concrete value is held.
    #[verifier::when_used_as_spec(spec_is_some)]
    pub fn is_some(&self) -> (r: bool)
        ensures
            r == (self is Value),
    {
        match self {
            OrAny::Value(_) => true,
            _ => false,
        }
    }

    /// Applies `f` to a concrete value; the wildcard passes through and `f` is
    /// not called.
    pub fn map<U, F>(self, f: F) -> (r: OrAny<U>) where F: FnOnce(T) -> U
        requires
            self matches OrAny::Value(v) ==> call_requires(f, (v,)),
        ensures
            self.mapped_by(f, r),
    {
        match self {
            OrAny::Value(v) => OrAny::Value(f(v)),
            _ => OrAny::Any,
        }
    }

    /// Applies `f` to a concrete value; gives `default` for the wildcard.
    pub fn map_or<U, F: FnOnce(T) -> U>(self, default: U, f: F) -> (r: U)
        requires
            self matches OrAny::Value(v) ==> call_requires(f, (v,)),
        ensures
            match self {
                OrAny::Any => r == default,
                OrAny::Value(v) => call_ensures(f, (v,), r),
            },
    {
        match self {
            OrAny::Value(t) => f(t),
            OrAny::Any => default,
        }
    }

    /// Keeps a concrete value that satisfies `predicate`; anything else becomes
    /// the wildcard. The predicate is not called on the wildcard.
    pub fn filter<P: FnOnce(&T) -> bool>(self, predicate: P) -> (r: Self)
        requires
            self matches OrAny::Value(v) ==> call_requires(predicate, (&v,)),
        ensures
            self.filtered_by(predicate, r),
    {
        if let OrAny::Value(x) = self {
            if predicate(&x) {
                return OrAny::Value(x);
            }
        }
        OrAny::Any
    }

    /// Takes the held value out. The caller must know that there is one: on the
    /// wildcard this is a programming error, and the call is ruled out.
    /// Code that is not verified and calls this on the wildcard all the same
    /// is stopped by a panic that carries `msg`.
    pub fn expect(self, msg: &str) -> (r: T)
        requires
            self is Value,
        ensures
            self == OrAny::Value(r),
    {
        match self {
            OrAny::Value(v) => v,
            _ => Option::None.expect(msg),
        }
    }

    /// Takes the held value out. The caller must know that there is one: on the
    /// wildcard this is a programming error, and the call is ruled out.
    /// Code that is not verified and calls this on the wildcard all the same
    /// is stopped by a panic. [`OrAny::some`] and [`OrAny::unwrap_or`] are the
    /// total alternatives.
    pub fn unwrap(self) -> (r: T)
        requires
            self is Value,
        ensures
            self == OrAny::Value(r),
    {
        match self {
            OrAny::Value(v) => v,
            _ => Option::None.expect("called `OrAny::unwrap()` on a `None` value"),
        }
    }

    /// Takes the held value out, or gives `def` for the wildcard.
    #[verifier::when_used_as_spec(spec_unwrap_or)]
    pub fn unwrap_or(self, def: T) -> (r: T)
        ensures
            r == self.spec_unwrap_or(def),
    {
        match self {
            OrAny::Value(v) => v,
            _ => def,
        }
    }
}

impl<T: Default> OrAny<T> {
    /// Takes the held value out, or makes `T`'s default value for the wildcard.
    pub fn unwrap_or_default(self) -> (r: T)
        ensures
            match self {
                OrAny::Any => call_ensures(T::default, (), r),
                OrAny::Value(v) => r == v,
            },
    {
        match self {
            OrAny::Value(x) => x,
            _ => T::default(),
        }
    }
}

impl<T: PartialEq> OrAny<T> {
    /// Whether `x` is matched: the wildcard matches every probe, a concrete
    /// value matches the probes that it is equal to.
    pub open spec fn spec_contains(&self, x: &T) -> bool {
        match self {
            OrAny::Any => true,
            OrAny::Value(v) => v.eq_spec(x),
        }
    }

    /// Returns `true` for every probe on the wildcard, and on a concrete value
    /// for the probes that the value is equal to.
    pub fn contains(&self, x: &T) -> (r: bool)
        ensures
            self is Any ==> r,
            self matches OrAny::Value(v) ==> call_ensures(T::eq, (&v, x), r),
            T::obeys_eq_spec() ==> r == self.spec_contains(x),
    {
        match self {
            OrAny::Value(y) => *y == *x,
            OrAny::Any => true,
        }
    }
}

impl<T: Clone> Clone for OrAny<T> {
    /// Clones the held value, if there is one; the variant stays.
    fn clone(&self) -> (r: Self)
        ensures
            match self {
                OrAny::Any => r is Any,
                OrAny::Value(v) => r is Value && call_ensures(T::clone, (v,), r->Value_0),
            },
    {
        match self {
            OrAny::Value(v) => OrAny::Value(v.clone()),
            OrAny::Any => OrAny::Any,
        }
    }
}

/// An `OrAny` can be copied wherever its value can.
impl<T: Copy> Copy for OrAny<T> {}

impl<T: PartialEq> PartialEq for OrAny<T> {
    /// Wildcard-aware equality: `true` whenever either side is the wildcard,
    /// otherwise the held values decide. This relation is not transitive.
    fn eq(&self, other: &Self) -> (r: bool)
        ensures
            (self is Any || other is Any) ==> r,
            (self is Value && other is Value) ==> call_ensures(
                T::eq,
                (&self->Value_0, &other->Value_0),
                r,
            ),
    {
        match (self, other) {
            (OrAny::Value(v1), OrAny::Value(v2)) => *v1 == *v2,
            _ => true,
        }
    }
}

impl<T: PartialEq> vstd::std_specs::cmp::PartialEqSpecImpl for OrAny<T> {
    open spec fn obeys_eq_spec() -> bool {
        T::obeys_eq_spec()
    }

    open spec fn eq_spec(&self, other: &Self) -> bool {
        match (self, other) {
            (OrAny::Value(v1), OrAny::Value(v2)) => v1.eq_spec(v2),
            _ => true,
        }
    }
}

} // verus!
