use std::collections::HashSet;
use std::hash::Hash;
use std::marker::PhantomData;
use vstd::prelude::*;
use vstd::std_specs::hash::obeys_key_model;

use crate::dispatch::{absorb, includes_all, Dispatch};
use crate::token::PhantomToken;

verus! {

/// Marks an expression that asks for both `T` and `U`.
///
/// The order of the two sides is part of the type: `And<Z, A, B>` and
/// `And<Z, B, A>` are different expressions.
pub trait TAnd<Z: Sized + Hash + Eq, T: ?Sized + Dispatch<Z>, U: ?Sized + Dispatch<Z>> {}

/// The expression that asks for both `T` and `U`: a granted set satisfies it when
/// it holds every atom entangled with either side.
pub struct And<Z: Sized + Hash + Eq, T: ?Sized + Dispatch<Z>, U: ?Sized + Dispatch<Z>> {
    _z: PhantomData<Z>,
    _t: PhantomData<T>,
    _u: PhantomData<U>,
}

impl<Z, T, U> TAnd<Z, T, U> for And<Z, T, U> where
    Z: Sized + Hash + Eq,
    T: ?Sized + Dispatch<Z>,
    U: ?Sized + Dispatch<Z>,
 {}

impl<Z, T, U> Dispatch<Z> for And<Z, T, U> where
    Z: Sized + Hash + Eq,
    T: ?Sized + Dispatch<Z>,
    U: ?Sized + Dispatch<Z>,
 {
    open spec fn spec_dispatch() -> Set<Z> {
        T::spec_dispatch().union(U::spec_dispatch())
    }

    open spec fn spec_match(ops: Set<Z>) -> bool {
        Self::spec_dispatch().subset_of(ops)
    }

    fn dispatch() -> (r: HashSet<Z>) {
        let mut set = T::dispatch();
        absorb(&mut set, U::dispatch());
        set
    }

    fn check_match(ops: &HashSet<Z>) -> (r: bool) {
        includes_all(ops, &Self::dispatch())
    }
}

/// Marks an expression that asks for `T` or `U`. See `TAnd`.
pub trait TOr<Z: Sized + Hash + Eq, T: ?Sized + Dispatch<Z>, U: ?Sized + Dispatch<Z>> {}

/// The expression that asks for `T` or `U`: a granted set satisfies it when it
/// satisfies either side under that side's own rule.
///
/// Its atoms are those of both sides, as for `And`; only the rule differs.
pub struct Or<Z: Sized + Hash + Eq, T: ?Sized + Dispatch<Z>, U: ?Sized + Dispatch<Z>> {
    _z: PhantomData<Z>,
    _t: PhantomData<T>,
    _u: PhantomData<U>,
}

impl<Z, T, U> TOr<Z, T, U> for Or<Z, T, U> where
    Z: Sized + Hash + Eq,
    T: ?Sized + Dispatch<Z>,
    U: ?Sized + Dispatch<Z>,
 {}

impl<Z, T, U> Dispatch<Z> for Or<Z, T, U> where
    Z: Sized + Hash + Eq,
    T: ?Sized + Dispatch<Z>,
    U: ?Sized + Dispatch<Z>,
 {
    open spec fn spec_dispatch() -> Set<Z> {
        T::spec_dispatch().union(U::spec_dispatch())
    }

    open spec fn spec_match(ops: Set<Z>) -> bool {
        T::spec_match(ops) || U::spec_match(ops)
    }

    fn dispatch() -> (r: HashSet<Z>) {
        let mut set = T::dispatch();
        absorb(&mut set, U::dispatch());
        set
    }

    fn check_match(ops: &HashSet<Z>) -> (r: bool) {
        T::check_match(ops) || U::check_match(ops)
    }

    fn try_into_token(ops: &HashSet<Z>) -> (r: Option<PhantomToken<Self>>) {
        if T::check_match(ops) || U::check_match(ops) {
            Some(PhantomToken::new_unchecked())
        } else {
            None
        }
    }
}

} // verus!
