use std::hash::Hash;
use vstd::prelude::*;

use crate::compose::{And, Or};
use crate::dispatch::{Atom, Dispatch, Permission};
use crate::token::PhantomToken;

verus! {

/// An atom's dispatch set is the singleton of the atom it names.
pub proof fn lemma_atom_dispatch<Z: Sized + Hash + Eq, P: Permission<Z>>()
    ensures
        Atom::<Z, P>::spec_dispatch() == set![P::ATOM],
{
}

/// `And` and `Or` over the same two sides entangle the same atoms: the union of
/// the two sides' dispatch sets.
pub proof fn lemma_compose_dispatch<
    Z: Sized + Hash + Eq,
    T: ?Sized + Dispatch<Z>,
    U: ?Sized + Dispatch<Z>,
>()
    ensures
        And::<Z, T, U>::spec_dispatch() == T::spec_dispatch().union(U::spec_dispatch()),
        Or::<Z, T, U>::spec_dispatch() == T::spec_dispatch().union(U::spec_dispatch()),
{
}

/// A granted set satisfies `And<T, U>` exactly when it holds every atom
/// entangled with `T` or with `U`.
pub proof fn lemma_and_match<
    Z: Sized + Hash + Eq,
    T: ?Sized + Dispatch<Z>,
    U: ?Sized + Dispatch<Z>,
>(ops: Set<Z>)
    ensures
        And::<Z, T, U>::spec_match(ops) <==> T::spec_dispatch().union(U::spec_dispatch()).subset_of(
            ops,
        ),
{
}

/// A granted set satisfies `Or<T, U>` exactly when it satisfies `T` or `U`, each
/// under its own rule.
pub proof fn lemma_or_match<
    Z: Sized + Hash + Eq,
    T: ?Sized + Dispatch<Z>,
    U: ?Sized + Dispatch<Z>,
>(ops: Set<Z>)
    ensures
        Or::<Z, T, U>::spec_match(ops) <==> T::spec_match(ops) || U::spec_match(ops),
{
}

/// `Or` is not the superset rule over its dispatch set: for two distinct atoms,
/// the set holding only the first satisfies their `Or` without holding both.
pub proof fn lemma_or_is_not_conjunction<
    Z: Sized + Hash + Eq,
    P: Permission<Z>,
    Q: Permission<Z>,
>()
    requires
        P::ATOM != Q::ATOM,
    ensures
        Or::<Z, Atom<Z, P>, Atom<Z, Q>>::spec_match(set![P::ATOM]),
        !Or::<Z, Atom<Z, P>, Atom<Z, Q>>::spec_dispatch().subset_of(set![P::ATOM]),
{
    let ops = set![P::ATOM];
    assert(Or::<Z, Atom<Z, P>, Atom<Z, Q>>::spec_dispatch().contains(Q::ATOM));
    assert(!ops.contains(Q::ATOM));
}

/// What `E::try_into_token` returns for the granted set `ops` (see its contract):
/// the token of `E` when `ops` satisfies `E`, and nothing otherwise.
pub open spec fn issued<Z: Sized + Hash + Eq, E: ?Sized + Dispatch<Z>>(ops: Set<Z>) -> Option<
    PhantomToken<E>,
> {
    if E::spec_match(ops) {
        Some(PhantomToken::<E>::canonical())
    } else {
        None
    }
}

/// Tokens carry no identity: issuing for `E` against any two granted sets that
/// satisfy it yields the same value, which is also what `new_unchecked` makes.
pub proof fn lemma_tokens_interchangeable<Z: Sized + Hash + Eq, E: ?Sized + Dispatch<Z>>(
    g1: Set<Z>,
    g2: Set<Z>,
)
    requires
        E::spec_match(g1),
        E::spec_match(g2),
    ensures
        issued::<Z, E>(g1) == issued::<Z, E>(g2),
        issued::<Z, E>(g1) == Some(PhantomToken::<E>::canonical()),
{
}

} // verus!
