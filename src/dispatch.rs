use std::collections::HashSet;
use std::hash::Hash;
use std::marker::PhantomData;
use vstd::prelude::*;
use vstd::std_specs::hash::obeys_key_model;

use crate::token::PhantomToken;

verus! {

/// A permission expression: it knows which atoms it involves and how a granted
/// set of atoms satisfies it.
///
/// The expressions are `Atom`, `And` and `Or`, nested to any depth.
///
/// The contracts speak of the sets' contents only where the atom type `Z`
/// behaves as a hash key should (`obeys_key_model`).
pub trait Dispatch<Z: Sized + Hash + Eq> {
    /// The atoms entangled with this expression.
    spec fn spec_dispatch() -> Set<Z>;

    /// Whether the granted set `ops` satisfies this expression under its own rule.
    spec fn spec_match(ops: Set<Z>) -> bool;

    /// Returns the atoms entangled with this expression.
    fn dispatch() -> (r: HashSet<Z>)
        ensures
            obeys_key_model::<Z>() ==> r@ == Self::spec_dispatch(),
    ;

    /// Checks the granted set `ops` against this expression's own rule.
    fn check_match(ops: &HashSet<Z>) -> (r: bool)
        ensures
            obeys_key_model::<Z>() ==> r == Self::spec_match(ops@),
    ;

    /// Hands out a token for this expression exactly when `ops` satisfies it.
    fn try_into_token(ops: &HashSet<Z>) -> (r: Option<PhantomToken<Self>>)
        ensures
            obeys_key_model::<Z>() ==> r == (if Self::spec_match(ops@) {
                Some(PhantomToken::<Self>::canonical())
            } else {
                None
            }),
    {
        if Self::check_match(ops) {
            Some(PhantomToken::new_unchecked())
        } else {
            None
        }
    }
}

/// Names one atom at the type level.
pub trait Permission<Z> {
    /// The atom this type stands for.
    const ATOM: Z;
}

/// The expression that asks for the single atom named by `P`.
pub struct Atom<Z, P> {
    _z: PhantomData<Z>,
    _p: PhantomData<P>,
}

impl<Z: Sized + Hash + Eq, P: Permission<Z>> Dispatch<Z> for Atom<Z, P> {
    open spec fn spec_dispatch() -> Set<Z> {
        set![P::ATOM]
    }

    open spec fn spec_match(ops: Set<Z>) -> bool {
        Self::spec_dispatch().subset_of(ops)
    }

    fn dispatch() -> (r: HashSet<Z>) {
        let mut set = HashSet::new();
        set.insert(P::ATOM);
        proof {
            if obeys_key_model::<Z>() {
                assert(set@ =~= set![P::ATOM]);
            }
        }
        set
    }

    fn check_match(ops: &HashSet<Z>) -> (r: bool) {
        includes_all(ops, &Self::dispatch())
    }
}

/// Relies on `HashSet::is_superset`: true exactly when every item of `needed`
/// is in `ops`.
#[verifier::external_body]
pub(crate) fn includes_all<Z: Hash + Eq>(ops: &HashSet<Z>, needed: &HashSet<Z>) -> (r: bool)
    ensures
        obeys_key_model::<Z>() ==> r == needed@.subset_of(ops@),
{
    ops.is_superset(needed)
}

/// Relies on `Extend::extend` for `HashSet`: every item of `other` is inserted
/// into `set`.
#[verifier::external_body]
pub(crate) fn absorb<Z: Hash + Eq>(set: &mut HashSet<Z>, other: HashSet<Z>)
    ensures
        obeys_key_model::<Z>() ==> final(set)@ == old(set)@.union(other@),
{
    set.extend(other)
}

} // verus!
