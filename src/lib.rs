//! Permission checking at the type level.
//!
//! A sensitive function asks for a `PhantomToken<E>`, where `E` is a permission
//! expression built from atoms with `And` and `Or`. The only checked way to get
//! such a token is `Dispatch::try_into_token`, which hands one out exactly when
//! the granted set of atoms satisfies `E`.

mod compose;
mod dispatch;
mod laws;
mod token;

pub use compose::{And, Or, TAnd, TOr};
pub use dispatch::{Atom, Dispatch, Permission};
pub use laws::{
    issued, lemma_and_match, lemma_atom_dispatch, lemma_compose_dispatch,
    lemma_or_is_not_conjunction, lemma_or_match, lemma_tokens_interchangeable,
};
pub use token::PhantomToken;
