use std::marker::PhantomData;
use vstd::prelude::*;

verus! {

/// A proof value bound to the permission expression `T`.
///
/// A token carries nothing at run time: what it stands for comes from how it was
/// obtained. Functions that need the permissions `T` take a `PhantomToken<T>`.
pub struct PhantomToken<T: ?Sized> {
    _marker: PhantomData<T>,
}

impl<T: ?Sized> PhantomToken<T> {
    /// The token value of the expression `T` that every constructor returns.
    pub closed spec fn canonical() -> Self {
        PhantomToken { _marker: PhantomData }
    }

    /// Makes a token without looking at any granted set.
    ///
    /// This bypasses the permission check entirely: it is meant for tests and
    /// bootstrapping only. Checked code obtains tokens through
    /// `Dispatch::try_into_token`.
    pub fn new_unchecked() -> (r: Self)
        ensures
            r == Self::canonical(),
    {
        PhantomToken { _marker: PhantomData }
    }
}

} // verus!
