use vstd::prelude::*;

use crate::errors::Error;
use crate::synch::{Validate, ValidateContext};

verus! {

/// Wrapper type containing a value which must have been validated.
#[derive(Debug)]
pub struct Valid<T>(T);

impl<T> Valid<T> {
    /// The wrapped value.
    pub closed spec fn value(&self) -> T {
        self.0
    }

    /// Borrow a reference to the contained valid value.
    pub fn inner(&self) -> (r: &T)
        ensures
            *r == self.value(),
    {
        &self.0
    }

    /// Unwrap into the contained value.
    pub fn into_inner(self) -> (r: T)
        ensures
            r == self.value(),
    {
        self.0
    }
}

impl<T> std::ops::Deref for Valid<T> {
    type Target = T;

    fn deref(&self) -> (r: &T)
        ensures
            *r == self.value(),
    {
        &self.0
    }
}

impl<T> AsRef<T> for Valid<T> {
    fn as_ref(&self) -> (r: &T)
        ensures
            *r == self.value(),
    {
        &self.0
    }
}

impl<T> std::borrow::Borrow<T> for Valid<T> {
    fn borrow(&self) -> &T {
        &self.0
    }
}

impl<T: Validate> Valid<T> {
    /// Validate the inner value and return the wrapped form.
    pub fn try_new(inner: T) -> (r: Result<Self, Error>)
        ensures
            match r {
                Ok(v) => inner.spec_failures().len() == 0 && v.value() == inner,
                Err(e) => inner.spec_failures().len() > 0 && e@ == inner.spec_failures(),
            },
    {
        match inner.validate() {
            Ok(()) => Ok(Valid(inner)),
            Err(e) => Err(e),
        }
    }
}

impl<T: ValidateContext> Valid<T> {
    /// Validate the inner value under `context` and return the wrapped form.
    pub fn try_new_with_context(inner: T, context: &T::Context) -> (r: Result<Self, Error>)
        ensures
            match r {
                Ok(v) => inner.spec_failures(context).len() == 0 && v.value() == inner,
                Err(e) => inner.spec_failures(context).len() > 0 && e@ == inner.spec_failures(
                    context,
                ),
            },
    {
        match inner.validate(context) {
            Ok(()) => Ok(Valid(inner)),
            Err(e) => Err(e),
        }
    }
}

} // verus!
