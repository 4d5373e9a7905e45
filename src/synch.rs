use vstd::prelude::*;

use crate::accumulator::Accumulator;
use crate::errors::{lemma_nest_all_empty, nest_all, outcome_of, Error, FailureView, Key};

verus! {

/// Synchronous validation.
pub trait Validate {
    /// The failures that this value records, in order, with paths taken from
    /// the value itself. An impl proved in Verus states it; for one that is
    /// not, it is left unstated.
    open spec fn spec_failures(&self) -> Seq<FailureView> {
        arbitrary()
    }

    /// Performs top-level validation on this value.
    ///
    /// Should not be called inside other validators;
    /// use [Validate::validate_inner] instead.
    fn validate(&self) -> (r: Result<(), Error>)
        ensures
            outcome_of(r, self.spec_failures()),
    {
        let mut accum = Accumulator::new();
        self.validate_inner(&mut accum);
        proof {
            lemma_nest_all_empty(self.spec_failures());
            assert(Seq::<Key>::empty().reverse() =~= Seq::<Key>::empty());
            assert(accum.failures() =~= self.spec_failures());
        }
        accum.into_result()
    }

    /// Records this value's failures in `accum`, under its current path, and
    /// returns how many were recorded. The path is as it was on return.
    ///
    /// Validators of containing types should call this;
    /// end users probably want [Validate::validate] instead.
    fn validate_inner(&self, accum: &mut Accumulator) -> (r: usize)
        ensures
            final(accum).prefix() == old(accum).prefix(),
            final(accum).failures() == old(accum).failures() + nest_all(
                self.spec_failures(),
                old(accum).prefix().reverse(),
            ),
            r == self.spec_failures().len(),
    ;
}

/// Validating one unchanged value twice gives the same outcome: both succeed,
/// or both fail with reports of the same failures in the same order.
pub proof fn lemma_validate_repeatable<V: Validate>(
    v: &V,
    first: Result<(), Error>,
    second: Result<(), Error>,
)
    requires
        outcome_of(first, v.spec_failures()),
        outcome_of(second, v.spec_failures()),
    ensures
        first is Ok <==> second is Ok,
        first is Err ==> first->Err_0@ == second->Err_0@,
{
}

/// The same value can pass under one context and fail under another: the
/// outcome under each context is decided by what the value records under it,
/// and a failing one reports exactly those failures.
pub proof fn lemma_context_decides<V: ValidateContext>(
    v: &V,
    permissive: &V::Context,
    strict: &V::Context,
    passed: Result<(), Error>,
    failed: Result<(), Error>,
)
    requires
        outcome_of(passed, v.spec_failures(permissive)),
        outcome_of(failed, v.spec_failures(strict)),
        v.spec_failures(permissive).len() == 0,
        v.spec_failures(strict).len() > 0,
    ensures
        passed is Ok,
        failed is Err,
        failed->Err_0@ == v.spec_failures(strict),
{
}

/// Synchronous validation where some external data or context is required.
pub trait ValidateContext {
    /// Type of context which the validator needs (external data, resources etc.)
    type Context;

    /// The failures that this value records under `context`, in order, with
    /// paths taken from the value itself. An impl proved in Verus states it;
    /// for one that is not, it is left unstated.
    open spec fn spec_failures(&self, context: &Self::Context) -> Seq<FailureView> {
        arbitrary()
    }

    /// Performs top-level validation on this value, with the given context.
    ///
    /// Should not be called inside other validators;
    /// use [ValidateContext::validate_inner] instead.
    fn validate(&self, context: &Self::Context) -> (r: Result<(), Error>)
        ensures
            outcome_of(r, self.spec_failures(context)),
    {
        let mut accum = Accumulator::new();
        self.validate_inner(context, &mut accum);
        proof {
            lemma_nest_all_empty(self.spec_failures(context));
            assert(Seq::<Key>::empty().reverse() =~= Seq::<Key>::empty());
            assert(accum.failures() =~= self.spec_failures(context));
        }
        accum.into_result()
    }

    /// Records this value's failures under `context` in `accum`, under its
    /// current path, and returns how many were recorded. The path is as it
    /// was on return.
    ///
    /// Validators of containing types should call this;
    /// end users probably want [ValidateContext::validate] instead.
    fn validate_inner(&self, context: &Self::Context, accum: &mut Accumulator) -> (r: usize)
        ensures
            final(accum).prefix() == old(accum).prefix(),
            final(accum).failures() == old(accum).failures() + nest_all(
                self.spec_failures(context),
                old(accum).prefix().reverse(),
            ),
            r == self.spec_failures(context).len(),
    ;
}

} // verus!
