use vstd::prelude::*;

use crate::errors::{
    lemma_nest_all_add, lemma_nest_all_twice, nest_all, nested_in, outcome_of, Error, Failure,
    FailureView, Key,
};
use crate::synch::Validate;

verus! {

/// What the items of a sequence record, in order, seen from a value that
/// holds the sequence at `key`: item `i` under `Index(i)`, then `key`.
pub open spec fn sequence_failures<V: Validate>(items: Seq<V>, key: Key) -> Seq<FailureView>
    decreases items.len(),
{
    if items.len() == 0 {
        Seq::empty()
    } else {
        sequence_failures(items.drop_last(), key) + nest_all(
            items.last().spec_failures(),
            seq![Key::Index((items.len() - 1) as usize), key],
        )
    }
}

/// How many failures the items of a sequence record together.
pub open spec fn total_failures<V: Validate>(items: Seq<V>) -> nat
    decreases items.len(),
{
    if items.len() == 0 {
        0
    } else {
        total_failures(items.drop_last()) + items.last().spec_failures().len()
    }
}

/// A sequence reports every failure of every item: none is merged with
/// another and none is dropped.
pub proof fn lemma_sequence_failures_len<V: Validate>(items: Seq<V>, key: Key)
    ensures
        sequence_failures(items, key).len() == total_failures(items),
    decreases items.len(),
{
    if items.len() > 0 {
        lemma_sequence_failures_len(items.drop_last(), key);
    }
}

/// What the first items of a sequence record comes first, unchanged, in what
/// the whole sequence records.
pub proof fn lemma_sequence_failures_prefix<V: Validate>(items: Seq<V>, key: Key, j: int)
    requires
        0 <= j <= items.len(),
    ensures
        sequence_failures(items.subrange(0, j), key).is_prefix_of(sequence_failures(items, key)),
    decreases items.len(),
{
    if j == items.len() {
        assert(items.subrange(0, j) =~= items);
    } else {
        assert(items.drop_last().subrange(0, j) =~= items.subrange(0, j));
        lemma_sequence_failures_prefix(items.drop_last(), key, j);
    }
}

/// Item `i` of a sequence held at `key` has its failures, in its own order,
/// at one stretch of what the sequence records: after those of every earlier
/// item, each under `Index(i)` and then `key`.
pub proof fn lemma_sequence_failures_item<V: Validate>(items: Seq<V>, key: Key, i: int, k: int)
    requires
        0 <= i < items.len(),
        items.len() <= usize::MAX,
        0 <= k < items[i].spec_failures().len(),
    ensures
        total_failures(items.subrange(0, i)) + k < sequence_failures(items, key).len(),
        sequence_failures(items, key)[total_failures(items.subrange(0, i)) + k] == nested_in(
            items[i].spec_failures()[k],
            seq![Key::Index(i as usize), key],
        ),
{
    let upto = items.subrange(0, i + 1);
    let before = items.subrange(0, i);
    assert(upto.len() == i + 1);
    assert(upto.drop_last() =~= before);
    assert(upto[i] == items[i]);
    lemma_sequence_failures_len(before, key);
    lemma_sequence_failures_prefix(items, key, i + 1);
    let part = nest_all(items[i].spec_failures(), seq![Key::Index(i as usize), key]);
    assert(sequence_failures(upto, key) == sequence_failures(before, key) + part);
    let at = total_failures(before) + k;
    assert(sequence_failures(upto, key)[at] == part[k]);
    assert(sequence_failures(upto, key)[at] == sequence_failures(items, key)[at]);
}

/// Collects the failures of one validation run, each stamped with the path
/// that was current when it was recorded.
#[derive(Debug)]
pub struct Accumulator {
    /// The current path, root first.
    prefix: Vec<Key>,
    failures: Vec<Failure>,
}

impl Accumulator {
    /// The current path, root first.
    pub closed spec fn prefix(&self) -> Seq<Key> {
        self.prefix@
    }

    /// The failures recorded so far, in order.
    pub closed spec fn failures(&self) -> Seq<FailureView> {
        self.failures@.map_values(|f: Failure| f@)
    }

    /// An accumulator at the root, with nothing recorded.
    pub fn new() -> (r: Accumulator)
        ensures
            r.prefix() == Seq::<Key>::empty(),
            r.failures() == Seq::<FailureView>::empty(),
    {
        let r = Accumulator { prefix: Vec::new(), failures: Vec::new() };
        assert(r.failures() =~= Seq::<FailureView>::empty());
        r
    }

    /// How many keys the current path has.
    pub fn depth(&self) -> (r: usize)
        ensures
            r == self.prefix().len(),
    {
        self.prefix.len()
    }

    /// Records one failure, at `keys` (leaf first) below the current path.
    pub fn add_failure(&mut self, failure: Failure, keys: &[Key])
        ensures
            final(self).prefix() == old(self).prefix(),
            final(self).failures() == old(self).failures().push(
                nested_in(nested_in(failure@, keys@), old(self).prefix().reverse()),
            ),
    {
        let ghost given = failure@;
        let mut failure = failure;
        failure.extend_keys(keys);
        failure.extend_reversed(&self.prefix);
        assert(failure@.keys =~= nested_in(nested_in(given, keys@), self.prefix@.reverse()).keys);
        self.failures.push(failure);
        assert(self.failures() =~= old(self).failures().push(
            nested_in(nested_in(given, keys@), old(self).prefix().reverse()),
        ));
    }

    /// Records every failure of a report made elsewhere, in order, at `keys`
    /// (leaf first) below the current path. Returns whether there was one.
    pub fn accumulate_err(&mut self, res: Result<(), Error>, keys: &[Key]) -> (r: bool)
        ensures
            final(self).prefix() == old(self).prefix(),
            r == res is Err,
            final(self).failures() == old(self).failures() + nest_all(
                match res {
                    Ok(()) => Seq::<FailureView>::empty(),
                    Err(e) => nest_all(e@, keys@),
                },
                old(self).prefix().reverse(),
            ),
    {
        let ghost outer = old(self).prefix().reverse();
        match res {
            Ok(()) => {
                assert(nest_all(Seq::<FailureView>::empty(), outer) =~= Seq::<FailureView>::empty());
                assert(old(self).failures() + Seq::<FailureView>::empty() =~= old(self).failures());
                false
            },
            Err(e) => {
                let ghost all = e@;
                let mut rest = e.into_failures();
                let count: usize = rest.len();
                let ghost n = count as int;
                let mut k: usize = 0;
                assert(nest_all(nest_all(all.subrange(0, 0), keys@), outer) =~= Seq::<FailureView>::empty());
                assert(old(self).failures() + Seq::<FailureView>::empty() =~= old(self).failures());
                while rest.len() > 0
                    invariant
                        k <= n,
                        n == all.len(),
                        n <= usize::MAX,
                        rest@.len() == n - k,
                        rest@.map_values(|f: Failure| f@) == all.subrange(k as int, n),
                        self.prefix() == old(self).prefix(),
                        outer == old(self).prefix().reverse(),
                        self.failures() == old(self).failures() + nest_all(
                            nest_all(all.subrange(0, k as int), keys@),
                            outer,
                        ),
                    decreases rest@.len(),
                {
                    let ghost before = self.failures();
                    let ghost old_rest = rest@;
                    assert(old_rest[0]@ == old_rest.map_values(|f: Failure| f@)[0]);
                    let f = rest.remove(0);
                    assert forall|j: int| 0 <= j < rest@.len() implies rest@[j]@ == all[k + 1 + j] by {
                        assert(rest@[j] == old_rest[j + 1]);
                        assert(old_rest.map_values(|f: Failure| f@)[j + 1] == all.subrange(k as int, n)[j + 1]);
                    }
                    assert(rest@.map_values(|f: Failure| f@) =~= all.subrange(k + 1, n));
                    self.add_failure(f, keys);
                    k = k + 1;
                    assert(all.subrange(0, k as int) =~= all.subrange(0, k - 1).push(all[k - 1]));
                    assert(nest_all(nest_all(all.subrange(0, k as int), keys@), outer)
                        =~= nest_all(nest_all(all.subrange(0, k - 1), keys@), outer).push(
                        nested_in(nested_in(all[k - 1], keys@), outer),
                    ));
                    assert(self.failures() =~= old(self).failures() + nest_all(
                        nest_all(all.subrange(0, k as int), keys@),
                        outer,
                    ));
                }
                assert(all.subrange(0, n) =~= all);
                true
            },
        }
    }

    /// Validates `item` at `key` below the current path, and returns how many
    /// failures it recorded. The path is as it was on return.
    pub fn validate_member<V: Validate>(&mut self, key: Key, item: &V) -> (r: usize)
        ensures
            final(self).prefix() == old(self).prefix(),
            final(self).failures() == old(self).failures() + nest_all(
                nest_all(item.spec_failures(), seq![key]),
                old(self).prefix().reverse(),
            ),
            r == item.spec_failures().len(),
    {
        let ghost outer = old(self).prefix().reverse();
        self.prefix.push(key);
        assert(self.prefix().reverse() =~= seq![key] + outer);
        let r = item.validate_inner(self);
        self.prefix.pop();
        assert(self.prefix() =~= old(self).prefix());
        proof {
            lemma_nest_all_twice(item.spec_failures(), seq![key], outer);
        }
        r
    }

    /// Validates each item of a sequence at `key` below the current path, item
    /// `i` under `Index(i)` in the sequence's own order, and returns how many
    /// failures they recorded. The path is as it was on return.
    pub fn validate_iter<V: Validate>(&mut self, key: Key, items: &[V]) -> (r: usize)
        ensures
            final(self).prefix() == old(self).prefix(),
            final(self).failures() == old(self).failures() + nest_all(
                sequence_failures(items@, key),
                old(self).prefix().reverse(),
            ),
            r == sequence_failures(items@, key).len(),
    {
        let ghost outer = old(self).prefix().reverse();
        let orig = self.failures.len();
        self.prefix.push(key);
        let mut i: usize = 0;
        assert(sequence_failures(items@.subrange(0, 0), key) =~= Seq::<FailureView>::empty());
        assert(nest_all(Seq::<FailureView>::empty(), outer) =~= Seq::<FailureView>::empty());
        assert(old(self).failures() + Seq::<FailureView>::empty() =~= old(self).failures());
        while i < items.len()
            invariant
                i <= items@.len(),
                self.prefix() == old(self).prefix().push(key),
                outer == old(self).prefix().reverse(),
                orig == old(self).failures().len(),
                self.failures() == old(self).failures() + nest_all(
                    sequence_failures(items@.subrange(0, i as int), key),
                    outer,
                ),
            decreases items@.len() - i,
        {
            let ghost done = items@.subrange(0, i as int);
            self.prefix.push(Key::Index(i));
            assert(self.prefix().reverse() =~= seq![Key::Index(i), key] + outer);
            items[i].validate_inner(self);
            self.prefix.pop();
            assert(self.prefix() =~= old(self).prefix().push(key));
            i = i + 1;
            proof {
                let next = items@.subrange(0, i as int);
                assert(next.drop_last() =~= done);
                assert(next.last() == items@[i - 1]);
                let part = nest_all(items@[i - 1].spec_failures(), seq![Key::Index((i - 1) as usize), key]);
                lemma_nest_all_twice(items@[i - 1].spec_failures(), seq![Key::Index((i - 1) as usize), key], outer);
                lemma_nest_all_add(sequence_failures(done, key), part, outer);
            }
        }
        self.prefix.pop();
        assert(self.prefix() =~= old(self).prefix());
        assert(items@.subrange(0, items@.len() as int) =~= items@);
        self.failures.len() - orig
    }

    /// How many failures have been recorded.
    pub fn len(&self) -> (r: usize)
        ensures
            r == self.failures().len(),
    {
        self.failures.len()
    }

    /// Whether no failure has been recorded.
    pub fn is_empty(&self) -> (r: bool)
        ensures
            r == (self.failures().len() == 0),
    {
        self.failures.len() == 0
    }

    /// Ends a run: success when nothing was recorded, else the report of
    /// every failure in order. The current path plays no part: each failure
    /// was stamped with it when recorded.
    pub fn into_result(self) -> (r: Result<(), Error>)
        ensures
            outcome_of(r, self.failures()),
    {
        if self.failures.len() == 0 {
            Ok(())
        } else {
            Err(Error::from_failures(self.failures))
        }
    }
}

impl Default for Accumulator {
    fn default() -> (r: Self)
        ensures
            r.prefix() == Seq::<Key>::empty(),
            r.failures() == Seq::<FailureView>::empty(),
    {
        Accumulator::new()
    }
}

} // verus!
