use vstd::prelude::*;
use vstd::string::StringExecFns;

use crate::render::{push_key, render_failure, render_key_path, render_lines, render_report};

verus! {

/// One step of a path into a validated value: a position in a sequence or
/// the name of a field.
#[derive(Debug, Clone, Copy, PartialEq, Eq, PartialOrd, Ord)]
pub enum Key {
    Index(usize),
    Field(&'static str),
}

impl From<usize> for Key {
    fn from(value: usize) -> (r: Self)
        ensures
            r == Key::Index(value),
    {
        Key::Index(value)
    }
}

impl vstd::std_specs::convert::FromSpecImpl<usize> for Key {
    open spec fn obeys_from_spec() -> bool {
        true
    }

    open spec fn from_spec(v: usize) -> Key {
        Key::Index(v)
    }
}

impl From<&'static str> for Key {
    fn from(value: &'static str) -> (r: Self)
        ensures
            r == Key::Field(value),
    {
        Key::Field(value)
    }
}

impl vstd::std_specs::convert::FromSpecImpl<&'static str> for Key {
    open spec fn obeys_from_spec() -> bool {
        true
    }

    open spec fn from_spec(v: &'static str) -> Key {
        Key::Field(v)
    }
}

/// A failure as plain values: its keys, listed from the leaf up to the root,
/// and its message.
pub struct FailureView {
    pub keys: Seq<Key>,
    pub message: Seq<char>,
}

/// `f` seen from a value that holds it at `outer`, the keys (leaf first) that
/// lead from that value down to where `f` was recorded.
pub open spec fn nested_in(f: FailureView, outer: Seq<Key>) -> FailureView {
    FailureView { keys: f.keys + outer, message: f.message }
}

/// Every failure of `fs`, in order, seen from a value that holds them at `outer`.
pub open spec fn nest_all(fs: Seq<FailureView>, outer: Seq<Key>) -> Seq<FailureView> {
    fs.map_values(|f: FailureView| nested_in(f, outer))
}

/// Nesting a concatenation nests each part.
pub proof fn lemma_nest_all_add(x: Seq<FailureView>, y: Seq<FailureView>, outer: Seq<Key>)
    ensures
        nest_all(x + y, outer) == nest_all(x, outer) + nest_all(y, outer),
{
    assert(nest_all(x + y, outer) =~= nest_all(x, outer) + nest_all(y, outer));
}

/// Nesting at `inner`, then at `outer`, is nesting at `inner` followed by `outer`.
pub proof fn lemma_nest_all_twice(fs: Seq<FailureView>, inner: Seq<Key>, outer: Seq<Key>)
    ensures
        nest_all(nest_all(fs, inner), outer) == nest_all(fs, inner + outer),
{
    assert forall|i: int| 0 <= i < fs.len() implies nest_all(nest_all(fs, inner), outer)[i]
        == nest_all(fs, inner + outer)[i] by {
        assert((fs[i].keys + inner) + outer =~= fs[i].keys + (inner + outer));
    }
    assert(nest_all(nest_all(fs, inner), outer) =~= nest_all(fs, inner + outer));
}

/// Nesting at no key leaves the failures as they are.
pub proof fn lemma_nest_all_empty(fs: Seq<FailureView>)
    ensures
        nest_all(fs, Seq::empty()) == fs,
{
    assert forall|i: int| 0 <= i < fs.len() implies nest_all(fs, Seq::empty())[i] == fs[i] by {
        assert(fs[i].keys + Seq::<Key>::empty() =~= fs[i].keys);
    }
    assert(nest_all(fs, Seq::empty()) =~= fs);
}

/// A single validation failure: a message and the path at which it was found.
#[derive(Debug)]
pub struct Failure {
    /// The path, from the leaf up to the root.
    key: Vec<Key>,
    message: String,
}

impl View for Failure {
    type V = FailureView;

    closed spec fn view(&self) -> FailureView {
        FailureView { keys: self.key@, message: self.message@ }
    }
}

impl Failure {
    /// A failure with the given message, at the value that records it.
    /// Inside a trait impl proved in Verus, build failures with this rather
    /// than `From`, whose contracts Verus does not prove at such a call.
    pub fn new(message: String) -> (r: Failure)
        ensures
            r@.keys == Seq::<Key>::empty(),
            r@.message == message@,
    {
        Failure { key: Vec::new(), message }
    }

    /// The same failure, one level further out: `key` leads to where it was.
    pub fn with_key(self, key: Key) -> (r: Self)
        ensures
            r@.keys == self@.keys.push(key),
            r@.message == self@.message,
    {
        let mut f = self;
        f.key.push(key);
        f
    }

    /// Appends `keys` to the path, in the order given.
    pub(crate) fn extend_keys(&mut self, keys: &[Key])
        ensures
            final(self)@.keys == old(self)@.keys + keys@,
            final(self)@.message == old(self)@.message,
    {
        let mut i: usize = 0;
        while i < keys.len()
            invariant
                i <= keys@.len(),
                self@.keys == old(self)@.keys + keys@.subrange(0, i as int),
                self@.message == old(self)@.message,
            decreases keys@.len() - i,
        {
            self.key.push(keys[i]);
            i = i + 1;
            assert(keys@.subrange(0, i as int) =~= keys@.subrange(0, i - 1).push(keys@[i - 1]));
        }
        assert(keys@.subrange(0, i as int) =~= keys@);
    }

    /// Appends `prefix`, a path given root first, leaf end first.
    pub(crate) fn extend_reversed(&mut self, prefix: &Vec<Key>)
        ensures
            final(self)@.keys == old(self)@.keys + prefix@.reverse(),
            final(self)@.message == old(self)@.message,
    {
        let mut i: usize = prefix.len();
        while i > 0
            invariant
                i <= prefix@.len(),
                self@.keys == old(self)@.keys + prefix@.subrange(i as int, prefix@.len() as int).reverse(),
                self@.message == old(self)@.message,
            decreases i,
        {
            i = i - 1;
            self.key.push(prefix[i]);
            assert(prefix@.subrange(i as int, prefix@.len() as int).reverse() =~= prefix@.subrange(
                i + 1,
                prefix@.len() as int,
            ).reverse().push(prefix@[i as int]));
        }
        assert(prefix@.subrange(0, prefix@.len() as int) =~= prefix@);
    }
}

impl Failure {
    /// The failure as one line: `$`, its path root first, `: ` and its message.
    #[allow(clippy::inherent_to_string)]
    pub fn to_string(&self) -> (r: String)
        ensures
            r@ == render_failure(self@),
    {
        let mut out = String::from_str("$");
        let n = self.key.len();
        let mut i: usize = n;
        assert(self.key@.subrange(n as int, n as int) =~= Seq::<Key>::empty());
        while i > 0
            invariant
                i <= n,
                n == self.key@.len(),
                out@ == "$"@ + render_key_path(self.key@.subrange(i as int, n as int)),
            decreases i,
        {
            i = i - 1;
            push_key(&mut out, self.key[i]);
            assert(self.key@.subrange(i as int, n as int).drop_first() =~= self.key@.subrange(
                i + 1,
                n as int,
            ));
            assert(out@ =~= "$"@ + render_key_path(self.key@.subrange(i as int, n as int)));
        }
        assert(self.key@.subrange(0, n as int) =~= self.key@);
        out.append(": ");
        out.append(self.message.as_str());
        assert(out@ =~= render_failure(self@));
        out
    }
}

impl From<&'static str> for Failure {
    fn from(value: &'static str) -> (r: Self)
        ensures
            r@.keys == Seq::<Key>::empty(),
            r@.message == value@,
    {
        Failure::new(String::from_str(value))
    }
}

impl vstd::std_specs::convert::FromSpecImpl<&'static str> for Failure {
    open spec fn obeys_from_spec() -> bool {
        false
    }

    open spec fn from_spec(v: &'static str) -> Failure {
        arbitrary()
    }
}

impl From<String> for Failure {
    fn from(value: String) -> (r: Self)
        ensures
            r@.keys == Seq::<Key>::empty(),
            r@.message == value@,
    {
        Failure::new(value)
    }
}

impl vstd::std_specs::convert::FromSpecImpl<String> for Failure {
    open spec fn obeys_from_spec() -> bool {
        false
    }

    open spec fn from_spec(v: String) -> Failure {
        arbitrary()
    }
}

/// The report of a validation run that found something: every failure, in
/// the order in which it was recorded. It is never empty.
#[derive(Debug)]
pub struct Error(Vec<Failure>);

impl View for Error {
    type V = Seq<FailureView>;

    closed spec fn view(&self) -> Seq<FailureView> {
        self.0@.map_values(|f: Failure| f@)
    }
}

impl Error {
    #[verifier::type_invariant]
    spec fn non_empty(&self) -> bool {
        self.0@.len() > 0
    }

    /// The report of the failures `failures`, which must hold at least one.
    pub(crate) fn from_failures(failures: Vec<Failure>) -> (r: Error)
        requires
            failures@.len() > 0,
        ensures
            r@ == failures@.map_values(|f: Failure| f@),
    {
        Error(failures)
    }

    /// The failures, in the order in which they were recorded.
    pub(crate) fn into_failures(self) -> (r: Vec<Failure>)
        ensures
            r@.map_values(|f: Failure| f@) == self@,
            r@.len() > 0,
    {
        proof {
            use_type_invariant(&self);
        }
        self.0
    }

    /// The failures, in the order in which they were recorded.
    pub fn failures(&self) -> (r: &[Failure])
        ensures
            r@.map_values(|f: Failure| f@) == self@,
    {
        self.0.as_slice()
    }

    /// The number of failures in the report.
    #[allow(clippy::len_without_is_empty)]
    pub fn len(&self) -> (r: usize)
        ensures
            r == self@.len(),
            r > 0,
    {
        proof {
            use_type_invariant(self);
        }
        self.0.len()
    }
}

impl Error {
    /// The report as text: a header line, then one indented line per failure.
    #[allow(clippy::inherent_to_string)]
    pub fn to_string(&self) -> (r: String)
        ensures
            r@ == render_report(self@),
    {
        let mut out = String::from_str("Validation failure(s):");
        let n = self.0.len();
        let mut i: usize = 0;
        assert(self@.subrange(0, 0) =~= Seq::<FailureView>::empty());
        while i < n
            invariant
                i <= n,
                n == self@.len(),
                out@ == "Validation failure(s):"@ + render_lines(self@.subrange(0, i as int)),
            decreases n - i,
        {
            out.append("\n   ");
            let line = self.0[i].to_string();
            out.append(line.as_str());
            i = i + 1;
            assert(self@.subrange(0, i as int).drop_last() =~= self@.subrange(0, i - 1));
            assert(out@ =~= "Validation failure(s):"@ + render_lines(self@.subrange(0, i as int)));
        }
        assert(self@.subrange(0, n as int) =~= self@);
        out
    }
}

impl From<Failure> for Error {
    fn from(value: Failure) -> (r: Self)
        ensures
            r@ == seq![value@],
    {
        let mut v: Vec<Failure> = Vec::new();
        v.push(value);
        let r = Error(v);
        assert(r@ =~= seq![value@]);
        r
    }
}

impl vstd::std_specs::convert::FromSpecImpl<Failure> for Error {
    open spec fn obeys_from_spec() -> bool {
        false
    }

    open spec fn from_spec(v: Failure) -> Error {
        arbitrary()
    }
}

/// Whether `r` is the outcome of a run that recorded `fs`: success when `fs`
/// is empty, else a report of exactly `fs`, in order.
pub open spec fn outcome_of(r: Result<(), Error>, fs: Seq<FailureView>) -> bool {
    match r {
        Ok(()) => fs.len() == 0,
        Err(e) => fs.len() > 0 && e@ == fs,
    }
}

} // verus!
