use vstd::prelude::*;
use vstd::string::StringExecFns;

use crate::errors::{nested_in, FailureView, Key};

verus! {

/// The decimal digit `d`, as text.
pub open spec fn digit(d: nat) -> Seq<char> {
    if d == 0 {
        "0"@
    } else if d == 1 {
        "1"@
    } else if d == 2 {
        "2"@
    } else if d == 3 {
        "3"@
    } else if d == 4 {
        "4"@
    } else if d == 5 {
        "5"@
    } else if d == 6 {
        "6"@
    } else if d == 7 {
        "7"@
    } else if d == 8 {
        "8"@
    } else {
        "9"@
    }
}

/// `n` in decimal, without leading zeros.
pub open spec fn decimal(n: nat) -> Seq<char>
    decreases n,
{
    if n < 10 {
        digit(n)
    } else {
        decimal(n / 10) + digit(n % 10)
    }
}

/// One key as it appears in a path: `[n]` for an index, `.name` for a field.
pub open spec fn render_key(k: Key) -> Seq<char> {
    match k {
        Key::Index(n) => "["@ + decimal(n as nat) + "]"@,
        Key::Field(s) => "."@ + s@,
    }
}

/// A path given leaf first, written root first.
pub open spec fn render_key_path(keys: Seq<Key>) -> Seq<char>
    decreases keys.len(),
{
    if keys.len() == 0 {
        Seq::empty()
    } else {
        render_key_path(keys.drop_first()) + render_key(keys[0])
    }
}

/// One failure as a line: `$`, its path root first, `: ` and its message.
pub open spec fn render_failure(f: FailureView) -> Seq<char> {
    "$"@ + render_key_path(f.keys) + ": "@ + f.message
}

/// The lines of a report after its header, one per failure, each on a new
/// line and indented.
pub open spec fn render_lines(fs: Seq<FailureView>) -> Seq<char>
    decreases fs.len(),
{
    if fs.len() == 0 {
        Seq::empty()
    } else {
        render_lines(fs.drop_last()) + "\n   "@ + render_failure(fs.last())
    }
}

/// A whole report: a header line, then one indented line per failure.
pub open spec fn render_report(fs: Seq<FailureView>) -> Seq<char> {
    "Validation failure(s):"@ + render_lines(fs)
}

/// Writing a path made of an inner part `a` (leaf side) and an outer part `b`
/// gives the outer part's text, then the inner part's.
pub proof fn lemma_render_key_path_add(a: Seq<Key>, b: Seq<Key>)
    ensures
        render_key_path(a + b) == render_key_path(b) + render_key_path(a),
    decreases a.len(),
{
    if a.len() == 0 {
        assert(a + b =~= b);
        assert(render_key_path(b) + Seq::<char>::empty() =~= render_key_path(b));
    } else {
        assert((a + b).drop_first() =~= a.drop_first() + b);
        lemma_render_key_path_add(a.drop_first(), b);
        assert(render_key_path(a + b) =~= render_key_path(b) + render_key_path(a));
    }
}

/// A failure recorded below `outer` renders with the path of `outer` first,
/// then its own path from there, then its message: the rendered path is the
/// chain of fields and indices through which the failure was reached, root
/// first.
pub proof fn lemma_render_nested(f: FailureView, outer: Seq<Key>)
    ensures
        render_failure(nested_in(f, outer)) == "$"@ + render_key_path(outer) + render_key_path(
            f.keys,
        ) + ": "@ + f.message,
{
    lemma_render_key_path_add(f.keys, outer);
    assert(render_failure(nested_in(f, outer)) =~= "$"@ + render_key_path(outer)
        + render_key_path(f.keys) + ": "@ + f.message);
}

fn digit_str(d: usize) -> (r: &'static str)
    requires
        d < 10,
    ensures
        r@ == digit(d as nat),
{
    if d == 0 {
        "0"
    } else if d == 1 {
        "1"
    } else if d == 2 {
        "2"
    } else if d == 3 {
        "3"
    } else if d == 4 {
        "4"
    } else if d == 5 {
        "5"
    } else if d == 6 {
        "6"
    } else if d == 7 {
        "7"
    } else if d == 8 {
        "8"
    } else {
        "9"
    }
}

/// Appends `n` in decimal.
pub(crate) fn push_decimal(out: &mut String, n: usize)
    ensures
        final(out)@ == old(out)@ + decimal(n as nat),
    decreases n,
{
    if n >= 10 {
        push_decimal(out, n / 10);
    }
    out.append(digit_str(n % 10));
    assert(old(out)@ + decimal(n as nat) =~= if n >= 10 {
        old(out)@ + decimal((n / 10) as nat) + digit((n % 10) as nat)
    } else {
        old(out)@ + digit((n % 10) as nat)
    });
}

/// Appends one key as it appears in a path.
pub(crate) fn push_key(out: &mut String, k: Key)
    ensures
        final(out)@ == old(out)@ + render_key(k),
{
    match k {
        Key::Index(n) => {
            out.append("[");
            push_decimal(out, n);
            out.append("]");
            assert(old(out)@ + render_key(k) =~= old(out)@ + "["@ + decimal(n as nat) + "]"@);
        },
        Key::Field(s) => {
            out.append(".");
            out.append(s);
            assert(old(out)@ + render_key(k) =~= old(out)@ + "."@ + s@);
        },
    }
}

} // verus!
