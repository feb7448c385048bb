//! Results of positional parsers, and a parser repeated a number of times.

use vstd::prelude::*;
use crate::error::ParseError;

verus! {

/// A parse result with its position as an integer and its value by its view.
pub open spec fn at_view<T: View>(r: Result<(usize, T), ParseError>) -> Result<(int, T::V), ParseError> {
    match r {
        Ok((p, v)) => Ok((p as int, v@)),
        Err(e) => Err(e),
    }
}

/// Puts `pre` in front of the values of a successful result; an error
/// stays as it is.
pub open spec fn prepend<T>(pre: Seq<T>, r: Result<(int, Seq<T>), ParseError>) -> Result<(int, Seq<T>), ParseError> {
    match r {
        Ok((q, rest)) => Ok((q, pre + rest)),
        Err(e) => Err(e),
    }
}

/// The parser `step` applied `n` times, each time where the previous one
/// stopped, from `p`: the first error, or the position after the last
/// parse and the values in order.
pub open spec fn spec_count<T>(step: spec_fn(int) -> Result<(int, T), ParseError>, p: int, n: nat) -> Result<(int, Seq<T>), ParseError>
    decreases n,
{
    if n == 0 {
        Ok((p, Seq::empty()))
    } else {
        match step(p) {
            Err(e) => Err(e),
            Ok((next, v)) => prepend(seq![v], spec_count(step, next, (n - 1) as nat)),
        }
    }
}

/// Prepending twice is prepending the concatenation.
pub proof fn lemma_prepend_prepend<T>(a: Seq<T>, b: Seq<T>, r: Result<(int, Seq<T>), ParseError>)
    ensures
        prepend(a, prepend(b, r)) == prepend(a + b, r),
{
    if let Ok((q, rest)) = r {
        assert(a + (b + rest) == (a + b) + rest);
    }
}

/// One more step of a count, taken at `q` with `m` steps left, extends the
/// prefix by the step's value.
pub proof fn lemma_count_step<T>(step: spec_fn(int) -> Result<(int, T), ParseError>, pre: Seq<T>, q: int, m: nat, next: int, v: T)
    requires
        m > 0,
        step(q) == Ok::<(int, T), ParseError>((next, v)),
    ensures
        prepend(pre, spec_count(step, q, m)) == prepend(pre.push(v), spec_count(step, next, (m - 1) as nat)),
{
    lemma_prepend_prepend(pre, seq![v], spec_count(step, next, (m - 1) as nat));
    assert(pre + seq![v] == pre.push(v));
}

/// A count that stops at `q` with no steps left yields the prefix.
pub proof fn lemma_count_done<T>(step: spec_fn(int) -> Result<(int, T), ParseError>, pre: Seq<T>, q: int)
    ensures
        prepend(pre, spec_count(step, q, 0)) == Ok::<(int, Seq<T>), ParseError>((q, pre)),
{
    assert(pre + Seq::<T>::empty() == pre);
}

/// A step that never moves and always gives the same value, counted `n`
/// times, gives `n` copies of that value and does not move.
pub proof fn lemma_count_in_place<T>(step: spec_fn(int) -> Result<(int, T), ParseError>, p: int, n: nat, v: T)
    requires
        step(p) == Ok::<(int, T), ParseError>((p, v)),
    ensures
        spec_count(step, p, n) == Ok::<(int, Seq<T>), ParseError>((p, Seq::new(n, |i: int| v))),
    decreases n,
{
    if n > 0 {
        lemma_count_in_place(step, p, (n - 1) as nat, v);
        assert(seq![v] + Seq::new((n - 1) as nat, |i: int| v) =~= Seq::new(n, |i: int| v));
    } else {
        assert(Seq::<T>::empty() =~= Seq::new(0, |i: int| v));
    }
}

/// A successful count of `n` steps yields `n` values.
pub proof fn lemma_count_len<T>(step: spec_fn(int) -> Result<(int, T), ParseError>, p: int, n: nat)
    ensures
        spec_count(step, p, n) matches Ok((_, v)) ==> v.len() == n,
    decreases n,
{
    if n > 0 {
        if let Ok((next, _)) = step(p) {
            lemma_count_len(step, next, (n - 1) as nat);
        }
    }
}

/// When every successful step moves exactly `k` bytes, a successful count
/// of `n` steps from `p` ends `k * n` bytes on, and its `i`-th value is what
/// the step reads at `p + k * i`.
pub proof fn lemma_count_stride<T>(step: spec_fn(int) -> Result<(int, T), ParseError>, p: int, n: nat, k: int)
    requires
        forall|x: int| (#[trigger] step(x)) is Ok ==> step(x)->Ok_0.0 == x + k,
    ensures
        spec_count(step, p, n) matches Ok((q, v)) ==> {
            &&& q == p + k * n
            &&& v.len() == n
            &&& forall|i: int| 0 <= i < n ==> #[trigger] step(p + k * i) == Ok::<(int, T), ParseError>((p + k * i + k, v[i]))
        },
    decreases n,
{
    if n > 0 {
        lemma_count_stride(step, p + k, (n - 1) as nat, k);
        if let Ok((q, v)) = spec_count(step, p, n) {
            let (next, v0) = step(p)->Ok_0;
            let rest = spec_count(step, p + k, (n - 1) as nat)->Ok_0.1;
            assert(v == seq![v0] + rest);
            assert(p + k + k * ((n - 1) as nat) == p + k * n) by (nonlinear_arith) requires n > 0;
            assert forall|i: int| 0 <= i < n implies #[trigger] step(p + k * i) == Ok::<(int, T), ParseError>((p + k * i + k, v[i])) by {
                if i > 0 {
                    assert(p + k + k * (i - 1) == p + k * i) by (nonlinear_arith);
                    assert(v[i] == rest[i - 1]);
                    assert(step(p + k + k * (i - 1)) == Ok::<(int, T), ParseError>((p + k + k * (i - 1) + k, rest[i - 1])));
                } else {
                    assert(p + k * i == p) by (nonlinear_arith) requires i == 0;
                }
            }
        }
    }
}

} // verus!
