//! Pairing two lists position by position, and gathering results that may fail.

use vstd::prelude::*;

verus! {

/// The smaller of two lengths.
pub open spec fn shorter(a: nat, b: nat) -> nat {
    if a <= b {
        a
    } else {
        b
    }
}

/// The pairs of `a` and `b` at equal positions, as far as the shorter one goes.
pub open spec fn zipped<A, B>(a: Seq<A>, b: Seq<B>) -> Seq<(A, B)> {
    Seq::new(shorter(a.len(), b.len()), |i: int| (a[i], b[i]))
}

/// The values of `s`, if none failed; else the first failure.
pub open spec fn all_or_first_error<T, E>(s: Seq<Result<T, E>>) -> Result<Seq<T>, E>
    decreases s.len(),
{
    if s.len() == 0 {
        Ok(Seq::empty())
    } else {
        match all_or_first_error(s.drop_last()) {
            Err(e) => Err(e),
            Ok(front) => match s.last() {
                Ok(x) => Ok(front.push(x)),
                Err(e) => Err(e),
            },
        }
    }
}

/// The values of the entries of `s` that hold one, in order.
pub open spec fn present<T>(s: Seq<Option<T>>) -> Seq<T>
    decreases s.len(),
{
    if s.len() == 0 {
        Seq::empty()
    } else {
        match s.last() {
            Some(x) => present(s.drop_last()).push(x),
            None => present(s.drop_last()),
        }
    }
}

/// Gathering succeeds exactly when no entry failed, and then keeps every value
/// in its place.
pub proof fn lemma_all_ok<T, E>(s: Seq<Result<T, E>>)
    ensures
        all_or_first_error(s) is Ok <==> forall|i: int| 0 <= i < s.len() ==> #[trigger] s[i] is Ok,
        all_or_first_error(s) matches Ok(values) ==> {
            &&& values.len() == s.len()
            &&& forall|i: int| 0 <= i < s.len() ==> #[trigger] s[i] == Ok::<T, E>(values[i])
        },
    decreases s.len(),
{
    if s.len() > 0 {
        let front = s.drop_last();
        lemma_all_ok(front);
        if all_or_first_error(front) is Ok {
            assert forall|i: int| 0 <= i < front.len() implies #[trigger] s[i] is Ok by {
                assert(front[i] is Ok);
            }
            if let Ok(values) = all_or_first_error(s) {
                assert forall|i: int| 0 <= i < s.len() implies #[trigger] s[i] == Ok::<T, E>(
                    values[i],
                ) by {
                    if i < front.len() {
                        assert(front[i] == s[i]);
                    }
                }
            }
        } else {
            let i = choose|i: int| 0 <= i < front.len() && !(#[trigger] front[i] is Ok);
            assert(!(s[i] is Ok));
        }
    }
}

/// Gathering fails with the failure of the first entry that failed.
pub proof fn lemma_first_error<T, E>(s: Seq<Result<T, E>>, i: int)
    requires
        0 <= i < s.len(),
        s[i] is Err,
        forall|j: int| 0 <= j < i ==> #[trigger] s[j] is Ok,
    ensures
        all_or_first_error(s) == Err::<Seq<T>, E>(s[i]->Err_0),
    decreases s.len(),
{
    let front = s.drop_last();
    assert forall|j: int| 0 <= j < i implies #[trigger] front[j] is Ok by {
        assert(s[j] is Ok);
    }
    if i == s.len() - 1 {
        lemma_all_ok(front);
    } else {
        lemma_first_error(front, i);
    }
}

/// Once a prefix fails, so does the whole, with the same error.
pub proof fn lemma_first_error_of_prefix<T, E>(s: Seq<Result<T, E>>, i: int)
    requires
        0 <= i < s.len(),
        all_or_first_error(s.take(i + 1)) is Err,
    ensures
        all_or_first_error(s) == all_or_first_error(s.take(i + 1)),
    decreases s.len() - i,
{
    if i + 1 < s.len() {
        assert(s.take(i + 2).drop_last() =~= s.take(i + 1));
        lemma_first_error_of_prefix(s, i + 1);
    } else {
        assert(s.take(i + 1) =~= s);
    }
}

/// Gathering one entry more: a value is added at the end, a failure is the
/// outcome.
pub proof fn lemma_all_or_first_error_step<T, E>(s: Seq<Result<T, E>>, i: int)
    requires
        0 <= i < s.len(),
        all_or_first_error(s.take(i)) is Ok,
    ensures
        s[i] matches Ok(x) ==> all_or_first_error(s.take(i + 1)) == Ok::<Seq<T>, E>(
            (all_or_first_error(s.take(i))->Ok_0).push(x),
        ),
        s[i] matches Err(e) ==> all_or_first_error(s) == Err::<Seq<T>, E>(e),
{
    assert(s.take(i + 1).drop_last() =~= s.take(i));
    if s[i] is Err {
        lemma_first_error_of_prefix(s, i);
    }
}

/// Behind a failing entry every longer prefix fails.
pub proof fn lemma_later_prefixes_fail<T, E>(s: Seq<Result<T, E>>, i: int)
    requires
        0 <= i < s.len(),
        all_or_first_error(s.take(i + 1)) is Err,
    ensures
        forall|j: int| i < j <= s.len() ==> #[trigger] all_or_first_error(s.take(j)) is Err,
{
    assert forall|j: int| i < j <= s.len() implies #[trigger] all_or_first_error(s.take(j))
        is Err by {
        assert(s.take(j).take(i + 1) =~= s.take(i + 1));
        lemma_first_error_of_prefix(s.take(j), i);
    }
}

/// The present values of a list with one entry more.
pub proof fn lemma_present_push<T>(s: Seq<Option<T>>, x: Option<T>)
    ensures
        x matches Some(value) ==> present(s.push(x)) == present(s).push(value),
        x is None ==> present(s.push(x)) == present(s),
{
    assert(s.push(x).drop_last() =~= s);
}

/// `v` back to front.
pub fn reversed<T>(v: Vec<T>) -> (r: Vec<T>)
    ensures
        r@ == v@.reverse(),
{
    let ghost whole = v@;
    let mut rest = v;
    let mut out: Vec<T> = Vec::new();
    while rest.len() > 0
        invariant
            rest@.len() <= whole.len(),
            rest@ == whole.take(rest@.len() as int),
            out@ == whole.reverse().take(whole.len() - rest@.len()),
        decreases rest@.len(),
    {
        let x = rest.pop().unwrap();
        out.push(x);
    }
    out
}

/// Pairs `a` and `b` position by position; what the longer one has beyond the
/// shorter is dropped.
pub fn zip<A, B>(a: Vec<A>, b: Vec<B>) -> (r: Vec<(A, B)>)
    ensures
        r@ == zipped(a@, b@),
{
    let mut rest = reversed(b);
    let mut out: Vec<(A, B)> = Vec::new();
    for x in it: a
        invariant
            it.seq() == a@,
            out@ == zipped(a@.take(it.index() as int), b@),
            rest@ == b@.reverse().take(b@.len() - shorter(it.index() as nat, b@.len())),
    {
        match rest.pop() {
            Some(y) => {
                out.push((x, y));
            },
            None => {},
        }
    }
    out
}

} // verus!
