//! Replacing negative elements by their absolute values, copying only when a
//! negative element is found.

use vstd::prelude::*;

use crate::lazy_view::LazyView;

verus! {

/// The absolute value of `x`.
pub open spec fn abs(x: int) -> int {
    if x < 0 {
        -x
    } else {
        x
    }
}

/// Whether one of the first `k` elements of `s` is negative.
pub open spec fn negative_before(s: Seq<i32>, k: int) -> bool {
    exists|j: int| 0 <= j < k && s[j] < 0
}

/// Whether some element of `s` is negative.
pub open spec fn has_negative(s: Seq<i32>) -> bool {
    negative_before(s, s.len() as int)
}

/// Whether every element of `s` has an absolute value that fits in `i32`.
pub open spec fn negatable(s: Seq<i32>) -> bool {
    forall|j: int| 0 <= j < s.len() ==> s[j] != i32::MIN
}

/// The sum of the absolute values of the elements of `s`.
pub open spec fn sum_abs(s: Seq<i32>) -> int
    decreases s.len(),
{
    if s.len() == 0 {
        0
    } else {
        sum_abs(s.drop_last()) + abs(s.last() as int)
    }
}

/// Replaces each negative element of the view by its absolute value. The view
/// copies borrowed data at the first negative element and at no other point;
/// a view with no negative element is left exactly as it was.
pub fn abs_all(input: &mut LazyView)
    requires
        old(input).wf(),
        negatable(old(input)@),
    ensures
        final(input).wf(),
        final(input)@.len() == old(input)@.len(),
        forall|i: int|
            0 <= i < old(input)@.len() ==> final(input)@[i] as int == abs(old(input)@[i] as int),
        final(input).owns_data() == (old(input).owns_data() || has_negative(old(input)@)),
        final(input).copy_count() == old(input).copy_count() + if !old(input).owns_data()
            && has_negative(old(input)@) {
            1int
        } else {
            0int
        },
        !has_negative(old(input)@) ==> *final(input) == *old(input),
{
    let n = input.len();
    let mut i: usize = 0;
    while i < n
        invariant
            n == old(input)@.len(),
            i <= n,
            input.wf(),
            input@.len() == n,
            forall|j: int| 0 <= j < i ==> input@[j] as int == abs(old(input)@[j] as int),
            forall|j: int| i <= j < n ==> input@[j] == old(input)@[j],
            negatable(old(input)@),
            input.owns_data() == (old(input).owns_data() || negative_before(old(input)@, i as int)),
            input.copy_count() == old(input).copy_count() + if !old(input).owns_data()
                && negative_before(old(input)@, i as int) {
                1int
            } else {
                0int
            },
            !negative_before(old(input)@, i as int) ==> *input == *old(input),
        decreases n - i,
    {
        let v = input.get(i);
        if v < 0 {
            let data = input.to_mutable();
            data.set(i, -v);
        }
        i = i + 1;
    }

}

/// A prefix of `s` sums to no more than `s` does.
pub proof fn lemma_sum_abs_prefix(s: Seq<i32>, i: int)
    requires
        0 <= i <= s.len(),
    ensures
        0 <= sum_abs(s.subrange(0, i)) <= sum_abs(s),
    decreases s.len(),
{
    if s.len() > 0 {
        if i == s.len() {
            assert(s.subrange(0, i) =~= s);
            lemma_sum_abs_prefix(s.drop_last(), i - 1);
            assert(s.drop_last().subrange(0, i - 1) =~= s.drop_last());
        } else {
            lemma_sum_abs_prefix(s.drop_last(), i);
            assert(s.drop_last().subrange(0, i) =~= s.subrange(0, i));
        }
    }
}

/// No element's absolute value exceeds the sum of all of them.
pub proof fn lemma_abs_le_sum_abs(s: Seq<i32>, j: int)
    requires
        0 <= j < s.len(),
    ensures
        abs(s[j] as int) <= sum_abs(s),
    decreases s.len(),
{
    lemma_sum_abs_prefix(s.drop_last(), s.len() - 1);
    assert(s.drop_last().subrange(0, s.len() - 1) =~= s.drop_last());
    if j < s.len() - 1 {
        lemma_abs_le_sum_abs(s.drop_last(), j);
    }
}

/// The sum of the absolute values of `ns`. The input is read through a
/// borrowed view, so it is copied only if it holds a negative element, and
/// never changed.
pub fn abs_sum(ns: &[i32]) -> (r: i32)
    requires
        sum_abs(ns@) <= i32::MAX,
    ensures
        r == sum_abs(ns@),
{
    assert(negatable(ns@)) by {
        assert forall|j: int| 0 <= j < ns@.len() implies ns@[j] != i32::MIN by {
            lemma_abs_le_sum_abs(ns@, j);
        }
    }
    let mut lst = LazyView::from_borrowed(ns);
    abs_all(&mut lst);
    let n = lst.len();
    let mut acc: i32 = 0;
    let mut i: usize = 0;
    while i < n
        invariant
            n == ns@.len(),
            i <= n,
            lst@.len() == n,
            forall|j: int| 0 <= j < n ==> lst@[j] as int == abs(ns@[j] as int),
            sum_abs(ns@) <= i32::MAX,
            acc == sum_abs(ns@.subrange(0, i as int)),
        decreases n - i,
    {
        let v = lst.get(i);
        proof {
            assert(ns@.subrange(0, i + 1).drop_last() =~= ns@.subrange(0, i as int));
            lemma_sum_abs_prefix(ns@, i + 1);
        }
        acc = acc + v;
        i = i + 1;
    }
    assert(ns@.subrange(0, n as int) =~= ns@);
    acc
}

} // verus!
