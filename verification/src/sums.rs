//! Summing a vector of integers by splitting it into two halves, as the
//! concurrent summation exercises do.  The arithmetic is verified here;
//! running the two halves on separate threads is left to the application
//! shell, which calls `vec_sum` once per half and adds the results.

use vstd::prelude::*;

verus! {

/// Mathematical sum of a sequence of machine integers.
pub open spec fn sum_of(s: Seq<i32>) -> int
    decreases s.len(),
{
    if s.len() == 0 {
        0
    } else {
        sum_of(s.drop_last()) + s.last()
    }
}

/// Every contiguous run of `s` sums to a value representable in `i32`.
/// This is the machine limit under which the additions below cannot
/// overflow, whatever order the halves are taken in.
pub open spec fn sums_in_bounds(s: Seq<i32>) -> bool {
    forall|i: int, j: int|
        0 <= i <= j <= s.len() ==> i32::MIN <= #[trigger] sum_of(s.subrange(i, j)) <= i32::MAX
}

proof fn lemma_sum_of_snoc(s: Seq<i32>, i: int)
    requires
        0 <= i < s.len(),
    ensures
        sum_of(s.subrange(0, i + 1)) == sum_of(s.subrange(0, i)) + s[i],
{
    let t = s.subrange(0, i + 1);
    assert(t.drop_last() =~= s.subrange(0, i));
    assert(t.last() == s[i]);
}

/// Summation distributes over concatenation: summing two halves
/// separately and adding the results gives the sum of the whole.
pub proof fn lemma_sum_of_concat(a: Seq<i32>, b: Seq<i32>)
    ensures
        sum_of(a + b) == sum_of(a) + sum_of(b),
    decreases b.len(),
{
    if b.len() == 0 {
        assert(a + b =~= a);
    } else {
        assert((a + b).drop_last() =~= a + b.drop_last());
        assert((a + b).last() == b.last());
        lemma_sum_of_concat(a, b.drop_last());
    }
}

/// Bounded sums restrict to any contiguous part.
pub proof fn lemma_sums_in_bounds_restrict(s: Seq<i32>, from: int, to: int)
    requires
        sums_in_bounds(s),
        0 <= from <= to <= s.len(),
    ensures
        sums_in_bounds(s.subrange(from, to)),
{
    let t = s.subrange(from, to);
    assert forall|i: int, j: int|
        0 <= i <= j <= t.len() implies i32::MIN <= #[trigger] sum_of(t.subrange(i, j))
        <= i32::MAX by {
        assert(t.subrange(i, j) =~= s.subrange(from + i, from + j));
    }
}

/// Sequential sum of a vector, proved against the mathematical sum.
pub fn vec_sum(v: &Vec<i32>) -> (r: i32)
    requires
        sums_in_bounds(v@),
    ensures
        r == sum_of(v@),
{
    let mut acc: i32 = 0;
    let mut i: usize = 0;
    proof {
        assert(v@.subrange(0, 0) =~= Seq::<i32>::empty());
    }
    while i < v.len()
        invariant
            0 <= i <= v@.len(),
            sums_in_bounds(v@),
            acc == sum_of(v@.subrange(0, i as int)),
        decreases v@.len() - i,
    {
        proof {
            lemma_sum_of_snoc(v@, i as int);
        }
        acc = acc + v[i];
        i = i + 1;
    }
    proof {
        assert(v@.subrange(0, v@.len() as int) =~= v@);
    }
    acc
}

/// Sum of the whole vector, computed over its two halves, as the
/// splitting exercises observe it: zero for the empty vector, and the sum
/// of the left and right halves otherwise.
pub fn sum(v: Vec<i32>) -> (r: i32)
    requires
        sums_in_bounds(v@),
    ensures
        r == sum_of(v@),
{
    if v.len() == 0 {
        return 0;
    }
    let mid = v.len() / 2;
    let mut left = v;
    let right = left.split_off(mid);
    proof {
        lemma_sums_in_bounds_restrict(v@, 0, mid as int);
        lemma_sums_in_bounds_restrict(v@, mid as int, v@.len() as int);
        lemma_sum_of_concat(left@, right@);
        assert(left@ + right@ =~= v@);
        assert(v@.subrange(0, v@.len() as int) =~= v@);
    }
    let left_sum = vec_sum(&left);
    let right_sum = vec_sum(&right);
    left_sum + right_sum
}

} // verus!
