//! Keeping the even numbers of a vector, in place.
use vstd::prelude::*;

verus! {

/// The even elements of `s`, in their order in `s`.
pub open spec fn evens(s: Seq<i32>) -> Seq<i32>
    decreases s.len(),
{
    if s.len() == 0 {
        Seq::empty()
    } else {
        let rest = evens(s.drop_last());
        if s.last() % 2 == 0 {
            rest.push(s.last())
        } else {
            rest
        }
    }
}

/// The evens of a sequence are no more than the sequence.
proof fn lemma_evens_len(s: Seq<i32>)
    ensures
        evens(s).len() <= s.len(),
    decreases s.len(),
{
    if s.len() > 0 {
        lemma_evens_len(s.drop_last());
    }
}

/// Whether `i` is even.
pub fn is_even(i: i32) -> (r: bool)
    ensures
        r == (i % 2 == 0),
{
    i % 2 == 0
}

/// Keeps the even elements of `nums`, in their order, and drops the rest.
pub fn retain_even1(nums: &mut Vec<i32>)
    ensures
        final(nums)@ == evens(old(nums)@),
{
    let ghost orig = nums@;
    let mut i: usize = 0;
    let mut j: usize = 0;
    while j < nums.len()
        invariant
            nums@.len() == orig.len(),
            j <= orig.len(),
            i as int == evens(orig.subrange(0, j as int)).len(),
            nums@.subrange(0, i as int) == evens(orig.subrange(0, j as int)),
            i <= j,
            forall|k: int| j <= k < orig.len() ==> #[trigger] nums@[k] == orig[k],
        decreases orig.len() - j,
    {
        proof {
            let s = orig.subrange(0, j as int + 1);
            assert(s.drop_last() =~= orig.subrange(0, j as int));
            lemma_evens_len(orig.subrange(0, j as int));
        }
        if is_even(nums[j]) {
            let x = nums[j];
            nums.set(i, x);
            proof {
                assert(nums@.subrange(0, i as int + 1) =~= nums@.subrange(0, i as int).push(x));
            }
            i += 1;
        }
        j += 1;
    }
    proof {
        assert(orig.subrange(0, orig.len() as int) =~= orig);
    }
    nums.truncate(i);
    proof {
        assert(nums@ =~= evens(orig));
    }
}

} // verus!
