//! Taking values from both ends of a sequence, one at a time, as the owning
//! iterators of the vectors do with `next` and `next_back`.
use vstd::prelude::*;

verus! {

/// What is left of `s` after taking values from it one step at a time:
/// from the front where the step is `true`, from the back where it is
/// `false`.
pub open spec fn rest_after_steps<T>(s: Seq<T>, steps: Seq<bool>) -> Seq<T>
    decreases steps.len(),
{
    if steps.len() == 0 {
        s
    } else {
        let before = rest_after_steps(s, steps.drop_last());
        if steps.last() {
            before.drop_first()
        } else {
            before.drop_last()
        }
    }
}

/// The number of steps that take from the front.
pub open spec fn count_fronts(steps: Seq<bool>) -> nat
    decreases steps.len(),
{
    if steps.len() == 0 {
        0
    } else {
        count_fronts(steps.drop_last()) + if steps.last() {
            1nat
        } else {
            0nat
        }
    }
}

/// However the steps mix the two ends, as long as there are values to take
/// what is left is the stretch between the values taken from the front and
/// those taken from the back: no value is taken twice, and one value fewer
/// is left after each step.
pub proof fn lemma_rest_after_steps<T>(s: Seq<T>, steps: Seq<bool>)
    requires
        steps.len() <= s.len(),
    ensures
        count_fronts(steps) <= steps.len(),
        rest_after_steps(s, steps) == s.subrange(
            count_fronts(steps) as int,
            s.len() - (steps.len() - count_fronts(steps)),
        ),
        rest_after_steps(s, steps).len() == s.len() - steps.len(),
    decreases steps.len(),
{
    if steps.len() > 0 {
        let prev = steps.drop_last();
        lemma_rest_after_steps(s, prev);
        let a = count_fronts(prev) as int;
        let b = s.len() - (prev.len() - count_fronts(prev));
        let before = rest_after_steps(s, prev);
        if steps.last() {
            assert(before.drop_first() =~= s.subrange(a + 1, b));
        } else {
            assert(before.drop_last() =~= s.subrange(a, b - 1));
        }
    }
}

} // verus!
