//! Flow-behaviour classification and the contract the flow-assembly
//! stage must satisfy for the element kinds defined here.
//!
//! When a linear sequence of content values is reduced to a flowing
//! text run, adjacent *weak* elements collapse so that only the one
//! with the highest priority survives, and *destructive* elements are
//! hard, order-significant break points of which a single one in final
//! position is absorbed.

use vstd::prelude::*;

verus! {

/// How an element behaves during flow assembly. The tag set is closed;
/// invisible, ignorable and supportive roles are anticipated extension
/// points of the same set but are not exercised by the element kinds
/// defined here.
#[derive(Debug, Clone, Copy, PartialEq, Eq, Structural)]
pub enum Behaviour {
    /// Collapses against structurally adjacent weak elements; only the
    /// one with the highest priority survives.
    Weak(usize),
    /// A hard, order-significant break point.
    Destructive,
}

/// How many destructive elements stand in direct succession at the
/// very end of a run.
pub open spec fn trailing_destructive(run: Seq<Behaviour>) -> int
    decreases run.len(),
{
    if run.len() == 0 {
        0
    } else if run.last() is Destructive {
        trailing_destructive(run.drop_last()) + 1
    } else {
        0
    }
}

/// How many trailing empty lines a run produces: the first trailing
/// destructive element is absorbed, each further one in direct
/// succession yields one visible empty line.
pub open spec fn spec_trailing_empty_lines(run: Seq<Behaviour>) -> int {
    if trailing_destructive(run) == 0 {
        0
    } else {
        trailing_destructive(run) - 1
    }
}

/// Counts the trailing empty lines the assembly stage must produce for
/// a flowing run: a single trailing break is absorbed; the second and
/// every subsequent one each produce a visible empty line. The
/// asymmetry is a declared property of final-position detection, not a
/// uniform discard rule.
pub fn trailing_empty_lines(run: &Vec<Behaviour>) -> (n: usize)
    ensures
        n == spec_trailing_empty_lines(run@),
{
    let mut i: usize = run.len();
    proof {
        assert(run@.subrange(0, run@.len() as int) =~= run@);
    }
    while i > 0
        invariant
            i <= run@.len(),
            trailing_destructive(run@) == trailing_destructive(run@.subrange(0, i as int)) + (
            run@.len() - i),
        decreases i,
    {
        proof {
            assert(run@.subrange(0, i as int).drop_last() =~= run@.subrange(0, i - 1));
        }
        match run[i - 1] {
            Behaviour::Destructive => {
                i = i - 1;
            },
            _ => {
                let t: usize = run.len() - i;
                if t == 0 {
                    return 0;
                } else {
                    return t - 1;
                }
            },
        }
    }
    let t: usize = run.len();
    if t == 0 {
        0
    } else {
        t - 1
    }
}

/// Picks the survivor of a structurally adjacent run of weak elements,
/// given their priorities in order: the highest priority survives, and
/// among several equal highest priorities the last one wins — priority
/// comparison is "strictly greater replaces", with the equal-priority
/// tie-break an explicit policy choice.
pub fn surviving_weak(prios: &Vec<usize>) -> (r: Option<usize>)
    ensures
        match r {
            Some(i) => i < prios@.len() && (forall|j: int|
                0 <= j < prios@.len() ==> prios@[j] <= prios@[i as int]) && (forall|j: int|
                i < j < prios@.len() ==> prios@[j] < prios@[i as int]),
            None => prios@.len() == 0,
        },
{
    if prios.len() == 0 {
        return None;
    }
    let mut best: usize = 0;
    let mut i: usize = 1;
    while i < prios.len()
        invariant
            1 <= i <= prios@.len(),
            best < i,
            forall|j: int| 0 <= j < i ==> prios@[j] <= prios@[best as int],
            forall|j: int| best < j < i ==> prios@[j] < prios@[best as int],
        decreases prios@.len() - i,
    {
        if prios[i] >= prios[best] {
            best = i;
        }
        i = i + 1;
    }
    Some(best)
}

} // verus!
