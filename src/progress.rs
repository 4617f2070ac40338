//! Progress of a session against its plan: which planned exercise is due and
//! how much of the plan is done.

use vstd::prelude::*;

use crate::session::CompletedSet;
use crate::workout::WorkoutExerciseDetail;

verus! {

/// Number of sets in `sets` logged in session `session`.
pub open spec fn session_count(sets: Seq<CompletedSet>, session: Seq<char>) -> nat
    decreases sets.len(),
{
    if sets.len() == 0 {
        0
    } else {
        session_count(sets.drop_last(), session) + if sets.last().active_workout_id@ == session {
            1nat
        } else {
            0nat
        }
    }
}

/// Number of sets in `sets` logged in session `session` for `exercise`.
pub open spec fn exercise_count(
    sets: Seq<CompletedSet>,
    session: Seq<char>,
    exercise: Seq<char>,
) -> nat
    decreases sets.len(),
{
    if sets.len() == 0 {
        0
    } else {
        exercise_count(sets.drop_last(), session, exercise) + if sets.last().active_workout_id@
            == session && sets.last().exercise_id@ == exercise {
            1nat
        } else {
            0nat
        }
    }
}

/// Sum of the target set counts of a plan.
pub open spec fn planned_total(plan: Seq<WorkoutExerciseDetail>) -> nat
    decreases plan.len(),
{
    if plan.len() == 0 {
        0
    } else {
        planned_total(plan.drop_last()) + plan.last().target_sets as nat
    }
}

/// Whether the session has logged at least the sets a planned exercise asks
/// for.
pub open spec fn is_satisfied(
    p: WorkoutExerciseDetail,
    sets: Seq<CompletedSet>,
    session: Seq<char>,
) -> bool {
    exercise_count(sets, session, p.exercise_id@) >= p.target_sets
}

/// Whether every planned exercise is satisfied: the session is ready to
/// finish.
pub open spec fn all_satisfied(
    plan: Seq<WorkoutExerciseDetail>,
    sets: Seq<CompletedSet>,
    session: Seq<char>,
) -> bool {
    forall|i: int| 0 <= i < plan.len() ==> #[trigger] is_satisfied(plan[i], sets, session)
}

/// Whether entry `k` of the plan comes before entry `i`: by position, and by
/// place in the sequence where positions are equal.
pub open spec fn comes_first(plan: Seq<WorkoutExerciseDetail>, k: int, i: int) -> bool {
    plan[k].position < plan[i].position || (plan[k].position == plan[i].position && k <= i)
}

/// Whether `k` is the entry due next: the first unsatisfied one in plan order.
pub open spec fn is_due(
    plan: Seq<WorkoutExerciseDetail>,
    sets: Seq<CompletedSet>,
    session: Seq<char>,
    k: int,
) -> bool {
    &&& 0 <= k < plan.len()
    &&& !is_satisfied(plan[k], sets, session)
    &&& forall|i: int|
        0 <= i < plan.len() && !#[trigger] is_satisfied(plan[i], sets, session) ==> comes_first(
            plan,
            k,
            i,
        )
}

/// A completion percentage held exactly as the fraction
/// `numerator / denominator` percent.
#[derive(Debug, Clone, Copy, PartialEq, Eq, Structural)]
pub struct Percent {
    pub numerator: u128,
    pub denominator: u128,
}

/// Numerator of the completion percentage: the percentage is
/// min(100, 100 × completed / planned), and 0 for a plan without target sets.
pub open spec fn percent_numerator(planned: nat, completed: nat) -> nat {
    if planned == 0 {
        0
    } else if completed >= planned {
        100 * planned
    } else {
        100 * completed
    }
}

/// Denominator of the completion percentage: the planned sets, or 1 for a
/// plan without target sets.
pub open spec fn percent_denominator(planned: nat) -> nat {
    if planned == 0 {
        1
    } else {
        planned
    }
}

/// Counts the sets of `sets` logged in session `session`.
pub fn count_session_sets(sets: &Vec<CompletedSet>, session: &String) -> (r: usize)
    ensures
        r == session_count(sets@, session@),
{
    let mut n: usize = 0;
    let mut i: usize = 0;
    while i < sets.len()
        invariant
            i <= sets@.len(),
            n == session_count(sets@.take(i as int), session@),
            n <= i,
        decreases sets@.len() - i,
    {
        assert(sets@.take(i as int + 1).drop_last() =~= sets@.take(i as int));
        if sets[i].active_workout_id == *session {
            n = n + 1;
        }
        i = i + 1;
    }
    assert(sets@.take(i as int) =~= sets@);
    n
}

/// Counts the sets of `sets` logged in session `session` for `exercise`.
pub fn count_exercise_sets(sets: &Vec<CompletedSet>, session: &String, exercise: &String) -> (r:
    usize)
    ensures
        r == exercise_count(sets@, session@, exercise@),
{
    let mut n: usize = 0;
    let mut i: usize = 0;
    while i < sets.len()
        invariant
            i <= sets@.len(),
            n == exercise_count(sets@.take(i as int), session@, exercise@),
            n <= i,
        decreases sets@.len() - i,
    {
        assert(sets@.take(i as int + 1).drop_last() =~= sets@.take(i as int));
        if sets[i].active_workout_id == *session && sets[i].exercise_id == *exercise {
            n = n + 1;
        }
        i = i + 1;
    }
    assert(sets@.take(i as int) =~= sets@);
    n
}

/// The planned exercise that is due in session `session`: the unsatisfied
/// entry with the least position (the earlier one on equal positions), or
/// `None` once every entry has its target sets.
pub fn current_exercise(
    plan: &Vec<WorkoutExerciseDetail>,
    sets: &Vec<CompletedSet>,
    session: &String,
) -> (r: Option<usize>)
    ensures
        r is None <==> all_satisfied(plan@, sets@, session@),
        r matches Some(k) ==> is_due(plan@, sets@, session@, k as int),
{
    let mut best: Option<usize> = None;
    let mut i: usize = 0;
    while i < plan.len()
        invariant
            i <= plan@.len(),
            best is None <==> (forall|j: int|
                0 <= j < i ==> #[trigger] is_satisfied(plan@[j], sets@, session@)),
            best matches Some(k) ==> {
                &&& k < i
                &&& !is_satisfied(plan@[k as int], sets@, session@)
                &&& forall|j: int|
                    0 <= j < i && !#[trigger] is_satisfied(plan@[j], sets@, session@)
                        ==> comes_first(plan@, k as int, j)
            },
        decreases plan@.len() - i,
    {
        let done = count_exercise_sets(sets, session, &plan[i].exercise_id);
        if (done as u64) < (plan[i].target_sets as u64) {
            match best {
                Some(k) => {
                    if plan[i].position < plan[k].position {
                        best = Some(i);
                    }
                },
                None => {
                    best = Some(i);
                },
            }
        }
        proof {
            match best {
                Some(k) => assert(!is_satisfied(plan@[k as int], sets@, session@)),
                None => assert(is_satisfied(plan@[i as int], sets@, session@)),
            }
        }
        i = i + 1;
    }
    best
}

/// Completion percent of session `session` against `plan`, exactly: all
/// logged sets of the session (across exercises, not capped per exercise)
/// times 100 over the plan's total target sets, at most 100, and 0 for a plan
/// without target sets.
pub fn progress_percent(
    plan: &Vec<WorkoutExerciseDetail>,
    sets: &Vec<CompletedSet>,
    session: &String,
) -> (r: Percent)
    ensures
        r.numerator == percent_numerator(planned_total(plan@), session_count(sets@, session@)),
        r.denominator == percent_denominator(planned_total(plan@)),
        r.denominator > 0,
        r.numerator <= 100 * r.denominator,
{
    let mut planned: u128 = 0;
    let mut i: usize = 0;
    while i < plan.len()
        invariant
            i <= plan@.len(),
            planned == planned_total(plan@.take(i as int)),
            planned <= i * 0x1_0000_0000,
        decreases plan@.len() - i,
    {
        assert(plan@.take(i as int + 1).drop_last() =~= plan@.take(i as int));
        planned = planned + plan[i].target_sets as u128;
        i = i + 1;
    }
    assert(plan@.take(i as int) =~= plan@);
    let completed = count_session_sets(sets, session) as u128;
    if planned == 0 {
        Percent { numerator: 0, denominator: 1 }
    } else if completed >= planned {
        Percent { numerator: 100 * planned, denominator: planned }
    } else {
        Percent { numerator: 100 * completed, denominator: planned }
    }
}

} // verus!
