//! Properties that hold across operations of the library.

use vstd::prelude::*;

use crate::lifecycle::{
    lemma_numbered_prefix, lemma_session_count_bound, lemma_volume_bound, numbered_in_order,
    summary_of, volume_sum, TrainingLog,
};
use crate::progress::{
    exercise_count, percent_denominator, percent_numerator, planned_total, session_count,
};
use crate::session::{ActiveWorkout, CompletedSet};
use crate::workout::WorkoutExerciseDetail;

verus! {

/// The numbers of the sets of `session` for `exercise`, in logging order.
pub open spec fn set_numbers(sets: Seq<CompletedSet>, session: Seq<char>, exercise: Seq<char>) -> Seq<
    nat,
>
    decreases sets.len(),
{
    if sets.len() == 0 {
        Seq::empty()
    } else {
        let rest = set_numbers(sets.drop_last(), session, exercise);
        let s = sets.last();
        if s.active_workout_id@ == session && s.exercise_id@ == exercise {
            rest.push(s.set_number as nat)
        } else {
            rest
        }
    }
}

/// Whether no two entries of a plan name the same exercise.
pub open spec fn distinct_exercises(plan: Seq<WorkoutExerciseDetail>) -> bool {
    forall|i: int, j: int|
        0 <= i < j < plan.len() ==> #[trigger] plan[i].exercise_id@ != #[trigger] plan[j].exercise_id@
}

/// Whether some entry of the plan names `exercise`.
pub open spec fn plans_exercise(plan: Seq<WorkoutExerciseDetail>, exercise: Seq<char>) -> bool {
    exists|i: int| 0 <= i < plan.len() && #[trigger] plan[i].exercise_id@ == exercise
}

/// Whether the sets of `session` meet every target of the plan exactly and
/// are all for exercises of the plan.
pub open spec fn meets_targets_exactly(
    plan: Seq<WorkoutExerciseDetail>,
    sets: Seq<CompletedSet>,
    session: Seq<char>,
) -> bool {
    &&& forall|i: int|
        0 <= i < plan.len() ==> exercise_count(sets, session, #[trigger] plan[i].exercise_id@)
            == plan[i].target_sets
    &&& forall|j: int|
        0 <= j < sets.len() && #[trigger] sets[j].active_workout_id@ == session ==> plans_exercise(
            plan,
            sets[j].exercise_id@,
        )
}

proof fn lemma_session_count_grows(sets: Seq<CompletedSet>, more: Seq<CompletedSet>, session: Seq<char>)
    ensures
        session_count(sets, session) <= session_count(sets + more, session),
    decreases more.len(),
{
    if more.len() > 0 {
        lemma_session_count_grows(sets, more.drop_last(), session);
        assert((sets + more).drop_last() =~= sets + more.drop_last());
    }
}

/// Recording more sets never lowers the completion percentage of a session
/// against a fixed plan (the denominator stays, the numerator does not
/// shrink), and the percentage never exceeds 100.
pub proof fn lemma_progress_monotone(
    plan: Seq<WorkoutExerciseDetail>,
    sets: Seq<CompletedSet>,
    more: Seq<CompletedSet>,
    session: Seq<char>,
)
    ensures
        percent_numerator(planned_total(plan), session_count(sets, session)) <= percent_numerator(
            planned_total(plan),
            session_count(sets + more, session),
        ),
        percent_numerator(planned_total(plan), session_count(sets + more, session)) <= 100
            * percent_denominator(planned_total(plan)),
{
    lemma_session_count_grows(sets, more, session);
}

/// In a well-formed log the numbers of the sets of any session and exercise
/// are exactly 1, 2, 3, ..., one per set: no gaps and no repeats.
pub proof fn lemma_set_numbers_gapless(log: TrainingLog, session: Seq<char>, exercise: Seq<char>)
    requires
        log.wf(),
    ensures
        set_numbers(log.sets@, session, exercise) =~= Seq::new(
            exercise_count(log.sets@, session, exercise),
            |k: int| (k + 1) as nat,
        ),
{
    lemma_numbers_count_up(log.sets@, session, exercise);
}

proof fn lemma_numbers_count_up(sets: Seq<CompletedSet>, session: Seq<char>, exercise: Seq<char>)
    requires
        numbered_in_order(sets),
    ensures
        set_numbers(sets, session, exercise) =~= Seq::new(
            exercise_count(sets, session, exercise),
            |k: int| (k + 1) as nat,
        ),
    decreases sets.len(),
{
    if sets.len() > 0 {
        let init = sets.drop_last();
        lemma_numbered_prefix(sets);
        lemma_numbers_count_up(init, session, exercise);
        let last_index = sets.len() - 1;
        assert(sets.take(last_index) =~= init);
        assert(sets[last_index] == sets.last());
    }
}

/// Sum over the plan's entries of the session's set count for each entry's
/// exercise.
spec fn plan_count(plan: Seq<WorkoutExerciseDetail>, sets: Seq<CompletedSet>, session: Seq<char>) -> nat
    decreases plan.len(),
{
    if plan.len() == 0 {
        0
    } else {
        plan_count(plan.drop_last(), sets, session) + exercise_count(
            sets,
            session,
            plan.last().exercise_id@,
        )
    }
}

/// Number of entries of the plan that name `exercise`.
spec fn occurrences(plan: Seq<WorkoutExerciseDetail>, exercise: Seq<char>) -> nat
    decreases plan.len(),
{
    if plan.len() == 0 {
        0
    } else {
        occurrences(plan.drop_last(), exercise) + if plan.last().exercise_id@ == exercise {
            1nat
        } else {
            0nat
        }
    }
}

proof fn lemma_plan_count_push(
    plan: Seq<WorkoutExerciseDetail>,
    sets: Seq<CompletedSet>,
    x: CompletedSet,
    session: Seq<char>,
)
    ensures
        plan_count(plan, sets.push(x), session) == plan_count(plan, sets, session) + if x.active_workout_id@
            == session {
            occurrences(plan, x.exercise_id@)
        } else {
            0
        },
    decreases plan.len(),
{
    assert(sets.push(x).drop_last() =~= sets);
    if plan.len() > 0 {
        lemma_plan_count_push(plan.drop_last(), sets, x, session);
    }
}

proof fn lemma_occurrences_absent(plan: Seq<WorkoutExerciseDetail>, exercise: Seq<char>)
    requires
        !plans_exercise(plan, exercise),
    ensures
        occurrences(plan, exercise) == 0,
    decreases plan.len(),
{
    if plan.len() > 0 {
        let init = plan.drop_last();
        assert(plan.last() == plan[plan.len() - 1]);
        assert forall|i: int| 0 <= i < init.len() implies #[trigger] init[i].exercise_id@ != exercise by {
            assert(init[i] == plan[i]);
        }
        lemma_occurrences_absent(init, exercise);
    }
}

proof fn lemma_occurrences_once(plan: Seq<WorkoutExerciseDetail>, exercise: Seq<char>)
    requires
        distinct_exercises(plan),
        plans_exercise(plan, exercise),
    ensures
        occurrences(plan, exercise) == 1,
    decreases plan.len(),
{
    let init = plan.drop_last();
    let n = plan.len() - 1;
    assert(plan.last() == plan[n]);
    assert forall|i: int, j: int| 0 <= i < j < init.len() implies #[trigger] init[i].exercise_id@
        != #[trigger] init[j].exercise_id@ by {
        assert(init[i] == plan[i]);
        assert(init[j] == plan[j]);
    }
    if plan[n].exercise_id@ == exercise {
        assert forall|i: int| 0 <= i < init.len() implies #[trigger] init[i].exercise_id@ != exercise by {
            assert(init[i] == plan[i]);
        }
        lemma_occurrences_absent(init, exercise);
    } else {
        let i = choose|i: int| 0 <= i < plan.len() && #[trigger] plan[i].exercise_id@ == exercise;
        assert(init[i] == plan[i]);
        lemma_occurrences_once(init, exercise);
    }
}

proof fn lemma_count_by_plan(
    plan: Seq<WorkoutExerciseDetail>,
    sets: Seq<CompletedSet>,
    session: Seq<char>,
)
    requires
        distinct_exercises(plan),
        forall|j: int|
            0 <= j < sets.len() && #[trigger] sets[j].active_workout_id@ == session ==> plans_exercise(
                plan,
                sets[j].exercise_id@,
            ),
    ensures
        session_count(sets, session) == plan_count(plan, sets, session),
    decreases sets.len(),
{
    if sets.len() == 0 {
        lemma_plan_count_empty(plan, sets, session);
    } else {
        let init = sets.drop_last();
        let x = sets.last();
        assert forall|j: int|
            0 <= j < init.len() && #[trigger] init[j].active_workout_id@ == session implies plans_exercise(
            plan,
            init[j].exercise_id@,
        ) by {
            assert(init[j] == sets[j]);
        }
        lemma_count_by_plan(plan, init, session);
        assert(init.push(x) =~= sets);
        lemma_plan_count_push(plan, init, x, session);
        if x.active_workout_id@ == session {
            assert(x == sets[sets.len() - 1]);
            lemma_occurrences_once(plan, x.exercise_id@);
        }
    }
}

proof fn lemma_plan_count_empty(
    plan: Seq<WorkoutExerciseDetail>,
    sets: Seq<CompletedSet>,
    session: Seq<char>,
)
    requires
        sets.len() == 0,
    ensures
        plan_count(plan, sets, session) == 0,
    decreases plan.len(),
{
    if plan.len() > 0 {
        lemma_plan_count_empty(plan.drop_last(), sets, session);
    }
}

proof fn lemma_plan_count_is_target(
    plan: Seq<WorkoutExerciseDetail>,
    sets: Seq<CompletedSet>,
    session: Seq<char>,
)
    requires
        forall|i: int|
            0 <= i < plan.len() ==> exercise_count(sets, session, #[trigger] plan[i].exercise_id@)
                == plan[i].target_sets,
    ensures
        plan_count(plan, sets, session) == planned_total(plan),
    decreases plan.len(),
{
    if plan.len() > 0 {
        let init = plan.drop_last();
        assert forall|i: int| 0 <= i < init.len() implies exercise_count(
            sets,
            session,
            #[trigger] init[i].exercise_id@,
        ) == init[i].target_sets by {
            assert(init[i] == plan[i]);
        }
        lemma_plan_count_is_target(init, sets, session);
        assert(plan.last() == plan[plan.len() - 1]);
    }
}

/// Closing a session whose sets meet every target of its plan exactly (the
/// plan naming each exercise once) records as many sets as the plan asks
/// for, and as volume the sum of load times reps over its sets with a load.
pub proof fn lemma_finish_totals(
    a: ActiveWorkout,
    plan: Seq<WorkoutExerciseDetail>,
    sets: Seq<CompletedSet>,
    notes: Option<String>,
    now_ms: int,
    now_text: String,
)
    requires
        sets.len() <= u64::MAX,
        distinct_exercises(plan),
        meets_targets_exactly(plan, sets, a.id@),
    ensures
        summary_of(a, sets, notes, now_ms, now_text).total_sets == planned_total(plan),
        summary_of(a, sets, notes, now_ms, now_text).total_volume_g == volume_sum(sets, a.id@),
{
    lemma_count_by_plan(plan, sets, a.id@);
    lemma_plan_count_is_target(plan, sets, a.id@);
    lemma_session_count_bound(sets, a.id@);
    lemma_volume_bound(sets, a.id@);
    assert(sets.len() * 0xFFFF_FFFF_FFFF_FFFF <= 0xFFFF_FFFF_FFFF_FFFF * 0xFFFF_FFFF_FFFF_FFFF)
        by (nonlinear_arith)
        requires
            sets.len() <= 0xFFFF_FFFF_FFFF_FFFF,
    ;
}

} // verus!
