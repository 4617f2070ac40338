//! What the pages show: the live view of a session, and the data each page
//! is drawn from.

use vstd::prelude::*;

use crate::exercise::Exercise;
use crate::history::DashboardStats;
use crate::progress::{
    all_satisfied, count_session_sets, current_exercise, is_due, percent_denominator,
    percent_numerator, planned_total, progress_percent, session_count, Percent,
};
use crate::session::{ActiveWorkout, CompletedSet, CompletedWorkout};
use crate::user::User;
use crate::workout::{Workout, WorkoutExercise, WorkoutExerciseDetail};

verus! {

/// The state of a session as the live page shows it.
#[derive(Debug)]
pub struct ActiveWorkoutView {
    pub active_workout: ActiveWorkout,
    pub workout_name: String,
    pub total_sets_completed: u64,
    /// The planned exercise that is due, `None` once the plan is done.
    pub current_exercise: Option<WorkoutExerciseDetail>,
    /// Completion percentage, exactly.
    pub progress_percent: Percent,
}

impl ActiveWorkoutView {
    /// The live state of `active_workout` against its plan, from the sets
    /// logged so far.
    pub fn build(
        active_workout: ActiveWorkout,
        workout_name: String,
        plan: &Vec<WorkoutExerciseDetail>,
        sets: &Vec<CompletedSet>,
    ) -> (r: Self)
        ensures
            r.active_workout == active_workout,
            r.workout_name == workout_name,
            r.total_sets_completed == session_count(sets@, active_workout.id@),
            r.current_exercise is None <==> all_satisfied(plan@, sets@, active_workout.id@),
            r.current_exercise matches Some(e) ==> exists|k: int|
                is_due(plan@, sets@, active_workout.id@, k) && e == plan@[k],
            r.progress_percent.numerator == percent_numerator(
                planned_total(plan@),
                session_count(sets@, active_workout.id@),
            ),
            r.progress_percent.denominator == percent_denominator(planned_total(plan@)),
    {
        let total = count_session_sets(sets, &active_workout.id);
        let current = match current_exercise(plan, sets, &active_workout.id) {
            Some(k) => Some(plan[k].clone()),
            None => None,
        };
        let percent = progress_percent(plan, sets, &active_workout.id);
        ActiveWorkoutView {
            active_workout,
            workout_name,
            total_sets_completed: total as u64,
            current_exercise: current,
            progress_percent: percent,
        }
    }
}

/// One logged set with the exercise it belongs to.
#[derive(Debug)]
pub struct CompletedSetDetail {
    pub id: String,
    pub set_number: u64,
    pub weight_g: Option<u32>,
    pub reps: u32,
    pub notes: Option<String>,
    pub completed_at: String,
    pub exercise_name: String,
    pub exercise_instructions: String,
}

/// A workout with its planned exercises.
#[derive(Debug)]
pub struct WorkoutWithExercises {
    pub workout: Workout,
    pub exercises: Vec<WorkoutExercise>,
}

/// The live training page.
#[derive(Debug)]
pub struct LiveTrainingTemplate {
    pub active_workout_view: ActiveWorkoutView,
    pub current_exercise_sets: Vec<CompletedSetDetail>,
    pub current_user: Option<User>,
    pub is_dashboard: bool,
}

/// The dashboard page.
#[derive(Debug)]
pub struct DashboardTemplate {
    pub user: User,
    pub current_user: Option<User>,
    pub exercises: Vec<Exercise>,
    pub recent_workouts: Vec<CompletedWorkout>,
    pub active_workout: Option<ActiveWorkout>,
    pub stats: DashboardStats,
    pub is_dashboard: bool,
}

/// The exercise list page.
#[derive(Debug)]
pub struct ExerciseListTemplate {
    pub exercises: Vec<Exercise>,
    pub current_user: Option<User>,
    pub is_dashboard: bool,
}

/// The exercise list fragment.
#[derive(Debug)]
pub struct ExerciseListPartialTemplate {
    pub exercises: Vec<Exercise>,
}

/// The user list page.
#[derive(Debug)]
pub struct UserListTemplate {
    pub users: Vec<User>,
    pub current_user: Option<User>,
    pub is_dashboard: bool,
}

/// The user list fragment.
#[derive(Debug)]
pub struct UserListPartialTemplate {
    pub users: Vec<User>,
}

/// The workout list page.
#[derive(Debug)]
pub struct WorkoutListTemplate {
    pub workouts: Vec<Workout>,
    pub current_user: Option<User>,
    pub is_dashboard: bool,
}

/// The workout detail page.
#[derive(Debug)]
pub struct WorkoutDetailTemplate {
    pub workout: Workout,
    pub exercises: Vec<WorkoutExerciseDetail>,
    pub available_exercises: Vec<Exercise>,
    pub current_user: Option<User>,
    pub is_dashboard: bool,
}

/// The workout list fragment.
#[derive(Debug)]
pub struct WorkoutListPartialTemplate {
    pub workouts: Vec<Workout>,
}

/// Form: start a session on a plan.
#[derive(Debug)]
pub struct StartWorkoutForm {
    pub workout_id: String,
}

/// Form: a completed set, with its load in grams.
#[derive(Debug)]
pub struct CompleteSetForm {
    pub exercise_id: String,
    pub weight_g: Option<u32>,
    pub reps: i32,
    pub notes: Option<String>,
}

/// Form: finish a session.
#[derive(Debug)]
pub struct FinishTrainingForm {
    pub notes: Option<String>,
}

} // verus!
