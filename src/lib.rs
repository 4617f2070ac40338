//! Progress tracking for a single user's in-progress training session: which
//! planned exercise is due, how far the session has come, how sets are
//! numbered, and how a session is closed into an immutable summary.

pub mod clock;
pub mod exercise;
pub mod history;
pub mod laws;
pub mod lifecycle;
pub mod progress;
pub mod session;
pub mod text;
pub mod user;
pub mod views;
pub mod workout;

pub use exercise::{CreateExerciseForm, Exercise};
pub use history::DashboardStats;
pub use lifecycle::{TrainingError, TrainingLog};
pub use progress::Percent;
pub use session::{ActiveWorkout, CompletedSet, CompletedWorkout};
pub use user::{CreateUserForm, User};
pub use views::{
    ActiveWorkoutView, CompleteSetForm, CompletedSetDetail, DashboardTemplate,
    ExerciseListPartialTemplate, ExerciseListTemplate, FinishTrainingForm, LiveTrainingTemplate,
    StartWorkoutForm, UserListPartialTemplate, UserListTemplate, WorkoutDetailTemplate,
    WorkoutListPartialTemplate, WorkoutListTemplate, WorkoutWithExercises,
};
pub use workout::{
    AddExerciseToWorkoutForm, CreateWorkoutForm, ScheduleType, UpdateWorkoutScheduleForm, Workout,
    WorkoutExercise, WorkoutExerciseDetail,
};
