//! Plans: a workout, its schedule, and the ordered exercises it prescribes.

use vstd::prelude::*;

use crate::clock::{new_id, now_rfc3339, today_from_sunday};
use crate::session::clone_opt_string;
use crate::text::{kg_one_decimal, push_kg_one_decimal};

verus! {

/// How a workout is scheduled.
#[derive(Debug, Clone, Copy, PartialEq, Eq, Structural)]
pub enum ScheduleType {
    /// Chosen by the user.
    Manual,
    /// On one fixed weekday.
    Weekly,
    /// In a rotation with the other workouts.
    Rotation,
    /// Not scheduled at all.
    Disabled,
}

/// The stored name of a schedule type.
pub open spec fn schedule_name(t: ScheduleType) -> Seq<char> {
    match t {
        ScheduleType::Manual => "manual"@,
        ScheduleType::Weekly => "weekly"@,
        ScheduleType::Rotation => "rotation"@,
        ScheduleType::Disabled => "disabled"@,
    }
}

/// The schedule type a stored name stands for: any text other than the
/// names of the other three (case included) is `Manual`.
pub open spec fn schedule_of(s: Seq<char>) -> ScheduleType {
    if s == "weekly"@ {
        ScheduleType::Weekly
    } else if s == "rotation"@ {
        ScheduleType::Rotation
    } else if s == "disabled"@ {
        ScheduleType::Disabled
    } else {
        ScheduleType::Manual
    }
}

/// The German weekday name of a day counted from Sunday as 0; `Unknown`
/// outside `0..=6`.
pub open spec fn day_label(day: int) -> Seq<char> {
    if day == 0 {
        "Sonntag"@
    } else if day == 1 {
        "Montag"@
    } else if day == 2 {
        "Dienstag"@
    } else if day == 3 {
        "Mittwoch"@
    } else if day == 4 {
        "Donnerstag"@
    } else if day == 5 {
        "Freitag"@
    } else if day == 6 {
        "Samstag"@
    } else {
        "Unknown"@
    }
}

fn same_text(a: &str, b: &str) -> (r: bool)
    ensures
        r == (a@ == b@),
{
    a.to_owned() == b.to_owned()
}

impl ScheduleType {
    /// The stored name: `manual`, `weekly`, `rotation` or `disabled`.
    pub fn to_string(&self) -> (r: String)
        ensures
            r@ == schedule_name(*self),
    {
        match self {
            ScheduleType::Manual => "manual".to_owned(),
            ScheduleType::Weekly => "weekly".to_owned(),
            ScheduleType::Rotation => "rotation".to_owned(),
            ScheduleType::Disabled => "disabled".to_owned(),
        }
    }

    /// The schedule type a stored name stands for, `Manual` for anything
    /// unknown.
    pub fn from_str(s: &str) -> (r: Self)
        ensures
            r == schedule_of(s@),
    {
        if same_text(s, "weekly") {
            ScheduleType::Weekly
        } else if same_text(s, "rotation") {
            ScheduleType::Rotation
        } else if same_text(s, "disabled") {
            ScheduleType::Disabled
        } else {
            ScheduleType::Manual
        }
    }
}

/// A workout plan of one user.
#[derive(Debug)]
pub struct Workout {
    pub id: String,
    pub user_id: String,
    pub name: String,
    pub description: Option<String>,
    pub is_active: Option<bool>,
    pub schedule_type: String,
    pub schedule_day: Option<i32>,
    pub created_at: String,
    pub updated_at: String,
}

/// Whether a workout is weekly and set to the weekday `day` (0 is Sunday).
pub open spec fn scheduled_on(w: Workout, day: int) -> bool {
    &&& w.schedule_type@ == "weekly"@
    &&& w.schedule_day is Some
    &&& w.schedule_day.unwrap() == day
}

impl Workout {
    /// A new, active, manually scheduled workout under a fresh identifier.
    pub fn new(user_id: String, name: String, description: Option<String>) -> (r: Self)
        ensures
            r.user_id == user_id,
            r.name == name,
            r.description == description,
            r.is_active == Some(true),
            r.schedule_type@ == "manual"@,
            r.schedule_day is None,
            r.created_at == r.updated_at,
            r.id@.len() == 36,
    {
        let now = now_rfc3339();
        Workout {
            id: new_id(),
            user_id,
            name,
            description,
            is_active: Some(true),
            schedule_type: "manual".to_owned(),
            schedule_day: None,
            created_at: now.clone(),
            updated_at: now,
        }
    }

    /// Stamps the workout as updated now; nothing else changes.
    pub fn touch(&mut self)
        ensures
            final(self).id == old(self).id,
            final(self).user_id == old(self).user_id,
            final(self).name == old(self).name,
            final(self).description == old(self).description,
            final(self).is_active == old(self).is_active,
            final(self).schedule_type == old(self).schedule_type,
            final(self).schedule_day == old(self).schedule_day,
            final(self).created_at == old(self).created_at,
    {
        self.updated_at = now_rfc3339();
    }

    /// The schedule type the stored name stands for.
    pub fn get_schedule_type(&self) -> (r: ScheduleType)
        ensures
            r == schedule_of(self.schedule_type@),
    {
        ScheduleType::from_str(self.schedule_type.as_str())
    }

    /// The weekday name of the scheduled day, if a day is set.
    pub fn day_name(&self) -> (r: Option<String>)
        ensures
            r is None <==> self.schedule_day is None,
            r matches Some(n) ==> n@ == day_label(self.schedule_day.unwrap() as int),
    {
        match self.schedule_day {
            Some(day) => {
                let n = if day == 0 {
                    "Sonntag"
                } else if day == 1 {
                    "Montag"
                } else if day == 2 {
                    "Dienstag"
                } else if day == 3 {
                    "Mittwoch"
                } else if day == 4 {
                    "Donnerstag"
                } else if day == 5 {
                    "Freitag"
                } else if day == 6 {
                    "Samstag"
                } else {
                    "Unknown"
                };
                Some(n.to_owned())
            },
            None => None,
        }
    }

    /// Whether the workout is weekly and set to `weekday` (0 is Sunday).
    pub fn is_scheduled_on(&self, weekday: i32) -> (r: bool)
        ensures
            r == scheduled_on(*self, weekday as int),
    {
        if same_text(self.schedule_type.as_str(), "weekly") {
            match self.schedule_day {
                Some(day) => day == weekday,
                None => false,
            }
        } else {
            false
        }
    }

    /// Whether the workout is weekly and set to today's weekday.
    pub fn is_scheduled_today(&self) -> (r: bool)
        ensures
            exists|today: int| 0 <= today < 7 && r == #[trigger] scheduled_on(*self, today),
    {
        let today = today_from_sunday() as i32;
        let r = self.is_scheduled_on(today);
        assert(r == scheduled_on(*self, today as int));
        r
    }
}

/// One exercise of a workout. `target_weight_g` is the load in grams;
/// `None` is bodyweight.
#[derive(Debug)]
pub struct WorkoutExercise {
    pub id: String,
    pub workout_id: String,
    pub exercise_id: String,
    pub position: i32,
    pub target_sets: u32,
    pub target_weight_g: Option<u32>,
    pub notes: Option<String>,
    pub created_at: String,
}

/// How a planned load is shown: `100.0 kg`, or `Bodyweight`.
pub open spec fn target_weight_label(weight_g: Option<u32>) -> Seq<char> {
    match weight_g {
        Some(w) => kg_one_decimal(w as nat) + seq![' ', 'k', 'g'],
        None => "Bodyweight"@,
    }
}

impl WorkoutExercise {
    /// A new plan entry without notes, under a fresh identifier.
    pub fn new(
        workout_id: String,
        exercise_id: String,
        position: i32,
        target_sets: u32,
        target_weight_g: Option<u32>,
    ) -> (r: Self)
        ensures
            r.workout_id == workout_id,
            r.exercise_id == exercise_id,
            r.position == position,
            r.target_sets == target_sets,
            r.target_weight_g == target_weight_g,
            r.notes is None,
            r.id@.len() == 36,
    {
        WorkoutExercise {
            id: new_id(),
            workout_id,
            exercise_id,
            position,
            target_sets,
            target_weight_g,
            notes: None,
            created_at: now_rfc3339(),
        }
    }

    /// The planned load label: `100.0 kg`, or `Bodyweight`.
    pub fn weight_display(&self) -> (r: String)
        ensures
            r@ == target_weight_label(self.target_weight_g),
    {
        match self.target_weight_g {
            Some(w) => {
                let mut s = String::new();
                push_kg_one_decimal(&mut s, w);
                proof {
                    reveal_strlit(" kg");
                }
                s.append(" kg");
                proof {
                    assert(s@ =~= target_weight_label(self.target_weight_g));
                }
                s
            },
            None => "Bodyweight".to_owned(),
        }
    }
}

/// The largest position among the entries of workout `workout`, if it has
/// any.
pub open spec fn max_position(rows: Seq<WorkoutExercise>, workout: Seq<char>) -> Option<int>
    decreases rows.len(),
{
    if rows.len() == 0 {
        None
    } else {
        let rest = max_position(rows.drop_last(), workout);
        let e = rows.last();
        if e.workout_id@ != workout {
            rest
        } else {
            match rest {
                Some(m) => if e.position > m {
                    Some(e.position as int)
                } else {
                    Some(m)
                },
                None => Some(e.position as int),
            }
        }
    }
}

/// The position a new entry of workout `workout` takes: one past the
/// largest so far, or 1 for the first. `None` where the largest is already
/// `i32::MAX`.
pub fn next_position(rows: &Vec<WorkoutExercise>, workout: &String) -> (r: Option<i32>)
    ensures
        ({
            let base = match max_position(rows@, workout@) {
                Some(m) => m,
                None => 0,
            };
            &&& base < i32::MAX ==> r == Some((base + 1) as i32)
            &&& base >= i32::MAX ==> r is None
        }),
{
    let mut best: Option<i32> = None;
    let mut i: usize = 0;
    while i < rows.len()
        invariant
            i <= rows@.len(),
            best matches Some(b) ==> max_position(rows@.take(i as int), workout@) == Some(b as int),
            best is None <==> max_position(rows@.take(i as int), workout@) is None,
        decreases rows@.len() - i,
    {
        assert(rows@.take(i as int + 1).drop_last() =~= rows@.take(i as int));
        if rows[i].workout_id == *workout {
            let p = rows[i].position;
            best = match best {
                Some(b) => if p > b {
                    Some(p)
                } else {
                    Some(b)
                },
                None => Some(p),
            };
        }
        i = i + 1;
    }
    assert(rows@.take(i as int) =~= rows@);
    let base: i32 = match best {
        Some(b) => b,
        None => 0,
    };
    if base < i32::MAX {
        Some(base + 1)
    } else {
        None
    }
}

/// A planned exercise as a session sees it: its place in the plan, how many
/// sets it asks for and at what load (grams; `None` is bodyweight).
#[derive(Debug)]
pub struct WorkoutExerciseDetail {
    pub position: i32,
    pub target_sets: u32,
    pub target_weight_g: Option<u32>,
    pub notes: Option<String>,
    pub exercise_id: String,
    pub exercise_name: String,
    pub exercise_instructions: String,
}

impl Clone for WorkoutExerciseDetail {
    fn clone(&self) -> (r: Self)
        ensures
            r == *self,
    {
        WorkoutExerciseDetail {
            position: self.position,
            target_sets: self.target_sets,
            target_weight_g: self.target_weight_g,
            notes: clone_opt_string(&self.notes),
            exercise_id: self.exercise_id.clone(),
            exercise_name: self.exercise_name.clone(),
            exercise_instructions: self.exercise_instructions.clone(),
        }
    }
}

/// Form: a new workout.
#[derive(Debug)]
pub struct CreateWorkoutForm {
    pub name: String,
    pub description: Option<String>,
}

/// Form: an exercise added to a workout, with its load in grams.
#[derive(Debug)]
pub struct AddExerciseToWorkoutForm {
    pub exercise_id: String,
    pub target_sets: u32,
    pub target_weight_g: Option<u32>,
    pub notes: Option<String>,
}

/// Form: a new schedule for a workout.
#[derive(Debug)]
pub struct UpdateWorkoutScheduleForm {
    pub schedule_type: String,
    pub schedule_day: Option<i32>,
}

} // verus!
