//! Records of a training session: the active session, each completed set, and
//! the summary a session is closed into.

use vstd::prelude::*;

use crate::clock::{
    minutes_between, new_id, now_millis, now_rfc3339, parse_rfc3339_millis, rfc3339_millis,
};
use crate::text::{
    decimal, kg_one_decimal, push_decimal, push_kg_one_decimal, push_signed_decimal,
    signed_decimal,
};

verus! {

/// A session a user is currently training in.
#[derive(Debug)]
pub struct ActiveWorkout {
    pub id: String,
    pub user_id: String,
    pub workout_id: String,
    pub started_at: String,
    pub created_at: String,
}

/// One logged set. `weight_g` is the load in grams; `None` is bodyweight.
#[derive(Debug)]
pub struct CompletedSet {
    pub id: String,
    pub active_workout_id: String,
    pub exercise_id: String,
    pub set_number: u64,
    pub weight_g: Option<u32>,
    pub reps: u32,
    pub notes: Option<String>,
    pub completed_at: String,
    pub created_at: String,
}

/// The immutable summary of a finished session. `total_volume_g` is the sum of
/// load (grams) times reps over the session's sets.
#[derive(Debug)]
pub struct CompletedWorkout {
    pub id: String,
    pub user_id: String,
    pub workout_id: String,
    pub started_at: String,
    pub completed_at: String,
    pub total_duration_minutes: u64,
    pub total_sets: u64,
    pub total_volume_g: u128,
    pub notes: Option<String>,
    pub created_at: String,
}

pub(crate) fn clone_opt_string(s: &Option<String>) -> (r: Option<String>)
    ensures
        r == *s,
{
    match s {
        Some(t) => Some(t.clone()),
        None => None,
    }
}

impl Clone for ActiveWorkout {
    fn clone(&self) -> (r: Self)
        ensures
            r == *self,
    {
        ActiveWorkout {
            id: self.id.clone(),
            user_id: self.user_id.clone(),
            workout_id: self.workout_id.clone(),
            started_at: self.started_at.clone(),
            created_at: self.created_at.clone(),
        }
    }
}

impl Clone for CompletedSet {
    fn clone(&self) -> (r: Self)
        ensures
            r == *self,
    {
        CompletedSet {
            id: self.id.clone(),
            active_workout_id: self.active_workout_id.clone(),
            exercise_id: self.exercise_id.clone(),
            set_number: self.set_number,
            weight_g: self.weight_g,
            reps: self.reps,
            notes: clone_opt_string(&self.notes),
            completed_at: self.completed_at.clone(),
            created_at: self.created_at.clone(),
        }
    }
}

impl Clone for CompletedWorkout {
    fn clone(&self) -> (r: Self)
        ensures
            r == *self,
    {
        CompletedWorkout {
            id: self.id.clone(),
            user_id: self.user_id.clone(),
            workout_id: self.workout_id.clone(),
            started_at: self.started_at.clone(),
            completed_at: self.completed_at.clone(),
            total_duration_minutes: self.total_duration_minutes,
            total_sets: self.total_sets,
            total_volume_g: self.total_volume_g,
            notes: clone_opt_string(&self.notes),
            created_at: self.created_at.clone(),
        }
    }
}

/// A duration in minutes as shown to the user: `45m` below an hour (negative
/// values included), `2h 30m` from an hour on.
pub open spec fn minutes_label(m: int) -> Seq<char> {
    if m < 60 {
        signed_decimal(m) + seq!['m']
    } else {
        decimal((m / 60) as nat) + seq!['h', ' '] + decimal((m % 60) as nat) + seq!['m']
    }
}

/// Appends `minutes_label(m)` to `s`.
fn push_minutes_label(s: &mut String, m: i64)
    ensures
        final(s)@ == old(s)@ + minutes_label(m as int),
{
    proof {
        reveal_strlit("m");
        reveal_strlit("h ");
    }
    if m < 60 {
        push_signed_decimal(s, m);
        s.append("m");
    } else {
        push_decimal(s, (m / 60) as u64);
        s.append("h ");
        push_decimal(s, (m % 60) as u64);
        s.append("m");
    }
    proof {
        assert(final(s)@ =~= old(s)@ + minutes_label(m as int));
    }
}

/// Minutes of a session that started at the text `started_at`, seen at
/// `now_ms`; `None` where the start does not parse.
pub open spec fn session_minutes(started_at: Seq<char>, now_ms: int) -> Option<int> {
    match rfc3339_millis(started_at) {
        Some(s) => Some(minutes_between(s as int, now_ms)),
        None => None,
    }
}

/// The elapsed-time label of a session: `0m` where its start does not parse.
pub open spec fn active_duration_label(started_at: Seq<char>, now_ms: int) -> Seq<char> {
    match session_minutes(started_at, now_ms) {
        Some(m) => minutes_label(m),
        None => seq!['0', 'm'],
    }
}

/// Minutes a summary records for a session started at `started_at` and
/// closed at `now_ms`: floored, never negative, and 0 where the start does
/// not parse.
pub open spec fn closing_minutes(started_at: Seq<char>, now_ms: int) -> int {
    match session_minutes(started_at, now_ms) {
        Some(m) => if m > 0 {
            m
        } else {
            0
        },
        None => 0,
    }
}

impl ActiveWorkout {
    /// A session for `user_id` on plan `workout_id`, starting now, under a
    /// fresh identifier.
    pub fn new(user_id: String, workout_id: String) -> (r: Self)
        ensures
            r.user_id == user_id,
            r.workout_id == workout_id,
            r.started_at == r.created_at,
            rfc3339_millis(r.started_at@) is Some,
            r.id@.len() == 36,
    {
        let now = now_rfc3339();
        ActiveWorkout {
            id: new_id(),
            user_id,
            workout_id,
            started_at: now.clone(),
            created_at: now,
        }
    }

    /// Minutes since the start, seen at `now_ms`.
    pub fn duration_minutes_at(&self, now_ms: i64) -> (r: Option<i64>)
        ensures
            r matches Some(m) ==> session_minutes(self.started_at@, now_ms as int) == Some(m as int),
            r is None <==> session_minutes(self.started_at@, now_ms as int) is None,
    {
        match parse_rfc3339_millis(self.started_at.as_str()) {
            Some(start) => Some(crate::clock::elapsed_minutes(start, now_ms)),
            None => None,
        }
    }

    /// Minutes since the start, by the clock; `None` where the start does not
    /// parse.
    pub fn duration_minutes(&self) -> (r: Option<i64>)
        ensures
            r is None <==> rfc3339_millis(self.started_at@) is None,
            r matches Some(m) ==> exists|now: i64|
                session_minutes(self.started_at@, now as int) == Some(m as int),
    {
        let now = now_millis();
        self.duration_minutes_at(now)
    }

    /// The elapsed-time label seen at `now_ms`.
    pub fn duration_display_at(&self, now_ms: i64) -> (r: String)
        ensures
            r@ == active_duration_label(self.started_at@, now_ms as int),
    {
        let mut s = String::new();
        match self.duration_minutes_at(now_ms) {
            Some(m) => push_minutes_label(&mut s, m),
            None => {
                proof {
                    reveal_strlit("0m");
                }
                s.append("0m");
            },
        }
        proof {
            assert(s@ =~= active_duration_label(self.started_at@, now_ms as int));
        }
        s
    }

    /// The elapsed-time label by the clock: `0m` where the start does not
    /// parse.
    pub fn duration_display(&self) -> (r: String)
        ensures
            exists|now: i64| r@ == active_duration_label(self.started_at@, now as int),
            rfc3339_millis(self.started_at@) is None ==> r@ == seq!['0', 'm'],
    {
        let now = now_millis();
        self.duration_display_at(now)
    }
}

/// The volume of one set: load in grams times reps, 0 for bodyweight.
pub open spec fn set_volume(s: CompletedSet) -> nat {
    match s.weight_g {
        Some(w) => (w * s.reps) as nat,
        None => 0,
    }
}

/// How a load in grams is shown on a set: `100.5kg`, or `Bodyweight`.
pub open spec fn set_weight_label(weight_g: Option<u32>) -> Seq<char> {
    match weight_g {
        Some(w) => kg_one_decimal(w as nat) + seq!['k', 'g'],
        None => seq!['B', 'o', 'd', 'y', 'w', 'e', 'i', 'g', 'h', 't'],
    }
}

impl CompletedSet {
    /// A set numbered `set_number`, completed now, without notes, under a
    /// fresh identifier.
    pub fn new(
        active_workout_id: String,
        exercise_id: String,
        set_number: u64,
        weight_g: Option<u32>,
        reps: u32,
    ) -> (r: Self)
        ensures
            r.active_workout_id == active_workout_id,
            r.exercise_id == exercise_id,
            r.set_number == set_number,
            r.weight_g == weight_g,
            r.reps == reps,
            r.notes is None,
            r.completed_at == r.created_at,
            r.id@.len() == 36,
    {
        let now = now_rfc3339();
        CompletedSet {
            id: new_id(),
            active_workout_id,
            exercise_id,
            set_number,
            weight_g,
            reps,
            notes: None,
            completed_at: now.clone(),
            created_at: now,
        }
    }

    /// The load label: `80.0kg`, or `Bodyweight`.
    pub fn weight_display(&self) -> (r: String)
        ensures
            r@ == set_weight_label(self.weight_g),
    {
        let mut s = String::new();
        match self.weight_g {
            Some(w) => {
                push_kg_one_decimal(&mut s, w);
                proof {
                    reveal_strlit("kg");
                }
                s.append("kg");
            },
            None => {
                proof {
                    reveal_strlit("Bodyweight");
                }
                s.append("Bodyweight");
            },
        }
        proof {
            assert(s@ =~= set_weight_label(self.weight_g));
        }
        s
    }

    /// The set as `80.0kg x 12`.
    pub fn set_display(&self) -> (r: String)
        ensures
            r@ == set_weight_label(self.weight_g) + seq![' ', 'x', ' '] + decimal(
                self.reps as nat,
            ),
    {
        let mut s = self.weight_display();
        proof {
            reveal_strlit(" x ");
        }
        s.append(" x ");
        push_decimal(&mut s, self.reps as u64);
        proof {
            assert(s@ =~= set_weight_label(self.weight_g) + seq![' ', 'x', ' '] + decimal(
                self.reps as nat,
            ));
        }
        s
    }

    /// Load times reps, in gram-repetitions; 0 for bodyweight.
    pub fn volume(&self) -> (r: u64)
        ensures
            r == set_volume(*self),
    {
        match self.weight_g {
            Some(w) => {
                proof {
                    assert(w * self.reps <= u32::MAX * u32::MAX) by (nonlinear_arith)
                        requires
                            w <= u32::MAX,
                            self.reps <= u32::MAX,
                    ;
                }
                w as u64 * self.reps as u64
            },
            None => 0,
        }
    }
}

impl CompletedWorkout {
    /// Closes `active_workout` at the instant `now_ms`, written `now_text`:
    /// the summary keeps the session's identity and start, and records the
    /// totals given and the closing duration.
    pub fn new_at(
        active_workout: ActiveWorkout,
        total_sets: u64,
        total_volume_g: u128,
        notes: Option<String>,
        now_ms: i64,
        now_text: String,
    ) -> (r: Self)
        ensures
            r.id == active_workout.id,
            r.user_id == active_workout.user_id,
            r.workout_id == active_workout.workout_id,
            r.started_at == active_workout.started_at,
            r.completed_at == now_text,
            r.created_at == now_text,
            r.total_duration_minutes as int == closing_minutes(
                active_workout.started_at@,
                now_ms as int,
            ),
            r.total_sets == total_sets,
            r.total_volume_g == total_volume_g,
            r.notes == notes,
    {
        let minutes: u64 = match active_workout.duration_minutes_at(now_ms) {
            Some(m) => if m > 0 {
                m as u64
            } else {
                0
            },
            None => 0,
        };
        CompletedWorkout {
            id: active_workout.id,
            user_id: active_workout.user_id,
            workout_id: active_workout.workout_id,
            started_at: active_workout.started_at,
            completed_at: now_text.clone(),
            total_duration_minutes: minutes,
            total_sets,
            total_volume_g,
            notes,
            created_at: now_text,
        }
    }

    /// Closes `active_workout` now, by the clock.
    pub fn new(
        active_workout: ActiveWorkout,
        total_sets: u64,
        total_volume_g: u128,
        notes: Option<String>,
    ) -> (r: Self)
        ensures
            r.id == active_workout.id,
            r.user_id == active_workout.user_id,
            r.workout_id == active_workout.workout_id,
            r.started_at == active_workout.started_at,
            r.completed_at == r.created_at,
            exists|now: i64|
                r.total_duration_minutes as int == closing_minutes(
                    active_workout.started_at@,
                    now as int,
                ),
            r.total_sets == total_sets,
            r.total_volume_g == total_volume_g,
            r.notes == notes,
    {
        let now_ms = now_millis();
        let now_text = now_rfc3339();
        CompletedWorkout::new_at(active_workout, total_sets, total_volume_g, notes, now_ms, now_text)
    }

    /// The recorded duration as `45m` or `2h 30m`.
    pub fn duration_display(&self) -> (r: String)
        ensures
            r@ == minutes_label(self.total_duration_minutes as int),
    {
        let mut s = String::new();
        let m = self.total_duration_minutes;
        proof {
            reveal_strlit("m");
            reveal_strlit("h ");
        }
        if m < 60 {
            push_decimal(&mut s, m);
            s.append("m");
        } else {
            push_decimal(&mut s, m / 60);
            s.append("h ");
            push_decimal(&mut s, m % 60);
            s.append("m");
        }
        proof {
            assert(s@ =~= minutes_label(self.total_duration_minutes as int));
        }
        s
    }

    /// Volume per set in grams, rounded down; 0 when no set was recorded.
    pub fn average_volume_per_set(&self) -> (r: u128)
        ensures
            self.total_sets == 0 ==> r == 0,
            self.total_sets > 0 ==> r == self.total_volume_g / (self.total_sets as u128),
    {
        if self.total_sets > 0 {
            self.total_volume_g / (self.total_sets as u128)
        } else {
            0
        }
    }
}

} // verus!
