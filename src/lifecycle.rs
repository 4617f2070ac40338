//! Starting, recording into and finishing sessions: the decisions on plain
//! rows, and a log of the session tables that applies them.

use vstd::prelude::*;

use crate::progress::{count_session_sets, exercise_count, session_count};
use crate::session::{closing_minutes, set_volume, ActiveWorkout, CompletedSet, CompletedWorkout};

verus! {

/// Why a session operation failed.
#[derive(Debug, Clone, Copy, PartialEq, Eq, Structural)]
pub enum TrainingError {
    /// The session (or plan, or exercise) does not exist.
    NotFound,
    /// An argument breaks the caller's contract, such as negative reps.
    InvalidInput,
    /// The persistence layer could not be reached.
    StoreUnavailable,
}

/// The largest set number among the sets of `session` for `exercise`, 0 if
/// there is none.
pub open spec fn max_set_number(
    sets: Seq<CompletedSet>,
    session: Seq<char>,
    exercise: Seq<char>,
) -> nat
    decreases sets.len(),
{
    if sets.len() == 0 {
        0
    } else {
        let rest = max_set_number(sets.drop_last(), session, exercise);
        let s = sets.last();
        if s.active_workout_id@ == session && s.exercise_id@ == exercise && s.set_number > rest {
            s.set_number as nat
        } else {
            rest
        }
    }
}

/// Total volume (grams times reps) of the sets of `session`; sets without a
/// load add nothing.
pub open spec fn volume_sum(sets: Seq<CompletedSet>, session: Seq<char>) -> nat
    decreases sets.len(),
{
    if sets.len() == 0 {
        0
    } else {
        volume_sum(sets.drop_last(), session) + if sets.last().active_workout_id@ == session {
            set_volume(sets.last())
        } else {
            0
        }
    }
}

/// The summary that closing `a` at `now_ms` (written `now_text`) yields,
/// given the logged sets.
pub open spec fn summary_of(
    a: ActiveWorkout,
    sets: Seq<CompletedSet>,
    notes: Option<String>,
    now_ms: int,
    now_text: String,
) -> CompletedWorkout {
    CompletedWorkout {
        id: a.id,
        user_id: a.user_id,
        workout_id: a.workout_id,
        started_at: a.started_at,
        completed_at: now_text,
        total_duration_minutes: closing_minutes(a.started_at@, now_ms) as u64,
        total_sets: session_count(sets, a.id@) as u64,
        total_volume_g: volume_sum(sets, a.id@) as u128,
        notes: notes,
        created_at: now_text,
    }
}

/// Whether `k` is the first active session with identifier `id`.
pub open spec fn is_first_session(actives: Seq<ActiveWorkout>, id: Seq<char>, k: int) -> bool {
    &&& 0 <= k < actives.len()
    &&& actives[k].id@ == id
    &&& forall|j: int| 0 <= j < k ==> #[trigger] actives[j].id@ != id
}

/// Whether some active session has identifier `id`.
pub open spec fn has_session(actives: Seq<ActiveWorkout>, id: Seq<char>) -> bool {
    exists|k: int| 0 <= k < actives.len() && #[trigger] actives[k].id@ == id
}

/// Whether some active session belongs to `owner`.
pub open spec fn has_owner(actives: Seq<ActiveWorkout>, owner: Seq<char>) -> bool {
    exists|k: int| 0 <= k < actives.len() && #[trigger] actives[k].user_id@ == owner
}

pub(crate) proof fn lemma_volume_bound(sets: Seq<CompletedSet>, session: Seq<char>)
    ensures
        volume_sum(sets, session) <= sets.len() * 0xFFFF_FFFF_FFFF_FFFF,
    decreases sets.len(),
{
    if sets.len() > 0 {
        lemma_volume_bound(sets.drop_last(), session);
        let s = sets.last();
        if let Some(w) = s.weight_g {
            assert(w * s.reps <= 0xFFFF_FFFF_FFFF_FFFF) by (nonlinear_arith)
                requires
                    w <= u32::MAX,
                    s.reps <= u32::MAX,
            ;
        }
        assert((sets.len() - 1) * 0xFFFF_FFFF_FFFF_FFFF + 0xFFFF_FFFF_FFFF_FFFF == sets.len()
            * 0xFFFF_FFFF_FFFF_FFFF) by (nonlinear_arith);
    }
}

proof fn lemma_max_set_number_fits(sets: Seq<CompletedSet>, session: Seq<char>, exercise: Seq<char>)
    ensures
        max_set_number(sets, session, exercise) <= u64::MAX,
    decreases sets.len(),
{
    if sets.len() > 0 {
        lemma_max_set_number_fits(sets.drop_last(), session, exercise);
    }
}

pub(crate) proof fn lemma_session_count_bound(sets: Seq<CompletedSet>, session: Seq<char>)
    ensures
        session_count(sets, session) <= sets.len(),
    decreases sets.len(),
{
    if sets.len() > 0 {
        lemma_session_count_bound(sets.drop_last(), session);
    }
}

/// The number the next set of `session` for `exercise` gets: one more than
/// the largest number so far (1 for the first); `None` where that largest
/// number is already `u64::MAX`.
pub fn next_set_number(sets: &Vec<CompletedSet>, session: &String, exercise: &String) -> (r:
    Option<u64>)
    ensures
        max_set_number(sets@, session@, exercise@) < u64::MAX ==> r == Some(
            (max_set_number(sets@, session@, exercise@) + 1) as u64,
        ),
        max_set_number(sets@, session@, exercise@) == u64::MAX ==> r is None,
{
    let mut m: u64 = 0;
    let mut i: usize = 0;
    while i < sets.len()
        invariant
            i <= sets@.len(),
            m == max_set_number(sets@.take(i as int), session@, exercise@),
        decreases sets@.len() - i,
    {
        assert(sets@.take(i as int + 1).drop_last() =~= sets@.take(i as int));
        if sets[i].active_workout_id == *session && sets[i].exercise_id == *exercise
            && sets[i].set_number > m {
            m = sets[i].set_number;
        }
        i = i + 1;
    }
    assert(sets@.take(i as int) =~= sets@);
    if m < u64::MAX {
        Some(m + 1)
    } else {
        None
    }
}

/// Total volume (grams times reps) of the sets of `session`.
pub fn total_volume(sets: &Vec<CompletedSet>, session: &String) -> (r: u128)
    ensures
        r == volume_sum(sets@, session@),
{
    let mut v: u128 = 0;
    let mut i: usize = 0;
    while i < sets.len()
        invariant
            i <= sets@.len(),
            v == volume_sum(sets@.take(i as int), session@),
        decreases sets@.len() - i,
    {
        assert(sets@.take(i as int + 1).drop_last() =~= sets@.take(i as int));
        proof {
            lemma_volume_bound(sets@.take(i as int + 1), session@);
            assert((i + 1) * 0xFFFF_FFFF_FFFF_FFFF <= 0xFFFF_FFFF_FFFF_FFFF
                * 0xFFFF_FFFF_FFFF_FFFF) by (nonlinear_arith)
                requires
                    i + 1 <= 0xFFFF_FFFF_FFFF_FFFF,
            ;
        }
        if sets[i].active_workout_id == *session {
            v = v + sets[i].volume() as u128;
        }
        i = i + 1;
    }
    assert(sets@.take(i as int) =~= sets@);
    v
}

/// Closes `active_workout` at `now_ms` (written `now_text`): the summary
/// counts every set of the session and sums its volume.
pub fn summarize(
    active_workout: ActiveWorkout,
    sets: &Vec<CompletedSet>,
    notes: Option<String>,
    now_ms: i64,
    now_text: String,
) -> (r: CompletedWorkout)
    ensures
        r == summary_of(active_workout, sets@, notes, now_ms as int, now_text),
{
    let n = count_session_sets(sets, &active_workout.id);
    let v = total_volume(sets, &active_workout.id);
    proof {
        lemma_session_count_bound(sets@, active_workout.id@);
    }
    CompletedWorkout::new_at(active_workout, n as u64, v, notes, now_ms, now_text)
}

/// The first active session of `actives` with identifier `id`.
pub fn find_session(actives: &Vec<ActiveWorkout>, id: &String) -> (r: Option<usize>)
    ensures
        r is None <==> !has_session(actives@, id@),
        r matches Some(k) ==> is_first_session(actives@, id@, k as int),
{
    let mut i: usize = 0;
    while i < actives.len()
        invariant
            i <= actives@.len(),
            forall|j: int| 0 <= j < i ==> #[trigger] actives@[j].id@ != id@,
        decreases actives@.len() - i,
    {
        if actives[i].id == *id {
            return Some(i);
        }
        i = i + 1;
    }
    None
}

/// The active session of `actives` that belongs to `owner`, if any.
pub fn find_owner_session(actives: &Vec<ActiveWorkout>, owner: &String) -> (r: Option<usize>)
    ensures
        r is None <==> !has_owner(actives@, owner@),
        r matches Some(k) ==> k < actives@.len() && actives@[k as int].user_id@ == owner@,
{
    let mut i: usize = 0;
    while i < actives.len()
        invariant
            i <= actives@.len(),
            forall|j: int| 0 <= j < i ==> #[trigger] actives@[j].user_id@ != owner@,
        decreases actives@.len() - i,
    {
        if actives[i].user_id == *owner {
            return Some(i);
        }
        i = i + 1;
    }
    None
}

/// Whether no two active sessions belong to the same owner.
pub open spec fn owners_unique(actives: Seq<ActiveWorkout>) -> bool {
    forall|i: int, j: int|
        0 <= i < j < actives.len() ==> #[trigger] actives[i].user_id@ != #[trigger] actives[j].user_id@
}

/// Whether no two active sessions share an identifier.
pub open spec fn session_ids_unique(actives: Seq<ActiveWorkout>) -> bool {
    forall|i: int, j: int|
        0 <= i < j < actives.len() ==> #[trigger] actives[i].id@ != #[trigger] actives[j].id@
}

/// Whether no two logged sets share an identifier.
pub open spec fn set_ids_unique(sets: Seq<CompletedSet>) -> bool {
    forall|i: int, j: int| 0 <= i < j < sets.len() ==> #[trigger] sets[i].id@ != #[trigger] sets[j].id@
}

/// Whether each set's number is one more than the number of earlier sets of
/// the same session and exercise.
pub open spec fn numbered_in_order(sets: Seq<CompletedSet>) -> bool {
    forall|i: int|
        0 <= i < sets.len() ==> #[trigger] sets[i].set_number == exercise_count(
            sets.take(i),
            sets[i].active_workout_id@,
            sets[i].exercise_id@,
        ) + 1
}

pub(crate) proof fn lemma_numbered_prefix(sets: Seq<CompletedSet>)
    requires
        numbered_in_order(sets),
        sets.len() > 0,
    ensures
        numbered_in_order(sets.drop_last()),
{
    let init = sets.drop_last();
    assert forall|i: int| 0 <= i < init.len() implies #[trigger] init[i].set_number
        == exercise_count(init.take(i), init[i].active_workout_id@, init[i].exercise_id@) + 1 by {
        assert(init.take(i) =~= sets.take(i));
        assert(init[i] == sets[i]);
    }
}

proof fn lemma_numbered_push(sets: Seq<CompletedSet>, x: CompletedSet)
    requires
        numbered_in_order(sets),
        x.set_number == exercise_count(sets, x.active_workout_id@, x.exercise_id@) + 1,
    ensures
        numbered_in_order(sets.push(x)),
{
    let all = sets.push(x);
    assert forall|i: int| 0 <= i < all.len() implies #[trigger] all[i].set_number
        == exercise_count(all.take(i), all[i].active_workout_id@, all[i].exercise_id@) + 1 by {
        if i < sets.len() {
            assert(all.take(i) =~= sets.take(i));
        } else {
            assert(all.take(i) =~= sets);
        }
    }
}

/// Where numbers run in order, the largest number of a session and exercise
/// is the number of its sets.
proof fn lemma_max_is_count(sets: Seq<CompletedSet>, session: Seq<char>, exercise: Seq<char>)
    requires
        numbered_in_order(sets),
    ensures
        max_set_number(sets, session, exercise) == exercise_count(sets, session, exercise),
    decreases sets.len(),
{
    if sets.len() > 0 {
        let init = sets.drop_last();
        lemma_numbered_prefix(sets);
        lemma_max_is_count(init, session, exercise);
        let last_index = sets.len() - 1;
        assert(sets.take(last_index) =~= init);
        assert(sets[last_index] == sets.last());
    }
}

/// The session tables: active sessions, logged sets, and finished-session
/// summaries. Sets stay after their session is finished.
#[derive(Debug)]
pub struct TrainingLog {
    pub active: Vec<ActiveWorkout>,
    pub sets: Vec<CompletedSet>,
    pub history: Vec<CompletedWorkout>,
}

impl TrainingLog {
    /// At most one active session per owner, distinct identifiers for active
    /// sessions and for sets, and set numbers that run 1, 2, 3, ... for each
    /// session and exercise.
    pub open spec fn wf(&self) -> bool {
        &&& owners_unique(self.active@)
        &&& session_ids_unique(self.active@)
        &&& set_ids_unique(self.sets@)
        &&& numbered_in_order(self.sets@)
    }

    /// Whether `id` names nothing the log knows: no active session, no
    /// finished session, and no session any set was logged in.
    pub open spec fn fresh_session_id(&self, id: Seq<char>) -> bool {
        &&& !has_session(self.active@, id)
        &&& forall|k: int| 0 <= k < self.history@.len() ==> #[trigger] self.history@[k].id@ != id
        &&& forall|k: int|
            0 <= k < self.sets@.len() ==> #[trigger] self.sets@[k].active_workout_id@ != id
    }

    /// Whether no logged set has the identifier `id`.
    pub open spec fn fresh_set_id(&self, id: Seq<char>) -> bool {
        forall|k: int| 0 <= k < self.sets@.len() ==> #[trigger] self.sets@[k].id@ != id
    }

    /// Whether `id` may name a new session.
    pub fn is_fresh_session_id(&self, id: &String) -> (r: bool)
        ensures
            r == self.fresh_session_id(id@),
    {
        if find_session(&self.active, id).is_some() {
            return false;
        }
        let mut k: usize = 0;
        while k < self.history.len()
            invariant
                k <= self.history@.len(),
                forall|j: int| 0 <= j < k ==> #[trigger] self.history@[j].id@ != id@,
            decreases self.history@.len() - k,
        {
            if self.history[k].id == *id {
                return false;
            }
            k = k + 1;
        }
        let mut k: usize = 0;
        while k < self.sets.len()
            invariant
                k <= self.sets@.len(),
                forall|j: int| 0 <= j < k ==> #[trigger] self.sets@[j].active_workout_id@ != id@,
            decreases self.sets@.len() - k,
        {
            if self.sets[k].active_workout_id == *id {
                return false;
            }
            k = k + 1;
        }
        true
    }

    /// Whether `id` may name a new set.
    pub fn is_fresh_set_id(&self, id: &String) -> (r: bool)
        ensures
            r == self.fresh_set_id(id@),
    {
        let mut k: usize = 0;
        while k < self.sets.len()
            invariant
                k <= self.sets@.len(),
                forall|j: int| 0 <= j < k ==> #[trigger] self.sets@[j].id@ != id@,
            decreases self.sets@.len() - k,
        {
            if self.sets[k].id == *id {
                return false;
            }
            k = k + 1;
        }
        true
    }

    /// An empty log.
    pub fn new() -> (r: Self)
        ensures
            r.wf(),
            r.active@.len() == 0,
            r.sets@.len() == 0,
            r.history@.len() == 0,
    {
        TrainingLog { active: Vec::new(), sets: Vec::new(), history: Vec::new() }
    }

    /// Starts a session of `owner` on plan `workout_id` under `new_id` at the
    /// time `now`. Where the owner already has an active session, nothing
    /// changes and that session's identifier is returned instead. `new_id`
    /// must name nothing the log knows.
    pub fn start(&mut self, owner: String, workout_id: String, new_id: String, now: String) -> (r:
        String)
        requires
            old(self).wf(),
            old(self).fresh_session_id(new_id@),
        ensures
            final(self).wf(),
            has_owner(old(self).active@, owner@) ==> *final(self) == *old(self) && exists|k: int|
                0 <= k < old(self).active@.len() && old(self).active@[k].user_id@ == owner@
                    && r == old(self).active@[k].id,
            !has_owner(old(self).active@, owner@) ==> {
                &&& r == new_id
                &&& final(self).active@ == old(self).active@.push(
                    (ActiveWorkout {
                        id: new_id,
                        user_id: owner,
                        workout_id: workout_id,
                        started_at: now,
                        created_at: now,
                    }),
                )
                &&& final(self).sets == old(self).sets
                &&& final(self).history == old(self).history
            },
    {
        match find_owner_session(&self.active, &owner) {
            Some(k) => self.active[k].id.clone(),
            None => {
                let id = new_id.clone();
                let a = ActiveWorkout {
                    id: new_id,
                    user_id: owner,
                    workout_id,
                    started_at: now.clone(),
                    created_at: now,
                };
                self.active.push(a);
                proof {
                    let all = self.active@;
                    assert forall|i: int, j: int| 0 <= i < j < all.len() implies #[trigger] all[i].user_id@
                        != #[trigger] all[j].user_id@ by {
                        if j == all.len() - 1 {
                            assert(old(self).active@[i] == all[i]);
                        } else {
                            assert(old(self).active@[i] == all[i]);
                            assert(old(self).active@[j] == all[j]);
                        }
                    }
                    assert forall|i: int, j: int| 0 <= i < j < all.len() implies #[trigger] all[i].id@
                        != #[trigger] all[j].id@ by {
                        assert(old(self).active@[i] == all[i]);
                        if j < all.len() - 1 {
                            assert(old(self).active@[j] == all[j]);
                        }
                    }
                }
                id
            },
        }
    }

    /// The active session with identifier `id` (the first, should several
    /// share it); `NotFound` where there is none.
    pub fn get(&self, id: &String) -> (r: Result<ActiveWorkout, TrainingError>)
        ensures
            r is Err <==> !has_session(self.active@, id@),
            r matches Err(e) ==> e == TrainingError::NotFound,
            r matches Ok(a) ==> exists|k: int|
                is_first_session(self.active@, id@, k) && a == self.active@[k],
    {
        match find_session(&self.active, id) {
            Some(k) => Ok(self.active[k].clone()),
            None => Err(TrainingError::NotFound),
        }
    }

    /// Logs a set of `reps` at `weight_g` grams (`None`: bodyweight) for
    /// `exercise_id` in session `session_id`, under `new_id` at the time
    /// `now`. Its number is one more than the largest number of the session's
    /// sets for that exercise. Fails with `NotFound` where the session is not
    /// active, else with `InvalidInput` where `reps` is negative, else with
    /// `StoreUnavailable` where the session already holds `u64::MAX` sets of
    /// that exercise and no further number exists. `new_id` must not name a
    /// logged set.
    pub fn record_set(
        &mut self,
        session_id: &String,
        exercise_id: String,
        weight_g: Option<u32>,
        reps: i32,
        notes: Option<String>,
        new_id: String,
        now: String,
    ) -> (r: Result<CompletedSet, TrainingError>)
        requires
            old(self).wf(),
            old(self).fresh_set_id(new_id@),
        ensures
            final(self).wf(),
            !has_session(old(self).active@, session_id@) ==> r == Err::<CompletedSet, TrainingError>(
                TrainingError::NotFound,
            ) && *final(self) == *old(self),
            has_session(old(self).active@, session_id@) && reps < 0 ==> r == Err::<
                CompletedSet,
                TrainingError,
            >(TrainingError::InvalidInput) && *final(self) == *old(self),
            has_session(old(self).active@, session_id@) && reps >= 0 && exercise_count(
                old(self).sets@,
                session_id@,
                exercise_id@,
            ) >= u64::MAX ==> r == Err::<CompletedSet, TrainingError>(
                TrainingError::StoreUnavailable,
            ) && *final(self) == *old(self),
            has_session(old(self).active@, session_id@) && reps >= 0 && exercise_count(
                old(self).sets@,
                session_id@,
                exercise_id@,
            ) < u64::MAX ==> {
                let rec = CompletedSet {
                    id: new_id,
                    active_workout_id: *session_id,
                    exercise_id: exercise_id,
                    set_number: (max_set_number(old(self).sets@, session_id@, exercise_id@)
                        + 1) as u64,
                    weight_g: weight_g,
                    reps: reps as u32,
                    notes: notes,
                    completed_at: now,
                    created_at: now,
                };
                &&& r == Ok::<CompletedSet, TrainingError>(rec)
                &&& rec.set_number == exercise_count(old(self).sets@, session_id@, exercise_id@)
                    + 1
                &&& final(self).sets@ == old(self).sets@.push(rec)
                &&& final(self).active == old(self).active
                &&& final(self).history == old(self).history
            },
    {
        if find_session(&self.active, session_id).is_none() {
            return Err(TrainingError::NotFound);
        }
        if reps < 0 {
            return Err(TrainingError::InvalidInput);
        }
        proof {
            lemma_max_is_count(self.sets@, session_id@, exercise_id@);
            lemma_max_set_number_fits(self.sets@, session_id@, exercise_id@);
        }
        let number = match next_set_number(&self.sets, session_id, &exercise_id) {
            Some(n) => n,
            None => {
                return Err(TrainingError::StoreUnavailable);
            },
        };
        let rec = CompletedSet {
            id: new_id,
            active_workout_id: session_id.clone(),
            exercise_id,
            set_number: number,
            weight_g,
            reps: reps as u32,
            notes,
            completed_at: now.clone(),
            created_at: now,
        };
        proof {
            lemma_numbered_push(self.sets@, rec);
        }
        self.sets.push(rec.clone());
        proof {
            let all = self.sets@;
            assert forall|i: int, j: int| 0 <= i < j < all.len() implies #[trigger] all[i].id@
                != #[trigger] all[j].id@ by {
                assert(old(self).sets@[i] == all[i]);
                if j < all.len() - 1 {
                    assert(old(self).sets@[j] == all[j]);
                }
            }
        }
        Ok(rec)
    }

    /// Finishes session `session_id` at `now_ms` (written `now_text`): its
    /// summary joins the history and the session is no longer active.
    /// Fails with `NotFound`, changing nothing, where the session is not
    /// active.
    pub fn finish(
        &mut self,
        session_id: &String,
        notes: Option<String>,
        now_ms: i64,
        now_text: String,
    ) -> (r: Result<CompletedWorkout, TrainingError>)
        requires
            old(self).wf(),
        ensures
            final(self).wf(),
            r is Err <==> !has_session(old(self).active@, session_id@),
            r is Ok ==> !has_session(final(self).active@, session_id@),
            r is Err ==> r == Err::<CompletedWorkout, TrainingError>(TrainingError::NotFound)
                && *final(self) == *old(self),
            r matches Ok(summary) ==> exists|k: int|
                {
                    &&& is_first_session(old(self).active@, session_id@, k)
                    &&& summary == summary_of(
                        old(self).active@[k],
                        old(self).sets@,
                        notes,
                        now_ms as int,
                        now_text,
                    )
                    &&& final(self).active@ == old(self).active@.remove(k)
                    &&& final(self).history@ == old(self).history@.push(summary)
                    &&& final(self).sets == old(self).sets
                },
    {
        match find_session(&self.active, session_id) {
            None => Err(TrainingError::NotFound),
            Some(k) => {
                let a = self.active.remove(k);
                proof {
                    let all = self.active@;
                    assert forall|i: int, j: int| 0 <= i < j < all.len() implies #[trigger] all[i].user_id@
                        != #[trigger] all[j].user_id@ by {
                        if i < k {
                            assert(all[i] == old(self).active@[i]);
                        } else {
                            assert(all[i] == old(self).active@[i + 1]);
                        }
                        if j < k {
                            assert(all[j] == old(self).active@[j]);
                        } else {
                            assert(all[j] == old(self).active@[j + 1]);
                        }
                    }
                }
                let summary = summarize(a, &self.sets, notes, now_ms, now_text);
                self.history.push(summary.clone());
                Ok(summary)
            },
        }
    }
}

} // verus!
