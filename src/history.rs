//! Read-only aggregation of finished sessions for the dashboard.

use vstd::prelude::*;

use crate::clock::{days_between, elapsed_days, parse_rfc3339_millis, rfc3339_millis};
use crate::session::CompletedWorkout;
use crate::text::{push_signed_decimal, signed_decimal};

verus! {

/// Milliseconds in the seven days that count as "this week".
pub const WEEK_MS: i64 = 604800000;

/// Number of summaries of `owner`.
pub open spec fn owner_count(h: Seq<CompletedWorkout>, owner: Seq<char>) -> nat
    decreases h.len(),
{
    if h.len() == 0 {
        0
    } else {
        owner_count(h.drop_last(), owner) + if h.last().user_id@ == owner {
            1nat
        } else {
            0nat
        }
    }
}

/// Sum of the volumes of the summaries of `owner`.
pub open spec fn owner_volume(h: Seq<CompletedWorkout>, owner: Seq<char>) -> nat
    decreases h.len(),
{
    if h.len() == 0 {
        0
    } else {
        owner_volume(h.drop_last(), owner) + if h.last().user_id@ == owner {
            h.last().total_volume_g as nat
        } else {
            0nat
        }
    }
}

/// Whether a summary was completed within the seven days up to `now_ms`;
/// one whose completion time does not parse is not.
pub open spec fn within_week(w: CompletedWorkout, now_ms: int) -> bool {
    match rfc3339_millis(w.completed_at@) {
        Some(t) => t >= now_ms - WEEK_MS,
        None => false,
    }
}

/// Number of summaries of `owner` completed within the seven days up to
/// `now_ms`.
pub open spec fn week_count(h: Seq<CompletedWorkout>, owner: Seq<char>, now_ms: int) -> nat
    decreases h.len(),
{
    if h.len() == 0 {
        0
    } else {
        week_count(h.drop_last(), owner, now_ms) + if h.last().user_id@ == owner && within_week(
            h.last(),
            now_ms,
        ) {
            1nat
        } else {
            0nat
        }
    }
}

/// The recency key of a summary: its completion instant, below every
/// instant where it does not parse.
pub open spec fn recency(w: CompletedWorkout) -> int {
    match rfc3339_millis(w.completed_at@) {
        Some(t) => t as int,
        None => i64::MIN - 1,
    }
}

/// Whether entry `k` is the most recent summary of `owner` (the earlier
/// entry on equal keys).
pub open spec fn is_latest(h: Seq<CompletedWorkout>, owner: Seq<char>, k: int) -> bool {
    &&& 0 <= k < h.len()
    &&& h[k].user_id@ == owner
    &&& forall|j: int|
        0 <= j < h.len() && #[trigger] h[j].user_id@ == owner ==> recency(h[j]) < recency(h[k]) || (
        recency(h[j]) == recency(h[k]) && k <= j)
}

/// How long ago something happened, from whole days: `today`, `yesterday`,
/// or `n days ago`.
pub open spec fn relative_day_label(days: int) -> Seq<char> {
    if days == 0 {
        "today"@
    } else if days == 1 {
        "yesterday"@
    } else {
        signed_decimal(days) + " days ago"@
    }
}

/// The label of the most recent session, completed at the text
/// `completed_at`, seen at `now_ms`: a completion time that does not parse
/// counts as now.
pub open spec fn last_workout_label(completed_at: Seq<char>, now_ms: int) -> Seq<char> {
    match rfc3339_millis(completed_at) {
        Some(t) => relative_day_label(days_between(t as int, now_ms)),
        None => "today"@,
    }
}

/// Whether `r` lists the `n` most recent summaries of `owner` (all of them
/// where there are fewer), most recent first: entries of `h`, each once.
pub open spec fn is_recent_list(h: Seq<CompletedWorkout>, owner: Seq<char>, n: int, r: Seq<usize>) -> bool {
    &&& r.len() <= n
    &&& forall|a: int| 0 <= a < r.len() ==> #[trigger] r[a] < h.len() && h[r[a] as int].user_id@ == owner
    &&& forall|a: int, b: int|
        0 <= a < b < r.len() ==> #[trigger] r[a] != #[trigger] r[b] && recency(h[r[a] as int])
            >= recency(h[r[b] as int])
    &&& r.len() < n ==> forall|j: int|
        0 <= j < h.len() && #[trigger] h[j].user_id@ == owner ==> r.contains(j as usize)
    &&& r.len() > 0 ==> forall|j: int|
        0 <= j < h.len() && #[trigger] h[j].user_id@ == owner && !r.contains(j as usize)
            ==> recency(h[j]) <= recency(h[r.last() as int])
}

fn recency_keys(h: &Vec<CompletedWorkout>) -> (r: Vec<i128>)
    ensures
        r@.len() == h@.len(),
        forall|i: int| 0 <= i < h@.len() ==> r@[i] == recency(#[trigger] h@[i]),
{
    let mut r: Vec<i128> = Vec::new();
    let mut i: usize = 0;
    while i < h.len()
        invariant
            i <= h@.len(),
            r@.len() == i,
            forall|j: int| 0 <= j < i ==> r@[j] == recency(#[trigger] h@[j]),
        decreases h@.len() - i,
    {
        let key: i128 = match parse_rfc3339_millis(h[i].completed_at.as_str()) {
            Some(t) => t as i128,
            None => i64::MIN as i128 - 1,
        };
        r.push(key);
        i = i + 1;
    }
    r
}

fn lists_index(r: &Vec<usize>, i: usize) -> (b: bool)
    ensures
        b == r@.contains(i),
{
    let mut a: usize = 0;
    while a < r.len()
        invariant
            a <= r@.len(),
            forall|k: int| 0 <= k < a ==> r@[k] != i,
        decreases r@.len() - a,
    {
        if r[a] == i {
            return true;
        }
        a = a + 1;
    }
    false
}

/// The indices of the `n` most recent summaries of `owner`, most recent
/// first.
pub fn recent_of_owner(h: &Vec<CompletedWorkout>, owner: &String, n: usize) -> (r: Vec<usize>)
    ensures
        is_recent_list(h@, owner@, n as int, r@),
{
    let keys = recency_keys(h);
    let mut r: Vec<usize> = Vec::new();
    let mut exhausted = false;
    while r.len() < n && !exhausted
        invariant
            keys@.len() == h@.len(),
            forall|i: int| 0 <= i < h@.len() ==> keys@[i] == recency(#[trigger] h@[i]),
            r@.len() <= n,
            forall|a: int| 0 <= a < r@.len() ==> #[trigger] r@[a] < h@.len() && h@[r@[a] as int].user_id@ == owner@,
            forall|a: int, b: int|
                0 <= a < b < r@.len() ==> #[trigger] r@[a] != #[trigger] r@[b] && recency(h@[r@[a] as int])
                    >= recency(h@[r@[b] as int]),
            exhausted ==> forall|j: int|
                0 <= j < h@.len() && #[trigger] h@[j].user_id@ == owner@ ==> r@.contains(j as usize),
            r@.len() > 0 ==> forall|j: int|
                0 <= j < h@.len() && #[trigger] h@[j].user_id@ == owner@ && !r@.contains(j as usize)
                    ==> recency(h@[j]) <= recency(h@[r@.last() as int]),
        decreases n - r@.len() + if exhausted {
            0int
        } else {
            1int
        },
    {
        let mut best: Option<usize> = None;
        let mut i: usize = 0;
        while i < h.len()
            invariant
                i <= h@.len(),
                keys@.len() == h@.len(),
                forall|i: int| 0 <= i < h@.len() ==> keys@[i] == recency(#[trigger] h@[i]),
                best matches Some(b) ==> b < i && h@[b as int].user_id@ == owner@ && !r@.contains(b),
                best is None ==> forall|j: int|
                    0 <= j < i && #[trigger] h@[j].user_id@ == owner@ ==> r@.contains(j as usize),
                best matches Some(b) ==> forall|j: int|
                    0 <= j < i && #[trigger] h@[j].user_id@ == owner@ && !r@.contains(j as usize)
                        ==> recency(h@[j]) <= recency(h@[b as int]),
            decreases h@.len() - i,
        {
            if h[i].user_id == *owner && !lists_index(&r, i) {
                match best {
                    Some(b) => {
                        if keys[i] > keys[b] {
                            best = Some(i);
                        }
                    },
                    None => {
                        best = Some(i);
                    },
                }
            }
            i = i + 1;
        }
        match best {
            Some(b) => {
                proof {
                    if r@.len() > 0 {
                        assert(recency(h@[b as int]) <= recency(h@[r@.last() as int]));
                    }
                }
                let ghost old_r = r@;
                r.push(b);
                proof {
                    assert forall|j: int|
                        0 <= j < h@.len() && #[trigger] h@[j].user_id@ == owner@ && !r@.contains(
                            j as usize,
                        ) implies recency(h@[j]) <= recency(h@[r@.last() as int]) by {
                        assert(!old_r.contains(j as usize)) by {
                            if old_r.contains(j as usize) {
                                let a = choose|a: int| 0 <= a < old_r.len() && old_r[a] == j as usize;
                                assert(r@[a] == j as usize);
                            }
                        }
                    }
                    assert forall|a: int, c: int| 0 <= a < c < r@.len() implies #[trigger] r@[a]
                        != #[trigger] r@[c] && recency(h@[r@[a] as int]) >= recency(
                        h@[r@[c] as int],
                    ) by {
                        if c == r@.len() - 1 {
                            assert(r@[a] == old_r[a]);
                            assert(old_r.contains(r@[a]));
                            assert(recency(h@[old_r[a] as int]) >= recency(h@[old_r.last() as int]));
                        }
                    }
                }
            },
            None => {
                exhausted = true;
            },
        }
    }
    r
}

/// Dashboard figures of one user.
#[derive(Debug)]
pub struct DashboardStats {
    /// A placeholder for a streak: the number of sessions this week.
    pub current_streak: u64,
    pub workouts_this_week: u64,
    pub total_workouts: u64,
    /// How long ago the most recent session was, if there is one.
    pub last_workout: Option<String>,
    /// All-time volume in gram-repetitions, capped at `u128::MAX`.
    pub total_volume_g: u128,
}

/// Writes `relative_day_label(days)`.
pub fn relative_day(days: i64) -> (r: String)
    ensures
        r@ == relative_day_label(days as int),
{
    if days == 0 {
        "today".to_owned()
    } else if days == 1 {
        "yesterday".to_owned()
    } else {
        let mut s = String::new();
        push_signed_decimal(&mut s, days);
        s.append(" days ago");
        s
    }
}

/// The most recent summary of `owner`, if there is one.
pub fn latest_of_owner(h: &Vec<CompletedWorkout>, owner: &String) -> (r: Option<usize>)
    ensures
        r is None <==> owner_count(h@, owner@) == 0,
        r matches Some(k) ==> is_latest(h@, owner@, k as int),
{
    let mut best: Option<usize> = None;
    let mut best_key: i128 = 0;
    let mut i: usize = 0;
    while i < h.len()
        invariant
            i <= h@.len(),
            best is None <==> owner_count(h@.take(i as int), owner@) == 0,
            best is None ==> forall|j: int| 0 <= j < i ==> #[trigger] h@[j].user_id@ != owner@,
            best matches Some(k) ==> {
                &&& k < i
                &&& h@[k as int].user_id@ == owner@
                &&& best_key == recency(h@[k as int])
                &&& forall|j: int|
                    0 <= j < i && #[trigger] h@[j].user_id@ == owner@ ==> recency(h@[j]) < recency(
                        h@[k as int],
                    ) || (recency(h@[j]) == recency(h@[k as int]) && k <= j)
            },
        decreases h@.len() - i,
    {
        assert(h@.take(i as int + 1).drop_last() =~= h@.take(i as int));
        if h[i].user_id == *owner {
            let key: i128 = match parse_rfc3339_millis(h[i].completed_at.as_str()) {
                Some(t) => t as i128,
                None => i64::MIN as i128 - 1,
            };
            match best {
                Some(_) => {
                    if key > best_key {
                        best = Some(i);
                        best_key = key;
                    }
                },
                None => {
                    best = Some(i);
                    best_key = key;
                },
            }
        }
        i = i + 1;
    }
    assert(h@.take(i as int) =~= h@);
    best
}

/// Dashboard figures of `owner` from the summaries `h`, seen at `now_ms`.
pub fn dashboard_stats(h: &Vec<CompletedWorkout>, owner: &String, now_ms: i64) -> (r:
    DashboardStats)
    ensures
        r.total_workouts == owner_count(h@, owner@),
        r.workouts_this_week == week_count(h@, owner@, now_ms as int),
        r.current_streak == r.workouts_this_week,
        r.total_volume_g == if owner_volume(h@, owner@) > u128::MAX {
            u128::MAX as nat
        } else {
            owner_volume(h@, owner@)
        },
        r.last_workout is None <==> owner_count(h@, owner@) == 0,
        r.last_workout matches Some(label) ==> exists|k: int|
            is_latest(h@, owner@, k) && label@ == last_workout_label(
                h@[k].completed_at@,
                now_ms as int,
            ),
{
    let mut total: u64 = 0;
    let mut week: u64 = 0;
    let mut volume: u128 = 0;
    let mut i: usize = 0;
    while i < h.len()
        invariant
            i <= h@.len(),
            total == owner_count(h@.take(i as int), owner@),
            week == week_count(h@.take(i as int), owner@, now_ms as int),
            week <= total <= i,
            volume == if owner_volume(h@.take(i as int), owner@) > u128::MAX {
                u128::MAX as nat
            } else {
                owner_volume(h@.take(i as int), owner@)
            },
        decreases h@.len() - i,
    {
        assert(h@.take(i as int + 1).drop_last() =~= h@.take(i as int));
        if h[i].user_id == *owner {
            total = total + 1;
            let recent = match parse_rfc3339_millis(h[i].completed_at.as_str()) {
                Some(t) => t as i128 >= now_ms as i128 - WEEK_MS as i128,
                None => false,
            };
            if recent {
                week = week + 1;
            }
            let v = h[i].total_volume_g;
            if volume > u128::MAX - v {
                volume = u128::MAX;
            } else {
                volume = volume + v;
            }
        }
        i = i + 1;
    }
    assert(h@.take(i as int) =~= h@);
    let last_workout = match latest_of_owner(h, owner) {
        Some(k) => {
            let label = match parse_rfc3339_millis(h[k].completed_at.as_str()) {
                Some(t) => relative_day(elapsed_days(t, now_ms)),
                None => "today".to_owned(),
            };
            Some(label)
        },
        None => None,
    };
    let current_streak = if week > 0 {
        week
    } else {
        0
    };
    DashboardStats {
        current_streak,
        workouts_this_week: week,
        total_workouts: total,
        last_workout,
        total_volume_g: volume,
    }
}

} // verus!
