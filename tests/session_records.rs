use woplanner::{ActiveWorkout, CompletedSet, CompletedWorkout};

// Loads are kept in grams and volumes in gram-repetitions; the expected
// values below are in kilograms.

#[test]
fn test_completed_set_weight_display_with_weight() {
    let set = CompletedSet {
        id: "test-id".to_string(),
        active_workout_id: "workout-id".to_string(),
        exercise_id: "exercise-id".to_string(),
        set_number: 1,
        weight_g: Some(100_500),
        reps: 10,
        notes: None,
        completed_at: "2025-01-01T12:00:00Z".to_string(),
        created_at: "2025-01-01T12:00:00Z".to_string(),
    };
    assert_eq!(set.weight_display(), "100.5kg");
}

#[test]
fn test_completed_set_weight_display_bodyweight() {
    let set = CompletedSet {
        id: "test-id".to_string(),
        active_workout_id: "workout-id".to_string(),
        exercise_id: "exercise-id".to_string(),
        set_number: 1,
        weight_g: None,
        reps: 15,
        notes: None,
        completed_at: "2025-01-01T12:00:00Z".to_string(),
        created_at: "2025-01-01T12:00:00Z".to_string(),
    };
    assert_eq!(set.weight_display(), "Bodyweight");
}

#[test]
fn test_completed_set_weight_display_zero() {
    let set = CompletedSet {
        id: "test-id".to_string(),
        active_workout_id: "workout-id".to_string(),
        exercise_id: "exercise-id".to_string(),
        set_number: 1,
        weight_g: Some(0),
        reps: 10,
        notes: None,
        completed_at: "2025-01-01T12:00:00Z".to_string(),
        created_at: "2025-01-01T12:00:00Z".to_string(),
    };
    assert_eq!(set.weight_display(), "0.0kg");
}

#[test]
fn test_completed_set_display() {
    let set = CompletedSet {
        id: "test-id".to_string(),
        active_workout_id: "workout-id".to_string(),
        exercise_id: "exercise-id".to_string(),
        set_number: 1,
        weight_g: Some(80_000),
        reps: 12,
        notes: None,
        completed_at: "2025-01-01T12:00:00Z".to_string(),
        created_at: "2025-01-01T12:00:00Z".to_string(),
    };
    assert_eq!(set.set_display(), "80.0kg x 12");
}

#[test]
fn test_completed_set_display_bodyweight() {
    let set = CompletedSet {
        id: "test-id".to_string(),
        active_workout_id: "workout-id".to_string(),
        exercise_id: "exercise-id".to_string(),
        set_number: 1,
        weight_g: None,
        reps: 20,
        notes: None,
        completed_at: "2025-01-01T12:00:00Z".to_string(),
        created_at: "2025-01-01T12:00:00Z".to_string(),
    };
    assert_eq!(set.set_display(), "Bodyweight x 20");
}

#[test]
fn test_completed_set_volume_with_weight() {
    let set = CompletedSet {
        id: "test-id".to_string(),
        active_workout_id: "workout-id".to_string(),
        exercise_id: "exercise-id".to_string(),
        set_number: 1,
        weight_g: Some(50_000),
        reps: 10,
        notes: None,
        completed_at: "2025-01-01T12:00:00Z".to_string(),
        created_at: "2025-01-01T12:00:00Z".to_string(),
    };
    assert_eq!(set.volume() as f64 / 1000.0, 500.0);
}

#[test]
fn test_completed_set_volume_bodyweight() {
    let set = CompletedSet {
        id: "test-id".to_string(),
        active_workout_id: "workout-id".to_string(),
        exercise_id: "exercise-id".to_string(),
        set_number: 1,
        weight_g: None,
        reps: 10,
        notes: None,
        completed_at: "2025-01-01T12:00:00Z".to_string(),
        created_at: "2025-01-01T12:00:00Z".to_string(),
    };
    assert_eq!(set.volume() as f64 / 1000.0, 0.0);
}

#[test]
fn test_completed_set_volume_zero_reps() {
    let set = CompletedSet {
        id: "test-id".to_string(),
        active_workout_id: "workout-id".to_string(),
        exercise_id: "exercise-id".to_string(),
        set_number: 1,
        weight_g: Some(100_000),
        reps: 0,
        notes: None,
        completed_at: "2025-01-01T12:00:00Z".to_string(),
        created_at: "2025-01-01T12:00:00Z".to_string(),
    };
    assert_eq!(set.volume() as f64 / 1000.0, 0.0);
}

#[test]
fn test_completed_workout_duration_display_minutes() {
    let workout = CompletedWorkout {
        id: "test-id".to_string(),
        user_id: "user-id".to_string(),
        workout_id: "workout-id".to_string(),
        started_at: "2025-01-01T12:00:00Z".to_string(),
        completed_at: "2025-01-01T12:45:00Z".to_string(),
        total_duration_minutes: 45,
        total_sets: 10,
        total_volume_g: 1_000_000,
        notes: None,
        created_at: "2025-01-01T12:45:00Z".to_string(),
    };
    assert_eq!(workout.duration_display(), "45m");
}

#[test]
fn test_completed_workout_duration_display_hours() {
    let workout = CompletedWorkout {
        id: "test-id".to_string(),
        user_id: "user-id".to_string(),
        workout_id: "workout-id".to_string(),
        started_at: "2025-01-01T12:00:00Z".to_string(),
        completed_at: "2025-01-01T14:30:00Z".to_string(),
        total_duration_minutes: 150,
        total_sets: 10,
        total_volume_g: 1_000_000,
        notes: None,
        created_at: "2025-01-01T14:30:00Z".to_string(),
    };
    assert_eq!(workout.duration_display(), "2h 30m");
}

#[test]
fn test_completed_workout_duration_display_exact_hour() {
    let workout = CompletedWorkout {
        id: "test-id".to_string(),
        user_id: "user-id".to_string(),
        workout_id: "workout-id".to_string(),
        started_at: "2025-01-01T12:00:00Z".to_string(),
        completed_at: "2025-01-01T13:00:00Z".to_string(),
        total_duration_minutes: 60,
        total_sets: 10,
        total_volume_g: 1_000_000,
        notes: None,
        created_at: "2025-01-01T13:00:00Z".to_string(),
    };
    assert_eq!(workout.duration_display(), "1h 0m");
}

#[test]
fn test_completed_workout_average_volume_per_set() {
    let workout = CompletedWorkout {
        id: "test-id".to_string(),
        user_id: "user-id".to_string(),
        workout_id: "workout-id".to_string(),
        started_at: "2025-01-01T12:00:00Z".to_string(),
        completed_at: "2025-01-01T13:00:00Z".to_string(),
        total_duration_minutes: 60,
        total_sets: 10,
        total_volume_g: 1_000_000,
        notes: None,
        created_at: "2025-01-01T13:00:00Z".to_string(),
    };
    assert_eq!(workout.average_volume_per_set() as f64 / 1000.0, 100.0);
}

#[test]
fn test_completed_workout_average_volume_per_set_zero_sets() {
    let workout = CompletedWorkout {
        id: "test-id".to_string(),
        user_id: "user-id".to_string(),
        workout_id: "workout-id".to_string(),
        started_at: "2025-01-01T12:00:00Z".to_string(),
        completed_at: "2025-01-01T13:00:00Z".to_string(),
        total_duration_minutes: 60,
        total_sets: 0,
        total_volume_g: 0,
        notes: None,
        created_at: "2025-01-01T13:00:00Z".to_string(),
    };
    assert_eq!(workout.average_volume_per_set() as f64 / 1000.0, 0.0);
}

#[test]
fn test_completed_workout_average_volume_per_set_fractional() {
    let workout = CompletedWorkout {
        id: "test-id".to_string(),
        user_id: "user-id".to_string(),
        workout_id: "workout-id".to_string(),
        started_at: "2025-01-01T12:00:00Z".to_string(),
        completed_at: "2025-01-01T13:00:00Z".to_string(),
        total_duration_minutes: 60,
        total_sets: 3,
        total_volume_g: 100_000,
        notes: None,
        created_at: "2025-01-01T13:00:00Z".to_string(),
    };
    assert!((workout.average_volume_per_set() as f64 / 1000.0 - 33.333_332).abs() < 0.01);
}

#[test]
fn test_active_workout_duration_display_minutes() {
    let now = chrono::Utc::now();
    let started_45_min_ago = now - chrono::Duration::minutes(45);
    let active_workout = ActiveWorkout {
        id: "test-id".to_string(),
        user_id: "user-id".to_string(),
        workout_id: "workout-id".to_string(),
        started_at: started_45_min_ago.to_rfc3339(),
        created_at: started_45_min_ago.to_rfc3339(),
    };
    let display = active_workout.duration_display();
    assert!(display.contains("45m") || display.contains("44m") || display.contains("46m"));
}

#[test]
fn test_active_workout_duration_display_hours() {
    let now = chrono::Utc::now();
    let started_2h_30m_ago = now - chrono::Duration::minutes(150);
    let active_workout = ActiveWorkout {
        id: "test-id".to_string(),
        user_id: "user-id".to_string(),
        workout_id: "workout-id".to_string(),
        started_at: started_2h_30m_ago.to_rfc3339(),
        created_at: started_2h_30m_ago.to_rfc3339(),
    };
    let display = active_workout.duration_display();
    assert!(display.contains("2h") && display.contains("30m") || display.contains("2h 29m"));
}

#[test]
fn test_active_workout_duration_display_invalid_timestamp() {
    let active_workout = ActiveWorkout {
        id: "test-id".to_string(),
        user_id: "user-id".to_string(),
        workout_id: "workout-id".to_string(),
        started_at: "invalid-timestamp".to_string(),
        created_at: "invalid-timestamp".to_string(),
    };
    assert_eq!(active_workout.duration_display(), "0m");
}

#[test]
fn test_active_workout_duration_minutes_valid() {
    let now = chrono::Utc::now();
    let started_30_min_ago = now - chrono::Duration::minutes(30);
    let active_workout = ActiveWorkout {
        id: "test-id".to_string(),
        user_id: "user-id".to_string(),
        workout_id: "workout-id".to_string(),
        started_at: started_30_min_ago.to_rfc3339(),
        created_at: started_30_min_ago.to_rfc3339(),
    };
    let duration = active_workout.duration_minutes();
    assert!(duration.is_some());
    let mins = duration.unwrap();
    assert!(mins >= 29 && mins <= 31);
}

#[test]
fn test_active_workout_duration_minutes_invalid() {
    let active_workout = ActiveWorkout {
        id: "test-id".to_string(),
        user_id: "user-id".to_string(),
        workout_id: "workout-id".to_string(),
        started_at: "invalid-timestamp".to_string(),
        created_at: "invalid-timestamp".to_string(),
    };
    assert!(active_workout.duration_minutes().is_none());
}
