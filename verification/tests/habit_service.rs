use pomodoro::error::ServiceError;
use pomodoro::models::habit::Habit;
use pomodoro::services::habit_service::HabitService;

fn sample_habit(id: u32, name: &str, streak: u32) -> Habit {
    Habit {
        id,
        name: name.to_string(),
        description: None,
        frequency: "daily".to_string(),
        streak,
        created_at: 10,
        last_completed_at: None,
    }
}

#[test]
fn create_habit_starts_with_empty_streak() {
    let mut svc = HabitService::new(Vec::new());
    let h = svc
        .create_habit_at("run".to_string(), Some("5k".to_string()), "daily".to_string(), 42)
        .unwrap();
    assert_eq!(h.id, 1);
    assert_eq!(h.name, "run");
    assert_eq!(h.description.as_deref(), Some("5k"));
    assert_eq!(h.frequency, "daily");
    assert_eq!(h.streak, 0);
    assert_eq!(h.created_at, 42);
    assert!(h.last_completed_at.is_none());
    assert_eq!(svc.habits.len(), 1);
}

#[test]
fn create_habit_numbers_above_largest_id() {
    let mut svc = HabitService::new(vec![sample_habit(2, "a", 0), sample_habit(9, "b", 1)]);
    let h = svc
        .create_habit_at("c".to_string(), None, "weekly".to_string(), 0)
        .unwrap();
    assert_eq!(h.id, 10);
}

#[test]
fn list_habits_hands_out_the_collection() {
    let svc = HabitService::new(vec![sample_habit(1, "a", 3)]);
    let hs = svc.list_habits().unwrap();
    assert_eq!(hs.len(), 1);
    assert_eq!(hs[0].streak, 3);
}

#[test]
fn delete_habit_removes_the_match() {
    let mut svc = HabitService::new(vec![sample_habit(1, "a", 0), sample_habit(2, "b", 0)]);
    assert!(svc.delete_habit(1).is_ok());
    assert_eq!(svc.habits.len(), 1);
    assert_eq!(svc.habits[0].name, "b");
}

#[test]
fn delete_habit_missing_id_reports_it() {
    let mut svc = HabitService::new(Vec::new());
    assert_eq!(svc.delete_habit(3), Err(ServiceError::HabitNotFound(3)));
}

#[test]
fn update_habit_increment_raises_streak_and_stamps() {
    let mut svc = HabitService::new(vec![sample_habit(5, "read", 6)]);
    let h = svc.update_habit_at(5, None, None, None, true, 777).unwrap();
    assert_eq!(h.streak, 7);
    assert_eq!(h.last_completed_at, Some(777));
    assert_eq!(h.name, "read");
    assert_eq!(svc.habits[0].streak, 7);
}

#[test]
fn update_habit_overwrites_some_fields_only() {
    let mut svc = HabitService::new(vec![sample_habit(5, "read", 6)]);
    let h = svc
        .update_habit_at(
            5,
            Some("read more".to_string()),
            None,
            Some("weekly".to_string()),
            false,
            777,
        )
        .unwrap();
    assert_eq!(h.name, "read more");
    assert_eq!(h.frequency, "weekly");
    assert_eq!(h.streak, 6);
    assert_eq!(h.last_completed_at, None);
}

#[test]
fn update_habit_missing_id_reports_it() {
    let mut svc = HabitService::new(vec![sample_habit(5, "read", 6)]);
    let r = svc.update_habit_at(6, None, None, None, false, 0);
    assert!(matches!(r, Err(ServiceError::HabitNotFound(6))));
    assert_eq!(svc.habits[0].streak, 6);
}

#[test]
fn update_habit_with_clock_stamps_nonnegative() {
    let mut svc = HabitService::new(vec![sample_habit(1, "a", 0)]);
    let h = svc.update_habit(1, None, None, None, true).unwrap();
    assert_eq!(h.streak, 1);
    assert!(h.last_completed_at.unwrap() > 1_600_000_000);
}
