use pomodoro::cli::{task_from_input, StartArgs};
use pomodoro::habit::{Frequency, Habit};
use pomodoro::storage::JsonStorage;
use pomodoro::todo::Todo;

#[test]
fn start_args_default_schedule() {
    let a = StartArgs::default();
    assert_eq!(a.work, 25);
    assert_eq!(a.short_break, 5);
    assert_eq!(a.long_break, 15);
    assert_eq!(a.sessions, 6);
    assert_eq!(a.sessions_before_long, 4);
    assert!(!a.no_task);
}

#[test]
fn task_from_input_empty_title_means_no_task() {
    assert!(task_from_input(String::new(), None, 123).is_none());
}

#[test]
fn task_from_input_draws_id_from_the_clock() {
    let t = task_from_input("write".to_string(), Some("desc".to_string()), 1_700_000_321).unwrap();
    assert_eq!(t.id, 321);
    assert_eq!(t.title, "write");
    assert_eq!(t.description.as_deref(), Some("desc"));
    assert_eq!(t.created_at, 1_700_000_321);
    // the id goes through a 32-bit truncation before the final digits are taken
    let big = 0x1_0000_0000i64 + 12_345;
    let t = task_from_input("x".to_string(), None, big).unwrap();
    assert_eq!(t.id, 2_345);
}

#[test]
fn storage_paths_join_the_data_directory() {
    let st = JsonStorage::new("./data");
    assert_eq!(st.data_dir, "./data");
    assert_eq!(st.tasks_path(), "./data/tasks.json");
    assert_eq!(st.habits_path(), "./data/habits.json");
    assert_eq!(st.current_session_path(), "./data/current_session.json");
}

#[test]
fn habit_mark_done_raises_the_streak() {
    let mut h = Habit {
        name: "stretch".to_string(),
        streak: 2,
        completed_today: false,
        frequency: Frequency::Daily,
    };
    h.mark_done();
    assert_eq!(h.streak, 3);
    assert!(h.completed_today);
    assert_eq!(h.frequency, Frequency::Daily);
}

#[test]
fn todo_mark_done_sets_the_flag() {
    let mut td = Todo { title: "tidy".to_string(), completed_today: false };
    td.mark_done();
    assert!(td.completed_today);
    assert_eq!(td.title, "tidy");
}
