use pomodoro::error::ServiceError;
use pomodoro::models::task::Task;
use pomodoro::services::task_service::TaskService;

fn sample_task(id: u32, title: &str) -> Task {
    Task {
        id,
        title: title.to_string(),
        description: None,
        created_at: 50,
        completed: false,
        completed_at: None,
    }
}

#[test]
fn create_task_on_empty_store_gets_id_one() {
    let mut svc = TaskService::new(Vec::new());
    let t = svc
        .create_task_at("write report".to_string(), Some("for monday".to_string()), 1700000000)
        .unwrap();
    assert_eq!(t.id, 1);
    assert_eq!(t.title, "write report");
    assert_eq!(t.description.as_deref(), Some("for monday"));
    assert_eq!(t.created_at, 1700000000);
    assert!(!t.completed);
    assert!(t.completed_at.is_none());
    assert_eq!(svc.tasks.len(), 1);
    assert_eq!(svc.tasks[0].id, 1);
}

#[test]
fn create_task_numbers_above_largest_id() {
    let mut svc = TaskService::new(vec![sample_task(7, "a"), sample_task(3, "b")]);
    let t = svc.create_task_at("c".to_string(), None, 0).unwrap();
    assert_eq!(t.id, 8);
    assert_eq!(svc.tasks.len(), 3);
}

#[test]
fn create_task_stamps_with_clock() {
    let mut svc = TaskService::new(Vec::new());
    let t = svc.create_task("now".to_string(), None).unwrap();
    assert!(t.created_at >= 0);
    // a real clock reads far past the epoch
    assert!(t.created_at > 1_600_000_000);
}

#[test]
fn list_tasks_hands_out_the_collection() {
    let svc = TaskService::new(vec![sample_task(1, "a"), sample_task(2, "b")]);
    let ts = svc.list_tasks().unwrap();
    assert_eq!(ts.len(), 2);
    assert_eq!(ts[0].id, 1);
    assert_eq!(ts[1].title, "b");
}

#[test]
fn delete_task_removes_first_match() {
    let mut svc = TaskService::new(vec![sample_task(1, "a"), sample_task(2, "b"), sample_task(2, "c")]);
    assert!(svc.delete_task(2).is_ok());
    assert_eq!(svc.tasks.len(), 2);
    assert_eq!(svc.tasks[0].title, "a");
    assert_eq!(svc.tasks[1].title, "c");
}

#[test]
fn delete_task_missing_id_reports_it() {
    let mut svc = TaskService::new(vec![sample_task(1, "a")]);
    assert_eq!(svc.delete_task(9), Err(ServiceError::TaskNotFound(9)));
    assert_eq!(svc.tasks.len(), 1);
}

#[test]
fn update_task_overwrites_some_fields_only() {
    let mut svc = TaskService::new(vec![sample_task(4, "old title")]);
    let t = svc
        .update_task_at(4, None, Some("details".to_string()), None, 999)
        .unwrap();
    assert_eq!(t.id, 4);
    assert_eq!(t.title, "old title");
    assert_eq!(t.description.as_deref(), Some("details"));
    assert_eq!(t.created_at, 50);
    assert!(!t.completed);
    assert!(t.completed_at.is_none());
    assert_eq!(svc.tasks[0].description.as_deref(), Some("details"));
}

#[test]
fn update_task_completing_stamps_the_instant() {
    let mut svc = TaskService::new(vec![sample_task(4, "t")]);
    let t = svc.update_task_at(4, None, None, Some(true), 1234).unwrap();
    assert!(t.completed);
    assert_eq!(t.completed_at, Some(1234));
}

#[test]
fn update_task_uncompleting_clears_the_instant() {
    let mut svc = TaskService::new(vec![Task {
        completed: true,
        completed_at: Some(77),
        ..sample_task(4, "t")
    }]);
    let t = svc.update_task_at(4, None, None, Some(false), 1234).unwrap();
    assert!(!t.completed);
    assert_eq!(t.completed_at, None);
}

#[test]
fn update_task_missing_id_reports_it() {
    let mut svc = TaskService::new(Vec::new());
    let r = svc.update_task_at(5, Some("x".to_string()), None, None, 0);
    assert!(matches!(r, Err(ServiceError::TaskNotFound(5))));
}
