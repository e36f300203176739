use rustless::app_id::AppId;
use rustless::error::HostError;
use rustless::registry::{FunctionApp, Registry};
use rustless::status::FunctionAppStatus;

fn record(name: &str, id: u128, status: FunctionAppStatus, port: u16) -> FunctionApp {
    FunctionApp { name: name.to_string(), id: AppId { value: id }, status, created_at: 10, port }
}

#[test]
fn add_refuses_taken_name_and_id() {
    let mut reg = Registry::new();
    assert_eq!(reg.add_new_function_app("a", AppId { value: 1 }, 100), Ok(AppId { value: 1 }));
    assert_eq!(reg.add_new_function_app("a", AppId { value: 2 }, 100), Err(HostError::NameInUse));
    assert_eq!(reg.add_new_function_app("b", AppId { value: 1 }, 100), Err(HostError::IdInUse));
    assert_eq!(reg.len(), 1);
    let app = reg.get(AppId { value: 1 }).unwrap();
    assert_eq!((app.status, app.port, app.created_at), (FunctionAppStatus::Registered, 0, 100));
}

#[test]
fn lookups_by_name_and_id() {
    let mut reg = Registry::new();
    reg.add_new_function_app("a", AppId { value: 1 }, 1).unwrap();
    reg.add_new_function_app("b", AppId { value: 2 }, 2).unwrap();
    assert!(reg.is_name_in_use("b"));
    assert!(!reg.is_name_in_use("c"));
    assert_eq!(reg.get_function_id_from_name("b"), Ok(AppId { value: 2 }));
    assert_eq!(reg.get_function_id_from_name("c"), Err(HostError::NotFound));
    assert_eq!(reg.get_function_app_name(AppId { value: 1 }), Ok("a".to_string()));
    assert_eq!(reg.get_function_app_name(AppId { value: 3 }), Err(HostError::NotFound));
    assert_eq!(reg.position(AppId { value: 2 }), Some(1));
    assert_eq!(reg.position_of_name("a"), Some(0));
    let names: Vec<&str> = reg.get_all_apps().iter().map(|a| a.name.as_str()).collect();
    assert_eq!(names, vec!["a", "b"]);
}

#[test]
fn set_status_and_running() {
    let mut reg = Registry::new();
    let id = AppId { value: 5 };
    reg.add_new_function_app("a", id, 1).unwrap();
    assert_eq!(reg.set_function_app_running(id, 17000), Ok(()));
    let app = reg.get(id).unwrap();
    assert_eq!((app.status, app.port), (FunctionAppStatus::Running, 17000));
    assert_eq!(reg.set_function_app_status(id, FunctionAppStatus::Ready), Ok(()));
    let app = reg.get(id).unwrap();
    assert_eq!((app.status, app.port), (FunctionAppStatus::Ready, 0));
    // Setting the same status again changes nothing.
    assert_eq!(reg.set_function_app_status(id, FunctionAppStatus::Ready), Ok(()));
    assert_eq!(reg.get(id).unwrap().status, FunctionAppStatus::Ready);
    assert_eq!(
        reg.set_function_app_status(AppId { value: 6 }, FunctionAppStatus::Error),
        Err(HostError::NotFound)
    );
    assert_eq!(reg.set_function_app_running(AppId { value: 6 }, 1), Err(HostError::NotFound));
}

#[test]
fn records_load_when_consistent() {
    let records = vec![
        record("a", 1, FunctionAppStatus::Ready, 0),
        record("b", 2, FunctionAppStatus::Running, 16000),
    ];
    let reg = Registry::from_records(records).unwrap();
    assert_eq!(reg.len(), 2);
    assert_eq!(reg.get(AppId { value: 2 }).unwrap().port, 16000);
}

#[test]
fn records_that_break_the_rules_are_refused() {
    let dup_name = vec![
        record("a", 1, FunctionAppStatus::Ready, 0),
        record("a", 2, FunctionAppStatus::Ready, 0),
    ];
    assert!(matches!(Registry::from_records(dup_name), Err(HostError::CorruptRecord)));
    let dup_id = vec![
        record("a", 1, FunctionAppStatus::Ready, 0),
        record("b", 1, FunctionAppStatus::Ready, 0),
    ];
    assert!(matches!(Registry::from_records(dup_id), Err(HostError::CorruptRecord)));
    let stray_port = vec![record("a", 1, FunctionAppStatus::Ready, 80)];
    assert!(matches!(Registry::from_records(stray_port), Err(HostError::CorruptRecord)));
    let no_port = vec![record("a", 1, FunctionAppStatus::Running, 0)];
    assert!(matches!(Registry::from_records(no_port), Err(HostError::CorruptRecord)));
    let sentinel = vec![record("a", 1, FunctionAppStatus::NotRegistered, 0)];
    assert!(matches!(Registry::from_records(sentinel), Err(HostError::CorruptRecord)));
}

#[test]
fn rows_are_read_with_checks() {
    let id = "550e8400-e29b-41d4-a716-446655440000";
    let app = FunctionApp::from_row("demo".to_string(), id, 4, 1700000000, 18000).unwrap();
    assert_eq!(app.id, AppId { value: 0x550e8400e29b41d4a716446655440000 });
    assert_eq!(app.status, FunctionAppStatus::Running);
    assert_eq!((app.created_at, app.port), (1700000000, 18000));
    assert!(matches!(
        FunctionApp::from_row("d".to_string(), "nope", 1, 0, 0),
        Err(HostError::CorruptRecord)
    ));
    assert!(matches!(
        FunctionApp::from_row("d".to_string(), id, 6, 0, 0),
        Err(HostError::CorruptRecord)
    ));
    assert!(matches!(
        FunctionApp::from_row("d".to_string(), id, 1, -1, 0),
        Err(HostError::CorruptRecord)
    ));
    assert!(matches!(
        FunctionApp::from_row("d".to_string(), id, 1, 0, 70000),
        Err(HostError::CorruptRecord)
    ));
}
