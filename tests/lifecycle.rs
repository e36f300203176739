use rustless::app_id::AppId;
use rustless::error::{ErrorClass, HostError};
use rustless::lifecycle::{
    begin_start, begin_upload, finish_start, finish_upload, get_function_app_status, register,
    StartStep,
};
use rustless::registry::Registry;
use rustless::stager::source_root;
use rustless::status::FunctionAppStatus;

fn paths(items: &[&str]) -> Vec<String> {
    items.iter().map(|s| s.to_string()).collect()
}

fn stored(reg: &Registry, id: AppId) -> (FunctionAppStatus, u16) {
    let app = reg.get(id).expect("app is registered");
    (app.status, app.port)
}

/// Runs an upload whose staging saw `members`, with a build that succeeds.
fn upload(reg: &mut Registry, id: AppId, members: &[&str]) -> Result<(), HostError> {
    begin_upload(reg, id)?;
    let built = source_root(&paths(members)).map(|_| ());
    finish_upload(reg, id, built)
}

#[test]
fn demo_runs_after_upload_and_start() {
    let mut reg = Registry::new();
    let id = register(&mut reg, "demo").unwrap();
    assert_eq!(stored(&reg, id), (FunctionAppStatus::Registered, 0));

    upload(&mut reg, id, &["demo/", "demo/Cargo.toml", "demo/src/main.rs"]).unwrap();
    assert_eq!(get_function_app_status(&mut reg, id, false), FunctionAppStatus::Ready);

    assert_eq!(begin_start(&mut reg, id, false), Ok(StartStep::Launch));
    let port = finish_start(&mut reg, id, Ok(18234)).unwrap();
    assert_eq!(port, 18234);
    assert!(port >= 1024);

    for _ in 0..3 {
        assert_eq!(get_function_app_status(&mut reg, id, true), FunctionAppStatus::Running);
        assert_eq!(stored(&reg, id), (FunctionAppStatus::Running, 18234));
    }
    // A second start is already satisfied.
    assert_eq!(begin_start(&mut reg, id, true), Ok(StartStep::AlreadyRunning(18234)));

    // Stopped from outside: the next read heals the stored status.
    assert_eq!(get_function_app_status(&mut reg, id, false), FunctionAppStatus::Ready);
    assert_eq!(stored(&reg, id), (FunctionAppStatus::Ready, 0));
}

#[test]
fn demo_registers_once() {
    let mut reg = Registry::new();
    let first = register(&mut reg, "demo");
    assert!(first.is_ok());
    let second = register(&mut reg, "demo");
    assert_eq!(second, Err(HostError::NameInUse));
    assert_eq!(second.unwrap_err().class(), ErrorClass::Conflict);
    let named: Vec<_> = reg.get_all_apps().iter().filter(|a| a.name == "demo").collect();
    assert_eq!(named.len(), 1);
    assert_eq!(reg.len(), 1);
    assert_eq!(reg.get_function_id_from_name("demo"), Ok(first.unwrap()));
}

#[test]
fn start_while_building_is_refused() {
    let mut reg = Registry::new();
    let id = register(&mut reg, "demo").unwrap();
    assert_eq!(begin_upload(&mut reg, id), Ok("demo".to_string()));
    let r = begin_start(&mut reg, id, false);
    assert_eq!(r, Err(HostError::NotBuildable(FunctionAppStatus::Building)));
    assert_eq!(r.unwrap_err().class(), ErrorClass::StateConflict);
    assert_eq!(stored(&reg, id), (FunctionAppStatus::Building, 0));
    assert_eq!(get_function_app_status(&mut reg, id, true), FunctionAppStatus::Building);
}

#[test]
fn two_top_level_folders_fail_the_upload() {
    let mut reg = Registry::new();
    let id = register(&mut reg, "demo").unwrap();
    let r = upload(&mut reg, id, &["one/", "one/main.rs", "two/", "two/main.rs"]);
    assert_eq!(r, Err(HostError::MalformedLayout));
    assert_eq!(stored(&reg, id), (FunctionAppStatus::Error, 0));
}

#[test]
fn start_is_refused_outside_ready_and_running() {
    let mut reg = Registry::new();
    let id = register(&mut reg, "demo").unwrap();
    assert_eq!(
        begin_start(&mut reg, id, false),
        Err(HostError::NotBuildable(FunctionAppStatus::Registered))
    );
    assert_eq!(stored(&reg, id), (FunctionAppStatus::Registered, 0));

    let _ = upload(&mut reg, id, &[]);
    assert_eq!(stored(&reg, id), (FunctionAppStatus::Error, 0));
    assert_eq!(
        begin_start(&mut reg, id, false),
        Err(HostError::NotBuildable(FunctionAppStatus::Error))
    );
    assert_eq!(stored(&reg, id), (FunctionAppStatus::Error, 0));

    let unknown = AppId { value: 42 };
    assert_eq!(
        begin_start(&mut reg, unknown, false),
        Err(HostError::NotBuildable(FunctionAppStatus::NotRegistered))
    );
    assert_eq!(
        finish_start(&mut reg, id, Ok(20000)),
        Err(HostError::NotBuildable(FunctionAppStatus::Error))
    );
    assert_eq!(stored(&reg, id), (FunctionAppStatus::Error, 0));
}

#[test]
fn upload_ends_ready_or_error() {
    let mut reg = Registry::new();
    let id = register(&mut reg, "demo").unwrap();
    upload(&mut reg, id, &["demo/main.rs"]).unwrap();
    assert_eq!(stored(&reg, id).0, FunctionAppStatus::Ready);

    begin_upload(&mut reg, id).unwrap();
    let failed = finish_upload(&mut reg, id, Err(HostError::BuildFailed("no".to_string())));
    assert_eq!(failed, Err(HostError::BuildFailed("no".to_string())));
    assert_eq!(stored(&reg, id).0, FunctionAppStatus::Error);

    begin_upload(&mut reg, id).unwrap();
    let corrupt = finish_upload(&mut reg, id, Err(HostError::CorruptArchive));
    assert_eq!(corrupt, Err(HostError::CorruptArchive));
    assert_eq!(stored(&reg, id).0, FunctionAppStatus::Error);

    // Re-upload after a failure is allowed.
    upload(&mut reg, id, &["demo/"]).unwrap();
    assert_eq!(stored(&reg, id).0, FunctionAppStatus::Ready);

    let unknown = AppId { value: 1 };
    assert_eq!(begin_upload(&mut reg, unknown), Err(HostError::NotFound));
    assert_eq!(finish_upload(&mut reg, unknown, Ok(())), Err(HostError::NotFound));
}

#[test]
fn status_read_twice_without_image_is_ready() {
    let mut reg = Registry::new();
    let id = register(&mut reg, "demo").unwrap();
    upload(&mut reg, id, &["demo/"]).unwrap();
    begin_start(&mut reg, id, false).unwrap();
    finish_start(&mut reg, id, Ok(15001)).unwrap();
    assert_eq!(get_function_app_status(&mut reg, id, false), FunctionAppStatus::Ready);
    assert_eq!(get_function_app_status(&mut reg, id, false), FunctionAppStatus::Ready);
    assert_eq!(stored(&reg, id), (FunctionAppStatus::Ready, 0));
    assert_eq!(
        get_function_app_status(&mut reg, AppId { value: 9 }, false),
        FunctionAppStatus::NotRegistered
    );
}

#[test]
fn failed_launch_leaves_app_ready() {
    let mut reg = Registry::new();
    let id = register(&mut reg, "demo").unwrap();
    upload(&mut reg, id, &["demo/"]).unwrap();
    assert_eq!(begin_start(&mut reg, id, false), Ok(StartStep::Launch));
    let failed = finish_start(&mut reg, id, Err(HostError::LaunchFailed("Error".to_string())));
    assert_eq!(failed, Err(HostError::LaunchFailed("Error".to_string())));
    assert_eq!(stored(&reg, id), (FunctionAppStatus::Ready, 0));
    assert_eq!(finish_start(&mut reg, id, Ok(0)), Err(HostError::NoFreePort));
    assert_eq!(stored(&reg, id), (FunctionAppStatus::Ready, 0));
}

#[test]
fn register_records_name_and_time() {
    let mut reg = Registry::new();
    let id = register(&mut reg, "alpha").unwrap();
    let app = reg.get(id).unwrap();
    assert_eq!(app.name, "alpha");
    assert_eq!(app.status, FunctionAppStatus::Registered);
    assert!(app.created_at > 1_600_000_000);
    assert_eq!(reg.get_function_app_name(id), Ok("alpha".to_string()));
}

#[test]
fn upload_while_building_is_refused() {
    let mut reg = Registry::new();
    let id = register(&mut reg, "demo").unwrap();
    begin_upload(&mut reg, id).unwrap();
    assert_eq!(
        begin_upload(&mut reg, id),
        Err(HostError::NotBuildable(FunctionAppStatus::Building))
    );
    assert_eq!(stored(&reg, id), (FunctionAppStatus::Building, 0));
}

#[test]
fn upload_to_running_app_rebuilds() {
    let mut reg = Registry::new();
    let id = register(&mut reg, "demo").unwrap();
    upload(&mut reg, id, &["demo/"]).unwrap();
    begin_start(&mut reg, id, false).unwrap();
    finish_start(&mut reg, id, Ok(16000)).unwrap();
    assert_eq!(begin_upload(&mut reg, id), Ok("demo".to_string()));
    assert_eq!(stored(&reg, id), (FunctionAppStatus::Building, 0));
    finish_upload(&mut reg, id, Ok(())).unwrap();
    assert_eq!(stored(&reg, id), (FunctionAppStatus::Ready, 0));
}
