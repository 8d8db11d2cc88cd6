use socket_inventory::process_control::{get_process_path, kill_process_result};

#[test]
fn ended_process_is_reported_as_success() {
    assert_eq!(kill_process_result(42, Some(true)), Ok(()));
    assert_eq!(kill_process_result(0, Some(true)), Ok(()));
}

#[test]
fn missing_process_is_reported_by_its_pid() {
    assert_eq!(
        kill_process_result(42, None),
        Err("Process with PID 42 not found".to_string())
    );
    assert_eq!(kill_process_result(0, None), Err("Process with PID 0 not found".to_string()));
    assert_eq!(
        kill_process_result(4294967295, None),
        Err("Process with PID 4294967295 not found".to_string())
    );
}

#[test]
fn process_that_could_not_be_ended_is_reported_by_its_pid() {
    assert_eq!(
        kill_process_result(1, Some(false)),
        Err("Failed to kill process with PID 1".to_string())
    );
    assert_eq!(
        kill_process_result(100200, Some(false)),
        Err("Failed to kill process with PID 100200".to_string())
    );
}

#[test]
fn no_path_is_known_for_any_process() {
    assert_eq!(get_process_path(0), "");
    assert_eq!(get_process_path(1), "");
    assert_eq!(get_process_path(u32::MAX), "");
}
