//! Handle lifecycle: create, destroy, and the registry's accounting.

use imageflow_ex::dispatch::job_add_input_buffer;
use imageflow_ex::dispatch::job_add_output_buffer;
use imageflow_ex::dispatch::job_create;
use imageflow_ex::dispatch::job_destroy;
use imageflow_ex::dispatch::job_get_output_buffer;
use imageflow_ex::dispatch::job_input_bytes;
use imageflow_ex::dispatch::job_message_begin;
use imageflow_ex::dispatch::job_message_complete;
use imageflow_ex::dispatch::job_record_output;
use imageflow_ex::errors::BridgeError;
use imageflow_ex::registry::Registry;

#[test]
fn registry_starts_empty() {
    let reg = Registry::new();
    assert!(!reg.contains(0));
    assert!(reg.lookup(0).is_none());
}

#[test]
fn create_issues_live_handle() {
    let mut reg = Registry::new();
    let h = job_create(&mut reg).unwrap();
    assert!(reg.contains(h));
    assert!(reg.lookup(h).is_some());
}

#[test]
fn created_handles_are_distinct() {
    // Two callers each create a job; they receive two distinct handles.
    let mut reg = Registry::new();
    let first = job_create(&mut reg).unwrap();
    let second = job_create(&mut reg).unwrap();
    assert_ne!(first, second);
    assert!(reg.contains(first));
    assert!(reg.contains(second));
}

#[test]
fn destroying_one_handle_leaves_the_other_usable() {
    let mut reg = Registry::new();
    let first = job_create(&mut reg).unwrap();
    let second = job_create(&mut reg).unwrap();
    assert_eq!(job_destroy(&mut reg, first), Ok(()));
    assert!(!reg.contains(first));
    // The surviving job still takes ports and produces output.
    assert_eq!(job_add_input_buffer(&mut reg, second, 0, vec![1, 2, 3]), Ok(()));
    assert_eq!(job_add_output_buffer(&mut reg, second, 1), Ok(()));
    assert_eq!(job_record_output(&mut reg, second, 1, vec![7]), Ok(()));
    assert_eq!(job_get_output_buffer(&reg, second, 1), Ok(vec![7]));
}

#[test]
fn registry_holds_exactly_the_undestroyed_handles() {
    // A sequence of creates and destroys: afterwards the registry holds
    // exactly the handles created and not yet destroyed.
    let mut reg = Registry::new();
    let a = job_create(&mut reg).unwrap();
    let b = job_create(&mut reg).unwrap();
    let c = job_create(&mut reg).unwrap();
    assert_eq!(job_destroy(&mut reg, b), Ok(()));
    let d = job_create(&mut reg).unwrap();
    assert!(reg.contains(a));
    assert!(!reg.contains(b));
    assert!(reg.contains(c));
    assert!(reg.contains(d));
    assert_eq!(job_destroy(&mut reg, a), Ok(()));
    assert_eq!(job_destroy(&mut reg, c), Ok(()));
    assert_eq!(job_destroy(&mut reg, d), Ok(()));
    assert!(!reg.contains(a));
    assert!(!reg.contains(c));
    assert!(!reg.contains(d));
}

#[test]
fn destroyed_handle_is_never_recycled() {
    let mut reg = Registry::new();
    let first = job_create(&mut reg).unwrap();
    assert_eq!(job_destroy(&mut reg, first), Ok(()));
    let second = job_create(&mut reg).unwrap();
    assert_ne!(first, second);
    assert!(!reg.contains(first));
}

#[test]
fn every_operation_on_destroyed_handle_reports_handle_not_found() {
    let mut reg = Registry::new();
    let h = job_create(&mut reg).unwrap();
    assert_eq!(job_add_output_buffer(&mut reg, h, 1), Ok(()));
    assert_eq!(job_destroy(&mut reg, h), Ok(()));

    assert_eq!(job_destroy(&mut reg, h), Err(BridgeError::HandleNotFound));
    assert_eq!(
        job_add_input_buffer(&mut reg, h, 0, vec![1]),
        Err(BridgeError::HandleNotFound)
    );
    assert_eq!(
        imageflow_ex::dispatch::job_add_input_file(&mut reg, h, 0, "in.png".to_string()),
        Err(BridgeError::HandleNotFound)
    );
    assert_eq!(job_add_output_buffer(&mut reg, h, 2), Err(BridgeError::HandleNotFound));
    assert_eq!(job_get_output_buffer(&reg, h, 1), Err(BridgeError::HandleNotFound));
    assert_eq!(job_record_output(&mut reg, h, 1, vec![1]), Err(BridgeError::HandleNotFound));
    assert_eq!(job_input_bytes(&reg, h, 0), Err(BridgeError::HandleNotFound));
    assert!(matches!(
        job_message_begin(&reg, h, "v1/execute".to_string(), "{}".to_string()),
        Err(BridgeError::HandleNotFound)
    ));
    assert_eq!(
        job_message_complete(&reg, h, Ok("{}".to_string())),
        Err(BridgeError::HandleNotFound)
    );
}

#[test]
fn operations_on_never_created_handle_report_handle_not_found() {
    let mut reg = Registry::new();
    assert_eq!(job_destroy(&mut reg, 42), Err(BridgeError::HandleNotFound));
    assert_eq!(job_get_output_buffer(&reg, 42, 0), Err(BridgeError::HandleNotFound));
}
