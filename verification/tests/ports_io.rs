//! Port binding rules and the output port lifecycle.

use imageflow_ex::dispatch::job_add_input_buffer;
use imageflow_ex::dispatch::job_add_input_file;
use imageflow_ex::dispatch::job_add_output_buffer;
use imageflow_ex::dispatch::job_create;
use imageflow_ex::dispatch::job_get_output_buffer;
use imageflow_ex::dispatch::job_input_bytes;
use imageflow_ex::dispatch::job_record_output;
use imageflow_ex::errors::BridgeError;
use imageflow_ex::job::JobContext;
use imageflow_ex::registry::Registry;

fn fresh_job(reg: &mut Registry) -> u64 {
    job_create(reg).unwrap()
}

#[test]
fn rebinding_a_port_id_is_refused_for_every_variant_pair() {
    // Attaching two ports with the same id to the same job, regardless of
    // variant, yields PortAlreadyBound on the second attempt.
    let attach = |reg: &mut Registry, h: u64, which: u8| match which {
        0 => job_add_input_buffer(reg, h, 5, vec![1]),
        1 => job_add_input_file(reg, h, 5, "a.png".to_string()),
        _ => job_add_output_buffer(reg, h, 5),
    };
    for first in 0..3u8 {
        for second in 0..3u8 {
            let mut reg = Registry::new();
            let h = fresh_job(&mut reg);
            assert_eq!(attach(&mut reg, h, first), Ok(()));
            assert_eq!(attach(&mut reg, h, second), Err(BridgeError::PortAlreadyBound));
        }
    }
}

#[test]
fn same_port_id_on_different_jobs_is_fine() {
    let mut reg = Registry::new();
    let first = fresh_job(&mut reg);
    let second = fresh_job(&mut reg);
    assert_eq!(job_add_input_buffer(&mut reg, first, 0, vec![1]), Ok(()));
    assert_eq!(job_add_input_buffer(&mut reg, second, 0, vec![2]), Ok(()));
    assert_eq!(job_input_bytes(&reg, first, 0), Ok(&vec![1]));
    assert_eq!(job_input_bytes(&reg, second, 0), Ok(&vec![2]));
}

#[test]
fn output_port_before_any_write_is_not_ready() {
    let mut reg = Registry::new();
    let h = fresh_job(&mut reg);
    assert_eq!(job_add_output_buffer(&mut reg, h, 1), Ok(()));
    assert_eq!(job_get_output_buffer(&reg, h, 1), Err(BridgeError::OutputNotReady));
}

#[test]
fn output_port_after_one_write_yields_the_produced_bytes() {
    let mut reg = Registry::new();
    let h = fresh_job(&mut reg);
    assert_eq!(job_add_output_buffer(&mut reg, h, 1), Ok(()));
    assert_eq!(job_record_output(&mut reg, h, 1, vec![10, 20, 30]), Ok(()));
    assert_eq!(job_get_output_buffer(&reg, h, 1), Ok(vec![10, 20, 30]));
}

#[test]
fn output_port_reads_repeat_deterministically() {
    // The chosen policy: an output port is repeatedly readable; a second
    // retrieval yields the same bytes again, never PortNotFound.
    let mut reg = Registry::new();
    let h = fresh_job(&mut reg);
    assert_eq!(job_add_output_buffer(&mut reg, h, 1), Ok(()));
    assert_eq!(job_record_output(&mut reg, h, 1, vec![4, 5]), Ok(()));
    let first = job_get_output_buffer(&reg, h, 1);
    let second = job_get_output_buffer(&reg, h, 1);
    assert_eq!(first, Ok(vec![4, 5]));
    assert_eq!(second, Ok(vec![4, 5]));
    assert_eq!(first, second);
}

#[test]
fn reading_an_unbound_port_is_port_not_found() {
    let mut reg = Registry::new();
    let h = fresh_job(&mut reg);
    assert_eq!(job_get_output_buffer(&reg, h, 9), Err(BridgeError::PortNotFound));
    assert_eq!(job_record_output(&mut reg, h, 9, vec![1]), Err(BridgeError::PortNotFound));
    assert_eq!(job_input_bytes(&reg, h, 9), Err(BridgeError::PortNotFound));
}

#[test]
fn wrong_variant_is_port_type_mismatch() {
    let mut reg = Registry::new();
    let h = fresh_job(&mut reg);
    assert_eq!(job_add_input_buffer(&mut reg, h, 0, vec![1]), Ok(()));
    assert_eq!(job_add_output_buffer(&mut reg, h, 1), Ok(()));
    // Reading an input port as output, writing it as output, and reading
    // an output port as input are all variant mismatches.
    assert_eq!(job_get_output_buffer(&reg, h, 0), Err(BridgeError::PortTypeMismatch));
    assert_eq!(job_record_output(&mut reg, h, 0, vec![2]), Err(BridgeError::PortTypeMismatch));
    assert_eq!(job_input_bytes(&reg, h, 1), Err(BridgeError::PortTypeMismatch));
}

#[test]
fn empty_input_file_path_is_invalid() {
    let mut reg = Registry::new();
    let h = fresh_job(&mut reg);
    assert_eq!(
        job_add_input_file(&mut reg, h, 0, String::new()),
        Err(BridgeError::InvalidPath)
    );
    // The id stays free: a later attach with a proper path succeeds.
    assert_eq!(job_add_input_file(&mut reg, h, 0, "in.png".to_string()), Ok(()));
    // A bound id is reported before the path is looked at.
    assert_eq!(
        job_add_input_file(&mut reg, h, 0, String::new()),
        Err(BridgeError::PortAlreadyBound)
    );
}

#[test]
fn input_bytes_cross_unchanged() {
    // Round-trip: the engine collaborator reads exactly the attached
    // bytes, byte for byte.
    let mut reg = Registry::new();
    let h = fresh_job(&mut reg);
    let payload: Vec<u8> = (0..=255u16).map(|b| b as u8).collect();
    assert_eq!(job_add_input_buffer(&mut reg, h, 0, payload.clone()), Ok(()));
    assert_eq!(job_input_bytes(&reg, h, 0), Ok(&payload));
}

#[test]
fn job_context_alone_follows_the_same_port_rules() {
    let mut job = JobContext::new();
    assert_eq!(job.add_input_buffer(0, vec![1, 2]), Ok(()));
    assert_eq!(job.add_output_buffer(0), Err(BridgeError::PortAlreadyBound));
    assert_eq!(job.add_output_buffer(1), Ok(()));
    assert_eq!(job.get_output_buffer(1), Err(BridgeError::OutputNotReady));
    assert_eq!(job.record_output(1, vec![3]), Ok(()));
    assert_eq!(job.get_output_buffer(1), Ok(vec![3]));
    assert_eq!(job.input_bytes(0), Ok(&vec![1, 2]));
}
