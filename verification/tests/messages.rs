//! The message protocol and the full engine scenario.
//!
//! The engine collaborator is stubbed: it reads input ports through the
//! dispatch layer, writes output ports back through it, and answers with
//! its own JSON. The bridge core must forward both directions unchanged.

use imageflow_ex::dispatch::job_add_input_buffer;
use imageflow_ex::dispatch::job_add_output_buffer;
use imageflow_ex::dispatch::job_create;
use imageflow_ex::dispatch::job_destroy;
use imageflow_ex::dispatch::job_get_output_buffer;
use imageflow_ex::dispatch::job_input_bytes;
use imageflow_ex::dispatch::job_message_begin;
use imageflow_ex::dispatch::job_message_complete;
use imageflow_ex::dispatch::job_record_output;
use imageflow_ex::errors::BridgeError;
use imageflow_ex::registry::Registry;

#[test]
fn message_begin_forwards_method_and_body_unchanged() {
    let mut reg = Registry::new();
    let h = job_create(&mut reg).unwrap();
    let call = job_message_begin(
        &reg,
        h,
        "v1/execute".to_string(),
        "{\"io_id\":1}".to_string(),
    )
    .unwrap();
    assert_eq!(call.method, "v1/execute");
    assert_eq!(call.body, "{\"io_id\":1}");
}

#[test]
fn message_complete_passes_engine_response_through() {
    let mut reg = Registry::new();
    let h = job_create(&mut reg).unwrap();
    assert_eq!(
        job_message_complete(&reg, h, Ok("{\"ok\":true}".to_string())),
        Ok("{\"ok\":true}".to_string())
    );
}

#[test]
fn message_complete_surfaces_engine_failure() {
    let mut reg = Registry::new();
    let h = job_create(&mut reg).unwrap();
    assert_eq!(
        job_message_complete(&reg, h, Err("decode failed".to_string())),
        Err(BridgeError::EngineFailure("decode failed".to_string()))
    );
}

#[test]
fn full_job_scenario_with_echo_engine() {
    // create -> attach input and output -> send a command -> read the
    // produced bytes -> destroy -> the handle is gone.
    let mut reg = Registry::new();
    let h = job_create(&mut reg).unwrap();

    let png_like = b"\x89PNG\r\n\x1a\n...".to_vec();
    assert_eq!(job_add_input_buffer(&mut reg, h, 0, png_like.clone()), Ok(()));
    assert_eq!(job_add_output_buffer(&mut reg, h, 1), Ok(()));

    let call = job_message_begin(
        &reg,
        h,
        "v1/execute".to_string(),
        "{\"io_id\":1}".to_string(),
    )
    .unwrap();
    assert_eq!(call.method, "v1/execute");

    // Stub engine: echo input port 0 to output port 1, then answer.
    let echoed = job_input_bytes(&reg, h, 0).unwrap().clone();
    assert_eq!(job_record_output(&mut reg, h, 1, echoed), Ok(()));
    let response = job_message_complete(&reg, h, Ok("{\"job_result\":{}}".to_string()));
    assert_eq!(response, Ok("{\"job_result\":{}}".to_string()));

    let produced = job_get_output_buffer(&reg, h, 1).unwrap();
    assert!(!produced.is_empty());
    // Byte-for-byte what the host attached: no transcoding on the way
    // through the bridge.
    assert_eq!(produced, png_like);

    assert_eq!(job_destroy(&mut reg, h), Ok(()));
    assert_eq!(job_get_output_buffer(&reg, h, 1), Err(BridgeError::HandleNotFound));
}

#[test]
fn error_descriptions_are_stable() {
    assert_eq!(BridgeError::HandleNotFound.describe(), "handle not found");
    assert_eq!(BridgeError::PortAlreadyBound.describe(), "port id already bound");
    assert_eq!(BridgeError::PortNotFound.describe(), "port not found");
    assert_eq!(BridgeError::PortTypeMismatch.describe(), "port has the wrong variant");
    assert_eq!(BridgeError::OutputNotReady.describe(), "output not produced yet");
    assert_eq!(BridgeError::InvalidPath.describe(), "invalid path");
    assert_eq!(BridgeError::IoFailure.describe(), "filesystem operation failed");
    assert_eq!(
        BridgeError::EngineFailure("detail".to_string()).describe(),
        "detail"
    );
    assert_eq!(BridgeError::RegistryExhausted.describe(), "handle space exhausted");
}
