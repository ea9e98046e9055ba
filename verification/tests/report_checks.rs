use pylon_shimload::error::PylonError;
use pylon_shimload::report::{
    c_text, c_texts, error_outcome, shim_output,
    c_bool, c_int_of_bool, ensure_array_output, ensure_non_null, path_to_string, shim_check,
    shim_check_op,
};

#[test]
fn shim_check_op_passes_success_through() {
    assert!(shim_check_op("instant_camera_open", "lib.rs:10".to_string(), Ok(())).is_ok());
}

#[test]
fn shim_check_op_keeps_the_reported_error() {
    let r = shim_check_op(
        "instant_camera_open",
        "lib.rs:10".to_string(),
        Err("device busy".to_string()),
    );
    match r {
        Err(PylonError::ShimCallFailed { op, callsite, err_str }) => {
            assert_eq!(op, "instant_camera_open");
            assert_eq!(callsite, "lib.rs:10");
            assert_eq!(err_str, "device busy");
        }
        other => panic!("unexpected {:?}", other),
    }
}

#[test]
fn shim_check_uses_the_generic_operation_name() {
    match shim_check("a.rs:1".to_string(), Err("boom".to_string())) {
        Err(PylonError::ShimCallFailed { op, callsite, err_str }) => {
            assert_eq!(op, "shim_call");
            assert_eq!(callsite, "a.rs:1");
            assert_eq!(err_str, "boom");
        }
        other => panic!("unexpected {:?}", other),
    }
    assert!(shim_check("a.rs:1".to_string(), Ok(())).is_ok());
}

#[test]
fn ensure_non_null_describes_the_missing_output() {
    assert!(ensure_non_null("tl_factory_create_first_device", "camera pointer", false).is_ok());
    match ensure_non_null("tl_factory_create_first_device", "camera pointer", true) {
        Err(PylonError::InvalidShimOutput { op, detail }) => {
            assert_eq!(op, "tl_factory_create_first_device");
            assert_eq!(detail, "camera pointer was null");
        }
        other => panic!("unexpected {:?}", other),
    }
}

#[test]
fn ensure_array_output_allows_null_only_for_empty_arrays() {
    assert!(ensure_array_output("tl_factory_enumerate_devices", "device array", 0, true).is_ok());
    assert!(ensure_array_output("tl_factory_enumerate_devices", "device array", 3, false).is_ok());
    match ensure_array_output("tl_factory_enumerate_devices", "device array", 3, true) {
        Err(PylonError::InvalidShimOutput { op, detail }) => {
            assert_eq!(op, "tl_factory_enumerate_devices");
            assert_eq!(detail, "device array was null");
        }
        other => panic!("unexpected {:?}", other),
    }
}

#[test]
fn c_truth_values() {
    assert!(!c_bool(0));
    assert!(c_bool(1));
    assert!(c_bool(-7));
    assert_eq!(c_int_of_bool(true), 1);
    assert_eq!(c_int_of_bool(false), 0);
}

#[test]
fn path_to_string_accepts_utf8_and_refuses_the_rest() {
    assert_eq!(path_to_string(Some("features.pfs")).unwrap(), "features.pfs");
    match path_to_string(None) {
        Err(PylonError::Msg(m)) => assert_eq!(m, "Cannot convert path to UTF-8"),
        other => panic!("unexpected {:?}", other),
    }
}

#[test]
fn pylon_error_new_is_a_message() {
    match PylonError::new("hello".to_string()) {
        PylonError::Msg(m) => assert_eq!(m, "hello"),
        other => panic!("unexpected {:?}", other),
    }
}

#[test]
fn shim_output_checks_error_then_pointer() {
    assert!(shim_output("device_info_get_model_name", "x:1".to_string(), Ok(()), "model name string", false).is_ok());
    match shim_output("device_info_get_model_name", "x:1".to_string(), Err("bad".to_string()), "model name string", true) {
        Err(PylonError::ShimCallFailed { op, err_str, .. }) => {
            assert_eq!(op, "device_info_get_model_name");
            assert_eq!(err_str, "bad");
        }
        other => panic!("unexpected {:?}", other),
    }
    match shim_output("device_info_get_model_name", "x:1".to_string(), Ok(()), "model name string", true) {
        Err(PylonError::InvalidShimOutput { detail, .. }) => assert_eq!(detail, "model name string was null"),
        other => panic!("unexpected {:?}", other),
    }
}

#[test]
fn c_strings_decode_lossily() {
    assert_eq!(c_text(b"Mono8"), "Mono8");
    assert_eq!(c_text(b"a\xffb"), "a\u{FFFD}b");
    assert_eq!(error_outcome(None), Ok(()));
    assert_eq!(error_outcome(Some(b"timeout")), Err("timeout".to_string()));
    let items: Vec<&[u8]> = vec![b"Mono8", b"Bayer\xc3"];
    assert_eq!(c_texts(&items), vec!["Mono8".to_string(), "Bayer\u{FFFD}".to_string()]);
}
