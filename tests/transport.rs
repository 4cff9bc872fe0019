use xarxa::transport::{check_run_request, upload_key, RequestError, UploadError, MAX_ARTIFACT_BYTES, MAX_PAYLOAD_BYTES};

#[test]
fn run_request_checks() {
    assert_eq!(check_run_request("demo", "start-workflow", 2), Ok(()));
    assert_eq!(check_run_request("", "start-workflow", 2), Err(RequestError::EmptyPluginName));
    assert_eq!(check_run_request("demo", "", 2), Err(RequestError::EmptyFunctionName));
    assert_eq!(check_run_request("demo", "x", 1048576), Ok(()));
    assert_eq!(check_run_request("demo", "x", 1048577), Err(RequestError::PayloadTooLarge));
    assert_eq!(MAX_PAYLOAD_BYTES, 1024 * 1024);
}

#[test]
fn upload_checks() {
    assert_eq!(upload_key("demo.wasm", 10), Ok("demo".to_string()));
    assert_eq!(upload_key("demo.wasm.wasm", 10), Ok("demo".to_string()));
    assert_eq!(upload_key("Demo.v2.wasm", 10), Ok("Demo.v2".to_string()));
    assert_eq!(upload_key("demo.WASM", 10), Err(UploadError::NotWasm));
    assert_eq!(upload_key("demo.txt", 10), Err(UploadError::NotWasm));
    assert_eq!(upload_key("demo.wasm", 0), Err(UploadError::Empty));
    assert_eq!(upload_key("demo.wasm", 52428800), Ok("demo".to_string()));
    assert_eq!(upload_key("demo.wasm", 52428801), Err(UploadError::TooLarge));
    assert_eq!(upload_key(".wasm", 1), Ok(String::new()));
    assert_eq!(MAX_ARTIFACT_BYTES, 50 * 1024 * 1024);
}
