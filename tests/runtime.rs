use xarxa::dispatch::TypedRequest;
use xarxa::json::JsonValue;
use xarxa::runtime::{Dispatch, RuntimeError, WitPluginRuntime};

/// The smallest component: the tag, the component version and layer.
fn empty_component() -> Vec<u8> {
    vec![0x00, 0x61, 0x73, 0x6d, 0x0d, 0x00, 0x01, 0x00]
}

/// The same component with a custom section, so its bytes differ.
fn tagged_component() -> Vec<u8> {
    let mut b = empty_component();
    b.extend_from_slice(&[0x00, 0x04, 0x03, b'a', b'b', b'c']);
    b
}

fn s(t: &str) -> String {
    t.to_string()
}

fn empty_object() -> JsonValue {
    JsonValue::Object(vec![])
}

#[test]
fn load_rejects_empty_key() {
    let mut rt = WitPluginRuntime::new().unwrap();
    let r = rt.load_wit_plugin("", &empty_component());
    assert!(matches!(r, Err(RuntimeError::Validation(_))));
    assert!(rt.list_plugin_names().is_empty());
}

#[test]
fn load_rejects_empty_bytes() {
    let mut rt = WitPluginRuntime::new().unwrap();
    let r = rt.load_wit_plugin("k", &[]);
    assert!(matches!(r, Err(RuntimeError::Validation(_))));
    assert!(rt.list_plugin_names().is_empty());
}

#[test]
fn load_rejects_bad_tag() {
    let mut rt = WitPluginRuntime::new().unwrap();
    let r = rt.load_wit_plugin("k", &[0x01, 0x61, 0x73, 0x6d, 0x0d, 0x00, 0x01, 0x00]);
    assert!(matches!(r, Err(RuntimeError::Validation(_))));
    let r = rt.load_wit_plugin("k", b"(component)");
    assert!(matches!(r, Err(RuntimeError::Validation(_))));
    assert!(rt.list_plugin_names().is_empty());
}

#[test]
fn load_accepts_valid_component() {
    let mut rt = WitPluginRuntime::new().unwrap();
    assert_eq!(rt.load_wit_plugin("k", &empty_component()), Ok(()));
    assert_eq!(rt.list_plugin_names(), vec![s("k")]);
}

#[test]
fn short_artifact_skips_tag_check() {
    assert_eq!(WitPluginRuntime::validate_artifact("k", &[1, 2, 3]), Ok(()));
    assert!(matches!(
        WitPluginRuntime::validate_artifact("k", &[1, 2, 3, 4]),
        Err(RuntimeError::Validation(_))
    ));
}

#[test]
fn malformed_artifact_is_engine_error() {
    let mut rt = WitPluginRuntime::new().unwrap();
    let r = rt.load_wit_plugin("k", &[0x00, 0x61, 0x73, 0x6d, 0xff, 0xff, 0xff]);
    match r {
        Err(RuntimeError::Engine(m)) => assert!(m.starts_with("Failed to create WIT component for plugin k: ")),
        _ => panic!("expected an engine error"),
    }
    assert!(rt.list_plugin_names().is_empty());
}

#[test]
fn execute_missing_is_not_found() {
    let mut rt = WitPluginRuntime::new().unwrap();
    let r = rt.execute_wit_function("missing", "start-workflow", &empty_object());
    assert!(matches!(r, Err(RuntimeError::NotFound(_))));
}

#[test]
fn execute_unknown_operation_replies() {
    let mut rt = WitPluginRuntime::new().unwrap();
    rt.load_wit_plugin("k", &empty_component()).unwrap();
    match rt.execute_wit_function("k", "not-a-real-op", &empty_object()) {
        Ok(Dispatch::Reply(v)) => assert_eq!(
            v,
            JsonValue::Object(vec![
                (s("success"), JsonValue::Bool(false)),
                (s("error"), JsonValue::String(s("Unknown WIT function: not-a-real-op"))),
            ])
        ),
        _ => panic!("expected an immediate reply"),
    }
}

#[test]
fn execute_known_operation_prepares_call() {
    let mut rt = WitPluginRuntime::new().unwrap();
    rt.load_wit_plugin("k", &empty_component()).unwrap();
    match rt.execute_wit_function("k", "start-workflow", &empty_object()) {
        Ok(Dispatch::Invoke(call)) => assert_eq!(
            call.request,
            TypedRequest::StartWorkflow { workflow_name: s("default"), input: vec![] }
        ),
        _ => panic!("expected a call"),
    }
}

#[test]
fn load_twice_keeps_one_entry() {
    let mut rt = WitPluginRuntime::new().unwrap();
    rt.load_wit_plugin("k", &empty_component()).unwrap();
    rt.load_wit_plugin("k", &tagged_component()).unwrap();
    assert_eq!(rt.list_plugin_names(), vec![s("k")]);
    assert!(matches!(
        rt.execute_wit_function("k", "cancel-workflow", &empty_object()),
        Ok(Dispatch::Invoke(_))
    ));
}

#[test]
fn remove_then_not_found() {
    let mut rt = WitPluginRuntime::new().unwrap();
    rt.load_wit_plugin("k", &empty_component()).unwrap();
    assert_eq!(rt.remove_plugin("k"), Ok(()));
    assert!(rt.list_plugin_names().is_empty());
    assert!(matches!(rt.remove_plugin("k"), Err(RuntimeError::NotFound(_))));
}

#[test]
fn reload_replaces_plugin() {
    let mut rt = WitPluginRuntime::new().unwrap();
    rt.load_wit_plugin("k", &empty_component()).unwrap();
    assert_eq!(rt.reload_plugin("k", &tagged_component()), Ok(()));
    assert_eq!(rt.list_plugin_names(), vec![s("k")]);
}

#[test]
fn failed_reload_keeps_old_record() {
    let mut rt = WitPluginRuntime::new().unwrap();
    rt.load_wit_plugin("k", &empty_component()).unwrap();
    let r = rt.reload_plugin("k", &[9, 9, 9, 9]);
    assert!(matches!(r, Err(RuntimeError::Validation(_))));
    assert_eq!(rt.list_plugin_names(), vec![s("k")]);
    let r = rt.reload_plugin("k", &[0x00, 0x61, 0x73, 0x6d, 0xff, 0xff, 0xff]);
    assert!(matches!(r, Err(RuntimeError::Engine(_))));
    assert_eq!(rt.list_plugin_names(), vec![s("k")]);
    assert!(matches!(
        rt.execute_wit_function("k", "start-workflow", &empty_object()),
        Ok(Dispatch::Invoke(_))
    ));
}

#[test]
fn reload_of_absent_key_loads_it() {
    let mut rt = WitPluginRuntime::new().unwrap();
    assert_eq!(rt.reload_plugin("fresh", &empty_component()), Ok(()));
    assert_eq!(rt.list_plugin_names(), vec![s("fresh")]);
}

#[test]
fn executions_on_two_keys_both_proceed() {
    let mut rt = WitPluginRuntime::new().unwrap();
    rt.load_wit_plugin("a", &empty_component()).unwrap();
    rt.load_wit_plugin("b", &tagged_component()).unwrap();
    let first = rt.execute_wit_function("a", "execute-activity", &empty_object());
    rt.reload_plugin("a", &tagged_component()).unwrap();
    let second = rt.execute_wit_function("b", "continue-workflow", &empty_object());
    assert!(matches!(first, Ok(Dispatch::Invoke(_))));
    match second {
        Ok(Dispatch::Invoke(call)) => {
            assert_eq!(call.request, TypedRequest::ContinueWorkflow { run_id: 0 })
        }
        _ => panic!("expected a call"),
    }
    let mut names = rt.list_plugin_names();
    names.sort();
    assert_eq!(names, vec![s("a"), s("b")]);
}

#[test]
fn engine_handle_is_available() {
    let rt = WitPluginRuntime::new().unwrap();
    let _ = rt.engine();
}

#[test]
fn commit_installs_compiled_component() {
    let mut rt = WitPluginRuntime::new().unwrap();
    let compiled = wasmtime::component::Component::new(rt.engine(), empty_component());
    assert_eq!(rt.commit_compiled("k", compiled, 1700000000), Ok(()));
    assert_eq!(rt.list_plugin_names(), vec![s("k")]);
    assert!(matches!(
        rt.execute_wit_function("k", "start-workflow", &empty_object()),
        Ok(Dispatch::Invoke(_))
    ));
}

#[test]
fn commit_of_compile_error_changes_nothing() {
    let mut rt = WitPluginRuntime::new().unwrap();
    rt.load_wit_plugin("k", &empty_component()).unwrap();
    let r = rt.commit_compiled("other", Err(wasmtime::Error::msg("bad artifact")), 0);
    match r {
        Err(RuntimeError::Engine(m)) => {
            assert_eq!(m, "Failed to create WIT component for plugin other: bad artifact")
        }
        _ => panic!("expected an engine error"),
    }
    assert_eq!(rt.list_plugin_names(), vec![s("k")]);
}
