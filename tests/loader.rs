use xarxa::loader::{
    classify, extract_workflow_name, handle_fs_event, is_artifact_extension, is_wasm_file, select_artifacts,
    settled_load, EventAction, FsChange, LoaderState, PluginAutoLoader, PluginEvent, SETTLE_DELAY_SECS,
};

fn s(t: &str) -> String {
    t.to_string()
}

fn watching() -> PluginAutoLoader {
    let mut l = PluginAutoLoader::new(s("/plugins"));
    assert!(l.start());
    assert!(l.begin_watching());
    l
}

#[test]
fn artifact_extension_ignores_case() {
    assert!(is_wasm_file("demo.wasm"));
    assert!(is_wasm_file("/plugins/demo.WASM"));
    assert!(is_wasm_file("demo.Wasm"));
    assert!(!is_wasm_file("demo.txt"));
    assert!(!is_wasm_file("demo"));
    assert!(!is_wasm_file("demo.wasm.bak"));
    assert!(is_artifact_extension(Some("wasm")));
    assert!(!is_artifact_extension(Some("WASM")));
    assert!(!is_artifact_extension(None));
}

#[test]
fn key_is_file_stem() {
    assert_eq!(extract_workflow_name("/plugins/demo.wasm"), "demo");
    assert_eq!(extract_workflow_name("/plugins/Demo.Flow.WASM"), "Demo.Flow");
    assert_eq!(extract_workflow_name("/"), "unknown");
}

#[test]
fn artifact_in_watched_dir_becomes_event() {
    assert_eq!(
        handle_fs_event(FsChange::Create, "/plugins/demo.wasm", "/plugins"),
        Some(PluginEvent::Added(s("/plugins/demo.wasm")))
    );
    assert_eq!(
        handle_fs_event(FsChange::Modify, "/plugins/demo.WASM", "/plugins"),
        Some(PluginEvent::Modified(s("/plugins/demo.WASM")))
    );
    assert_eq!(
        handle_fs_event(FsChange::Remove, "/plugins/demo.wasm", "/plugins/"),
        Some(PluginEvent::Removed(s("/plugins/demo.wasm")))
    );
    assert_eq!(handle_fs_event(FsChange::Other, "/plugins/demo.wasm", "/plugins"), None);
}

#[test]
fn foreign_files_give_no_event() {
    assert_eq!(handle_fs_event(FsChange::Create, "/plugins/demo.txt", "/plugins"), None);
    assert_eq!(handle_fs_event(FsChange::Modify, "/plugins/demo", "/plugins"), None);
    assert_eq!(handle_fs_event(FsChange::Create, "/plugins/sub/demo.wasm", "/plugins"), None);
    assert_eq!(handle_fs_event(FsChange::Create, "/elsewhere/demo.wasm", "/plugins"), None);
}

#[test]
fn classify_uses_given_facts() {
    assert_eq!(classify(FsChange::Create, "x.wasm", true, Some("wasm")), Some(PluginEvent::Added(s("x.wasm"))));
    assert_eq!(classify(FsChange::Create, "x.wasm", false, Some("wasm")), None);
    assert_eq!(classify(FsChange::Create, "x.txt", true, Some("txt")), None);
}

#[test]
fn initial_load_selects_artifacts() {
    let entries = vec![s("/p/a.wasm"), s("/p/readme.md"), s("/p/B.WASM"), s("/p/c")];
    assert_eq!(select_artifacts(&entries), vec![s("/p/a.wasm"), s("/p/B.WASM")]);
    assert_eq!(select_artifacts(&vec![]), Vec::<String>::new());
}

#[test]
fn added_and_modified_wait_then_load() {
    let l = watching();
    assert_eq!(
        l.process_plugin_event(&PluginEvent::Added(s("/plugins/demo.wasm"))),
        EventAction::SettleThenLoad { path: s("/plugins/demo.wasm"), key: s("demo") }
    );
    assert_eq!(
        l.process_plugin_event(&PluginEvent::Modified(s("/plugins/demo.wasm"))),
        EventAction::SettleThenLoad { path: s("/plugins/demo.wasm"), key: s("demo") }
    );
    assert_eq!(SETTLE_DELAY_SECS, 5);
}

#[test]
fn removal_is_only_reported() {
    let l = watching();
    assert_eq!(
        l.process_plugin_event(&PluginEvent::Removed(s("/plugins/demo.wasm"))),
        EventAction::ReportRemoval { key: s("demo") }
    );
}

#[test]
fn vanished_file_is_not_loaded() {
    assert_eq!(settled_load(&s("demo"), true), Some(s("demo")));
    assert_eq!(settled_load(&s("demo"), false), None);
}

#[test]
fn lifecycle_moves_forward() {
    let mut l = PluginAutoLoader::new(s("/plugins"));
    assert_eq!(l.state(), LoaderState::Idle);
    assert_eq!(l.plugins_dir(), "/plugins");
    assert_eq!(l.process_plugin_event(&PluginEvent::Added(s("/plugins/a.wasm"))), EventAction::Ignore);
    assert!(!l.begin_watching());
    assert!(l.start());
    assert_eq!(l.state(), LoaderState::Initializing);
    assert!(!l.start());
    l.record_initial_load(true);
    l.record_initial_load(false);
    l.record_initial_load(true);
    assert_eq!(l.loaded_count(), 2);
    assert_eq!(l.failed_count(), 1);
    assert!(l.begin_watching());
    assert_eq!(l.state(), LoaderState::Watching);
    l.shutdown();
    assert_eq!(l.state(), LoaderState::ShuttingDown);
    assert_eq!(l.process_plugin_event(&PluginEvent::Added(s("/plugins/a.wasm"))), EventAction::Ignore);
    l.stop();
    assert_eq!(l.state(), LoaderState::Stopped);
    l.shutdown();
    assert_eq!(l.state(), LoaderState::Stopped);
}
