//! The directory auto-loader's decisions: which files are plugin artifacts,
//! which directory notifications become plugin events, what each event
//! asks for, and the loader's lifecycle. Waiting, reading files and
//! receiving notifications are the caller's part.

use vstd::prelude::*;
use wasmtime::component::Component;
use crate::runtime::{LoadedWitPlugin, fresh_record};

verus! {

/// The parent of a path, by `std::path::Path::parent`.
pub uninterp spec fn path_parent(p: Seq<char>) -> Option<Seq<char>>;

/// The extension of a path's file name, by `std::path::Path::extension`.
pub uninterp spec fn path_extension(p: Seq<char>) -> Option<Seq<char>>;

/// The stem of a path's file name, by `std::path::Path::file_stem`.
pub uninterp spec fn path_stem(p: Seq<char>) -> Option<Seq<char>>;

/// Whether two paths are equal component by component, by `Path`'s `==`.
pub uninterp spec fn same_path(a: Seq<char>, b: Seq<char>) -> bool;

/// The lower-case form of a string, by `str::to_lowercase`.
pub uninterp spec fn lower_of(s: Seq<char>) -> Seq<char>;

/// An optional string as optional characters.
pub open spec fn opt_view(o: Option<String>) -> Option<Seq<char>> {
    match o {
        Some(s) => Some(s@),
        None => None,
    }
}

/// Relies on `Path::parent`: the path without its last component.
#[verifier::external_body]
fn parent_of(p: &str) -> (r: Option<String>)
    ensures
        opt_view(r) == path_parent(p@),
{
    std::path::Path::new(p).parent().and_then(|q| q.to_str()).map(|q| q.to_string())
}

/// Relies on `Path::extension`: the part of the file name after its last
/// dot.
#[verifier::external_body]
fn extension_of(p: &str) -> (r: Option<String>)
    ensures
        opt_view(r) == path_extension(p@),
{
    std::path::Path::new(p).extension().and_then(|e| e.to_str()).map(|e| e.to_string())
}

/// Relies on `Path::file_stem`: the file name without its extension.
#[verifier::external_body]
fn stem_of(p: &str) -> (r: Option<String>)
    ensures
        opt_view(r) == path_stem(p@),
{
    std::path::Path::new(p).file_stem().and_then(|s| s.to_str()).map(|s| s.to_string())
}

/// Relies on `PartialEq for Path`: equality by components.
#[verifier::external_body]
fn paths_equal(a: &str, b: &str) -> (r: bool)
    ensures
        r == same_path(a@, b@),
{
    std::path::Path::new(a) == std::path::Path::new(b)
}

/// Relies on `str::to_lowercase`.
#[verifier::external_body]
fn lowercase(s: &str) -> (r: String)
    ensures
        r@ == lower_of(s@),
{
    s.to_lowercase()
}

/// Seconds to wait after a file is added or modified before reading it.
pub const SETTLE_DELAY_SECS: u64 = 5;

/// A folded extension names a plugin artifact.
pub open spec fn artifact_extension(folded: Option<Seq<char>>) -> bool {
    folded == Some("wasm"@)
}

/// A path names a plugin artifact: its extension, case aside, is `wasm`.
pub open spec fn is_artifact_path(p: Seq<char>) -> bool {
    match path_extension(p) {
        Some(e) => artifact_extension(Some(lower_of(e))),
        None => false,
    }
}

/// A path lies directly in `dir`.
pub open spec fn in_dir(p: Seq<char>, dir: Seq<char>) -> bool {
    match path_parent(p) {
        Some(q) => same_path(q, dir),
        None => false,
    }
}

/// The plugin key for an artifact path: its file stem, or `unknown`.
pub open spec fn key_for(p: Seq<char>) -> Seq<char> {
    match path_stem(p) {
        Some(s) => s,
        None => "unknown"@,
    }
}

/// Whether `extension_folded`, a lower-cased extension, names a plugin
/// artifact.
pub fn is_artifact_extension(extension_folded: Option<&str>) -> (r: bool)
    ensures
        r == match extension_folded {
            Some(e) => artifact_extension(Some(e@)),
            None => false,
        },
{
    match extension_folded {
        Some(e) => String::from_str(e) == String::from_str("wasm"),
        None => false,
    }
}

/// Whether `path` names a plugin artifact.
pub fn is_wasm_file(path: &str) -> (r: bool)
    ensures
        r == is_artifact_path(path@),
{
    match extension_of(path) {
        Some(e) => {
            let folded = lowercase(e.as_str());
            is_artifact_extension(Some(folded.as_str()))
        },
        None => false,
    }
}

/// The plugin key for an artifact path.
pub fn extract_workflow_name(path: &str) -> (r: String)
    ensures
        r@ == key_for(path@),
{
    match stem_of(path) {
        Some(s) => s,
        None => String::from_str("unknown"),
    }
}

/// The artifacts among `entries`, in order.
pub open spec fn artifacts_among(entries: Seq<String>) -> Seq<Seq<char>>
    decreases entries.len(),
{
    if entries.len() == 0 {
        Seq::empty()
    } else {
        let rest = artifacts_among(entries.drop_last());
        if is_artifact_path(entries.last()@) {
            rest.push(entries.last()@)
        } else {
            rest
        }
    }
}

/// The entries of a directory listing that the initial load takes up.
pub fn select_artifacts(entries: &Vec<String>) -> (r: Vec<String>)
    ensures
        r@.map_values(|s: String| s@) == artifacts_among(entries@),
{
    let mut picked: Vec<String> = Vec::new();
    let mut i: usize = 0;
    while i < entries.len()
        invariant
            i <= entries@.len(),
            picked@.map_values(|s: String| s@) == artifacts_among(entries@.subrange(0, i as int)),
        decreases entries@.len() - i,
    {
        let ghost before = picked@;
        if is_wasm_file(entries[i].as_str()) {
            picked.push(entries[i].clone());
            assert(picked@.map_values(|s: String| s@) =~= before.map_values(|s: String| s@).push(entries@[i as int]@));
        }
        proof {
            let next = entries@.subrange(0, i as int + 1);
            assert(next.drop_last() =~= entries@.subrange(0, i as int));
        }
        i = i + 1;
    }
    assert(entries@.subrange(0, entries@.len() as int) =~= entries@);
    picked
}

/// The kinds of directory notification.
#[derive(Debug, Clone, Copy, PartialEq, Eq, Structural)]
pub enum FsChange {
    Create,
    Modify,
    Remove,
    /// Access, metadata and anything else.
    Other,
}

/// A change to a plugin artifact in the watched directory.
#[derive(Debug, Clone, PartialEq, Eq)]
pub enum PluginEvent {
    Added(String),
    Modified(String),
    Removed(String),
}

/// The path an event is about.
pub open spec fn event_path(e: PluginEvent) -> Seq<char> {
    match e {
        PluginEvent::Added(p) => p@,
        PluginEvent::Modified(p) => p@,
        PluginEvent::Removed(p) => p@,
    }
}

/// `e` reports a change of kind `kind` to `path`.
pub open spec fn event_of(kind: FsChange, path: Seq<char>, e: PluginEvent) -> bool {
    &&& event_path(e) == path
    &&& match kind {
        FsChange::Create => e is Added,
        FsChange::Modify => e is Modified,
        FsChange::Remove => e is Removed,
        FsChange::Other => false,
    }
}

/// `r` is what a notification of kind `kind` on `path` becomes when `dir`
/// is watched: an event exactly for a plugin artifact directly in `dir`,
/// and never for a notification of another kind.
pub open spec fn translated(kind: FsChange, path: Seq<char>, dir: Seq<char>, r: Option<PluginEvent>) -> bool {
    match r {
        Some(e) => in_dir(path, dir) && is_artifact_path(path) && event_of(kind, path, e),
        None => !(in_dir(path, dir) && is_artifact_path(path)) || kind == FsChange::Other,
    }
}

/// The event for a notification, given whether its path lies directly in
/// the watched directory and its extension in lower case.
pub fn classify(kind: FsChange, path: &str, in_watched_dir: bool, extension_folded: Option<&str>) -> (r: Option<PluginEvent>)
    ensures
        match r {
            Some(e) => {
                &&& in_watched_dir
                &&& extension_folded matches Some(x) && artifact_extension(Some(x@))
                &&& event_of(kind, path@, e)
            },
            None => {
                ||| !in_watched_dir
                ||| !(extension_folded matches Some(x) && artifact_extension(Some(x@)))
                ||| kind == FsChange::Other
            },
        },
{
    if !in_watched_dir || !is_artifact_extension(extension_folded) {
        return None;
    }
    match kind {
        FsChange::Create => Some(PluginEvent::Added(String::from_str(path))),
        FsChange::Modify => Some(PluginEvent::Modified(String::from_str(path))),
        FsChange::Remove => Some(PluginEvent::Removed(String::from_str(path))),
        FsChange::Other => None,
    }
}

/// The event, if any, for a notification of kind `kind` on `path` while
/// `watched_dir` (in canonical form) is watched.
pub fn handle_fs_event(kind: FsChange, path: &str, watched_dir: &str) -> (r: Option<PluginEvent>)
    ensures
        translated(kind, path@, watched_dir@, r),
{
    let in_watched_dir = match parent_of(path) {
        Some(parent) => paths_equal(parent.as_str(), watched_dir),
        None => false,
    };
    match extension_of(path) {
        Some(e) => {
            let folded = lowercase(e.as_str());
            classify(kind, path, in_watched_dir, Some(folded.as_str()))
        },
        None => classify(kind, path, in_watched_dir, None),
    }
}

/// The stages of the loader's life.
#[derive(Debug, Clone, Copy, PartialEq, Eq, Structural)]
pub enum LoaderState {
    Idle,
    Initializing,
    Watching,
    ShuttingDown,
    Stopped,
}

/// What an event asks of the caller.
#[derive(Debug, Clone, PartialEq, Eq)]
pub enum EventAction {
    /// Wait the settle delay; then, if the file still exists, load it
    /// under `key`.
    SettleThenLoad { path: String, key: String },
    /// Report that the artifact for `key` was removed; the registry is
    /// left as it is.
    ReportRemoval { key: String },
    /// Nothing: the loader is not watching.
    Ignore,
}

/// `a` is what `e` asks for in state `s`.
pub open spec fn action_for(s: LoaderState, e: PluginEvent, a: EventAction) -> bool {
    if s != LoaderState::Watching {
        a == EventAction::Ignore
    } else {
        match e {
            PluginEvent::Removed(p) => a matches EventAction::ReportRemoval { key } && key@ == key_for(p@),
            _ => a matches EventAction::SettleThenLoad { path, key } && path@ == event_path(e) && key@
                == key_for(event_path(e)),
        }
    }
}

/// The key to load once the settle delay has passed: the file's key if it
/// still exists, nothing if it is gone.
pub open spec fn settle_outcome(key: Seq<char>, still_exists: bool) -> Option<Seq<char>> {
    if still_exists {
        Some(key)
    } else {
        None
    }
}

/// The key to load after the settle delay.
pub fn settled_load(key: &String, still_exists: bool) -> (r: Option<String>)
    ensures
        opt_view(r) == settle_outcome(key@, still_exists),
{
    if still_exists {
        Some(key.clone())
    } else {
        None
    }
}

/// The auto-loader's bookkeeping: the directory, the stage, and the tally
/// of the initial load.
pub struct PluginAutoLoader {
    plugins_dir: String,
    state: LoaderState,
    loaded: u64,
    failed: u64,
}

impl PluginAutoLoader {
    pub closed spec fn spec_dir(&self) -> Seq<char> {
        self.plugins_dir@
    }

    pub closed spec fn spec_state(&self) -> LoaderState {
        self.state
    }

    pub closed spec fn spec_loaded(&self) -> u64 {
        self.loaded
    }

    pub closed spec fn spec_failed(&self) -> u64 {
        self.failed
    }

    /// A loader for `plugins_dir` that has not started.
    pub fn new(plugins_dir: String) -> (r: Self)
        ensures
            r.spec_dir() == plugins_dir@,
            r.spec_state() == LoaderState::Idle,
            r.spec_loaded() == 0,
            r.spec_failed() == 0,
    {
        PluginAutoLoader { plugins_dir, state: LoaderState::Idle, loaded: 0, failed: 0 }
    }

    /// The watched directory.
    pub fn plugins_dir(&self) -> (r: &String)
        ensures
            r@ == self.spec_dir(),
    {
        &self.plugins_dir
    }

    /// The current stage.
    pub fn state(&self) -> (r: LoaderState)
        ensures
            r == self.spec_state(),
    {
        self.state
    }

    /// Artifacts the initial load loaded.
    pub fn loaded_count(&self) -> (r: u64)
        ensures
            r == self.spec_loaded(),
    {
        self.loaded
    }

    /// Artifacts the initial load failed on.
    pub fn failed_count(&self) -> (r: u64)
        ensures
            r == self.spec_failed(),
    {
        self.failed
    }

    /// Begins initializing: the caller makes sure the directory exists and
    /// then loads what it holds. Returns whether the loader was idle; in
    /// any other stage nothing changes.
    pub fn start(&mut self) -> (r: bool)
        ensures
            r == (old(self).spec_state() == LoaderState::Idle),
            final(self).spec_state() == if r { LoaderState::Initializing } else { old(self).spec_state() },
            final(self).spec_dir() == old(self).spec_dir(),
            final(self).spec_loaded() == old(self).spec_loaded(),
            final(self).spec_failed() == old(self).spec_failed(),
    {
        if self.state == LoaderState::Idle {
            self.state = LoaderState::Initializing;
            true
        } else {
            false
        }
    }

    /// Counts one file of the initial load. A failure is counted and the
    /// load goes on; counts stop at their maximum.
    pub fn record_initial_load(&mut self, succeeded: bool)
        ensures
            final(self).spec_state() == old(self).spec_state(),
            final(self).spec_dir() == old(self).spec_dir(),
            succeeded ==> final(self).spec_failed() == old(self).spec_failed()
                && final(self).spec_loaded() == if old(self).spec_loaded() < u64::MAX {
                (old(self).spec_loaded() + 1) as u64
            } else {
                old(self).spec_loaded()
            },
            !succeeded ==> final(self).spec_loaded() == old(self).spec_loaded()
                && final(self).spec_failed() == if old(self).spec_failed() < u64::MAX {
                (old(self).spec_failed() + 1) as u64
            } else {
                old(self).spec_failed()
            },
    {
        if succeeded {
            if self.loaded < u64::MAX {
                self.loaded = self.loaded + 1;
            }
        } else {
            if self.failed < u64::MAX {
                self.failed = self.failed + 1;
            }
        }
    }

    /// Initialization is over: the caller subscribes to the directory.
    /// Returns whether the loader was initializing.
    pub fn begin_watching(&mut self) -> (r: bool)
        ensures
            r == (old(self).spec_state() == LoaderState::Initializing),
            final(self).spec_state() == if r { LoaderState::Watching } else { old(self).spec_state() },
            final(self).spec_dir() == old(self).spec_dir(),
            final(self).spec_loaded() == old(self).spec_loaded(),
            final(self).spec_failed() == old(self).spec_failed(),
    {
        if self.state == LoaderState::Initializing {
            self.state = LoaderState::Watching;
            true
        } else {
            false
        }
    }

    /// What `event` asks for.
    pub fn process_plugin_event(&self, event: &PluginEvent) -> (r: EventAction)
        ensures
            action_for(self.spec_state(), *event, r),
    {
        if self.state != LoaderState::Watching {
            return EventAction::Ignore;
        }
        match event {
            PluginEvent::Added(p) => EventAction::SettleThenLoad {
                path: p.clone(),
                key: extract_workflow_name(p.as_str()),
            },
            PluginEvent::Modified(p) => EventAction::SettleThenLoad {
                path: p.clone(),
                key: extract_workflow_name(p.as_str()),
            },
            PluginEvent::Removed(p) => EventAction::ReportRemoval { key: extract_workflow_name(p.as_str()) },
        }
    }

    /// A shutdown signal, or the end of the event stream: no further event
    /// is taken up. Waits already under way are not cancelled.
    pub fn shutdown(&mut self)
        ensures
            final(self).spec_state() == match old(self).spec_state() {
                LoaderState::Stopped => LoaderState::Stopped,
                _ => LoaderState::ShuttingDown,
            },
            final(self).spec_dir() == old(self).spec_dir(),
            final(self).spec_loaded() == old(self).spec_loaded(),
            final(self).spec_failed() == old(self).spec_failed(),
    {
        if self.state != LoaderState::Stopped {
            self.state = LoaderState::ShuttingDown;
        }
    }

    /// The loader is done, after a shutdown or a fatal initialization error
    /// (the path exists and is not a directory).
    pub fn stop(&mut self)
        ensures
            final(self).spec_state() == LoaderState::Stopped,
            final(self).spec_dir() == old(self).spec_dir(),
            final(self).spec_loaded() == old(self).spec_loaded(),
            final(self).spec_failed() == old(self).spec_failed(),
    {
        self.state = LoaderState::Stopped;
    }
}

/// A file whose extension is not `wasm` (case aside) gives no event, so
/// it never reaches the registry.
pub proof fn lemma_foreign_files_ignored(kind: FsChange, path: Seq<char>, dir: Seq<char>, r: Option<PluginEvent>)
    requires
        translated(kind, path, dir, r),
        !is_artifact_path(path),
    ensures
        r is None,
{
}

/// An artifact created directly in the watched directory gives an `Added`
/// event; while the loader watches, that event asks for a load under the
/// file's stem after the settle delay. If the file still exists then, it is
/// loaded: committing its compiled component puts the key in the registry
/// with that component. If it is gone, nothing is loaded and the registry
/// is left as it was.
pub proof fn lemma_created_artifact_settles(
    path: Seq<char>,
    dir: Seq<char>,
    r: Option<PluginEvent>,
    a: EventAction,
    still_exists: bool,
    registry: Map<Seq<char>, LoadedWitPlugin>,
    compiled: Component,
    loaded_at: i64,
)
    requires
        translated(FsChange::Create, path, dir, r),
        in_dir(path, dir),
        is_artifact_path(path),
        r matches Some(e) && action_for(LoaderState::Watching, e, a),
    ensures
        r matches Some(e) && e is Added && event_path(e) == path,
        a matches EventAction::SettleThenLoad { path: p, key } && p@ == path && key@ == key_for(path),
        !still_exists ==> settle_outcome(key_for(path), still_exists) is None,
        still_exists ==> settle_outcome(key_for(path), still_exists) == Some(key_for(path)),
        registry.insert(key_for(path), fresh_record(compiled, loaded_at)).contains_key(key_for(path)),
        registry.insert(key_for(path), fresh_record(compiled, loaded_at))[key_for(path)].component == compiled,
{
}

} // verus!
