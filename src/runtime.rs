//! The plugin registry: compiled plugins under their keys, and the first
//! half of every execution (lookup, counting, and the decision what to
//! run).

use vstd::prelude::*;
use wasmtime::component::Component;
use wasmtime::Engine;
use crate::dispatch::{
    TypedRequest, object_of, operation_named, parse_operation, prepare_request, request_for,
    unknown_operation, unknown_shape,
};
use crate::engine::{compile_component, create_engine, error_text, unix_timestamp};
use crate::json::JsonValue;
use crate::text::prefixed;

verus! {

/// The four bytes every artifact of more than three bytes starts with.
pub open spec fn artifact_tag() -> Seq<u8> {
    seq![0x00u8, 0x61u8, 0x73u8, 0x6du8]
}

/// A key and an artifact that may be handed to the compiler: the key is not
/// empty, the artifact is not empty, and an artifact of four bytes or more
/// starts with the tag.
pub open spec fn acceptable(key: Seq<char>, bytes: Seq<u8>) -> bool {
    &&& key.len() > 0
    &&& bytes.len() > 0
    &&& bytes.len() >= 4 ==> bytes.subrange(0, 4) == artifact_tag()
}

/// Why a registry operation failed.
#[derive(Debug, Clone, PartialEq, Eq)]
pub enum RuntimeError {
    /// An empty key, an empty artifact, or an artifact without the tag.
    Validation(String),
    /// No plugin is loaded under the key.
    NotFound(String),
    /// The engine could not be built or could not compile the artifact.
    Engine(String),
}

/// A compiled plugin with its bookkeeping.
pub struct LoadedWitPlugin {
    pub component: Component,
    /// When it was compiled, in seconds since the Unix epoch.
    pub loaded_at: i64,
    /// How many executions it has been asked for.
    pub execution_count: u64,
}

/// The context every compilation error carries.
pub open spec fn compile_context(name: Seq<char>) -> Seq<char> {
    "Failed to create WIT component for plugin "@ + name
}

/// `e` is an engine error whose message starts with the compilation
/// context for `name`; the engine's own explanation follows.
pub open spec fn engine_error_names(e: RuntimeError, name: Seq<char>) -> bool {
    &&& e is Engine
    &&& e->Engine_0@.len() >= compile_context(name).len()
    &&& e->Engine_0@.subrange(0, compile_context(name).len() as int) == compile_context(name)
}

/// The record of a component just compiled, stamped `loaded_at`.
pub open spec fn fresh_record(component: Component, loaded_at: i64) -> LoadedWitPlugin {
    LoadedWitPlugin { component, loaded_at, execution_count: 0 }
}

/// The record after one more execution; the count stops at its maximum.
pub open spec fn counted(p: LoadedWitPlugin) -> LoadedWitPlugin {
    LoadedWitPlugin {
        component: p.component,
        loaded_at: p.loaded_at,
        execution_count: if p.execution_count < u64::MAX {
            (p.execution_count + 1) as u64
        } else {
            p.execution_count
        },
    }
}

/// A component ready to run, and the request to run on it.
pub struct PreparedCall {
    pub component: Component,
    pub request: TypedRequest,
}

/// What an execution asks of its caller.
pub enum Dispatch {
    /// Answer with this envelope; no plugin code runs.
    Reply(JsonValue),
    /// Instantiate the component in a fresh sandbox, run the request, and
    /// build the envelope from what came back.
    Invoke(PreparedCall),
}

/// `d` is what executing operation `name` with `params` on `component`
/// asks for.
pub open spec fn dispatch_for(d: Dispatch, component: Component, name: Seq<char>, params: JsonValue) -> bool {
    match operation_named(name) {
        None => d is Reply && object_of(d->Reply_0, unknown_shape(name)),
        Some(op) => {
            &&& d is Invoke
            &&& d->Invoke_0.component == component
            &&& request_for(d->Invoke_0.request, op, params)
        },
    }
}

/// `names` lists the keys of `m`, each once.
pub open spec fn lists_keys(names: Seq<String>, m: Map<Seq<char>, LoadedWitPlugin>) -> bool {
    &&& forall|i: int| 0 <= i < names.len() ==> m.contains_key(#[trigger] names[i]@)
    &&& forall|k: Seq<char>| #[trigger] m.contains_key(k) ==> exists|i: int| 0 <= i < names.len() && names[i]@ == k
    &&& forall|i: int, j: int| 0 <= i < j < names.len() ==> names[i]@ != names[j]@
}

struct PluginEntry {
    key: String,
    plugin: LoadedWitPlugin,
}

/// The registry of loaded plugins and the engine that compiles them.
///
/// Callers that share one runtime keep it behind a single reader/writer
/// lock and take it exclusively for every operation here. An execution
/// needs the lock only for `execute_wit_function`: the call itself runs on
/// the component handle that it returns, so calls to different plugins run
/// in parallel, and a call keeps running on the generation it started with
/// even if the key is reloaded meanwhile.
pub struct WitPluginRuntime {
    engine: Engine,
    plugins: Vec<PluginEntry>,
    registry: Ghost<Map<Seq<char>, LoadedWitPlugin>>,
}

impl View for WitPluginRuntime {
    type V = Map<Seq<char>, LoadedWitPlugin>;

    closed spec fn view(&self) -> Map<Seq<char>, LoadedWitPlugin> {
        self.registry@
    }
}

impl WitPluginRuntime {
    /// Keys are unique, and the entries are exactly the view.
    pub closed spec fn wf(&self) -> bool {
        &&& forall|i: int, j: int|
            0 <= i < j < self.plugins@.len() ==> self.plugins@[i].key@ != self.plugins@[j].key@
        &&& forall|i: int|
            0 <= i < self.plugins@.len() ==> {
                &&& self.registry@.contains_key((#[trigger] self.plugins@[i]).key@)
                &&& self.registry@[self.plugins@[i].key@] == self.plugins@[i].plugin
            }
        &&& forall|k: Seq<char>|
            #[trigger] self.registry@.contains_key(k) ==> exists|i: int|
                0 <= i < self.plugins@.len() && self.plugins@[i].key@ == k
    }

    /// A runtime with no plugins.
    pub fn new() -> (r: Result<Self, RuntimeError>)
        ensures
            r matches Ok(rt) ==> rt.wf() && rt@ == Map::<Seq<char>, LoadedWitPlugin>::empty(),
            r matches Err(e) ==> e is Engine,
    {
        match create_engine() {
            Ok(engine) => Ok(WitPluginRuntime {
                engine,
                plugins: Vec::new(),
                registry: Ghost(Map::empty()),
            }),
            Err(e) => Err(
                RuntimeError::Engine(
                    prefixed("Failed to create WASM engine with component model support: ", error_text(&e).as_str()),
                ),
            ),
        }
    }

    /// The engine that compiled the plugins; instances must be made with it.
    pub fn engine(&self) -> &Engine {
        &self.engine
    }

    /// The position of `key`'s entry.
    fn find(&self, key: &String) -> (r: Option<usize>)
        requires
            self.wf(),
        ensures
            match r {
                Some(i) => i < self.plugins@.len() && self.plugins@[i as int].key@ == key@,
                None => !self@.contains_key(key@),
            },
    {
        let mut i: usize = 0;
        while i < self.plugins.len()
            invariant
                self.wf(),
                i <= self.plugins@.len(),
                forall|j: int| 0 <= j < i ==> self.plugins@[j].key@ != key@,
            decreases self.plugins@.len() - i,
        {
            if self.plugins[i].key == *key {
                return Some(i);
            }
            i = i + 1;
        }
        None
    }

    /// Checks a key and an artifact before anything is compiled.
    pub fn validate_artifact(name: &str, wasm_bytes: &[u8]) -> (r: Result<(), RuntimeError>)
        ensures
            r is Ok <==> acceptable(name@, wasm_bytes@),
            r matches Err(e) ==> e is Validation,
    {
        if name.is_empty() {
            return Err(RuntimeError::Validation(String::from_str("Plugin name cannot be empty")));
        }
        if wasm_bytes.len() == 0 {
            return Err(
                RuntimeError::Validation(prefixed("WASM bytes cannot be empty for plugin ", name)),
            );
        }
        if wasm_bytes.len() >= 4 {
            let tagged = wasm_bytes[0] == 0x00u8 && wasm_bytes[1] == 0x61u8 && wasm_bytes[2] == 0x73u8
                && wasm_bytes[3] == 0x6du8;
            if !tagged {
                assert(wasm_bytes@.subrange(0, 4) != artifact_tag()) by {
                    if wasm_bytes@.subrange(0, 4) == artifact_tag() {
                        assert(wasm_bytes@.subrange(0, 4)[0] == wasm_bytes@[0]);
                        assert(wasm_bytes@.subrange(0, 4)[1] == wasm_bytes@[1]);
                        assert(wasm_bytes@.subrange(0, 4)[2] == wasm_bytes@[2]);
                        assert(wasm_bytes@.subrange(0, 4)[3] == wasm_bytes@[3]);
                    }
                }
                return Err(RuntimeError::Validation(prefixed("Invalid WASM file format for plugin ", name)));
            }
            assert(wasm_bytes@.subrange(0, 4) =~= artifact_tag());
        }
        Ok(())
    }

    /// Puts `plugin` under `name`, replacing what was there.
    pub fn install_plugin(&mut self, name: &str, plugin: LoadedWitPlugin)
        requires
            old(self).wf(),
        ensures
            final(self).wf(),
            final(self)@ == old(self)@.insert(name@, plugin),
    {
        let ghost p = plugin;
        let key = String::from_str(name);
        let ghost mut slot: int = 0;
        match self.find(&key) {
            Some(i) => {
                self.plugins.set(i, PluginEntry { key, plugin });
                proof {
                    slot = i as int;
                }
            },
            None => {
                self.plugins.push(PluginEntry { key, plugin });
                proof {
                    slot = self.plugins@.len() - 1;
                }
            },
        }
        self.registry = Ghost(self.registry@.insert(name@, p));
        assert forall|k: Seq<char>| #[trigger] self.registry@.contains_key(k) implies exists|j: int|
            0 <= j < self.plugins@.len() && self.plugins@[j].key@ == k by {
            if k != name@ {
                assert(old(self).registry@.contains_key(k));
                let j = choose|j: int| 0 <= j < old(self).plugins@.len() && old(self).plugins@[j].key@ == k;
                assert(j != slot || slot == old(self).plugins@.len());
                assert(self.plugins@[j].key@ == k);
            } else {
                assert(self.plugins@[slot].key@ == k);
            }
        }
    }

    /// Puts the outcome of compiling an artifact under `name`: a compiled
    /// component becomes a fresh record stamped `loaded_at`, replacing any
    /// plugin already there; a compilation error leaves the registry as it
    /// was and is reported as an engine error.
    pub fn commit_compiled(
        &mut self,
        name: &str,
        compiled: Result<Component, wasmtime::Error>,
        loaded_at: i64,
    ) -> (r: Result<(), RuntimeError>)
        requires
            old(self).wf(),
        ensures
            final(self).wf(),
            match compiled {
                Ok(c) => r is Ok && final(self)@ == old(self)@.insert(name@, fresh_record(c, loaded_at)),
                Err(_) => {
                    &&& r matches Err(e) && e is Engine && engine_error_names(e, name@)
                    &&& final(self)@ == old(self)@
                },
            },
    {
        match compiled {
            Ok(component) => {
                self.install_plugin(name, LoadedWitPlugin { component, loaded_at, execution_count: 0 });
                Ok(())
            },
            Err(e) => {
                let context = prefixed("Failed to create WIT component for plugin ", name);
                let detail = prefixed(": ", error_text(&e).as_str());
                let message = prefixed(context.as_str(), detail.as_str());
                assert(message@.subrange(0, context@.len() as int) =~= context@);
                Err(RuntimeError::Engine(message))
            },
        }
    }

    /// Validates and compiles an artifact and puts it under `name`,
    /// replacing any plugin already there. What the compiler returns is
    /// handed to `commit_compiled`.
    pub fn load_wit_plugin(&mut self, name: &str, wasm_bytes: &[u8]) -> (r: Result<(), RuntimeError>)
        requires
            old(self).wf(),
        ensures
            final(self).wf(),
            !acceptable(name@, wasm_bytes@) ==> {
                &&& r matches Err(e) && e is Validation
                &&& final(self)@ == old(self)@
            },
            acceptable(name@, wasm_bytes@) ==> match r {
                Ok(()) => final(self)@ == old(self)@.insert(
                    name@,
                    fresh_record(final(self)@[name@].component, final(self)@[name@].loaded_at),
                ),
                Err(e) => {
                    &&& e is Engine
                    &&& engine_error_names(e, name@)
                    &&& final(self)@ == old(self)@
                },
            },
    {
        match Self::validate_artifact(name, wasm_bytes) {
            Err(e) => {
                return Err(e);
            },
            Ok(()) => {},
        }
        let compiled = compile_component(&self.engine, wasm_bytes);
        let loaded_at = unix_timestamp();
        let r = self.commit_compiled(name, compiled, loaded_at);
        assert(r is Ok ==> self@.contains_key(name@));
        r
    }

    /// Removes the plugin under `name`.
    pub fn remove_plugin(&mut self, name: &str) -> (r: Result<(), RuntimeError>)
        requires
            old(self).wf(),
        ensures
            final(self).wf(),
            old(self)@.contains_key(name@) ==> r is Ok && final(self)@ == old(self)@.remove(name@),
            !old(self)@.contains_key(name@) ==> {
                &&& r matches Err(e) && e is NotFound
                &&& final(self)@ == old(self)@
            },
    {
        let key = String::from_str(name);
        match self.find(&key) {
            Some(i) => {
                self.plugins.remove(i);
                self.registry = Ghost(self.registry@.remove(name@));
                assert forall|k: Seq<char>| #[trigger] self.registry@.contains_key(k) implies exists|j: int|
                    0 <= j < self.plugins@.len() && self.plugins@[j].key@ == k by {
                    assert(old(self).registry@.contains_key(k));
                    let j = choose|j: int| 0 <= j < old(self).plugins@.len() && old(self).plugins@[j].key@ == k;
                    if j < i {
                        assert(self.plugins@[j].key@ == k);
                    } else {
                        assert(j != i);
                        assert(self.plugins@[j - 1].key@ == k);
                    }
                }
                Ok(())
            },
            None => Err(RuntimeError::NotFound(prefixed("Plugin not found: ", name))),
        }
    }

    /// Replaces the plugin under `name` with a new artifact, or loads it if
    /// there was none. The artifact is validated and compiled before
    /// anything is replaced, so the swap is atomic: on any failure the old
    /// record stays as it was. The net effect is exactly that of
    /// `load_wit_plugin`.
    pub fn reload_plugin(&mut self, name: &str, wasm_bytes: &[u8]) -> (r: Result<(), RuntimeError>)
        requires
            old(self).wf(),
        ensures
            final(self).wf(),
            !acceptable(name@, wasm_bytes@) ==> {
                &&& r matches Err(e) && e is Validation
                &&& final(self)@ == old(self)@
            },
            acceptable(name@, wasm_bytes@) ==> match r {
                Ok(()) => final(self)@ == old(self)@.insert(
                    name@,
                    fresh_record(final(self)@[name@].component, final(self)@[name@].loaded_at),
                ),
                Err(e) => {
                    &&& e is Engine
                    &&& engine_error_names(e, name@)
                    &&& final(self)@ == old(self)@
                },
            },
    {
        self.load_wit_plugin(name, wasm_bytes)
    }

    /// The keys of the loaded plugins, each once, in no particular order.
    pub fn list_plugin_names(&self) -> (r: Vec<String>)
        requires
            self.wf(),
        ensures
            lists_keys(r@, self@),
    {
        let mut names: Vec<String> = Vec::new();
        let mut i: usize = 0;
        while i < self.plugins.len()
            invariant
                self.wf(),
                i <= self.plugins@.len(),
                names@.len() == i,
                forall|j: int| 0 <= j < i ==> (#[trigger] names@[j])@ == self.plugins@[j].key@,
            decreases self.plugins@.len() - i,
        {
            names.push(self.plugins[i].key.clone());
            i = i + 1;
        }
        assert forall|k: Seq<char>| #[trigger] self@.contains_key(k) implies exists|j: int|
            0 <= j < names@.len() && names@[j]@ == k by {
            let j = choose|j: int| 0 <= j < self.plugins@.len() && self.plugins@[j].key@ == k;
            assert(names@[j]@ == k);
        }
        names
    }

    /// Counts an execution of the plugin under `plugin_name` and decides
    /// what it runs: an envelope at once for an operation name that
    /// designates nothing, or else the plugin's component with the typed
    /// request built from `params`.
    pub fn execute_wit_function(&mut self, plugin_name: &str, function_name: &str, params: &JsonValue) -> (r: Result<Dispatch, RuntimeError>)
        requires
            old(self).wf(),
        ensures
            final(self).wf(),
            !old(self)@.contains_key(plugin_name@) ==> {
                &&& r matches Err(e) && e is NotFound
                &&& final(self)@ == old(self)@
            },
            old(self)@.contains_key(plugin_name@) ==> {
                &&& r is Ok
                &&& final(self)@ == old(self)@.insert(plugin_name@, counted(old(self)@[plugin_name@]))
                &&& dispatch_for(r->Ok_0, old(self)@[plugin_name@].component, function_name@, *params)
            },
    {
        let key = String::from_str(plugin_name);
        let i = match self.find(&key) {
            Some(i) => i,
            None => {
                return Err(RuntimeError::NotFound(prefixed("WIT Plugin not found: ", plugin_name)));
            },
        };
        let component = self.plugins[i].plugin.component.clone();
        let count = self.plugins[i].plugin.execution_count;
        let next = if count < u64::MAX { count + 1 } else { count };
        let plugin = LoadedWitPlugin {
            component: self.plugins[i].plugin.component.clone(),
            loaded_at: self.plugins[i].plugin.loaded_at,
            execution_count: next,
        };
        assert(plugin == counted(old(self)@[plugin_name@]));
        self.install_plugin(plugin_name, plugin);
        match parse_operation(function_name) {
            None => Ok(Dispatch::Reply(unknown_operation(function_name))),
            Some(op) => Ok(Dispatch::Invoke(PreparedCall { component, request: prepare_request(op, params) })),
        }
    }
}

/// Loading a key twice in a row, the second time with component `second`
/// (as `commit_compiled` installs it), leaves one entry for the key,
/// holding the second record: the key is listed exactly once, and an
/// execution issued after the second load runs `second`, never `first`'s
/// component.
pub proof fn lemma_second_load_wins(
    m0: Map<Seq<char>, LoadedWitPlugin>,
    k: Seq<char>,
    first: Component,
    first_at: i64,
    second: Component,
    second_at: i64,
    names: Seq<String>,
    d: Dispatch,
    operation: Seq<char>,
    params: JsonValue,
)
    requires
        lists_keys(names, m0.insert(k, fresh_record(first, first_at)).insert(k, fresh_record(second, second_at))),
        dispatch_for(
            d,
            m0.insert(k, fresh_record(first, first_at)).insert(k, fresh_record(second, second_at))[k].component,
            operation,
            params,
        ),
    ensures
        m0.insert(k, fresh_record(first, first_at)).insert(k, fresh_record(second, second_at)).dom()
            == m0.dom().insert(k),
        m0.insert(k, fresh_record(first, first_at)).insert(k, fresh_record(second, second_at))[k]
            == fresh_record(second, second_at),
        exists|i: int| 0 <= i < names.len() && names[i]@ == k,
        forall|i: int, j: int|
            0 <= i < names.len() && 0 <= j < names.len() && names[i]@ == k && names[j]@ == k ==> i == j,
        d is Invoke ==> d->Invoke_0.component == second,
{
    let m2 = m0.insert(k, fresh_record(first, first_at)).insert(k, fresh_record(second, second_at));
    assert(m2.dom() =~= m0.dom().insert(k));
    assert(m2.contains_key(k));
    assert forall|i: int, j: int|
        0 <= i < names.len() && 0 <= j < names.len() && names[i]@ == k && names[j]@ == k implies i == j by {
        if i < j {
            assert(names[i]@ != names[j]@);
        } else if j < i {
            assert(names[j]@ != names[i]@);
        }
    }
}

/// An operation name that designates no operation is answered at once
/// with the failure envelope `{success: false, error: "Unknown WIT
/// function: <name>"}`, and no plugin code is asked to run.
pub proof fn lemma_unknown_operation_replies(d: Dispatch, component: Component, name: Seq<char>, params: JsonValue)
    requires
        operation_named(name) is None,
        dispatch_for(d, component, name, params),
    ensures
        d is Reply,
        !(d is Invoke),
        object_of(d->Reply_0, unknown_shape(name)),
{
}

/// Work on one key leaves every other key's record as it was: counting an
/// execution of `k` or reloading `k` neither removes `other` nor changes
/// the component an execution of `other` runs, so executions of two
/// different loaded keys both go ahead, in either order.
pub proof fn lemma_other_keys_undisturbed(
    m: Map<Seq<char>, LoadedWitPlugin>,
    k: Seq<char>,
    other: Seq<char>,
    reloaded: LoadedWitPlugin,
)
    requires
        k != other,
        m.contains_key(k),
        m.contains_key(other),
    ensures
        m.insert(k, counted(m[k])).contains_key(other),
        m.insert(k, counted(m[k]))[other] == m[other],
        m.insert(other, counted(m[other])).contains_key(k),
        m.insert(other, counted(m[other]))[k] == m[k],
        m.insert(k, reloaded).contains_key(other),
        m.insert(k, reloaded)[other] == m[other],
{
}

} // verus!
