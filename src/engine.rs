//! The execution engine and the clock, as this library relies on them.
//! Everything in this file is taken on trust: each item names the function
//! it calls.

use vstd::prelude::*;
use wasmtime::component::Component;
use wasmtime::Engine;

verus! {

#[verifier::external_type_specification]
#[verifier::external_body]
pub struct ExEngine(wasmtime::Engine);

#[verifier::external_type_specification]
#[verifier::external_body]
pub struct ExComponent(wasmtime::component::Component);

#[verifier::external_type_specification]
#[verifier::external_body]
pub struct ExEngineError(wasmtime::Error);

/// Relies on wasmtime's derived `Component::clone`, a shallow copy: the
/// clone is a second handle to the same compiled component.
pub assume_specification[ <wasmtime::component::Component as Clone>::clone ](
    c: &wasmtime::component::Component,
) -> (r: wasmtime::component::Component)
    ensures
        r == *c,
;

/// Relies on `Config::new`, `Config::wasm_component_model` and
/// `Engine::new`: an engine that compiles components, or the reason the
/// configuration was refused.
#[verifier::external_body]
pub(crate) fn create_engine() -> Result<Engine, wasmtime::Error> {
    let mut config = wasmtime::Config::new();
    config.wasm_component_model(true);
    Engine::new(&config)
}

/// Relies on `Component::new`: compiles an artifact, or reports why it is
/// malformed or incompatible.
#[verifier::external_body]
pub(crate) fn compile_component(engine: &Engine, bytes: &[u8]) -> Result<Component, wasmtime::Error> {
    Component::new(engine, bytes)
}

/// Relies on the alternate `Display` of `wasmtime::Error` (an
/// `anyhow::Error`): the message with its chain of causes.
#[verifier::external_body]
pub(crate) fn error_text(e: &wasmtime::Error) -> String {
    format!("{:#}", e)
}

/// Relies on chrono's `From<SystemTime> for DateTime<Utc>` and
/// `DateTime::timestamp`: the current time in whole seconds since the Unix
/// epoch, negative for a clock set before it (no panic either way).
#[verifier::external_body]
pub(crate) fn unix_timestamp() -> i64 {
    chrono::DateTime::<chrono::Utc>::from(std::time::SystemTime::now()).timestamp()
}

} // verus!
