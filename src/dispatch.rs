//! The operations a plugin offers, the typed requests built from a JSON
//! payload, and the JSON envelopes built from what a call returned.

use vstd::prelude::*;
use crate::bridge::{KvPair, json_to_kvpairs, kv_pairs_of, pairs_view};
use crate::json::{JsonNumber, JsonValue, field, get, text_field_or, text_or, unsigned_field_or_zero, unsigned_or_zero};
use crate::engine::unix_timestamp;
use crate::text::{prefixed, push_signed_decimal, signed_decimal};

verus! {

/// The lifecycle operations a plugin exposes.
#[derive(Debug, Clone, Copy, PartialEq, Eq, Structural)]
pub enum Operation {
    StartWorkflow,
    ContinueWorkflow,
    ExecuteActivity,
    CancelWorkflow,
}

/// The operation that a name designates, if any.
pub open spec fn operation_named(name: Seq<char>) -> Option<Operation> {
    if name == "start-workflow"@ {
        Some(Operation::StartWorkflow)
    } else if name == "continue-workflow"@ {
        Some(Operation::ContinueWorkflow)
    } else if name == "execute-activity"@ {
        Some(Operation::ExecuteActivity)
    } else if name == "cancel-workflow"@ {
        Some(Operation::CancelWorkflow)
    } else {
        None
    }
}

/// Reads an operation name.
pub fn parse_operation(name: &str) -> (r: Option<Operation>)
    ensures
        r == operation_named(name@),
{
    let n = String::from_str(name);
    if n == String::from_str("start-workflow") {
        Some(Operation::StartWorkflow)
    } else if n == String::from_str("continue-workflow") {
        Some(Operation::ContinueWorkflow)
    } else if n == String::from_str("execute-activity") {
        Some(Operation::ExecuteActivity)
    } else if n == String::from_str("cancel-workflow") {
        Some(Operation::CancelWorkflow)
    } else {
        None
    }
}

/// A call into a plugin's typed interface, with its parameters.
#[derive(Debug, Clone, PartialEq, Eq)]
pub enum TypedRequest {
    StartWorkflow { workflow_name: String, input: Vec<KvPair> },
    /// Continues a run; the history handed over is always empty.
    ContinueWorkflow { run_id: u64 },
    ExecuteActivity { activity_name: String, input: Vec<KvPair> },
    CancelWorkflow { run_id: u64 },
}

/// The pairs of a payload's `input` member; none when it is absent.
pub open spec fn input_pairs(params: JsonValue) -> Seq<(Seq<char>, Seq<char>)> {
    match field(params, "input"@) {
        Some(input) => kv_pairs_of(input),
        None => Seq::empty(),
    }
}

/// `r` is the request for operation `op` built from `params`: names
/// default to `default`, run ids to zero.
pub open spec fn request_for(r: TypedRequest, op: Operation, params: JsonValue) -> bool {
    match op {
        Operation::StartWorkflow => match r {
            TypedRequest::StartWorkflow { workflow_name, input } => {
                &&& workflow_name@ == text_or(field(params, "workflow_name"@), "default"@)
                &&& pairs_view(input@) == input_pairs(params)
            },
            _ => false,
        },
        Operation::ContinueWorkflow => r == TypedRequest::ContinueWorkflow {
            run_id: unsigned_or_zero(field(params, "run_id"@)),
        },
        Operation::ExecuteActivity => match r {
            TypedRequest::ExecuteActivity { activity_name, input } => {
                &&& activity_name@ == text_or(field(params, "activity_name"@), "default"@)
                &&& pairs_view(input@) == input_pairs(params)
            },
            _ => false,
        },
        Operation::CancelWorkflow => r == TypedRequest::CancelWorkflow {
            run_id: unsigned_or_zero(field(params, "run_id"@)),
        },
    }
}

/// The key-value pairs of a payload's `input` member.
fn input_of(params: &JsonValue) -> (r: Vec<KvPair>)
    ensures
        pairs_view(r@) == input_pairs(*params),
{
    match get(params, "input") {
        Some(input) => json_to_kvpairs(input),
        None => {
            let r: Vec<KvPair> = Vec::new();
            assert(pairs_view(r@) =~= Seq::empty());
            r
        },
    }
}

/// Builds the typed request for `op` out of a JSON payload.
pub fn prepare_request(op: Operation, params: &JsonValue) -> (r: TypedRequest)
    ensures
        request_for(r, op, *params),
{
    match op {
        Operation::StartWorkflow => TypedRequest::StartWorkflow {
            workflow_name: text_field_or(params, "workflow_name", "default"),
            input: input_of(params),
        },
        Operation::ContinueWorkflow => TypedRequest::ContinueWorkflow {
            run_id: unsigned_field_or_zero(params, "run_id"),
        },
        Operation::ExecuteActivity => TypedRequest::ExecuteActivity {
            activity_name: text_field_or(params, "activity_name", "default"),
            input: input_of(params),
        },
        Operation::CancelWorkflow => TypedRequest::CancelWorkflow {
            run_id: unsigned_field_or_zero(params, "run_id"),
        },
    }
}

/// What a call into a plugin came back with.
#[derive(Debug, PartialEq, Eq)]
pub enum CallOutcome {
    /// The operation succeeded with this result.
    Returned(JsonValue),
    /// The operation itself reported this error.
    Rejected(String),
    /// The engine failed: instantiation, a trap, or a resource limit.
    Fault(String),
}

/// What an envelope member must hold.
pub enum Expected {
    /// Exactly this value.
    Value(JsonValue),
    /// A string with these characters.
    Text(Seq<char>),
}

/// `v` meets `e`.
pub open spec fn fits(v: JsonValue, e: Expected) -> bool {
    match e {
        Expected::Value(x) => v == x,
        Expected::Text(t) => v is String && v->String_0@ == t,
    }
}

/// `v` is an object whose members are, in order, the keys of `shape`
/// with values that meet it.
pub open spec fn object_of(v: JsonValue, shape: Seq<(Seq<char>, Expected)>) -> bool {
    &&& v is Object
    &&& v->Object_0@.len() == shape.len()
    &&& forall|i: int|
        0 <= i < shape.len() ==> {
            &&& (#[trigger] v->Object_0@[i]).0@ == shape[i].0
            &&& fits(v->Object_0@[i].1, shape[i].1)
        }
}

/// The members of a failure envelope.
pub open spec fn failure_shape(error: Seq<char>) -> Seq<(Seq<char>, Expected)> {
    seq![("success"@, Expected::Value(JsonValue::Bool(false))), ("error"@, Expected::Text(error))]
}

/// The envelope for an operation name that designates nothing.
pub open spec fn unknown_shape(name: Seq<char>) -> Seq<(Seq<char>, Expected)> {
    failure_shape("Unknown WIT function: "@ + name)
}

/// The run id that a start reports, made from a timestamp.
pub open spec fn run_label(timestamp: i64) -> Seq<char> {
    "run_"@ + signed_decimal(timestamp as int)
}

/// The members of the envelope for `request` after `outcome`; `timestamp`
/// is the time the envelope was made.
pub open spec fn envelope_shape(request: TypedRequest, outcome: CallOutcome, timestamp: i64) -> Seq<
    (Seq<char>, Expected),
> {
    let ok = ("success"@, Expected::Value(JsonValue::Bool(true)));
    match outcome {
        CallOutcome::Fault(m) => failure_shape("Runtime error: "@ + m@),
        CallOutcome::Rejected(e) => match request {
            TypedRequest::ExecuteActivity { activity_name, .. } => seq![
                ("success"@, Expected::Value(JsonValue::Bool(false))),
                ("error"@, Expected::Text(e@)),
                ("activity"@, Expected::Text(activity_name@)),
            ],
            _ => failure_shape("Workflow error: "@ + e@),
        },
        CallOutcome::Returned(v) => match request {
            TypedRequest::StartWorkflow { .. } => seq![
                ok,
                ("result"@, Expected::Text("Workflow started successfully"@)),
                ("workflow_run"@, Expected::Value(v)),
                ("run_id"@, Expected::Text(run_label(timestamp))),
            ],
            TypedRequest::ContinueWorkflow { run_id } => seq![
                ok,
                ("result"@, Expected::Value(v)),
                ("run_id"@, Expected::Value(JsonValue::Number(JsonNumber::PosInt(run_id)))),
            ],
            TypedRequest::ExecuteActivity { activity_name, .. } => seq![
                ok,
                ("result"@, Expected::Value(v)),
                ("activity"@, Expected::Text(activity_name@)),
            ],
            TypedRequest::CancelWorkflow { run_id } => seq![
                ok,
                ("result"@, Expected::Value(v)),
                ("run_id"@, Expected::Value(JsonValue::Number(JsonNumber::PosInt(run_id)))),
                ("action"@, Expected::Text("cancelled"@)),
            ],
        },
    }
}

/// A string member.
fn text_member(key: &str, text: String) -> (r: (String, JsonValue))
    ensures
        r.0@ == key@,
        r.1 is String,
        r.1->String_0@ == text@,
{
    (String::from_str(key), JsonValue::String(text))
}

/// A member holding `value`.
fn value_member(key: &str, value: JsonValue) -> (r: (String, JsonValue))
    ensures
        r.0@ == key@,
        r.1 == value,
{
    (String::from_str(key), value)
}

/// A failure envelope carrying `error`.
fn failure(error: String) -> (r: JsonValue)
    ensures
        object_of(r, failure_shape(error@)),
{
    let mut members: Vec<(String, JsonValue)> = Vec::new();
    members.push(value_member("success", JsonValue::Bool(false)));
    members.push(text_member("error", error));
    let r = JsonValue::Object(members);
    assert(r->Object_0@.len() == 2);
    r
}

/// The envelope for an operation name that designates nothing: no plugin
/// code runs for it.
pub fn unknown_operation(name: &str) -> (r: JsonValue)
    ensures
        object_of(r, unknown_shape(name@)),
{
    failure(prefixed("Unknown WIT function: ", name))
}

/// Builds the envelope for `request` after `outcome`, at `timestamp`.
pub fn envelope(request: &TypedRequest, outcome: CallOutcome, timestamp: i64) -> (r: JsonValue)
    ensures
        object_of(r, envelope_shape(*request, outcome, timestamp)),
{
    match outcome {
        CallOutcome::Fault(m) => failure(prefixed("Runtime error: ", m.as_str())),
        CallOutcome::Rejected(e) => match request {
            TypedRequest::ExecuteActivity { activity_name, .. } => {
                let mut members: Vec<(String, JsonValue)> = Vec::new();
                members.push(value_member("success", JsonValue::Bool(false)));
                members.push(text_member("error", e));
                members.push(text_member("activity", activity_name.clone()));
                JsonValue::Object(members)
            },
            _ => failure(prefixed("Workflow error: ", e.as_str())),
        },
        CallOutcome::Returned(v) => {
            let mut members: Vec<(String, JsonValue)> = Vec::new();
            members.push(value_member("success", JsonValue::Bool(true)));
            match request {
                TypedRequest::StartWorkflow { .. } => {
                    members.push(text_member("result", String::from_str("Workflow started successfully")));
                    members.push(value_member("workflow_run", v));
                    let mut label = String::from_str("run_");
                    push_signed_decimal(&mut label, timestamp);
                    members.push(text_member("run_id", label));
                },
                TypedRequest::ContinueWorkflow { run_id } => {
                    members.push(value_member("result", v));
                    members.push(value_member("run_id", JsonValue::Number(JsonNumber::PosInt(*run_id))));
                },
                TypedRequest::ExecuteActivity { activity_name, .. } => {
                    members.push(value_member("result", v));
                    members.push(text_member("activity", activity_name.clone()));
                },
                TypedRequest::CancelWorkflow { run_id } => {
                    members.push(value_member("result", v));
                    members.push(value_member("run_id", JsonValue::Number(JsonNumber::PosInt(*run_id))));
                    members.push(text_member("action", String::from_str("cancelled")));
                },
            }
            JsonValue::Object(members)
        },
    }
}

/// Builds the envelope for `request` after `outcome`, stamped with the
/// current time.
pub fn finish_call(request: &TypedRequest, outcome: CallOutcome) -> (r: JsonValue)
    ensures
        exists|t: i64| object_of(r, #[trigger] envelope_shape(*request, outcome, t)),
{
    let now = unix_timestamp();
    envelope(request, outcome, now)
}

} // verus!
