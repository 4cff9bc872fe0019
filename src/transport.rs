//! The checks the transport applies before a request reaches the runtime:
//! a run request names a plugin and an operation and carries a bounded
//! payload; an upload is a non-empty `.wasm` file of bounded size, keyed by
//! its name without that suffix.

use vstd::prelude::*;
use crate::text::{chars_of, push_char};

verus! {

/// The largest payload a run request may carry, in bytes: 1 MiB.
pub const MAX_PAYLOAD_BYTES: usize = 1048576;

/// The largest artifact an upload may carry, in bytes: 50 MiB.
pub const MAX_ARTIFACT_BYTES: usize = 52428800;

/// Why a run request is refused.
#[derive(Debug, Clone, Copy, PartialEq, Eq, Structural)]
pub enum RequestError {
    EmptyPluginName,
    EmptyFunctionName,
    PayloadTooLarge,
}

/// Why an upload is refused.
#[derive(Debug, Clone, Copy, PartialEq, Eq, Structural)]
pub enum UploadError {
    /// The file name does not end with `.wasm`.
    NotWasm,
    /// The file is empty.
    Empty,
    /// The file is larger than the limit.
    TooLarge,
}

/// The verdict on a run request.
pub open spec fn run_request_verdict(plugin: Seq<char>, function: Seq<char>, payload_len: nat) -> Result<(), RequestError> {
    if plugin.len() == 0 {
        Err(RequestError::EmptyPluginName)
    } else if function.len() == 0 {
        Err(RequestError::EmptyFunctionName)
    } else if payload_len > MAX_PAYLOAD_BYTES {
        Err(RequestError::PayloadTooLarge)
    } else {
        Ok(())
    }
}

/// Checks a run request; `payload_len` is the length in bytes of its JSON
/// payload.
pub fn check_run_request(plugin_name: &str, function_name: &str, payload_len: usize) -> (r: Result<(), RequestError>)
    ensures
        r == run_request_verdict(plugin_name@, function_name@, payload_len as nat),
{
    if plugin_name.is_empty() {
        Err(RequestError::EmptyPluginName)
    } else if function_name.is_empty() {
        Err(RequestError::EmptyFunctionName)
    } else if payload_len > MAX_PAYLOAD_BYTES {
        Err(RequestError::PayloadTooLarge)
    } else {
        Ok(())
    }
}

/// The artifact suffix.
pub open spec fn wasm_suffix() -> Seq<char> {
    seq!['.', 'w', 'a', 's', 'm']
}

/// `s` ends with the artifact suffix.
pub open spec fn has_wasm_suffix(s: Seq<char>) -> bool {
    s.len() >= 5 && s.subrange(s.len() - 5, s.len() as int) == wasm_suffix()
}

/// `s` with every trailing artifact suffix taken off.
pub open spec fn without_wasm_suffixes(s: Seq<char>) -> Seq<char>
    decreases s.len(),
{
    if has_wasm_suffix(s) {
        without_wasm_suffixes(s.subrange(0, s.len() - 5))
    } else {
        s
    }
}

/// The verdict on an upload: the plugin key, or why it is refused.
pub open spec fn upload_verdict(filename: Seq<char>, len: nat) -> Result<Seq<char>, UploadError> {
    if !has_wasm_suffix(filename) {
        Err(UploadError::NotWasm)
    } else if len == 0 {
        Err(UploadError::Empty)
    } else if len > MAX_ARTIFACT_BYTES {
        Err(UploadError::TooLarge)
    } else {
        Ok(without_wasm_suffixes(filename))
    }
}

/// Whether the first `n` characters of `cs` end with the suffix.
fn ends_with_suffix(cs: &Vec<char>, n: usize) -> (r: bool)
    requires
        n <= cs@.len(),
    ensures
        r == has_wasm_suffix(cs@.subrange(0, n as int)),
{
    if n < 5 {
        return false;
    }
    let r = cs[n - 5] == '.' && cs[n - 4] == 'w' && cs[n - 3] == 'a' && cs[n - 2] == 's' && cs[n - 1] == 'm';
    let ghost prefix = cs@.subrange(0, n as int);
    let ghost tail = prefix.subrange(n - 5, n as int);
    assert(tail[0] == cs@[n - 5] && tail[1] == cs@[n - 4] && tail[2] == cs@[n - 3] && tail[3] == cs@[n - 2]
        && tail[4] == cs@[n - 1]);
    if r {
        assert(tail =~= wasm_suffix());
    } else {
        assert(tail != wasm_suffix()) by {
            if tail == wasm_suffix() {
                assert(wasm_suffix()[0] == '.' && wasm_suffix()[4] == 'm');
            }
        }
    }
    r
}

/// Checks an upload of `len` bytes named `filename` and gives the key the
/// plugin is registered under.
pub fn upload_key(filename: &str, len: usize) -> (r: Result<String, UploadError>)
    ensures
        match r {
            Ok(key) => upload_verdict(filename@, len as nat) == Ok::<Seq<char>, UploadError>(key@),
            Err(e) => upload_verdict(filename@, len as nat) == Err::<Seq<char>, UploadError>(e),
        },
{
    let cs = chars_of(filename);
    assert(cs@.subrange(0, cs@.len() as int) =~= cs@);
    if !ends_with_suffix(&cs, cs.len()) {
        return Err(UploadError::NotWasm);
    }
    if len == 0 {
        return Err(UploadError::Empty);
    }
    if len > MAX_ARTIFACT_BYTES {
        return Err(UploadError::TooLarge);
    }
    let mut n: usize = cs.len();
    while ends_with_suffix(&cs, n)
        invariant
            n <= cs@.len(),
            without_wasm_suffixes(cs@) == without_wasm_suffixes(cs@.subrange(0, n as int)),
        decreases n,
    {
        assert(cs@.subrange(0, n as int).subrange(0, n - 5) =~= cs@.subrange(0, n - 5));
        n = n - 5;
    }
    let mut key = String::new();
    let mut i: usize = 0;
    while i < n
        invariant
            n <= cs@.len(),
            i <= n,
            key@ == cs@.subrange(0, i as int),
        decreases n - i,
    {
        push_char(&mut key, cs[i]);
        assert(cs@.subrange(0, i as int + 1) =~= cs@.subrange(0, i as int).push(cs@[i as int]));
        i = i + 1;
    }
    Ok(key)
}

} // verus!
