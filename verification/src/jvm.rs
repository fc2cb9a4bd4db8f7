//! What the library decides around the Scalus backend on the JVM: its
//! errors and their messages, the result of an evaluation, and the check of
//! a script hash that comes back from it.
use crate::text::{nat_decimal, nat_text, owned, push_str};
use vstd::prelude::*;

verus! {

/// Errors of compiling and evaluating through the Scalus backend.
#[derive(Debug, PartialEq)]
pub enum RustusError {
    JvmNotFound(String),
    JvmInit(String),
    Compilation(String),
    Eval(String),
    Serialization(String),
    JarNotFound(String),
    Io(String),
}

/// The message of an error: what went wrong, a colon, and the detail.
pub open spec fn error_text(e: RustusError) -> Seq<char> {
    match e {
        RustusError::JvmNotFound(s) => "JVM not found: "@ + s@,
        RustusError::JvmInit(s) => "JVM initialization failed: "@ + s@,
        RustusError::Compilation(s) => "Scalus compilation error: "@ + s@,
        RustusError::Eval(s) => "CEK evaluation error: "@ + s@,
        RustusError::Serialization(s) => "JSON serialization error: "@ + s@,
        RustusError::JarNotFound(s) => "uber-JAR not found: "@ + s@,
        RustusError::Io(s) => "IO error: "@ + s@,
    }
}

impl RustusError {
    /// The message that the error displays as.
    pub fn message(&self) -> (r: String)
        ensures
            r@ == error_text(*self),
    {
        let (head, detail) = match self {
            RustusError::JvmNotFound(s) => ("JVM not found: ", s),
            RustusError::JvmInit(s) => ("JVM initialization failed: ", s),
            RustusError::Compilation(s) => ("Scalus compilation error: ", s),
            RustusError::Eval(s) => ("CEK evaluation error: ", s),
            RustusError::Serialization(s) => ("JSON serialization error: ", s),
            RustusError::JarNotFound(s) => ("uber-JAR not found: ", s),
            RustusError::Io(s) => ("IO error: ", s),
        };
        let mut r = owned(head);
        push_str(&mut r, detail.as_str());
        r
    }
}

/// The outcome of running a script in the CEK machine.
#[derive(Debug, PartialEq)]
pub struct EvalResult {
    pub success: bool,
    pub cpu: u64,
    pub mem: u64,
    pub logs: Vec<String>,
    pub error: std::option::Option<String>,
}

impl EvalResult {
    /// Whether the script ran to the end.
    pub fn succeeded(&self) -> (r: bool)
        ensures
            r == self.success,
    {
        self.success
    }

    /// Whether the script failed.
    pub fn failed(&self) -> (r: bool)
        ensures
            r == !self.success,
    {
        !self.success
    }
}

/// The message for a script hash of the wrong length.
pub open spec fn hash_length_text(n: nat) -> Seq<char> {
    "Expected 28-byte hash, got "@ + nat_decimal(n) + " bytes"@
}

/// The bytes that the backend returned as a script hash, as a 28-byte hash:
/// an error where there are not exactly 28 of them.
pub fn script_hash_from_bytes(bytes: Vec<u8>) -> (r: Result<[u8; 28], RustusError>)
    ensures
        r is Ok <==> bytes@.len() == 28,
        r matches Ok(h) ==> h@ == bytes@,
        r matches Err(e) ==> e is Compilation && e->Compilation_0@ == hash_length_text(bytes@.len()),
{
    if bytes.len() != 28 {
        let mut m = owned("Expected 28-byte hash, got ");
        let n = nat_text(bytes.len() as u64);
        push_str(&mut m, n.as_str());
        push_str(&mut m, " bytes");
        return Err(RustusError::Compilation(m));
    }
    let mut out = [0u8; 28];
    let mut i: usize = 0;
    while i < 28
        invariant
            bytes@.len() == 28,
            i <= 28,
            forall|j: int| 0 <= j < i ==> out@[j] == bytes@[j],
        decreases 28 - i,
    {
        out[i] = bytes[i];
        i += 1;
    }
    assert(out@ =~= bytes@);
    Ok(out)
}

} // verus!
