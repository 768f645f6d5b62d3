//! What the analysis reports when it does not accept a function.

use move_core_types::vm_status::StatusCode;
use vstd::prelude::*;
use vstd::string::StringExecFns;

verus! {

/// The way by which an id would have left the function.
#[derive(Clone, Copy, Debug, PartialEq, Eq, Structural)]
pub enum Leak {
    /// Returned to the caller.
    FunctionReturn,
    /// Passed to a function other than the two that delete an object.
    FunctionCall,
    /// Packed into a struct.
    Struct,
    /// Packed or pushed into a vector.
    Vector,
    /// Written through a mutable reference.
    Reference,
}

/// Why a function was not accepted.
#[derive(Clone, Copy, Debug, PartialEq, Eq, Structural)]
pub enum VerifierError {
    /// The function lets an id escape. The module at fault is the one that
    /// was submitted.
    IdLeak(Leak),
    /// The module is not what the verifiers that run before this one let
    /// through: an operand or a local is missing, an index points nowhere,
    /// an instruction on global storage occurs, or a block leaves values on
    /// the stack.
    InvariantViolation,
}

/// The number that the virtual machine gives the status "verification
/// failed for a reason of its own".
pub const UNKNOWN_VERIFICATION_ERROR: u64 = 1000;

/// The number that the virtual machine gives the status "an invariant of
/// the implementation was broken".
pub const UNKNOWN_INVARIANT_VIOLATION_ERROR: u64 = 2000;

/// The number of `StatusCode::UNKNOWN_VERIFICATION_ERROR` of
/// `move_core_types`, as its conversion `u64::from` gives it. The enum is
/// declared with that variant equal to 1000, and the conversion is a cast.
#[verifier::external_body]
fn unknown_verification_error() -> (code: u64)
    ensures
        code == UNKNOWN_VERIFICATION_ERROR,
{
    u64::from(StatusCode::UNKNOWN_VERIFICATION_ERROR)
}

/// The number of `StatusCode::UNKNOWN_INVARIANT_VIOLATION_ERROR` of
/// `move_core_types`, as its conversion `u64::from` gives it. The enum is
/// declared with that variant equal to 2000, and the conversion is a cast.
#[verifier::external_body]
fn unknown_invariant_violation_error() -> (code: u64)
    ensures
        code == UNKNOWN_INVARIANT_VIOLATION_ERROR,
{
    u64::from(StatusCode::UNKNOWN_INVARIANT_VIOLATION_ERROR)
}

impl Leak {
    /// The sentence that names the way of the leak.
    pub open spec fn spec_description(self) -> Seq<char> {
        match self {
            Leak::FunctionReturn => "ID leaked through function return."@,
            Leak::FunctionCall => "ID leaked through function call."@,
            Leak::Struct => "ID is leaked into a struct."@,
            Leak::Vector => "ID is leaked into a vector"@,
            Leak::Reference => "ID is leaked to a reference."@,
        }
    }

    /// The sentence that names the way of the leak.
    pub fn description(&self) -> (text: &'static str)
        ensures
            text@ == self.spec_description(),
    {
        match self {
            Leak::FunctionReturn => "ID leaked through function return.",
            Leak::FunctionCall => "ID leaked through function call.",
            Leak::Struct => "ID is leaked into a struct.",
            Leak::Vector => "ID is leaked into a vector",
            Leak::Reference => "ID is leaked to a reference.",
        }
    }
}

/// What every message about a leak begins with.
pub open spec fn message_prefix() -> Seq<char> {
    "Sui Move Bytecode Verification Error: "@
}

/// The message of a failed verification described by `msg`: `msg` behind
/// the common prefix.
pub fn verification_error_message(msg: &str) -> (message: String)
    ensures
        message@ == message_prefix() + msg@,
{
    String::from_str("Sui Move Bytecode Verification Error: ").concat(msg)
}

impl VerifierError {
    /// The status under which the virtual machine files the error.
    pub open spec fn spec_status_code(self) -> u64 {
        match self {
            VerifierError::IdLeak(_) => UNKNOWN_VERIFICATION_ERROR,
            VerifierError::InvariantViolation => UNKNOWN_INVARIANT_VIOLATION_ERROR,
        }
    }

    /// The text for the author of the module, where there is one.
    pub open spec fn spec_message(self) -> Option<Seq<char>> {
        match self {
            VerifierError::IdLeak(leak) => Some(message_prefix() + leak.spec_description()),
            VerifierError::InvariantViolation => None,
        }
    }

    /// The status under which the virtual machine files the error: every
    /// leak is a failed verification, everything else a broken invariant.
    pub fn status_code(&self) -> (code: u64)
        ensures
            code == self.spec_status_code(),
    {
        match self {
            VerifierError::IdLeak(_) => unknown_verification_error(),
            VerifierError::InvariantViolation => unknown_invariant_violation_error(),
        }
    }

    /// The text for the author of the module. A broken invariant has none:
    /// its cause lies in the tools, not in the module's source.
    pub fn message(&self) -> (message: Option<String>)
        ensures
            message is Some == self.spec_message() is Some,
            message matches Some(text) ==> text@ == self.spec_message()->0,
    {
        match self {
            VerifierError::IdLeak(leak) => Some(verification_error_message(leak.description())),
            VerifierError::InvariantViolation => None,
        }
    }
}

} // verus!
