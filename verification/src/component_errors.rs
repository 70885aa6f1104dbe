//! The errors of validating and running a Wasm Component.
use vstd::prelude::*;
use crate::text::{concat2, to_owned};

verus! {

/// Error type for component validation and execution failures.
///
/// Each variant carries a stable diagnostic error code that uniquely
/// identifies the failure.
#[derive(Debug, Clone)]
pub enum RunError {
    /// The binary is a core WebAssembly module, not a component.
    CoreModule,
    /// The binary could not be parsed as valid WebAssembly.
    InvalidBinary {
        /// The parser error message.
        reason: String,
    },
    /// The binary has no version header.
    NoVersionHeader,
}

/// The diagnostic code of a [`RunError`].
pub open spec fn run_error_code(e: RunError) -> Seq<char> {
    match e {
        RunError::CoreModule => "wasm::run::core_module"@,
        RunError::InvalidBinary { .. } => "wasm::run::invalid_binary"@,
        RunError::NoVersionHeader => "wasm::run::no_version_header"@,
    }
}

/// The help text of a [`RunError`].
pub open spec fn run_error_help(e: RunError) -> Seq<char> {
    match e {
        RunError::CoreModule => "use a tool like `wasm-tools component new` to wrap the module as a component"@,
        RunError::InvalidBinary { reason } => reason@ + "; ensure the file is a valid WebAssembly binary"@,
        RunError::NoVersionHeader => "ensure the file is a valid WebAssembly binary"@,
    }
}

/// The message of a [`RunError`].
pub open spec fn run_error_message(e: RunError) -> Seq<char> {
    match e {
        RunError::CoreModule => "only Wasm Components can be executed; this appears to be a core module"@,
        RunError::InvalidBinary { reason } => "invalid Wasm binary: "@ + reason@,
        RunError::NoVersionHeader => "invalid Wasm binary: no version header found"@,
    }
}

impl RunError {
    /// The stable diagnostic code that identifies this failure.
    pub fn code(&self) -> (r: &'static str)
        ensures
            r@ == run_error_code(*self),
    {
        match self {
            RunError::CoreModule => "wasm::run::core_module",
            RunError::InvalidBinary { .. } => "wasm::run::invalid_binary",
            RunError::NoVersionHeader => "wasm::run::no_version_header",
        }
    }

    /// What the user can do about this failure.
    pub fn help(&self) -> (r: String)
        ensures
            r@ == run_error_help(*self),
    {
        match self {
            RunError::CoreModule => to_owned("use a tool like `wasm-tools component new` to wrap the module as a component"),
            RunError::InvalidBinary { reason } => concat2(reason.as_str(), "; ensure the file is a valid WebAssembly binary"),
            RunError::NoVersionHeader => to_owned("ensure the file is a valid WebAssembly binary"),
        }
    }

    /// The error's message.
    pub fn message(&self) -> (r: String)
        ensures
            r@ == run_error_message(*self),
    {
        match self {
            RunError::CoreModule => to_owned("only Wasm Components can be executed; this appears to be a core module"),
            RunError::InvalidBinary { reason } => concat2("invalid Wasm binary: ", reason.as_str()),
            RunError::NoVersionHeader => to_owned("invalid Wasm binary: no version header found"),
        }
    }

}

} // verus!
