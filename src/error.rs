use vstd::prelude::*;

verus! {

/// Error type for every fallible operation of the library.
#[derive(Debug, Clone, Copy, PartialEq, Eq, Structural)]
pub enum FaitheError {
    /// Error code reported by the operating system for a failed primitive call.
    ErrorCode(u32),
    /// No process with the selected name was found.
    ProcessNotFound,
    /// No module with the selected name was found.
    ModuleNotFound,
    /// The module was found but holds no occurrence of the pattern.
    PatternNotFound,
    /// A protection value that the library's protection type cannot represent.
    UnknownProtection(u32),
    /// A string is not a valid UTF-8/UTF-16 sequence.
    InvalidString,
    /// Pattern text is not an ASCII sequence.
    NonAsciiPattern,
    /// Pattern text holds a token that is not valid in its notation.
    InvalidPattern,
    /// Code-style pattern bytes and mask differ in length.
    PatternMaskMismatch,
    /// A symbolic offset was asked to resolve after it had already resolved.
    AlreadyResolved,
    /// Smart resolution found an instruction it cannot interpret.
    UnsupportedInstructionShape,
    /// A memory query failed.
    QueryFailed,
}

} // verus!
