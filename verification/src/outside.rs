//! Types of std and of other crates that pass through this library
//! unopened, and the few calls that make or change a value of them.
//!
//! Nothing is known of what such a value holds, and no contract speaks of
//! it.

use vstd::prelude::*;

verus! {

#[verifier::external_type_specification]
#[verifier::external_body]
pub struct ExPathBuf(std::path::PathBuf);

#[verifier::external_type_specification]
#[verifier::external_body]
pub struct ExPath(std::path::Path);

#[verifier::external_type_specification]
#[verifier::external_body]
pub struct ExAnyhowError(anyhow::Error);

/// `std::path::PathBuf::new`: the empty path.
#[verifier::external_body]
pub(crate) fn empty_path() -> (path: std::path::PathBuf) {
    std::path::PathBuf::new()
}

/// `anyhow::Error::msg`: an error that reads as `text`.
#[verifier::external_body]
pub(crate) fn error_of(text: &str) -> (err: anyhow::Error) {
    anyhow::Error::msg(text.to_owned())
}

/// `anyhow::Error::msg`: an error that reads as `text`, a space, and `mode`
/// in octal digits.
#[verifier::external_body]
pub(crate) fn error_of_mode(text: &str, mode: u32) -> (err: anyhow::Error) {
    anyhow::Error::msg(format!("{} {:o}", text, mode))
}

/// `anyhow::Error::context`: the error `err`, with `text` put in front of it
/// as what was being done when it came.
#[verifier::external_body]
pub(crate) fn in_context(err: anyhow::Error, text: &'static str) -> (wrapped: anyhow::Error) {
    err.context(text)
}

} // verus!
