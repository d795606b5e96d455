use vstd::prelude::*;

verus! {

broadcast use vstd::string::to_string_from_display_ensures_for_str;

/// A run-level error carrying a human-readable message.
///
/// The orchestration layer reports every failure of a run through this
/// type; the structured handshake errors are turned into messages at that
/// boundary.
#[derive(Debug)]
pub struct Error {
    pub message: String,
}

impl Error {
    /// Builds an error carrying the given message.
    pub fn new(message: &str) -> (r: Error)
        ensures
            r.message@ == message@,
    {
        Error { message: message.to_string() }
    }
}

} // verus!
