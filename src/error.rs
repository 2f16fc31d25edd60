use vstd::prelude::*;

verus! {

#[verifier::external_type_specification]
#[verifier::external_body]
pub struct ExJsonError(serde_json::Error);

/// The error taxonomy of the library.
#[derive(Debug)]
pub enum ColbertError {
    /// The tokenizer failed; its message is kept.
    Tokenizer(String),
    /// A JSON document could not be parsed.
    Json(serde_json::Error),
    /// An operation or configuration error with a message.
    Operation(String),
}

impl ColbertError {
    /// Builds an operation error from a message.
    pub fn operation(msg: &str) -> (r: ColbertError)
        ensures
            r matches ColbertError::Operation(m) && m@ == msg@,
    {
        ColbertError::Operation(String::from_str(msg))
    }
}

} // verus!
