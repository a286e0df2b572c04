//! The framework's error type.

use vstd::prelude::*;

verus! {

/// serde_json's error type.
#[verifier::external_type_specification]
#[verifier::external_body]
pub struct ExJsonError(serde_json::Error);

/// Calls `<serde_json::Error as Display>::fmt` through `format!`. Nothing is
/// stated of the text: the error is opaque here.
#[verifier::external_body]
pub(crate) fn json_error_text(e: &serde_json::Error) -> String {
    format!("{}", e)
}

/// Errors of the watchdog framework.
#[derive(Debug)]
pub enum FrameworkError {
    Serialization(serde_json::Error),
    Network(String),
    Custom(String),
    Email(String),
}

/// The text of an error, for the variants that carry a string.
pub open spec fn framework_error_text(e: FrameworkError) -> Seq<char> {
    match e {
        FrameworkError::Serialization(_) => "Serialization error: "@,
        FrameworkError::Network(s) => "Network error: "@ + s@,
        FrameworkError::Custom(s) => "Custom error: "@ + s@,
        FrameworkError::Email(s) => "Email error: "@ + s@,
    }
}

/// `text` is the message of `e`: exactly the text for the variants that carry
/// a string; for a serialization error, the text starts with the variant's prefix
/// and goes on with serde_json's own description.
pub open spec fn describes(e: FrameworkError, text: Seq<char>) -> bool {
    if e is Serialization {
        text.len() >= 21 && text.subrange(0, 21) == framework_error_text(e)
    } else {
        text == framework_error_text(e)
    }
}

impl FrameworkError {
    /// The error's message, as its `Display` writes it.
    pub fn message(&self) -> (m: String)
        ensures
            describes(*self, m@),
    {
        match self {
            FrameworkError::Serialization(e) => {
                let mut m = String::from_str("Serialization error: ");
                let detail = json_error_text(e);
                let ghost prefix = m@;
                m.append(detail.as_str());
                proof {
                    reveal_strlit("Serialization error: ");
                    assert(m@.subrange(0, 21) =~= prefix);
                }
                m
            },
            FrameworkError::Network(s) => {
                let mut m = String::from_str("Network error: ");
                m.append(s.as_str());
                m
            },
            FrameworkError::Custom(s) => {
                let mut m = String::from_str("Custom error: ");
                m.append(s.as_str());
                m
            },
            FrameworkError::Email(s) => {
                let mut m = String::from_str("Email error: ");
                m.append(s.as_str());
                m
            },
        }
    }
}

impl From<serde_json::Error> for FrameworkError {
    fn from(e: serde_json::Error) -> (r: Self) {
        FrameworkError::Serialization(e)
    }
}

impl vstd::std_specs::convert::FromSpecImpl<serde_json::Error> for FrameworkError {
    open spec fn obeys_from_spec() -> bool {
        true
    }

    open spec fn from_spec(e: serde_json::Error) -> Self {
        FrameworkError::Serialization(e)
    }
}

} // verus!
