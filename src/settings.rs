//! Settings validation: the capability that configuration types provide, and
//! the verdict that reports its outcome.
use vstd::prelude::*;

use crate::json::{ascii, json_string, push_ascii, push_string};
use crate::response::bool_text;

verus! {

/// A configuration type that can check itself once decoded.
pub trait Validatable {
    /// `Ok` when the configuration is acceptable, else a message saying why
    /// it is not.
    fn validate(&self) -> Result<(), String>;
}

/// The verdict on one settings payload.
pub struct SettingsValidationResponse {
    pub valid: bool,
    pub message: Option<String>,
}

/// The wire form of a settings verdict; an absent message is left out.
pub open spec fn settings_text(valid: bool, message: Option<Seq<char>>) -> Seq<u8> {
    ascii("{\"valid\":"@) + bool_text(valid) + match message {
        Some(m) => ascii(",\"message\":"@) + json_string(m),
        None => Seq::empty(),
    } + ascii("}"@)
}

impl SettingsValidationResponse {
    /// The verdict for the outcome of a validation: valid with no message,
    /// or invalid with the failure's message.
    pub fn from_outcome(outcome: Result<(), String>) -> (r: SettingsValidationResponse)
        ensures
            r.valid == outcome is Ok,
            outcome is Ok ==> r.message is None,
            outcome matches Err(m) ==> r.message == Some(m),
    {
        match outcome {
            Ok(()) => SettingsValidationResponse { valid: true, message: None },
            Err(m) => SettingsValidationResponse { valid: false, message: Some(m) },
        }
    }

    pub open spec fn message_view(&self) -> Option<Seq<char>> {
        match self.message {
            Some(m) => Some(m@),
            None => None,
        }
    }

    /// Serializes the verdict.
    pub fn to_json(&self) -> (r: Vec<u8>)
        ensures
            r@ == settings_text(self.valid, self.message_view()),
    {
        let mut out: Vec<u8> = Vec::new();
        proof { reveal_strlit("{\"valid\":"); }
        push_ascii(&mut out, "{\"valid\":");
        if self.valid {
            proof { reveal_strlit("true"); }
            push_ascii(&mut out, "true");
        } else {
            proof { reveal_strlit("false"); }
            push_ascii(&mut out, "false");
        }
        if let Some(m) = &self.message {
            proof { reveal_strlit(",\"message\":"); }
            push_ascii(&mut out, ",\"message\":");
            push_string(&mut out, m.as_str());
        }
        proof { reveal_strlit("}"); }
        push_ascii(&mut out, "}");
        assert(out@ =~= settings_text(self.valid, self.message_view()));
        out
    }
}

/// The wire form of the verdict for a validation outcome.
pub open spec fn outcome_text(outcome: Result<(), String>) -> Seq<u8> {
    match outcome {
        Ok(()) => settings_text(true, None),
        Err(m) => settings_text(false, Some(m@)),
    }
}

/// Serializes the verdict for the outcome of a validation.
pub fn settings_response(outcome: Result<(), String>) -> (r: Vec<u8>)
    ensures
        r@ == outcome_text(outcome),
{
    let res = SettingsValidationResponse::from_outcome(outcome);
    res.to_json()
}

} // verus!
