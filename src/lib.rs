//! Building blocks of a policy that runs as a guest module: the verdicts it
//! returns to its host on admission requests and on settings, and the
//! protocol version it reports.
use vstd::prelude::*;

pub mod annotations;
pub mod error;
pub mod json;
pub mod metadata;
pub mod response;
pub mod settings;

use crate::annotations::AuditAnnotations;
use crate::error::CallError;
use crate::json::{ascii, document_json, encode_document, lossy_text, utf8_lossy};
use crate::metadata::{version_text, ProtocolVersion};
use crate::response::{
    annotations_part, code_part, message_part, response_text, warnings_part, ValidationResponse,
};
use crate::settings::{outcome_text, settings_response, Validatable};

verus! {

/// The wire form of an acceptance.
pub open spec fn acceptance_text() -> Seq<u8> {
    ascii("{\"accepted\":true}"@)
}

/// The wire form of an acceptance that replaces the object by `document`.
pub open spec fn mutation_text(document: Seq<u8>) -> Seq<u8> {
    ascii("{\"accepted\":true,\"mutated_object\":"@) + document + ascii("}"@)
}

/// The wire form of a rejection.
pub open spec fn rejection_text(
    message: Option<String>,
    code: Option<u16>,
    audit_annotations: Option<AuditAnnotations>,
    warnings: Option<Vec<String>>,
) -> Seq<u8> {
    ascii("{\"accepted\":false"@) + message_part(message) + code_part(code) + annotations_part(
        audit_annotations,
    ) + warnings_part(warnings) + ascii("}"@)
}

/// Create an acceptance response.
pub fn accept_request() -> (r: Result<Vec<u8>, CallError>)
    ensures
        r matches Ok(b) && b@ == acceptance_text(),
{
    let res = ValidationResponse::accept();
    let r = res.to_json();
    proof {
        reveal_strlit("{\"accepted\":");
        reveal_strlit("true");
        reveal_strlit("}");
        reveal_strlit("{\"accepted\":true}");
        assert(response_text(res, None) =~= acceptance_text());
    }
    r
}

/// The acceptance that replaces the object by the already encoded
/// `document`.
pub fn mutate_response(document: &[u8]) -> (r: Vec<u8>)
    ensures
        r@ == mutation_text(document@),
{
    let res = ValidationResponse::accept();
    let r = res.frame(Some(document));
    proof {
        reveal_strlit("{\"accepted\":");
        reveal_strlit("true");
        reveal_strlit(",\"mutated_object\":");
        reveal_strlit("}");
        reveal_strlit("{\"accepted\":true,\"mutated_object\":");
        assert(response_text(res, Some(document@)) =~= mutation_text(document@));
    }
    r
}

/// The document handed to `mutate_response` stands whole in its output,
/// after the fixed opening and before the closing brace, so decoding the
/// output's `mutated_object` gives back exactly that document.
pub proof fn lemma_mutation_frames_document(document: Seq<u8>)
    ensures
        ({
            let t = mutation_text(document);
            let k = ascii("{\"accepted\":true,\"mutated_object\":"@).len();
            &&& t.subrange(0, k as int) == ascii("{\"accepted\":true,\"mutated_object\":"@)
            &&& t.subrange(k as int, t.len() - 1) == document
            &&& t.last() == 125u8
        }),
{
    reveal_strlit("{\"accepted\":true,\"mutated_object\":");
    reveal_strlit("}");
    let t = mutation_text(document);
    let p = ascii("{\"accepted\":true,\"mutated_object\":"@);
    assert(t.subrange(0, p.len() as int) =~= p);
    assert(t.subrange(p.len() as int, t.len() - 1) =~= document);
}

/// Create an acceptance response that mutates the original object: the
/// object is encoded by serde_json and framed by `mutate_response`.
pub fn mutate_request(mutated_object: serde_json::Value) -> (r: Result<Vec<u8>, CallError>)
    ensures
        r matches Ok(b) && b@ == mutation_text(document_json(mutated_object)),
{
    match encode_document(&mutated_object) {
        Ok(d) => Ok(mutate_response(d.as_slice())),
        Err(e) => Err(CallError::Encoding(e)),
    }
}

/// Mutating is a function of the document alone: equal documents give
/// byte-equal payloads, and the payload holds the document's encoding
/// between the fixed opening and the closing brace.
pub proof fn lemma_mutation_depends_on_document_alone(
    d1: serde_json::Value,
    d2: serde_json::Value,
)
    requires
        d1 == d2,
    ensures
        mutation_text(document_json(d1)) == mutation_text(document_json(d2)),
        ({
            let t = mutation_text(document_json(d1));
            let k = ascii("{\"accepted\":true,\"mutated_object\":"@).len();
            t.subrange(k as int, t.len() - 1) == document_json(d1)
        }),
{
    lemma_mutation_frames_document(document_json(d1));
}

/// Create a rejection response, carrying each given field as it is.
pub fn reject_request(
    message: Option<String>,
    code: Option<u16>,
    audit_annotations: Option<AuditAnnotations>,
    warnings: Option<Vec<String>>,
) -> (r: Result<Vec<u8>, CallError>)
    ensures
        r matches Ok(b) && b@ == rejection_text(message, code, audit_annotations, warnings),
{
    let ghost (m, c, a, w) = (message, code, audit_annotations, warnings);
    let res = ValidationResponse::reject(message, code, audit_annotations, warnings);
    let r = res.to_json();
    proof {
        reveal_strlit("{\"accepted\":");
        reveal_strlit("false");
        reveal_strlit("{\"accepted\":false");
        assert(response_text(res, None) =~= rejection_text(m, c, a, w));
    }
    r
}

/// The diagnostic for a settings payload that could not be decoded.
pub open spec fn decoding_diagnostic(payload: Seq<u8>, cause: Seq<char>) -> Seq<char> {
    "Error decoding validation payload "@ + lossy_text(payload) + ": "@ + cause
}

/// The diagnostic for an undecodable payload holds the payload's text, right
/// after the fixed opening, and then the cause.
pub proof fn lemma_diagnostic_names_payload(payload: Seq<u8>, cause: Seq<char>)
    ensures
        ({
            let m = decoding_diagnostic(payload, cause);
            let k = "Error decoding validation payload "@.len();
            let n = lossy_text(payload).len();
            &&& m.subrange(k as int, (k + n) as int) == lossy_text(payload)
            &&& m.subrange(m.len() - cause.len(), m.len() as int) == cause
        }),
{
    let m = decoding_diagnostic(payload, cause);
    let k = "Error decoding validation payload "@.len();
    let n = lossy_text(payload).len();
    assert(m.subrange(k as int, (k + n) as int) =~= lossy_text(payload));
    assert(m.subrange(m.len() - cause.len(), m.len() as int) =~= cause);
}

/// Validates decoded settings: `decoded` is the result of decoding `payload`
/// into the configuration type, its error the decoder's description. A
/// decoding failure is an invocation failure naming the payload and the
/// cause; otherwise the configuration's own validation gives the verdict.
pub fn validate_settings<T: Validatable>(payload: &[u8], decoded: Result<T, String>) -> (r: Result<
    Vec<u8>,
    CallError,
>)
    ensures
        decoded matches Err(cause) ==> (r matches Err(CallError::Decoding(m)) && m@
            == decoding_diagnostic(payload@, cause@)),
        decoded is Ok ==> (r matches Ok(b) && exists|o: Result<(), String>| b@ == outcome_text(o)),
{
    match decoded {
        Err(cause) => {
            let mut m = String::from_str("Error decoding validation payload ");
            let text = utf8_lossy(payload);
            m.append(text.as_str());
            m.append(": ");
            m.append(cause.as_str());
            proof {
                reveal_strlit("Error decoding validation payload ");
                reveal_strlit(": ");
            }
            Err(CallError::Decoding(m))
        },
        Ok(settings) => Ok(settings_response(settings.validate())),
    }
}

/// Helper that answers the host's `protocol_version` query: the default
/// version, whatever the payload.
pub fn protocol_version_guest(_payload: &[u8]) -> (r: Result<Vec<u8>, CallError>)
    ensures
        r matches Ok(b) && b@ == version_text(ProtocolVersion::V2),
{
    let v = ProtocolVersion::default();
    Ok(v.to_json())
}

} // verus!
