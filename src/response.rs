//! The admission verdict and its wire form.
use vstd::prelude::*;

use crate::annotations::AuditAnnotations;
use crate::error::CallError;
use crate::json::{
    ascii, decimal, document_json, encode_document, json_string, push_ascii, push_bytes, push_decimal,
    push_string,
};

verus! {

/// The verdict on one admission request.
pub struct ValidationResponse {
    pub accepted: bool,
    pub message: Option<String>,
    pub code: Option<u16>,
    pub mutated_object: Option<serde_json::Value>,
    pub audit_annotations: Option<AuditAnnotations>,
    pub warnings: Option<Vec<String>>,
}

pub open spec fn bool_text(b: bool) -> Seq<u8> {
    if b {
        ascii("true"@)
    } else {
        ascii("false"@)
    }
}

/// `"key":"value"`.
pub open spec fn member_text(e: (Seq<char>, Seq<char>)) -> Seq<u8> {
    json_string(e.0) + ascii(":"@) + json_string(e.1)
}

/// The members of an object, separated by commas.
pub open spec fn members_text(e: Seq<(Seq<char>, Seq<char>)>) -> Seq<u8>
    decreases e.len(),
{
    if e.len() == 0 {
        Seq::empty()
    } else if e.len() == 1 {
        member_text(e[0])
    } else {
        members_text(e.drop_last()) + ascii(","@) + member_text(e.last())
    }
}

/// The elements of an array of strings, separated by commas.
pub open spec fn elements_text(w: Seq<Seq<char>>) -> Seq<u8>
    decreases w.len(),
{
    if w.len() == 0 {
        Seq::empty()
    } else if w.len() == 1 {
        json_string(w[0])
    } else {
        elements_text(w.drop_last()) + ascii(","@) + json_string(w.last())
    }
}

pub open spec fn warnings_view(w: Seq<String>) -> Seq<Seq<char>> {
    w.map_values(|s: String| s@)
}

pub open spec fn message_part(m: Option<String>) -> Seq<u8> {
    match m {
        Some(m) => ascii(",\"message\":"@) + json_string(m@),
        None => Seq::empty(),
    }
}

pub open spec fn code_part(c: Option<u16>) -> Seq<u8> {
    match c {
        Some(c) => ascii(",\"code\":"@) + decimal(c as nat),
        None => Seq::empty(),
    }
}

pub open spec fn document_part(document: Option<Seq<u8>>) -> Seq<u8> {
    match document {
        Some(d) => ascii(",\"mutated_object\":"@) + d,
        None => Seq::empty(),
    }
}

pub open spec fn annotations_part(a: Option<AuditAnnotations>) -> Seq<u8> {
    match a {
        Some(a) => ascii(",\"audit_annotations\":{"@) + members_text(a@) + ascii("}"@),
        None => Seq::empty(),
    }
}

pub open spec fn warnings_part(w: Option<Vec<String>>) -> Seq<u8> {
    match w {
        Some(w) => ascii(",\"warnings\":["@) + elements_text(warnings_view(w@)) + ascii("]"@),
        None => Seq::empty(),
    }
}

/// The wire form of `r`, where `document` is the encoded mutated object, if
/// any; an absent optional field is left out.
pub open spec fn response_text(r: ValidationResponse, document: Option<Seq<u8>>) -> Seq<u8> {
    ascii("{\"accepted\":"@) + bool_text(r.accepted) + message_part(r.message) + code_part(r.code)
        + document_part(document) + annotations_part(
        r.audit_annotations,
    ) + warnings_part(r.warnings) + ascii("}"@)
}

fn push_members(out: &mut Vec<u8>, a: &AuditAnnotations)
    ensures
        final(out)@ == old(out)@ + members_text(a@),
{
    let n = a.len();
    let mut i: usize = 0;
    while i < n
        invariant
            n == a@.len(),
            i <= n,
            out@ == old(out)@ + members_text(a@.subrange(0, i as int)),
        decreases n - i,
    {
        let (k, v) = a.entry(i);
        if i > 0 {
            proof { reveal_strlit(","); }
            push_ascii(out, ",");
        }
        push_string(out, k.as_str());
        proof { reveal_strlit(":"); }
        push_ascii(out, ":");
        push_string(out, v.as_str());
        proof {
            let s = a@.subrange(0, i + 1);
            assert(s.drop_last() =~= a@.subrange(0, i as int));
            assert(s.last() == a@[i as int]);
            if i == 0 {
                assert(members_text(a@.subrange(0, 0)) =~= Seq::<u8>::empty());
            }
        }
        i = i + 1;
        assert(out@ =~= old(out)@ + members_text(a@.subrange(0, i as int)));
    }
    assert(a@.subrange(0, i as int) =~= a@);
}

fn push_elements(out: &mut Vec<u8>, w: &Vec<String>)
    ensures
        final(out)@ == old(out)@ + elements_text(warnings_view(w@)),
{
    let n = w.len();
    let mut i: usize = 0;
    while i < n
        invariant
            n == w@.len(),
            i <= n,
            out@ == old(out)@ + elements_text(warnings_view(w@.subrange(0, i as int))),
        decreases n - i,
    {
        if i > 0 {
            proof { reveal_strlit(","); }
            push_ascii(out, ",");
        }
        push_string(out, w[i].as_str());
        proof {
            let s = warnings_view(w@.subrange(0, i + 1));
            assert(s.drop_last() =~= warnings_view(w@.subrange(0, i as int)));
            assert(s.last() == w@[i as int]@);
            if i == 0 {
                assert(warnings_view(w@.subrange(0, 0)) =~= Seq::<Seq<char>>::empty());
            }
        }
        i = i + 1;
        assert(out@ =~= old(out)@ + elements_text(warnings_view(w@.subrange(0, i as int))));
    }
    assert(w@.subrange(0, i as int) =~= w@);
}

fn push_bool(out: &mut Vec<u8>, b: bool)
    ensures
        final(out)@ == old(out)@ + bool_text(b),
{
    if b {
        proof { reveal_strlit("true"); }
        push_ascii(out, "true");
    } else {
        proof { reveal_strlit("false"); }
        push_ascii(out, "false");
    }
}

fn push_message_part(out: &mut Vec<u8>, m: &Option<String>)
    ensures
        final(out)@ == old(out)@ + message_part(*m),
{
    if let Some(m) = m {
        proof { reveal_strlit(",\"message\":"); }
        push_ascii(out, ",\"message\":");
        push_string(out, m.as_str());
    }
    assert(out@ =~= old(out)@ + message_part(*m));
}

fn push_code_part(out: &mut Vec<u8>, c: Option<u16>)
    ensures
        final(out)@ == old(out)@ + code_part(c),
{
    if let Some(c) = c {
        proof { reveal_strlit(",\"code\":"); }
        push_ascii(out, ",\"code\":");
        push_decimal(out, c);
    }
    assert(out@ =~= old(out)@ + code_part(c));
}

fn push_document_part(out: &mut Vec<u8>, document: Option<&[u8]>)
    ensures
        final(out)@ == old(out)@ + document_part(
            match document {
                Some(d) => Some(d@),
                None => None,
            },
        ),
{
    if let Some(document) = document {
        proof { reveal_strlit(",\"mutated_object\":"); }
        push_ascii(out, ",\"mutated_object\":");
        push_bytes(out, document);
    }
}

fn push_annotations_part(out: &mut Vec<u8>, a: &Option<AuditAnnotations>)
    ensures
        final(out)@ == old(out)@ + annotations_part(*a),
{
    if let Some(a) = a {
        proof { reveal_strlit(",\"audit_annotations\":{"); }
        push_ascii(out, ",\"audit_annotations\":{");
        push_members(out, a);
        proof { reveal_strlit("}"); }
        push_ascii(out, "}");
    }
    assert(out@ =~= old(out)@ + annotations_part(*a));
}

fn push_warnings_part(out: &mut Vec<u8>, w: &Option<Vec<String>>)
    ensures
        final(out)@ == old(out)@ + warnings_part(*w),
{
    if let Some(w) = w {
        proof { reveal_strlit(",\"warnings\":["); }
        push_ascii(out, ",\"warnings\":[");
        push_elements(out, w);
        proof { reveal_strlit("]"); }
        push_ascii(out, "]");
    }
    assert(out@ =~= old(out)@ + warnings_part(*w));
}

impl ValidationResponse {
    /// An acceptance carries no message or code; a rejection carries no
    /// mutated object.
    pub open spec fn wf(&self) -> bool {
        &&& self.accepted ==> self.message is None && self.code is None
        &&& !self.accepted ==> self.mutated_object is None
    }

    /// Acceptance, with every optional field absent.
    pub fn accept() -> (r: ValidationResponse)
        ensures
            r.wf(),
            r.accepted,
            r.message is None,
            r.code is None,
            r.mutated_object is None,
            r.audit_annotations is None,
            r.warnings is None,
    {
        ValidationResponse {
            accepted: true,
            message: None,
            code: None,
            mutated_object: None,
            audit_annotations: None,
            warnings: None,
        }
    }

    /// Acceptance that replaces the object by `mutated_object`.
    pub fn mutate(mutated_object: serde_json::Value) -> (r: ValidationResponse)
        ensures
            r.wf(),
            r.accepted,
            r.message is None,
            r.code is None,
            r.mutated_object == Some(mutated_object),
            r.audit_annotations is None,
            r.warnings is None,
    {
        ValidationResponse {
            accepted: true,
            message: None,
            code: None,
            mutated_object: Some(mutated_object),
            audit_annotations: None,
            warnings: None,
        }
    }

    /// Rejection carrying each given field as it is.
    pub fn reject(
        message: Option<String>,
        code: Option<u16>,
        audit_annotations: Option<AuditAnnotations>,
        warnings: Option<Vec<String>>,
    ) -> (r: ValidationResponse)
        ensures
            r.wf(),
            !r.accepted,
            r.message == message,
            r.code == code,
            r.mutated_object is None,
            r.audit_annotations == audit_annotations,
            r.warnings == warnings,
    {
        ValidationResponse {
            accepted: false,
            message,
            code,
            mutated_object: None,
            audit_annotations,
            warnings,
        }
    }

    /// Writes the wire form, with `document` standing for the encoded
    /// mutated object; the value in `mutated_object` is not read.
    pub fn frame(&self, document: Option<&[u8]>) -> (r: Vec<u8>)
        ensures
            r@ == response_text(
                *self,
                match document {
                    Some(d) => Some(d@),
                    None => None,
                },
            ),
    {
        let mut out: Vec<u8> = Vec::new();
        proof { reveal_strlit("{\"accepted\":"); }
        push_ascii(&mut out, "{\"accepted\":");
        push_bool(&mut out, self.accepted);
        push_message_part(&mut out, &self.message);
        push_code_part(&mut out, self.code);
        push_document_part(&mut out, document);
        push_annotations_part(&mut out, &self.audit_annotations);
        push_warnings_part(&mut out, &self.warnings);
        proof { reveal_strlit("}"); }
        push_ascii(&mut out, "}");
        assert(out@ =~= response_text(
            *self,
            match document {
                Some(d) => Some(d@),
                None => None,
            },
        ));
        out
    }

    /// The wire form of the verdict; a mutated object is encoded by
    /// `serde_json::to_vec`.
    pub fn to_json(&self) -> (r: Result<Vec<u8>, CallError>)
        ensures
            r matches Ok(b) && b@ == response_text(
                *self,
                match self.mutated_object {
                    Some(v) => Some(document_json(v)),
                    None => None,
                },
            ),
    {
        match &self.mutated_object {
            None => Ok(self.frame(None)),
            Some(v) => match encode_document(v) {
                Ok(d) => Ok(self.frame(Some(d.as_slice()))),
                Err(e) => Err(CallError::Encoding(e)),
            },
        }
    }
}

} // verus!
