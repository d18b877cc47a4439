//! The protocol that a guest module speaks with its host.
use vstd::prelude::*;

use crate::json::{ascii, push_ascii};

verus! {

/// The versions of the guest/host protocol.
#[derive(Debug, Clone, Copy, PartialEq, Eq, Structural)]
pub enum ProtocolVersion {
    V1,
    V2,
}

impl Default for ProtocolVersion {
    /// The latest version.
    fn default() -> (r: ProtocolVersion)
        ensures
            r == ProtocolVersion::V2,
    {
        ProtocolVersion::V2
    }
}

/// The wire name of a version.
pub open spec fn version_name(v: ProtocolVersion) -> Seq<char> {
    match v {
        ProtocolVersion::V1 => "v1"@,
        ProtocolVersion::V2 => "v2"@,
    }
}

/// The wire form of a version: its name as a JSON string.
pub open spec fn version_text(v: ProtocolVersion) -> Seq<u8> {
    ascii("\""@) + ascii(version_name(v)) + ascii("\""@)
}

impl ProtocolVersion {
    /// Serializes the version.
    pub fn to_json(&self) -> (r: Vec<u8>)
        ensures
            r@ == version_text(*self),
    {
        let mut out: Vec<u8> = Vec::new();
        proof {
            reveal_strlit("\"");
            reveal_strlit("v1");
            reveal_strlit("v2");
        }
        push_ascii(&mut out, "\"");
        match self {
            ProtocolVersion::V1 => push_ascii(&mut out, "v1"),
            ProtocolVersion::V2 => push_ascii(&mut out, "v2"),
        }
        push_ascii(&mut out, "\"");
        out
    }
}

} // verus!
