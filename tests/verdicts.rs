use policy_sdk::annotations::AuditAnnotations;
use policy_sdk::error::CallError;
use policy_sdk::metadata::ProtocolVersion;
use policy_sdk::settings::{settings_response, SettingsValidationResponse, Validatable};
use policy_sdk::{
    accept_request, mutate_request, mutate_response, protocol_version_guest, reject_request,
    validate_settings,
};
use serde_json::Value;

fn decode(raw: &[u8]) -> Value {
    serde_json::from_slice(raw).unwrap()
}

fn annotations(pairs: &[(&str, &str)]) -> AuditAnnotations {
    let mut a = AuditAnnotations::new();
    for (k, v) in pairs {
        a.insert(k.to_string(), v.to_string());
    }
    a
}

#[test]
fn test_mutate_request() {
    let text = r#"{
        "apiVersion": "v1",
        "kind": "Pod",
        "metadata": {
            "name": "security-context-demo-4"
        },
        "spec": {
            "containers": [
            {
                "name": "sec-ctx-4",
                "image": "gcr.io/google-samples/node-hello:1.0",
                "securityContext": {
                    "capabilities": {
                        "add": ["NET_ADMIN", "SYS_TIME"],
                        "drop": ["BPF"]
                    }
                }
            }
            ]
        }
    }"#;
    let mutated_object: Value = serde_json::from_str(text).unwrap();
    let expected_object = mutated_object.clone();

    let reponse_raw = mutate_request(mutated_object).unwrap();
    let response = decode(&reponse_raw);

    assert_eq!(response["mutated_object"], expected_object);
    assert_eq!(response["accepted"], Value::Bool(true));
}

#[test]
fn test_accept_request() {
    let reponse_raw = accept_request().unwrap();
    let response = decode(&reponse_raw);

    assert!(response.get("mutated_object").is_none());
    assert!(response.get("audit_annotations").is_none());
    assert!(response.get("warnings").is_none());
    assert_eq!(response["accepted"], Value::Bool(true));
}

#[test]
fn test_reject_request() {
    let code: u16 = 500;
    let expected_code = code;

    let message = String::from("internal error");
    let expected_message = message.clone();

    let warnings = vec![String::from("warning 1"), String::from("warning 2")];

    let audit_annotations = annotations(&[("imagepolicy.example.com/error", "image-blacklisted")]);

    let reponse_raw = reject_request(
        Some(message),
        Some(code),
        Some(audit_annotations),
        Some(warnings.clone()),
    )
    .unwrap();
    let response = decode(&reponse_raw);

    assert!(response.get("mutated_object").is_none());
    assert_eq!(response["code"].as_u64(), Some(expected_code as u64));
    assert_eq!(response["message"].as_str(), Some(expected_message.as_str()));
    let decoded_annotations = response["audit_annotations"].as_object().unwrap();
    assert_eq!(decoded_annotations.len(), 1);
    assert_eq!(
        decoded_annotations["imagepolicy.example.com/error"].as_str(),
        Some("image-blacklisted")
    );
    let decoded_warnings: Vec<String> = response["warnings"]
        .as_array()
        .unwrap()
        .iter()
        .map(|w| w.as_str().unwrap().to_string())
        .collect();
    assert_eq!(decoded_warnings, warnings);
    assert_eq!(response["accepted"], Value::Bool(false));
}

#[test]
fn try_protocol_version_guest() {
    let reponse = protocol_version_guest(&[0; 0]).unwrap();
    let version = decode(&reponse);

    assert_eq!(version, Value::String("v2".to_string()));
    assert_eq!(ProtocolVersion::default(), ProtocolVersion::V2);
}

#[test]
fn accept_is_exactly_the_bare_record() {
    assert_eq!(accept_request().unwrap(), b"{\"accepted\":true}".to_vec());
}

#[test]
fn bare_rejection_is_legal() {
    let raw = reject_request(None, None, None, None).unwrap();
    assert_eq!(raw, b"{\"accepted\":false}".to_vec());
}

#[test]
fn rejection_carries_only_the_given_fields() {
    let raw = reject_request(None, Some(403), None, Some(vec![])).unwrap();
    assert_eq!(raw, b"{\"accepted\":false,\"code\":403,\"warnings\":[]}".to_vec());
    let response = decode(&raw);
    assert!(response.get("message").is_none());
    assert!(response.get("audit_annotations").is_none());
    assert!(response.get("mutated_object").is_none());
}

#[test]
fn rejection_codes_at_the_edges() {
    let raw = reject_request(None, Some(0), None, None).unwrap();
    assert_eq!(raw, b"{\"accepted\":false,\"code\":0}".to_vec());
    let raw = reject_request(None, Some(65535), None, None).unwrap();
    assert_eq!(raw, b"{\"accepted\":false,\"code\":65535}".to_vec());
}

#[test]
fn rejection_message_is_escaped() {
    let message = String::from("say \"no\"\\\n");
    let raw = reject_request(Some(message.clone()), None, None, None).unwrap();
    assert_eq!(
        raw,
        b"{\"accepted\":false,\"message\":\"say \\\"no\\\"\\\\\\n\"}".to_vec()
    );
    assert_eq!(decode(&raw)["message"].as_str(), Some(message.as_str()));
}

#[test]
fn rejection_with_several_annotations_keeps_their_order() {
    let a = annotations(&[("b", "1"), ("a", "2"), ("c", "3")]);
    let raw = reject_request(None, None, Some(a), None).unwrap();
    assert_eq!(
        raw,
        b"{\"accepted\":false,\"audit_annotations\":{\"b\":\"1\",\"a\":\"2\",\"c\":\"3\"}}".to_vec()
    );
}

#[test]
fn annotations_insert_replaces_an_existing_key() {
    let mut a = annotations(&[("x", "1"), ("y", "2")]);
    a.insert("x".to_string(), "3".to_string());
    assert_eq!(a.len(), 2);
    let (k, v) = a.entry(0);
    assert_eq!((k.as_str(), v.as_str()), ("x", "3"));
    let (k, v) = a.entry(1);
    assert_eq!((k.as_str(), v.as_str()), ("y", "2"));
    a.insert("z".to_string(), "4".to_string());
    assert_eq!(a.len(), 3);
    let (k, v) = a.entry(2);
    assert_eq!((k.as_str(), v.as_str()), ("z", "4"));
}

#[test]
fn mutation_frames_the_encoded_document() {
    let raw = mutate_response(b"[1,2]");
    assert_eq!(raw, b"{\"accepted\":true,\"mutated_object\":[1,2]}".to_vec());
    let doc: Value = serde_json::from_str("{\"k\":[true,null,\"s\"]}").unwrap();
    let raw = mutate_request(doc).unwrap();
    assert_eq!(
        raw,
        b"{\"accepted\":true,\"mutated_object\":{\"k\":[true,null,\"s\"]}}".to_vec()
    );
}

#[test]
fn protocol_versions_encode_by_name() {
    assert_eq!(ProtocolVersion::V1.to_json(), b"\"v1\"".to_vec());
    assert_eq!(ProtocolVersion::V2.to_json(), b"\"v2\"".to_vec());
    assert_eq!(protocol_version_guest(b"ignored").unwrap(), b"\"v2\"".to_vec());
}

#[test]
fn settings_verdicts() {
    assert_eq!(settings_response(Ok(())), b"{\"valid\":true}".to_vec());
    assert_eq!(
        settings_response(Err("bad \"x\"".to_string())),
        b"{\"valid\":false,\"message\":\"bad \\\"x\\\"\"}".to_vec()
    );
    let r = SettingsValidationResponse::from_outcome(Err("m".to_string()));
    assert!(!r.valid);
    assert_eq!(r.message.as_deref(), Some("m"));
    let r = SettingsValidationResponse::from_outcome(Ok(()));
    assert!(r.valid);
    assert!(r.message.is_none());
}

struct Settings {
    setting_a: Option<String>,
    setting_b: Option<String>,
}

impl Validatable for Settings {
    fn validate(&self) -> Result<(), String> {
        if self.setting_a.is_none() && self.setting_b.is_none() {
            Err("either setting A or setting B has to be provided".to_string())
        } else if self.setting_a.is_some() && self.setting_b.is_some() {
            Err("setting A and setting B cannot be set at the same time".to_string())
        } else {
            Ok(())
        }
    }
}

fn optional_text(v: &Value, key: &str) -> Result<Option<String>, String> {
    match v.get(key) {
        None | Some(Value::Null) => Ok(None),
        Some(Value::String(s)) => Ok(Some(s.clone())),
        Some(other) => Err(format!("invalid type for {}: {}", key, other)),
    }
}

fn decode_settings(payload: &[u8]) -> Result<Settings, String> {
    let v: Value = serde_json::from_slice(payload).map_err(|e| format!("{:?}", e))?;
    if !v.is_object() {
        return Err("expected an object".to_string());
    }
    Ok(Settings {
        setting_a: optional_text(&v, "setting_a")?,
        setting_b: optional_text(&v, "setting_b")?,
    })
}

fn run_settings(payload: &[u8]) -> Result<Value, CallError> {
    validate_settings(payload, decode_settings(payload)).map(|raw| decode(&raw))
}

#[test]
fn exclusive_settings_with_exactly_one_field_are_valid() {
    for payload in [&b"{\"setting_a\":\"x\"}"[..], &b"{\"setting_b\":\"y\"}"[..]] {
        let r = run_settings(payload).unwrap();
        assert_eq!(r["valid"], Value::Bool(true));
        assert!(r.get("message").is_none());
    }
}

#[test]
fn exclusive_settings_with_none_or_both_are_invalid() {
    for payload in [&b"{}"[..], &b"{\"setting_a\":\"x\",\"setting_b\":\"y\"}"[..]] {
        let r = run_settings(payload).unwrap();
        assert_eq!(r["valid"], Value::Bool(false));
        assert!(!r["message"].as_str().unwrap().is_empty());
    }
}

#[test]
fn malformed_settings_fail_the_call_naming_the_payload() {
    let payload = b"{\"setting_a\": tru";
    match run_settings(payload) {
        Err(CallError::Decoding(m)) => {
            assert!(m.starts_with("Error decoding validation payload "));
            assert!(m.contains("{\"setting_a\": tru"));
        }
        _ => panic!("a malformed payload must fail the call"),
    }
    let payload = b"{\"setting_a\": 7}";
    match run_settings(payload) {
        Err(CallError::Decoding(m)) => {
            assert!(m.contains("{\"setting_a\": 7}"));
            assert!(m.ends_with("invalid type for setting_a: 7"));
        }
        _ => panic!("a mistyped payload must fail the call"),
    }
}

#[test]
fn mutation_carries_any_document_verbatim() {
    let raw = mutate_request(Value::from(42)).unwrap();
    assert_eq!(raw, b"{\"accepted\":true,\"mutated_object\":42}".to_vec());
    let response = decode(&raw);
    assert_eq!(response["mutated_object"], Value::from(42));
    assert!(response.get("message").is_none());
    assert!(response.get("code").is_none());
    assert!(response.get("audit_annotations").is_none());
    assert!(response.get("warnings").is_none());
}

#[test]
fn mutation_with_a_null_document_succeeds() {
    let raw = mutate_request(Value::Null).unwrap();
    assert_eq!(raw, b"{\"accepted\":true,\"mutated_object\":null}".to_vec());
    assert_eq!(decode(&raw)["mutated_object"], Value::Null);
}

#[test]
fn equal_documents_give_equal_payloads() {
    let d1: Value = serde_json::from_str("{\"b\":[1,{\"c\":\"x\"}],\"a\":true}").unwrap();
    let d2 = d1.clone();
    assert_eq!(mutate_request(d1).unwrap(), mutate_request(d2).unwrap());
}
