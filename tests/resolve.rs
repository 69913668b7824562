use did_web::metadata::{
    DocumentMetadata, ResolutionInputMetadata, ERROR_INVALID_DID, ERROR_NOT_FOUND,
    TYPE_DID_LD_JSON,
};
use did_web::resolver::{
    body_outcome, finish_resolution, resolve_from_representation, send_failure, status_outcome,
    DIDWeb, Representation,
};
use ssi_dids::Document;

const DID_URL: &str = "http://localhost/.well-known/did.json";
const DID_JSON: &str = r#"{
      "@context": "https://www.w3.org/ns/did/v1",
      "id": "did:web:localhost",
      "verificationMethod": [{
         "id": "did:web:localhost#key1",
         "type": "Ed25519VerificationKey2018",
         "controller": "did:web:localhost",
         "publicKeyJwk": {
           "key_id": "ed25519-2020-10-18",
           "kty": "OKP",
           "crv": "Ed25519",
           "x": "G80iskrv_nE69qbGLSpeOHJgmV4MKIzsy5l5iT6pCww"
         }
      }],
      "assertionMethod": ["did:web:localhost#key1"]
    }"#;

/// Serves `DID_JSON` at `DID_URL` and answers 404 everywhere else.
fn respond(url: &str) -> Representation {
    if url == DID_URL {
        body_outcome(Ok(DID_JSON.as_bytes().to_vec()))
    } else {
        status_outcome(404, "HTTP status client error (404 Not Found)").unwrap()
    }
}

#[test]
fn empty_body_gives_no_document() {
    let raw = body_outcome(Ok(Vec::new()));
    let (meta, doc, doc_meta) = resolve_from_representation(raw);
    assert_eq!(meta.error, None);
    assert!(meta.content_type.is_none());
    assert!(doc.is_none());
    assert!(is_empty(&doc_meta));
}

fn resolver() -> DIDWeb {
    DIDWeb::new_with_http_client(reqwest::Client::new())
}

fn is_empty(dm: &Option<DocumentMetadata>) -> bool {
    match dm {
        Some(d) => {
            d.created.is_none()
                && d.updated.is_none()
                && d.deactivated.is_none()
                && d.property_set.is_none()
        }
        None => false,
    }
}

#[test]
fn from_did_key() {
    let did_web_resolver = resolver();
    let input = ResolutionInputMetadata::default();
    let (url, accept) = did_web_resolver
        .request_for("did:web:localhost", &input)
        .ok()
        .unwrap();
    assert_eq!(accept, "application/json");
    let (res_meta, doc_opt, _doc_meta) = resolve_from_representation(respond(&url));
    assert_eq!(res_meta.error, None);
    let doc_expected: Document = serde_json::from_str(DID_JSON).unwrap();
    assert_eq!(doc_opt, Some(doc_expected));
}

#[test]
fn non_matching_identifier_is_not_found() {
    let w = resolver();
    let input = ResolutionInputMetadata::default();
    let (url, _) = w.request_for("did:web:localhost:other", &input).ok().unwrap();
    assert_eq!(url, "http://localhost/other/did.json");
    let rep = respond(&url);
    assert_eq!(rep.0.error.as_deref(), Some(ERROR_NOT_FOUND));
    assert!(rep.1.is_empty());
    assert!(is_empty(&rep.2));
    let (meta, doc, doc_meta) = resolve_from_representation(rep);
    assert_eq!(meta.error.as_deref(), Some(ERROR_NOT_FOUND));
    assert!(meta.content_type.is_none());
    assert!(doc.is_none());
    assert!(is_empty(&doc_meta));
}

#[test]
fn malformed_json_is_a_parse_error() {
    let bytes = b"{ not json".to_vec();
    let raw = body_outcome(Ok(bytes.clone()));
    assert_eq!(raw.0.error, None);
    assert_eq!(raw.0.content_type.as_deref(), Some(TYPE_DID_LD_JSON));
    assert_eq!(raw.1, bytes);
    let (meta, doc, doc_meta) = resolve_from_representation(raw);
    let err = meta.error.unwrap();
    assert!(err.starts_with("JSON Error: "));
    assert!(err.len() > "JSON Error: ".len());
    assert!(meta.content_type.is_none());
    assert!(doc.is_none());
    assert!(doc_meta.is_none());
}

#[test]
fn content_type_only_on_raw_success() {
    let raw = body_outcome(Ok(DID_JSON.as_bytes().to_vec()));
    assert_eq!(raw.0.content_type.as_deref(), Some("application/did+ld+json"));
    assert!(is_empty(&raw.2));
    let (meta, doc, doc_meta) = resolve_from_representation(raw);
    assert!(meta.content_type.is_none());
    assert!(doc.is_some());
    assert!(is_empty(&doc_meta));
}

#[test]
fn json_null_is_a_parse_error() {
    let raw = body_outcome(Ok(b"null".to_vec()));
    let (meta, doc, doc_meta) = resolve_from_representation(raw);
    assert!(meta.error.unwrap().starts_with("JSON Error: "));
    assert!(meta.content_type.is_none());
    assert!(doc.is_none());
    assert!(doc_meta.is_none());
}

#[test]
fn invalid_identifier_stops_before_request() {
    let w = resolver();
    let input = ResolutionInputMetadata::default();
    let rep = w.request_for("did:key:z6Mk", &input).err().unwrap();
    assert_eq!(rep.0.error.as_deref(), Some(ERROR_INVALID_DID));
    assert!(rep.1.is_empty());
    assert!(rep.2.is_none());
    let (meta, doc, doc_meta) = resolve_from_representation(rep);
    assert_eq!(meta.error.as_deref(), Some(ERROR_INVALID_DID));
    assert!(doc.is_none());
    assert!(doc_meta.is_none());
}

#[test]
fn accept_preference_is_kept() {
    let w = resolver();
    let mut input = ResolutionInputMetadata::default();
    input.accept = Some("application/did+json".to_string());
    let (_, accept) = w.request_for("did:web:example.com", &input).ok().unwrap();
    assert_eq!(accept, "application/did+json");
}

#[test]
fn configured_hosts_use_http() {
    let w = resolver().with_force_http_hostnames(vec!["example.com".to_string()]);
    let input = ResolutionInputMetadata::default();
    let (url, _) = w.request_for("did:web:example.com", &input).ok().unwrap();
    assert_eq!(url, "http://example.com/.well-known/did.json");
    let (url, _) = w.request_for("did:web:localhost", &input).ok().unwrap();
    assert_eq!(url, "https://localhost/.well-known/did.json");
    assert_eq!(w.did_url("did:web:example.com%3A8443").unwrap(), "http://example.com:8443/.well-known/did.json");
}

#[test]
fn default_client_builds() {
    let w = DIDWeb::new_with_default_http_client().ok().unwrap();
    assert_eq!(w.name(), "web");
    assert_eq!(did_web::resolver::USER_AGENT, "did-web/0.1.0");
}

#[test]
fn send_failure_reports_url_and_cause() {
    let rep = send_failure("https://example.com/.well-known/did.json", "dns error");
    assert_eq!(
        rep.0.error.as_deref(),
        Some("Error sending HTTP request (https://example.com/.well-known/did.json): dns error")
    );
    assert!(rep.0.content_type.is_none());
    assert!(rep.1.is_empty());
    assert!(rep.2.is_none());
}

#[test]
fn status_outcomes() {
    assert!(status_outcome(200, "").is_none());
    for code in [201u16, 204, 301, 399, 600] {
        let text = format!("HTTP status {}", code);
        let rep = status_outcome(code, &text).unwrap();
        assert_eq!(rep.0.error.as_deref(), Some(text.as_str()));
        assert!(rep.0.content_type.is_none());
        assert!(rep.1.is_empty());
        assert!(is_empty(&rep.2));
    }
    let nf = status_outcome(404, "ignored").unwrap();
    assert_eq!(nf.0.error.as_deref(), Some("notFound"));
    let se = status_outcome(500, "HTTP status server error (500 Internal Server Error)").unwrap();
    assert_eq!(
        se.0.error.as_deref(),
        Some("HTTP status server error (500 Internal Server Error)")
    );
    assert!(se.1.is_empty());
    assert!(is_empty(&se.2));
    let ce = status_outcome(400, "bad").unwrap();
    assert_eq!(ce.0.error.as_deref(), Some("bad"));
    assert!(status_outcome(599, "x").is_some());
}

#[test]
fn body_read_failure() {
    let rep = body_outcome(Err("connection reset".to_string()));
    assert_eq!(
        rep.0.error.as_deref(),
        Some("Error reading HTTP response: connection reset")
    );
    assert!(rep.0.content_type.is_none());
    assert!(rep.1.is_empty());
    assert!(rep.2.is_none());
}

#[test]
fn finish_resolution_outcomes() {
    let raw = body_outcome(Ok(b"x".to_vec()));
    let (meta, doc, doc_meta) = finish_resolution(raw.0, raw.2, Err("bad input".to_string()));
    assert_eq!(meta.error.as_deref(), Some("JSON Error: bad input"));
    assert!(doc.is_none());
    assert!(doc_meta.is_none());
    let raw = body_outcome(Ok(b"x".to_vec()));
    let d: Document = serde_json::from_str(DID_JSON).unwrap();
    let (meta, doc, doc_meta) = finish_resolution(raw.0, raw.2, Ok(d.clone()));
    assert_eq!(meta.error, None);
    assert!(meta.content_type.is_none());
    assert_eq!(doc, Some(d));
    assert!(is_empty(&doc_meta));
}
