use did_web::metadata::ERROR_INVALID_DID;
use did_web::url::{
    decode_domain, did_web_url, did_web_url_with, host_name, parse_hostname_list, uses_http,
};

#[test]
fn parse_did_web() {
    assert_eq!(
        did_web_url("did:web:w3c-ccg.github.io").unwrap(),
        "https://w3c-ccg.github.io/.well-known/did.json"
    );
    assert_eq!(
        did_web_url("did:web:w3c-ccg.github.io:user:alice").unwrap(),
        "https://w3c-ccg.github.io/user/alice/did.json"
    );
    assert_eq!(
        did_web_url("did:web:example.com:u:bob").unwrap(),
        "https://example.com/u/bob/did.json"
    );
    assert_eq!(
        did_web_url("did:web:example.com%3A443:u:bob").unwrap(),
        "https://example.com:443/u/bob/did.json"
    );
}

fn invalid(did: &str) -> bool {
    match did_web_url(did) {
        Ok(_) => false,
        Err(meta) => {
            meta.error.as_deref() == Some(ERROR_INVALID_DID)
                && meta.content_type.is_none()
                && meta.property_set.is_none()
        }
    }
}

#[test]
fn rejects_identifiers_without_web_prefix() {
    assert!(invalid(""));
    assert!(invalid("did"));
    assert!(invalid("did:web"));
    assert!(invalid("did:key:z6Mk"));
    assert!(invalid("did:webx:example.com"));
    assert!(invalid("DID:web:example.com"));
    assert!(invalid("web:example.com"));
}

#[test]
fn rejects_empty_domain() {
    assert!(invalid("did:web:"));
    assert!(invalid("did:web::path"));
}

#[test]
fn localhost_uses_http_by_default() {
    assert_eq!(
        did_web_url("did:web:localhost").unwrap(),
        "http://localhost/.well-known/did.json"
    );
    assert_eq!(
        did_web_url("did:web:localhost%3A8080:a").unwrap(),
        "http://localhost:8080/a/did.json"
    );
}

#[test]
fn allow_list_decides_protocol() {
    let hosts = parse_hostname_list("example.org,10.0.0.1");
    assert_eq!(
        did_web_url_with("did:web:example.org", &hosts).unwrap(),
        "http://example.org/.well-known/did.json"
    );
    assert_eq!(
        did_web_url_with("did:web:10.0.0.1%3A3000:x:y", &hosts).unwrap(),
        "http://10.0.0.1:3000/x/y/did.json"
    );
    assert_eq!(
        did_web_url_with("did:web:localhost", &hosts).unwrap(),
        "https://localhost/.well-known/did.json"
    );
    assert_eq!(
        did_web_url_with("did:web:sub.example.org", &hosts).unwrap(),
        "https://sub.example.org/.well-known/did.json"
    );
    let none: Vec<String> = Vec::new();
    assert_eq!(
        did_web_url_with("did:web:localhost", &none).unwrap(),
        "https://localhost/.well-known/did.json"
    );
}

#[test]
fn trailing_colon_gives_empty_segment() {
    assert_eq!(
        did_web_url("did:web:example.com:").unwrap(),
        "https://example.com//did.json"
    );
}

#[test]
fn only_first_escape_is_decoded() {
    assert_eq!(decode_domain("a%3A1%3A2"), "a:1%3A2");
    assert_eq!(decode_domain("example.com"), "example.com");
    assert_eq!(host_name("a%3A1%3A2"), "a");
    assert_eq!(host_name("example.com"), "example.com");
    assert_eq!(host_name("%3A80"), "");
}

#[test]
fn hostname_list_is_split_on_commas() {
    assert_eq!(parse_hostname_list("a,b,,c"), vec!["a", "b", "", "c"]);
    assert_eq!(parse_hostname_list(""), vec![""]);
    assert_eq!(parse_hostname_list("localhost"), vec!["localhost"]);
}

#[test]
fn uses_http_matches_exactly() {
    let hosts = vec!["localhost".to_string(), "dev".to_string()];
    assert!(uses_http(&"dev".to_string(), &hosts));
    assert!(!uses_http(&"dev2".to_string(), &hosts));
    assert!(!uses_http(&"Localhost".to_string(), &hosts));
}
