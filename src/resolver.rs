//! The `did:web` resolver: its HTTP client and allow-list, the decisions taken
//! on each outcome of the fetch, and the parsing of the fetched representation.
use vstd::prelude::*;

use crate::metadata::{
    DocumentMetadata, ResolutionInputMetadata, ResolutionMetadata, ERROR_INVALID_DID,
    ERROR_NOT_FOUND, TYPE_DID_LD_JSON,
};
use crate::url::{default_force_http_hostnames, did_web_url_with, host_views, is_web_did, web_url};
use crate::url::DEFAULT_FORCE_HTTP_HOSTNAMES;
use reqwest::Error as HttpError;
use serde_json::Error as JSONError;
use ssi_dids::Document;

verus! {

#[verifier::external_type_specification]
#[verifier::external_body]
pub struct ExDocument(ssi_dids::Document);

#[verifier::external_type_specification]
#[verifier::external_body]
pub struct ExClient(reqwest::Client);

#[verifier::external_type_specification]
#[verifier::external_body]
pub struct ExHttpError(HttpError);

/// Value of the `User-Agent` header sent by the default client.
pub const USER_AGENT: &'static str = "did-web/0.1.0";

/// The raw outcome of a resolution: metadata, the undecoded bytes of the
/// document, and the document's metadata.
pub type Representation = (ResolutionMetadata, Vec<u8>, Option<DocumentMetadata>);

/// The parsed outcome of a resolution: metadata, the document, and the
/// document's metadata.
pub type Resolution = (ResolutionMetadata, Option<Document>, Option<DocumentMetadata>);

/// Whether the bytes read as JSON into an identity document.
pub uninterp spec fn parses_as_document(b: Seq<u8>) -> bool;

/// Relies on `serde_json::from_slice`: reads the bytes as a JSON value of type
/// `ssi_dids::Document`; whether it succeeds depends on the bytes alone.
#[verifier::external_body]
fn parse_document(bytes: &Vec<u8>) -> (r: Result<Document, JSONError>)
    ensures
        r is Ok == parses_as_document(bytes@),
{
    serde_json::from_slice(bytes)
}

/// Relies on `reqwest::ClientBuilder`: builds a client whose requests carry
/// `user_agent` as their `User-Agent` header; fails where the TLS backend
/// cannot be set up.
#[verifier::external_body]
fn build_http_client(user_agent: &str) -> (r: Result<reqwest::Client, HttpError>) {
    reqwest::Client::builder().user_agent(user_agent).build()
}

/// Statuses that end a fetch without a body: every status but 200.
pub open spec fn is_error_status(status: u16) -> bool {
    status != 200
}

/// Outcome of a request that could not be sent or answered.
pub fn send_failure(url: &str, err: &str) -> (r: Representation)
    ensures
        r.0.is_error("Error sending HTTP request ("@ + url@ + "): "@ + err@),
        r.1@.len() == 0,
        r.2 is None,
{
    let mut m = String::from_str("Error sending HTTP request (");
    m.append(url);
    m.append("): ");
    m.append(err);
    (ResolutionMetadata::from_error(m.as_str()), Vec::new(), None)
}

/// Outcome of a response with status `status`, whose error text is
/// `status_error`: `None` where the body is to be read, which is for 200
/// alone; 404 reports the document as absent, and every other status is an
/// error that carries the status text.
pub fn status_outcome(status: u16, status_error: &str) -> (r: Option<Representation>)
    ensures
        r is Some == is_error_status(status),
        r matches Some(rep) ==> {
            &&& status == 404 ==> rep.0.is_error(ERROR_NOT_FOUND@)
            &&& status != 404 ==> rep.0.is_error(status_error@)
            &&& rep.1@.len() == 0
            &&& rep.2 matches Some(dm) && dm.is_empty()
        },
{
    if status == 200 {
        return None;
    }
    let meta = if status == 404 {
        ResolutionMetadata::from_error(ERROR_NOT_FOUND)
    } else {
        ResolutionMetadata::from_error(status_error)
    };
    Some((meta, Vec::new(), Some(DocumentMetadata::default())))
}

/// Outcome of reading the body of a successful response.
pub fn body_outcome(read: Result<Vec<u8>, String>) -> (r: Representation)
    ensures
        match read {
            Ok(bytes) => {
                &&& r.0.is_success()
                &&& r.1 == bytes
                &&& r.2 matches Some(dm) && dm.is_empty()
            },
            Err(e) => {
                &&& r.0.is_error("Error reading HTTP response: "@ + e@)
                &&& r.1@.len() == 0
                &&& r.2 is None
            },
        },
{
    match read {
        Ok(bytes) => {
            let meta = ResolutionMetadata {
                error: None,
                content_type: Some(String::from_str(TYPE_DID_LD_JSON)),
                property_set: None,
            };
            (meta, bytes, Some(DocumentMetadata::default()))
        },
        Err(e) => {
            let mut m = String::from_str("Error reading HTTP response: ");
            m.append(e.as_str());
            (ResolutionMetadata::from_error(m.as_str()), Vec::new(), None)
        },
    }
}

/// Completes a resolution whose bytes were parsed: on success the metadata
/// loses its content type and the document is returned; a parse error, given
/// by its text, replaces the whole outcome.
pub fn finish_resolution(
    meta: ResolutionMetadata,
    doc_meta: Option<DocumentMetadata>,
    parsed: Result<Document, String>,
) -> (r: Resolution)
    ensures
        match parsed {
            Ok(doc) => {
                &&& r.0.error == meta.error
                &&& r.0.content_type is None
                &&& r.0.property_set == meta.property_set
                &&& r.1 == Some(doc)
                &&& r.2 == doc_meta
            },
            Err(t) => {
                &&& r.0.is_error("JSON Error: "@ + t@)
                &&& r.1 is None
                &&& r.2 is None
            },
        },
{
    match parsed {
        Ok(doc) => {
            let mut meta = meta;
            meta.content_type = None;
            (meta, Some(doc), doc_meta)
        },
        Err(t) => {
            let mut m = String::from_str("JSON Error: ");
            m.append(t.as_str());
            (ResolutionMetadata::from_error(m.as_str()), None, None)
        },
    }
}

/// Turns a raw outcome into a parsed one. Empty bytes give no document and
/// keep the metadata; other bytes are read as a document, and where they are
/// not one the outcome is a JSON error alone. The content type never remains.
pub fn resolve_from_representation(rep: Representation) -> (r: Resolution)
    ensures
        r.0.content_type is None,
        rep.1@.len() == 0 ==> {
            &&& r.0.error == rep.0.error
            &&& r.0.property_set == rep.0.property_set
            &&& r.1 is None
            &&& r.2 == rep.2
        },
        rep.1@.len() > 0 && parses_as_document(rep.1@) ==> {
            &&& r.0.error == rep.0.error
            &&& r.0.property_set == rep.0.property_set
            &&& r.1 is Some
            &&& r.2 == rep.2
        },
        rep.1@.len() > 0 && !parses_as_document(rep.1@) ==> {
            &&& r.0.error matches Some(m) && m@.len() >= 12 && m@.take(12) == "JSON Error: "@
            &&& r.0.property_set is None
            &&& r.1 is None
            &&& r.2 is None
        },
{
    let (meta, bytes, doc_meta) = rep;
    if bytes.len() == 0 {
        let mut meta = meta;
        meta.content_type = None;
        return (meta, None, doc_meta);
    }
    let parsed = match parse_document(&bytes) {
        Ok(doc) => Ok(doc),
        Err(e) => Err(e.to_string()),
    };
    let r = finish_resolution(meta, doc_meta, parsed);
    proof {
        reveal_strlit("JSON Error: ");
        if r.0.error is Some && !parses_as_document(bytes@) {
            assert(r.0.error->0@.take(12) =~= "JSON Error: "@);
        }
    }
    r
}

/// The `did:web` resolver: an HTTP client shared by all calls, and the
/// hostnames resolved over plain `http`.
#[derive(Debug)]
pub struct DIDWeb {
    http_client: reqwest::Client,
    force_http_hostnames: Vec<String>,
}

impl DIDWeb {
    /// The hostnames that this resolver reaches over plain `http`.
    pub closed spec fn force_http_hosts(&self) -> Seq<Seq<char>> {
        host_views(self.force_http_hostnames@)
    }

    /// The HTTP client through which this resolver sends every request.
    pub closed spec fn client(&self) -> reqwest::Client {
        self.http_client
    }

    /// A resolver with a client that sends [`USER_AGENT`], and the default
    /// allow-list; an error message where the client cannot be built.
    pub fn new_with_default_http_client() -> (r: Result<Self, String>)
        ensures
            r matches Ok(w) ==> w.force_http_hosts() == seq![DEFAULT_FORCE_HTTP_HOSTNAMES@],
            r matches Err(m) ==> m@.len() >= 28 && m@.take(28) == "Error building HTTP client: "@,
    {
        match build_http_client(USER_AGENT) {
            Ok(http_client) => Ok(Self::new_with_http_client(http_client)),
            Err(err) => {
                let mut m = String::from_str("Error building HTTP client: ");
                let t = err.to_string();
                m.append(t.as_str());
                proof {
                    reveal_strlit("Error building HTTP client: ");
                    assert(m@.take(28) =~= "Error building HTTP client: "@);
                }
                Err(m)
            },
        }
    }

    /// A resolver that uses `http_client`, with the default allow-list.
    pub fn new_with_http_client(http_client: reqwest::Client) -> (r: Self)
        ensures
            r.client() == http_client,
            r.force_http_hosts() == seq![DEFAULT_FORCE_HTTP_HOSTNAMES@],
    {
        DIDWeb { http_client, force_http_hostnames: default_force_http_hostnames() }
    }

    /// The same resolver with `hosts` as its allow-list.
    pub fn with_force_http_hostnames(self, hosts: Vec<String>) -> (r: Self)
        ensures
            r.client() == self.client(),
            r.force_http_hosts() == host_views(hosts@),
    {
        DIDWeb { http_client: self.http_client, force_http_hostnames: hosts }
    }

    /// The shared HTTP client, through which every request of this resolver
    /// is to be sent.
    pub fn http_client(&self) -> (r: &reqwest::Client)
        ensures
            *r == self.client(),
    {
        &self.http_client
    }

    /// The URL of the document of `did` under this resolver's allow-list.
    pub fn did_url(&self, did: &str) -> (r: Result<String, ResolutionMetadata>)
        ensures
            match r {
                Ok(url) => is_web_did(did@) && url@ == web_url(did@, self.force_http_hosts()),
                Err(meta) => !is_web_did(did@) && meta.is_error(ERROR_INVALID_DID@),
            },
    {
        did_web_url_with(did, &self.force_http_hostnames)
    }

    /// The request to send for `did`: its URL and the media type to accept.
    /// An identifier that is not a `did:web` identifier with a non-empty domain
    /// ends the resolution here, before any request, with `invalidDid`.
    pub fn request_for(&self, did: &str, input: &ResolutionInputMetadata) -> (r: Result<
        (String, String),
        Representation,
    >)
        ensures
            match r {
                Ok((url, accept)) => {
                    &&& is_web_did(did@)
                    &&& url@ == web_url(did@, self.force_http_hosts())
                    &&& accept@ == input.spec_accept()
                },
                Err(rep) => {
                    &&& !is_web_did(did@)
                    &&& rep.0.is_error(ERROR_INVALID_DID@)
                    &&& rep.1@.len() == 0
                    &&& rep.2 is None
                },
            },
    {
        match self.did_url(did) {
            Ok(url) => Ok((url, input.accept_header())),
            Err(meta) => Err((meta, Vec::new(), None)),
        }
    }

    /// The name of the DID method.
    pub fn name(&self) -> (r: &'static str)
        ensures
            r@ == "web"@,
    {
        "web"
    }
}

} // verus!
