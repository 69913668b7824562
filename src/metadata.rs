//! The records that describe one resolution: its input, its outcome and the
//! metadata of the resolved document.
use vstd::prelude::*;

verus! {

/// Error code for an identifier that is not a valid `did:web` identifier.
pub const ERROR_INVALID_DID: &'static str = "invalidDid";

/// Error code for a document that the host reports as absent.
pub const ERROR_NOT_FOUND: &'static str = "notFound";

/// Content type of a successfully fetched representation.
pub const TYPE_DID_LD_JSON: &'static str = "application/did+ld+json";

/// Content type asked for when the caller states no preference.
pub const TYPE_JSON: &'static str = "application/json";

/// Options of one resolution call.
#[derive(Debug)]
pub struct ResolutionInputMetadata {
    /// Preferred media type of the representation.
    pub accept: Option<String>,
    pub version_id: Option<String>,
    pub version_time: Option<String>,
    pub no_cache: Option<bool>,
}

impl Default for ResolutionInputMetadata {
    fn default() -> (r: Self)
        ensures
            r.accept is None,
            r.version_id is None,
            r.version_time is None,
            r.no_cache is None,
    {
        ResolutionInputMetadata { accept: None, version_id: None, version_time: None, no_cache: None }
    }
}

impl ResolutionInputMetadata {
    /// The media type sent in the `Accept` header.
    pub open spec fn spec_accept(&self) -> Seq<char> {
        match self.accept {
            Some(a) => a@,
            None => TYPE_JSON@,
        }
    }

    /// The media type sent in the `Accept` header: the caller's preference, or
    /// `application/json`.
    pub fn accept_header(&self) -> (r: String)
        ensures
            r@ == self.spec_accept(),
    {
        match &self.accept {
            Some(a) => a.clone(),
            None => String::from_str(TYPE_JSON),
        }
    }
}

/// The resolution metadata of one call.
#[derive(Debug)]
pub struct ResolutionMetadata {
    /// Error code or message; absent on success.
    pub error: Option<String>,
    /// Media type of the returned representation.
    pub content_type: Option<String>,
    /// Further properties, as key and value.
    pub property_set: Option<Vec<(String, String)>>,
}

impl ResolutionMetadata {
    /// Metadata that reports the error `e` and nothing else.
    pub open spec fn is_error(&self, e: Seq<char>) -> bool {
        &&& self.error matches Some(x) && x@ == e
        &&& self.content_type is None
        &&& self.property_set is None
    }

    /// Metadata of a representation fetched without error.
    pub open spec fn is_success(&self) -> bool {
        &&& self.error is None
        &&& self.content_type matches Some(t) && t@ == TYPE_DID_LD_JSON@
        &&& self.property_set is None
    }

    /// Metadata that reports the error `err` and nothing else.
    pub fn from_error(err: &str) -> (r: Self)
        ensures
            r.is_error(err@),
    {
        ResolutionMetadata { error: Some(String::from_str(err)), content_type: None, property_set: None }
    }
}

/// Metadata of a resolved document; times are written as RFC 3339 text.
#[derive(Debug)]
pub struct DocumentMetadata {
    pub created: Option<String>,
    pub updated: Option<String>,
    pub deactivated: Option<bool>,
    pub property_set: Option<Vec<(String, String)>>,
}

impl DocumentMetadata {
    /// The empty value, which carries no information.
    pub open spec fn is_empty(&self) -> bool {
        &&& self.created is None
        &&& self.updated is None
        &&& self.deactivated is None
        &&& self.property_set is None
    }
}

impl Default for DocumentMetadata {
    fn default() -> (r: Self)
        ensures
            r.is_empty(),
    {
        DocumentMetadata { created: None, updated: None, deactivated: None, property_set: None }
    }
}

} // verus!
