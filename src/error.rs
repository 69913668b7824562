//! The shared vocabulary of failures of the toolkit this resolver belongs to:
//! kinds with a fixed message, and errors of other libraries wrapped as they are.
use vstd::prelude::*;
use vstd::string::to_string_from_display_ensures;

use base64::DecodeError as Base64Error;
use multibase::Error as MultibaseError;
use ring::error::KeyRejected as KeyRejectedError;
use ring::error::Unspecified as RingUnspecified;
use serde_json::Error as JSONError;
use simple_asn1::ASN1EncodeErr as ASN1EncodeError;
use std::string::FromUtf8Error;

verus! {

#[verifier::external_type_specification]
#[verifier::external_body]
pub struct ExJsonError(JSONError);

#[verifier::external_type_specification]
#[verifier::external_body]
pub struct ExBase64Error(Base64Error);

#[verifier::external_type_specification]
#[verifier::external_body]
pub struct ExMultibaseError(MultibaseError);

#[verifier::external_type_specification]
#[verifier::external_body]
pub struct ExAsn1EncodeError(ASN1EncodeError);

#[verifier::external_type_specification]
#[verifier::external_body]
pub struct ExKeyRejected(KeyRejectedError);

#[verifier::external_type_specification]
#[verifier::external_body]
pub struct ExRingUnspecified(RingUnspecified);

#[verifier::external_type_specification]
#[verifier::external_body]
pub struct ExFromUtf8Error(FromUtf8Error);

/// The kinds of failure. Each kind has a fixed message; a wrapped error keeps
/// the value of the library it comes from, and its message is that value's.
#[derive(Debug)]
pub enum Error {
    InvalidSubject,
    InvalidCriticalHeader,
    UnknownCriticalHeader,
    InvalidIssuer,
    AlgorithmNotImplemented,
    ProofTypeNotImplemented,
    MissingAlgorithm,
    AlgorithmMismatch,
    UnsupportedAlgorithm,
    KeyTypeNotImplemented,
    CurveNotImplemented(String),
    MissingKey,
    MissingPrivateKey,
    MissingModulus,
    MissingExponent,
    MissingPrime,
    MissingCredential,
    MissingKeyParameters,
    MissingProof,
    MissingIssuanceDate,
    MissingTypeVerifiableCredential,
    MissingTypeVerifiablePresentation,
    MissingIssuer,
    MissingVerificationMethod,
    Key,
    TimeError,
    URI,
    InvalidContext,
    MissingContext,
    MissingDocumentId,
    MissingProofSignature,
    ExpiredProof,
    FutureProof,
    InvalidProofPurpose,
    InvalidProofDomain,
    InvalidSignature,
    InvalidJWS,
    MissingCredentialSchema,
    UnsupportedProperty,
    UnsupportedKeyType,
    UnsupportedType,
    UnsupportedProofPurpose,
    UnsupportedCheck,
    TooManyBlankNodes,
    JWTCredentialInPresentation,
    ExpectedUnencodedHeader,
    ResourceNotFound,
    InvalidProofTypeType,
    InvalidKeyLength,
    InconsistentDIDKey,
    RingError,
    KeyRejected(KeyRejectedError),
    FromUtf8(FromUtf8Error),
    ASN1Encode(ASN1EncodeError),
    Base64(Base64Error),
    Multibase(MultibaseError),
    JSON(JSONError),
    /// Reserved for kinds added later; it has no message.
    Reserved,
}

/// The quoted and escaped form of a string, as `{:?}` writes it.
pub uninterp spec fn debug_text(s: Seq<char>) -> Seq<char>;

/// Relies on `<str as Debug>::fmt`: writes the string quoted and escaped; the
/// result depends on the characters alone.
#[verifier::external_body]
fn debug_quoted(s: &str) -> (r: String)
    ensures
        r@ == debug_text(s@),
{
    format!("{:?}", s)
}

impl Error {
    /// The fixed message of a kind that has one.
    pub open spec fn fixed_message(&self) -> Option<Seq<char>> {
        match self {
            Error::InvalidSubject => Some("Invalid subject for JWT"@),
            Error::InvalidCriticalHeader => Some("Invalid crit property in JWT header"@),
            Error::UnknownCriticalHeader => Some("Unknown critical header name in JWT header"@),
            Error::InvalidIssuer => Some("Invalid issuer for JWT"@),
            Error::AlgorithmNotImplemented => Some("JWA algorithm not implemented"@),
            Error::ProofTypeNotImplemented => Some("Linked Data Proof type not implemented"@),
            Error::MissingAlgorithm => Some("Missing algorithm in JWT"@),
            Error::AlgorithmMismatch => Some("Algorithm in JWS header does not match JWK"@),
            Error::UnsupportedAlgorithm => Some("Unsupported algorithm"@),
            Error::KeyTypeNotImplemented => Some("Key type not implemented"@),
            Error::MissingKey => Some("JWT key not found"@),
            Error::MissingPrivateKey => Some("Missing private key parametern JWK"@),
            Error::MissingModulus => Some("Missing modulus in RSA key"@),
            Error::MissingExponent => Some("Missing modulus in RSA key"@),
            Error::MissingPrime => Some("Missing prime factor in RSA key"@),
            Error::MissingCredential => Some("Verifiable credential not found in JWT"@),
            Error::MissingKeyParameters => Some("JWT key parameters not found"@),
            Error::MissingProof => Some("Missing proof property"@),
            Error::MissingIssuanceDate => Some("Missing issuance date"@),
            Error::MissingTypeVerifiableCredential => Some("Missing type VerifiableCredential"@),
            Error::MissingTypeVerifiablePresentation => Some("Missing type VerifiablePresentation"@),
            Error::MissingIssuer => Some("Missing issuer property"@),
            Error::MissingVerificationMethod => Some("Missing proof verificationMethod"@),
            Error::Key => Some("problem with JWT key"@),
            Error::TimeError => Some("Unable to convert date/time"@),
            Error::URI => Some("Invalid URI"@),
            Error::InvalidContext => Some("Invalid context"@),
            Error::MissingContext => Some("Missing context"@),
            Error::MissingDocumentId => Some("Missing document ID"@),
            Error::MissingProofSignature => Some("Missing JWS in proof"@),
            Error::ExpiredProof => Some("Expired proof"@),
            Error::FutureProof => Some("Proof creation time is in the future"@),
            Error::InvalidProofPurpose => Some("Invalid proof purpose"@),
            Error::InvalidProofDomain => Some("Invalid proof domain"@),
            Error::InvalidSignature => Some("Invalid Signature"@),
            Error::InvalidJWS => Some("Invalid JWS"@),
            Error::MissingCredentialSchema => Some("Missing credential schema for ZKP"@),
            Error::UnsupportedProperty => Some("Unsupported property for LDP"@),
            Error::UnsupportedKeyType => Some("Unsupported key type for did:key"@),
            Error::UnsupportedType => Some("Unsupported type for LDP"@),
            Error::UnsupportedProofPurpose => Some("Unsupported proof purpose"@),
            Error::UnsupportedCheck => Some("Unsupported check"@),
            Error::TooManyBlankNodes => Some("Multiple blank nodes not supported. Either credential or credential subject must have id property. Presentation must have id property."@),
            Error::JWTCredentialInPresentation => Some("Unsupported JWT VC in VP"@),
            Error::ExpectedUnencodedHeader => Some("Expected unencoded JWT header"@),
            Error::ResourceNotFound => Some("Resource not found"@),
            Error::InvalidProofTypeType => Some("Invalid ProofType type"@),
            Error::InvalidKeyLength => Some("Invalid key length"@),
            Error::InconsistentDIDKey => Some("Inconsistent DID Key"@),
            Error::RingError => Some("Crypto error"@),
            _ => None,
        }
    }

    /// The message of this error: the fixed message of its kind, the curve's
    /// name quoted for an unimplemented curve, or the wrapped value's own.
    pub fn message(&self) -> (r: String)
        requires
            !(self is Reserved),
        ensures
            self.fixed_message() matches Some(m) ==> r@ == m,
            self matches Error::CurveNotImplemented(c) ==> r@ == "Curve not implemented: '"@ + debug_text(c@) + "'"@,
            self matches Error::KeyRejected(e) ==> to_string_from_display_ensures::<KeyRejectedError>(&e, r),
            self matches Error::FromUtf8(e) ==> to_string_from_display_ensures::<FromUtf8Error>(&e, r),
            self matches Error::ASN1Encode(e) ==> to_string_from_display_ensures::<ASN1EncodeError>(&e, r),
            self matches Error::Base64(e) ==> to_string_from_display_ensures::<Base64Error>(&e, r),
            self matches Error::Multibase(e) ==> to_string_from_display_ensures::<MultibaseError>(&e, r),
            self matches Error::JSON(e) ==> to_string_from_display_ensures::<JSONError>(&e, r),
    {
        match self {
            Error::InvalidSubject => String::from_str("Invalid subject for JWT"),
            Error::InvalidCriticalHeader => String::from_str("Invalid crit property in JWT header"),
            Error::UnknownCriticalHeader => String::from_str("Unknown critical header name in JWT header"),
            Error::InvalidIssuer => String::from_str("Invalid issuer for JWT"),
            Error::AlgorithmNotImplemented => String::from_str("JWA algorithm not implemented"),
            Error::ProofTypeNotImplemented => String::from_str("Linked Data Proof type not implemented"),
            Error::MissingAlgorithm => String::from_str("Missing algorithm in JWT"),
            Error::AlgorithmMismatch => String::from_str("Algorithm in JWS header does not match JWK"),
            Error::UnsupportedAlgorithm => String::from_str("Unsupported algorithm"),
            Error::KeyTypeNotImplemented => String::from_str("Key type not implemented"),
            Error::MissingKey => String::from_str("JWT key not found"),
            Error::MissingPrivateKey => String::from_str("Missing private key parametern JWK"),
            Error::MissingModulus => String::from_str("Missing modulus in RSA key"),
            Error::MissingExponent => String::from_str("Missing modulus in RSA key"),
            Error::MissingPrime => String::from_str("Missing prime factor in RSA key"),
            Error::MissingCredential => String::from_str("Verifiable credential not found in JWT"),
            Error::MissingKeyParameters => String::from_str("JWT key parameters not found"),
            Error::MissingProof => String::from_str("Missing proof property"),
            Error::MissingIssuanceDate => String::from_str("Missing issuance date"),
            Error::MissingTypeVerifiableCredential => String::from_str("Missing type VerifiableCredential"),
            Error::MissingTypeVerifiablePresentation => String::from_str("Missing type VerifiablePresentation"),
            Error::MissingIssuer => String::from_str("Missing issuer property"),
            Error::MissingVerificationMethod => String::from_str("Missing proof verificationMethod"),
            Error::Key => String::from_str("problem with JWT key"),
            Error::TimeError => String::from_str("Unable to convert date/time"),
            Error::URI => String::from_str("Invalid URI"),
            Error::InvalidContext => String::from_str("Invalid context"),
            Error::MissingContext => String::from_str("Missing context"),
            Error::MissingDocumentId => String::from_str("Missing document ID"),
            Error::MissingProofSignature => String::from_str("Missing JWS in proof"),
            Error::ExpiredProof => String::from_str("Expired proof"),
            Error::FutureProof => String::from_str("Proof creation time is in the future"),
            Error::InvalidProofPurpose => String::from_str("Invalid proof purpose"),
            Error::InvalidProofDomain => String::from_str("Invalid proof domain"),
            Error::InvalidSignature => String::from_str("Invalid Signature"),
            Error::InvalidJWS => String::from_str("Invalid JWS"),
            Error::MissingCredentialSchema => String::from_str("Missing credential schema for ZKP"),
            Error::UnsupportedProperty => String::from_str("Unsupported property for LDP"),
            Error::UnsupportedKeyType => String::from_str("Unsupported key type for did:key"),
            Error::UnsupportedType => String::from_str("Unsupported type for LDP"),
            Error::UnsupportedProofPurpose => String::from_str("Unsupported proof purpose"),
            Error::UnsupportedCheck => String::from_str("Unsupported check"),
            Error::TooManyBlankNodes => String::from_str("Multiple blank nodes not supported. Either credential or credential subject must have id property. Presentation must have id property."),
            Error::JWTCredentialInPresentation => String::from_str("Unsupported JWT VC in VP"),
            Error::ExpectedUnencodedHeader => String::from_str("Expected unencoded JWT header"),
            Error::ResourceNotFound => String::from_str("Resource not found"),
            Error::InvalidProofTypeType => String::from_str("Invalid ProofType type"),
            Error::InvalidKeyLength => String::from_str("Invalid key length"),
            Error::InconsistentDIDKey => String::from_str("Inconsistent DID Key"),
            Error::RingError => String::from_str("Crypto error"),
            Error::CurveNotImplemented(curve) => {
                let mut m = String::from_str("Curve not implemented: '");
                let q = debug_quoted(curve.as_str());
                m.append(q.as_str());
                m.append("'");
                m
            },
            Error::KeyRejected(e) => e.to_string(),
            Error::FromUtf8(e) => e.to_string(),
            Error::ASN1Encode(e) => e.to_string(),
            Error::Base64(e) => e.to_string(),
            Error::Multibase(e) => e.to_string(),
            Error::JSON(e) => e.to_string(),
            Error::Reserved => String::new(),
        }
    }
}

impl From<Base64Error> for Error {
    fn from(err: Base64Error) -> Error {
        Error::Base64(err)
    }
}

impl vstd::std_specs::convert::FromSpecImpl<Base64Error> for Error {
    open spec fn obeys_from_spec() -> bool {
        true
    }

    open spec fn from_spec(v: Base64Error) -> Error {
        Error::Base64(v)
    }
}

impl From<MultibaseError> for Error {
    fn from(err: MultibaseError) -> Error {
        Error::Multibase(err)
    }
}

impl vstd::std_specs::convert::FromSpecImpl<MultibaseError> for Error {
    open spec fn obeys_from_spec() -> bool {
        true
    }

    open spec fn from_spec(v: MultibaseError) -> Error {
        Error::Multibase(v)
    }
}

impl From<ASN1EncodeError> for Error {
    fn from(err: ASN1EncodeError) -> Error {
        Error::ASN1Encode(err)
    }
}

impl vstd::std_specs::convert::FromSpecImpl<ASN1EncodeError> for Error {
    open spec fn obeys_from_spec() -> bool {
        true
    }

    open spec fn from_spec(v: ASN1EncodeError) -> Error {
        Error::ASN1Encode(v)
    }
}

impl From<JSONError> for Error {
    fn from(err: JSONError) -> Error {
        Error::JSON(err)
    }
}

impl vstd::std_specs::convert::FromSpecImpl<JSONError> for Error {
    open spec fn obeys_from_spec() -> bool {
        true
    }

    open spec fn from_spec(v: JSONError) -> Error {
        Error::JSON(v)
    }
}

impl From<KeyRejectedError> for Error {
    fn from(err: KeyRejectedError) -> Error {
        Error::KeyRejected(err)
    }
}

impl vstd::std_specs::convert::FromSpecImpl<KeyRejectedError> for Error {
    open spec fn obeys_from_spec() -> bool {
        true
    }

    open spec fn from_spec(v: KeyRejectedError) -> Error {
        Error::KeyRejected(v)
    }
}

impl From<FromUtf8Error> for Error {
    fn from(err: FromUtf8Error) -> Error {
        Error::FromUtf8(err)
    }
}

impl vstd::std_specs::convert::FromSpecImpl<FromUtf8Error> for Error {
    open spec fn obeys_from_spec() -> bool {
        true
    }

    open spec fn from_spec(v: FromUtf8Error) -> Error {
        Error::FromUtf8(v)
    }
}

/// The cryptography layer reports no detail of its failures, so none is kept.
impl From<RingUnspecified> for Error {
    fn from(_err: RingUnspecified) -> Error {
        Error::RingError
    }
}

impl vstd::std_specs::convert::FromSpecImpl<RingUnspecified> for Error {
    open spec fn obeys_from_spec() -> bool {
        true
    }

    open spec fn from_spec(v: RingUnspecified) -> Error {
        Error::RingError
    }
}

} // verus!
