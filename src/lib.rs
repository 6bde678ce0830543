//! XML Digital Signature and XML Encryption processing.
//!
//! The library holds the verified core of the engine: the transform pipeline
//! and its node sets, the key, key manager and context state machines, the
//! algorithm tables, the runtime lifecycle and the template builders.
//! Digests, base64 and the parsing of keys and certificates come from
//! `openssl`.

mod crypto;
mod error;
mod keys;
mod nodeset;
mod primitives;
mod templates;
mod transforms;
mod xmldsig;
mod xmlenc;
mod xmlkeysmngr;
mod xmlsec;

pub use crate::crypto::XmlSecSignatureMethod;

pub use crate::error::XmlSecError;
pub use crate::error::XmlSecResult;

pub use crate::keys::XmlSecKey;
pub use crate::keys::XmlSecKeyDataType;
pub use crate::keys::XmlSecKeyFormat;
pub use crate::keys::XmlSecKeyIdentity;
pub use crate::keys::KEY_DATA_TYPE_ANY;
pub use crate::keys::KEY_DATA_TYPE_NONE;
pub use crate::keys::KEY_DATA_TYPE_PERMANENT;
pub use crate::keys::KEY_DATA_TYPE_PRIVATE;
pub use crate::keys::KEY_DATA_TYPE_PUBLIC;
pub use crate::keys::KEY_DATA_TYPE_SESSION;
pub use crate::keys::KEY_DATA_TYPE_SYMMETRIC;
pub use crate::keys::KEY_DATA_TYPE_TRUSTED;
pub use crate::keys::KEY_DATA_TYPE_UNKNOWN;

pub use crate::nodeset::XmlSecNodeSet;
pub use crate::nodeset::XmlSecNodeSetType;

pub use crate::templates::issuer_name_text;
pub use crate::templates::KeyInfoBuilder;
pub use crate::templates::KeyInfoChildKind;
pub use crate::templates::ReferenceSignatureBuilder;
pub use crate::templates::SignatureNode;
pub use crate::templates::X509Builder;
pub use crate::templates::XmlDocumentTemplateBuilder;
pub use crate::templates::XmlDocumentTemplateBuilder as XmlSecDocumentTemplateBuilder;

pub use crate::transforms::XmlSecCanonicalizationMethod;
pub use crate::transforms::XmlSecTransform;
pub use crate::transforms::XmlSecTransformCtx;
pub use crate::transforms::XmlSecTransformOperation;

pub use crate::xmldsig::check_reference;
pub use crate::xmldsig::settle_status;
pub use crate::xmldsig::SignatureSearch;
pub use crate::xmldsig::XmlSecDSigStatus;
pub use crate::xmldsig::XmlSecSignatureContext;
pub use crate::xmldsig::XmlSecSignatureOutcome;

pub use crate::xmlenc::XmlSecEncryptionContext;
pub use crate::xmlenc::XmlSecEncryptionContextMode;
pub use crate::xmlenc::XmlSecEncryptionOutcome;

pub use crate::xmlkeysmngr::XmlSecKeysMngr;

pub use crate::xmlsec::find_error_message;
pub use crate::xmlsec::version_supported;
pub use crate::xmlsec::XmlSecContext;
pub use crate::xmlsec::XmlSecErrorReason;
pub use crate::xmlsec::XmlSecInitStep;
pub use crate::xmlsec::XmlSecRuntime;
