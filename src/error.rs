//! Errors reported by the library.

use vstd::prelude::*;

verus! {

/// Failure of a library operation.
#[derive(Debug, Clone, Copy, PartialEq, Eq, Structural)]
pub enum XmlSecError {
    /// Key material could not be loaded.
    KeyLoadError,
    /// A certificate could not be loaded.
    CertLoadError,
    /// An operation needs a key or a key manager and neither is set.
    KeyNotLoaded,
    /// The document has no root element, or no parent node could be resolved.
    RootNotFound,
    /// The `<Signature>` element (or another required node) is absent.
    NodeNotFound,
    /// Signing (or decryption) failed in the crypto backend.
    SigningError,
    /// Verification failed to run in the crypto backend.
    VerifyError,
    /// A transform chain failed to execute.
    TransformError,
    /// A transform chain ran but produced no bytes.
    EmptyResultError,
}

/// Result type of the library.
pub type XmlSecResult<T> = Result<T, XmlSecError>;

} // verus!
