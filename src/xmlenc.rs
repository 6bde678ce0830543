//! Encryption context: the state machine around one encrypt or decrypt call
//! on an `<EncryptedData>` or `<EncryptedKey>` element.

use vstd::prelude::*;

use crate::error::XmlSecError;
use crate::error::XmlSecResult;
use crate::keys::XmlSecKey;
use crate::primitives::copy_bytes;
use crate::xmlkeysmngr::XmlSecKeysMngr;

verus! {

/// Which element kind the context processes.
#[derive(Debug, Clone, Copy, PartialEq, Eq, Structural)]
pub enum XmlSecEncryptionContextMode {
    /// `<EncryptedData>`: bulk data.
    Data,
    /// `<EncryptedKey>`: wrapped key material.
    Key,
}

/// How far an encryption context has come.
#[derive(Debug, Clone, Copy, PartialEq, Eq, Structural)]
pub enum XmlSecEncryptionOutcome {
    /// No call has completed.
    Pending,
    /// Data was encrypted.
    Encrypted,
    /// Data was decrypted.
    Decrypted,
}

/// Encryption and decryption context.
pub struct XmlSecEncryptionContext {
    key: Option<XmlSecKey>,
    keys_mngr: Option<XmlSecKeysMngr>,
    mode: XmlSecEncryptionContextMode,
    outcome: XmlSecEncryptionOutcome,
}

/// What a decryption (or encryption) run yields from the backend's return
/// code and result buffer: a negative code or an empty buffer is
/// `SigningError`, anything else the buffer.
pub open spec fn cipher_result(rc: i32, result: Seq<u8>) -> XmlSecResult<Seq<u8>> {
    if rc < 0 || result.len() == 0 {
        Err(XmlSecError::SigningError)
    } else {
        Ok(result)
    }
}

impl XmlSecEncryptionContext {
    /// The key in the context's slot.
    pub closed spec fn held_key(&self) -> Option<XmlSecKey> {
        self.key
    }

    /// Whether a key manager is registered.
    pub closed spec fn has_keys_manager(&self) -> bool {
        self.keys_mngr is Some
    }

    /// The element kind the context processes.
    pub closed spec fn spec_mode(&self) -> XmlSecEncryptionContextMode {
        self.mode
    }

    /// How far the context has come.
    pub closed spec fn spec_outcome(&self) -> XmlSecEncryptionOutcome {
        self.outcome
    }

    /// A context with no key, no key manager, in `Data` mode.
    pub fn new() -> (r: Self)
        ensures
            r.held_key() is None,
            !r.has_keys_manager(),
            r.spec_mode() == XmlSecEncryptionContextMode::Data,
            r.spec_outcome() == XmlSecEncryptionOutcome::Pending,
    {
        XmlSecEncryptionContext {
            key: None,
            keys_mngr: None,
            mode: XmlSecEncryptionContextMode::Data,
            outcome: XmlSecEncryptionOutcome::Pending,
        }
    }

    /// A context that resolves keys through `keys_mngr`, in `Data` mode.
    pub fn with_keys_manager(keys_mngr: XmlSecKeysMngr) -> (r: Self)
        ensures
            r.held_key() is None,
            r.has_keys_manager(),
            r.spec_mode() == XmlSecEncryptionContextMode::Data,
            r.spec_outcome() == XmlSecEncryptionOutcome::Pending,
    {
        XmlSecEncryptionContext {
            key: None,
            keys_mngr: Some(keys_mngr),
            mode: XmlSecEncryptionContextMode::Data,
            outcome: XmlSecEncryptionOutcome::Pending,
        }
    }

    /// Puts `key` in the slot; a key held before is destroyed first. Returns
    /// the context, for chaining.
    pub fn set_key(&mut self, key: XmlSecKey) -> (r: &mut Self)
        ensures
            r.held_key() == Some(key),
            r.has_keys_manager() == old(self).has_keys_manager(),
            r.spec_mode() == old(self).spec_mode(),
            r.spec_outcome() == old(self).spec_outcome(),
            *final(self) == *final(r),
    {
        self.key = None;
        self.key = Some(key);
        self
    }

    /// Selects the element kind to process. Returns the context, for
    /// chaining.
    pub fn set_mode(&mut self, mode: XmlSecEncryptionContextMode) -> (r: &mut Self)
        ensures
            r.spec_mode() == mode,
            r.held_key() == old(self).held_key(),
            r.has_keys_manager() == old(self).has_keys_manager(),
            r.spec_outcome() == old(self).spec_outcome(),
            *final(self) == *final(r),
    {
        self.mode = mode;
        self
    }

    /// The element kind the context processes.
    pub fn mode(&self) -> (r: XmlSecEncryptionContextMode)
        ensures
            r == self.spec_mode(),
    {
        self.mode
    }

    /// How far the context has come.
    pub fn outcome(&self) -> (r: XmlSecEncryptionOutcome)
        ensures
            r == self.spec_outcome(),
    {
        self.outcome
    }

    /// Settles a decryption run from the backend's return code and result
    /// buffer; the plaintext is returned as an owned copy.
    pub fn finish_decrypt(&mut self, rc: i32, result: &[u8]) -> (r: XmlSecResult<Vec<u8>>)
        ensures
            match cipher_result(rc, result@) {
                Ok(out) => r is Ok && r.unwrap()@ == out && final(self).spec_outcome()
                    == XmlSecEncryptionOutcome::Decrypted,
                Err(e) => r == Err::<Vec<u8>, XmlSecError>(e) && final(self).spec_outcome()
                    == old(self).spec_outcome(),
            },
            final(self).held_key() == old(self).held_key(),
            final(self).has_keys_manager() == old(self).has_keys_manager(),
            final(self).spec_mode() == old(self).spec_mode(),
    {
        if rc < 0 || result.len() == 0 {
            return Err(XmlSecError::SigningError);
        }
        self.outcome = XmlSecEncryptionOutcome::Decrypted;
        Ok(copy_bytes(result))
    }

    /// Settles an encryption run from the backend's return code and result
    /// buffer; the ciphertext is returned as an owned copy.
    pub fn finish_encrypt(&mut self, rc: i32, result: &[u8]) -> (r: XmlSecResult<Vec<u8>>)
        ensures
            match cipher_result(rc, result@) {
                Ok(out) => r is Ok && r.unwrap()@ == out && final(self).spec_outcome()
                    == XmlSecEncryptionOutcome::Encrypted,
                Err(e) => r == Err::<Vec<u8>, XmlSecError>(e) && final(self).spec_outcome()
                    == old(self).spec_outcome(),
            },
            final(self).held_key() == old(self).held_key(),
            final(self).has_keys_manager() == old(self).has_keys_manager(),
            final(self).spec_mode() == old(self).spec_mode(),
    {
        if rc < 0 || result.len() == 0 {
            return Err(XmlSecError::SigningError);
        }
        self.outcome = XmlSecEncryptionOutcome::Encrypted;
        Ok(copy_bytes(result))
    }
}

} // verus!
