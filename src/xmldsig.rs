//! Signature context: the state machine around one sign or verify call.
//!
//! A context holds at most one key (owned exclusively) and optionally a key
//! manager. Signing and verifying first decide, from the key slot and from
//! where the `<Signature>` element was found, whether the backend may run;
//! the backend's report then settles the outcome.

use vstd::prelude::*;

use crate::crypto::signature_name;
use crate::crypto::XmlSecSignatureMethod;
use crate::error::XmlSecError;
use crate::error::XmlSecResult;
use crate::keys::XmlSecKey;
use crate::transforms::chain_result;
use crate::transforms::XmlSecTransform;
use crate::transforms::XmlSecTransformCtx;
use crate::xmlkeysmngr::XmlSecKeysMngr;

verus! {

/// Status of a verification as the backend reports it.
#[derive(Debug, Clone, Copy, PartialEq, Eq, Structural)]
pub enum XmlSecDSigStatus {
    Unknown,
    Succeeded,
    Invalid,
}

/// The status that a backend status code stands for.
pub open spec fn status_of_code(code: i32) -> Option<XmlSecDSigStatus> {
    if code == 0 {
        Some(XmlSecDSigStatus::Unknown)
    } else if code == 1 {
        Some(XmlSecDSigStatus::Succeeded)
    } else if code == 2 {
        Some(XmlSecDSigStatus::Invalid)
    } else {
        None
    }
}

/// Where the search for the `<dsig:Signature>` element of a document ended.
#[derive(Debug, Clone, Copy, PartialEq, Eq, Structural)]
pub enum SignatureSearch {
    /// The document has no root element.
    RootMissing,
    /// The document has a root but no `<Signature>` element under it.
    SignatureMissing,
    /// The `<Signature>` element was found.
    Found,
}

/// How far a context has come.
#[derive(Debug, Clone, Copy, PartialEq, Eq, Structural)]
pub enum XmlSecSignatureOutcome {
    /// No sign or verify call has completed.
    Pending,
    /// A signature was computed and written.
    Signed,
    /// A verification ran and the signature is valid.
    VerifiedValid,
    /// A verification ran and the signature is not valid.
    VerifiedInvalid,
}

/// Signing and verifying context.
pub struct XmlSecSignatureContext {
    key: Option<XmlSecKey>,
    keys_mngr: Option<XmlSecKeysMngr>,
    verification_time: i64,
    outcome: XmlSecSignatureOutcome,
    method_name: Option<String>,
}

impl XmlSecSignatureContext {
    /// The key in the context's slot.
    pub closed spec fn held_key(&self) -> Option<XmlSecKey> {
        self.key
    }

    /// Whether a key manager is registered.
    pub closed spec fn has_keys_manager(&self) -> bool {
        self.keys_mngr is Some
    }

    /// The time used for certificate checks; 0 means the current time.
    pub closed spec fn spec_verification_time(&self) -> i64 {
        self.verification_time
    }

    /// How far the context has come.
    pub closed spec fn spec_outcome(&self) -> XmlSecSignatureOutcome {
        self.outcome
    }

    /// The backend name of the signature method of the last processed
    /// signature, if any.
    pub closed spec fn spec_method_name(&self) -> Option<Seq<char>> {
        match self.method_name {
            Some(n) => Some(n@),
            None => None,
        }
    }

    /// Whether a key or a key manager is set.
    pub open spec fn key_ready(&self) -> bool {
        self.held_key() is Some || self.has_keys_manager()
    }
}

/// `after` is `before` with `key` in the slot and everything else kept.
pub open spec fn key_inserted(
    before: XmlSecSignatureContext,
    key: XmlSecKey,
    after: XmlSecSignatureContext,
) -> bool {
    &&& after.held_key() == Some(key)
    &&& after.has_keys_manager() == before.has_keys_manager()
    &&& after.spec_verification_time() == before.spec_verification_time()
    &&& after.spec_outcome() == before.spec_outcome()
    &&& after.spec_method_name() == before.spec_method_name()
}

/// `after` is `before` with its slot emptied into `released`.
pub open spec fn key_released(
    before: XmlSecSignatureContext,
    after: XmlSecSignatureContext,
    released: Option<XmlSecKey>,
) -> bool {
    &&& released == before.held_key()
    &&& after.held_key() is None
    &&& after.has_keys_manager() == before.has_keys_manager()
    &&& after.spec_verification_time() == before.spec_verification_time()
    &&& after.spec_outcome() == before.spec_outcome()
    &&& after.spec_method_name() == before.spec_method_name()
}

/// What a sign or verify call on a document decides before the backend
/// runs: no key and no key manager is `KeyNotLoaded`, then a missing root
/// is `RootNotFound` and a missing `<Signature>` element `NodeNotFound`.
pub open spec fn preflight(key_ready: bool, search: SignatureSearch) -> XmlSecResult<()> {
    if !key_ready {
        Err(XmlSecError::KeyNotLoaded)
    } else {
        match search {
            SignatureSearch::RootMissing => Err(XmlSecError::RootNotFound),
            SignatureSearch::SignatureMissing => Err(XmlSecError::NodeNotFound),
            SignatureSearch::Found => Ok(()),
        }
    }
}

/// What a verification reports, from the backend's return code and status
/// code: a negative return code or an undefined status is `VerifyError`;
/// otherwise the signature is valid exactly when the status is `Succeeded`.
pub open spec fn verify_result(rc: i32, status: i32) -> XmlSecResult<bool> {
    if rc < 0 {
        Err(XmlSecError::VerifyError)
    } else {
        match status_of_code(status) {
            None => Err(XmlSecError::VerifyError),
            Some(s) => Ok(s == XmlSecDSigStatus::Succeeded),
        }
    }
}

/// What a signing call reports: a failed preflight reports its error;
/// otherwise a negative backend code is `SigningError`.
pub open spec fn signing_result(pre: XmlSecResult<()>, rc: i32) -> XmlSecResult<()> {
    match pre {
        Err(e) => Err(e),
        Ok(_) => if rc < 0 {
            Err(XmlSecError::SigningError)
        } else {
            Ok(())
        },
    }
}

/// What a verification call reports: a failed preflight reports its error;
/// otherwise the backend's report decides, as `verify_result` says.
pub open spec fn verdict(pre: XmlSecResult<()>, rc: i32, status: i32) -> XmlSecResult<bool> {
    match pre {
        Err(e) => Err(e),
        Ok(_) => verify_result(rc, status),
    }
}

/// Reads a backend status code.
pub fn status_from_code(code: i32) -> (r: Option<XmlSecDSigStatus>)
    ensures
        r == status_of_code(code),
{
    if code == 0 {
        Some(XmlSecDSigStatus::Unknown)
    } else if code == 1 {
        Some(XmlSecDSigStatus::Succeeded)
    } else if code == 2 {
        Some(XmlSecDSigStatus::Invalid)
    } else {
        None
    }
}

impl XmlSecSignatureContext {
    /// A context with no key and no key manager.
    pub fn new() -> (r: Self)
        ensures
            r.held_key() is None,
            !r.has_keys_manager(),
            r.spec_verification_time() == 0,
            r.spec_outcome() == XmlSecSignatureOutcome::Pending,
            r.spec_method_name() is None,
    {
        XmlSecSignatureContext {
            key: None,
            keys_mngr: None,
            verification_time: 0,
            outcome: XmlSecSignatureOutcome::Pending,
            method_name: None,
        }
    }

    /// A context that resolves keys through `keys_mngr`, which it takes over.
    pub fn with_keys_manager(keys_mngr: XmlSecKeysMngr) -> (r: Self)
        ensures
            r.held_key() is None,
            r.has_keys_manager(),
            r.spec_verification_time() == 0,
            r.spec_outcome() == XmlSecSignatureOutcome::Pending,
            r.spec_method_name() is None,
    {
        XmlSecSignatureContext {
            key: None,
            keys_mngr: Some(keys_mngr),
            verification_time: 0,
            outcome: XmlSecSignatureOutcome::Pending,
            method_name: None,
        }
    }

    /// Puts `key` in the slot; a key that was there before is handed back.
    pub fn insert_key(&mut self, key: XmlSecKey) -> (r: Option<XmlSecKey>)
        ensures
            r == old(self).held_key(),
            key_inserted(*old(self), key, *final(self)),
    {
        let old_key = self.key.take();
        self.key = Some(key);
        old_key
    }

    /// Empties the slot, handing its key (if any) back to the caller.
    pub fn release_key(&mut self) -> (r: Option<XmlSecKey>)
        ensures
            key_released(*old(self), *final(self), r),
    {
        self.key.take()
    }

    /// Whether a key or a key manager is set.
    pub fn key_is_set(&self) -> (r: XmlSecResult<()>)
        ensures
            self.key_ready() ==> r == Ok::<(), XmlSecError>(()),
            !self.key_ready() ==> r == Err::<(), XmlSecError>(XmlSecError::KeyNotLoaded),
    {
        if self.key.is_some() || self.keys_mngr.is_some() {
            Ok(())
        } else {
            Err(XmlSecError::KeyNotLoaded)
        }
    }

    /// Decides whether signing a document may proceed, given where the
    /// search for its `<Signature>` element ended; the backend runs only on
    /// `Ok`.
    pub fn can_sign_document(&self, search: SignatureSearch) -> (r: XmlSecResult<()>)
        ensures
            r == preflight(self.key_ready(), search),
    {
        self.key_is_set()?;
        locate(search)
    }

    /// Decides whether verifying a document may proceed, given where the
    /// search for its `<Signature>` element ended; the backend runs only on
    /// `Ok`.
    pub fn can_verify_document(&self, search: SignatureSearch) -> (r: XmlSecResult<()>)
        ensures
            r == preflight(self.key_ready(), search),
    {
        self.key_is_set()?;
        locate(search)
    }

    /// Signs a given `<Signature>` node: the backend's signing run reported
    /// `rc` and the signature method it used. Without a key or key manager
    /// the result is `KeyNotLoaded`; a negative code is `SigningError`.
    pub fn sign_node(&mut self, rc: i32, method_name: Option<&str>) -> (r: XmlSecResult<()>)
        ensures
            r == signing_result(preflight(old(self).key_ready(), SignatureSearch::Found), rc),
            r is Err ==> *final(self) == *old(self),
            r is Ok ==> final(self).spec_outcome() == XmlSecSignatureOutcome::Signed
                && final(self).spec_method_name() == opt_text(method_name),
            final(self).held_key() == old(self).held_key(),
            final(self).has_keys_manager() == old(self).has_keys_manager(),
    {
        self.key_is_set()?;
        self.finish_sign(rc, method_name)
    }

    /// Signs a document: the search for its `<Signature>` element ended at
    /// `search`, and the backend's signing run (made only when the search
    /// found it) reported `rc` and the method it used. `KeyNotLoaded`,
    /// `RootNotFound` and `NodeNotFound` come first; then a negative code is
    /// `SigningError`.
    pub fn sign_document(&mut self, search: SignatureSearch, rc: i32, method_name: Option<&str>) -> (r:
        XmlSecResult<()>)
        ensures
            r == signing_result(preflight(old(self).key_ready(), search), rc),
            r is Err ==> *final(self) == *old(self),
            r is Ok ==> final(self).spec_outcome() == XmlSecSignatureOutcome::Signed
                && final(self).spec_method_name() == opt_text(method_name),
            final(self).held_key() == old(self).held_key(),
            final(self).has_keys_manager() == old(self).has_keys_manager(),
    {
        self.can_sign_document(search)?;
        self.finish_sign(rc, method_name)
    }

    /// Verifies a given `<Signature>` node: the backend's verification run
    /// reported `rc`, the status code `status` and the method it found.
    /// Without a key or key manager the result is `KeyNotLoaded`; a
    /// negative code or an undefined status is `VerifyError`; otherwise the
    /// answer is `true` exactly when the status is `Succeeded`.
    pub fn verify_node(&mut self, rc: i32, status: i32, method_name: Option<&str>) -> (r:
        XmlSecResult<bool>)
        ensures
            r == verdict(preflight(old(self).key_ready(), SignatureSearch::Found), rc, status),
            r is Err ==> *final(self) == *old(self),
            r == Ok::<bool, XmlSecError>(true) ==> final(self).spec_outcome()
                == XmlSecSignatureOutcome::VerifiedValid,
            r == Ok::<bool, XmlSecError>(false) ==> final(self).spec_outcome()
                == XmlSecSignatureOutcome::VerifiedInvalid,
            r is Ok ==> final(self).spec_method_name() == opt_text(method_name),
            final(self).held_key() == old(self).held_key(),
            final(self).has_keys_manager() == old(self).has_keys_manager(),
    {
        self.key_is_set()?;
        self.finish_verify(rc, status, method_name)
    }

    /// Verifies a document: the search for its `<Signature>` element ended
    /// at `search`, and the backend's verification run (made only when the
    /// search found it) reported `rc`, `status` and the method it found.
    /// `KeyNotLoaded`, `RootNotFound` and `NodeNotFound` come first; then a
    /// negative code or an undefined status is `VerifyError`; otherwise the
    /// answer is `true` exactly when the status is `Succeeded` (`Unknown`
    /// and `Invalid` both give `false`).
    pub fn verify_document(
        &mut self,
        search: SignatureSearch,
        rc: i32,
        status: i32,
        method_name: Option<&str>,
    ) -> (r: XmlSecResult<bool>)
        ensures
            r == verdict(preflight(old(self).key_ready(), search), rc, status),
            r is Err ==> *final(self) == *old(self),
            r == Ok::<bool, XmlSecError>(true) ==> final(self).spec_outcome()
                == XmlSecSignatureOutcome::VerifiedValid,
            r == Ok::<bool, XmlSecError>(false) ==> final(self).spec_outcome()
                == XmlSecSignatureOutcome::VerifiedInvalid,
            r is Ok ==> final(self).spec_method_name() == opt_text(method_name),
            final(self).held_key() == old(self).held_key(),
            final(self).has_keys_manager() == old(self).has_keys_manager(),
    {
        self.can_verify_document(search)?;
        self.finish_verify(rc, status, method_name)
    }

    /// Settles a signing run from the backend's return code and the name of
    /// the signature method it used: a negative code is `SigningError`.
    fn finish_sign(&mut self, rc: i32, method_name: Option<&str>) -> (r: XmlSecResult<()>)
        ensures
            r == signing_result(Ok(()), rc),
            rc < 0 ==> *final(self) == *old(self),
            rc >= 0 ==> final(self).spec_outcome() == XmlSecSignatureOutcome::Signed
                && final(self).spec_method_name() == opt_text(method_name),
            final(self).held_key() == old(self).held_key(),
            final(self).has_keys_manager() == old(self).has_keys_manager(),
    {
        if rc < 0 {
            return Err(XmlSecError::SigningError);
        }
        self.outcome = XmlSecSignatureOutcome::Signed;
        self.method_name = own_text(method_name);
        Ok(())
    }

    /// Settles a verification run from the backend's return code, its status
    /// code and the name of the signature method it found.
    fn finish_verify(&mut self, rc: i32, status: i32, method_name: Option<&str>) -> (r:
        XmlSecResult<bool>)
        ensures
            r == verify_result(rc, status),
            r is Err ==> *final(self) == *old(self),
            r == Ok::<bool, XmlSecError>(true) ==> final(self).spec_outcome()
                == XmlSecSignatureOutcome::VerifiedValid,
            r == Ok::<bool, XmlSecError>(false) ==> final(self).spec_outcome()
                == XmlSecSignatureOutcome::VerifiedInvalid,
            r is Ok ==> final(self).spec_method_name() == opt_text(method_name),
            final(self).held_key() == old(self).held_key(),
            final(self).has_keys_manager() == old(self).has_keys_manager(),
    {
        if rc < 0 {
            return Err(XmlSecError::VerifyError);
        }
        match status_from_code(status) {
            None => Err(XmlSecError::VerifyError),
            Some(s) => {
                let valid = matches!(s, XmlSecDSigStatus::Succeeded);
                self.outcome = if valid {
                    XmlSecSignatureOutcome::VerifiedValid
                } else {
                    XmlSecSignatureOutcome::VerifiedInvalid
                };
                self.method_name = own_text(method_name);
                Ok(valid)
            },
        }
    }

    /// Sets the time (seconds since the epoch) at which certificates are
    /// checked during verification; 0 means the current time.
    pub fn set_verification_time(&mut self, time: i64)
        ensures
            final(self).spec_verification_time() == time,
            final(self).held_key() == old(self).held_key(),
            final(self).has_keys_manager() == old(self).has_keys_manager(),
            final(self).spec_outcome() == old(self).spec_outcome(),
            final(self).spec_method_name() == old(self).spec_method_name(),
    {
        self.verification_time = time;
    }

    /// The time at which certificates are checked; 0 means the current time.
    pub fn verification_time(&self) -> (r: i64)
        ensures
            r == self.spec_verification_time(),
    {
        self.verification_time
    }

    /// How far the context has come.
    pub fn outcome(&self) -> (r: XmlSecSignatureOutcome)
        ensures
            r == self.spec_outcome(),
    {
        self.outcome
    }

    /// The signature method of the last processed signature, when it is one
    /// that the library knows.
    pub fn signature_method(&self) -> (r: Option<XmlSecSignatureMethod>)
        ensures
            self.spec_method_name() is None ==> r is None,
            r is Some ==> self.spec_method_name() == Some(signature_name(r.unwrap())),
            self.spec_method_name() is Some && r is None ==> forall|m: XmlSecSignatureMethod|
                signature_name(m) != self.spec_method_name().unwrap(),
    {
        match &self.method_name {
            None => None,
            Some(n) => XmlSecSignatureMethod::from_name(n.as_str()),
        }
    }

    /// The backend name of the signature method of the last processed
    /// signature.
    pub fn signature_method_name(&self) -> (r: Option<String>)
        ensures
            opt_string_view(r) == self.spec_method_name(),
    {
        match &self.method_name {
            None => None,
            Some(n) => Some(n.clone()),
        }
    }
}

/// The view of an optional borrowed string.
pub open spec fn opt_text(s: Option<&str>) -> Option<Seq<char>> {
    match s {
        Some(t) => Some(t@),
        None => None,
    }
}

/// The view of an optional owned string.
pub open spec fn opt_string_view(s: Option<String>) -> Option<Seq<char>> {
    match s {
        Some(t) => Some(t@),
        None => None,
    }
}

/// An owned copy of an optional string.
fn own_text(s: Option<&str>) -> (r: Option<String>)
    ensures
        opt_string_view(r) == opt_text(s),
{
    match s {
        Some(t) => Some(t.to_owned()),
        None => None,
    }
}

/// The error that a search outcome alone decides.
fn locate(search: SignatureSearch) -> (r: XmlSecResult<()>)
    ensures
        r == preflight(true, search),
{
    match search {
        SignatureSearch::RootMissing => Err(XmlSecError::RootNotFound),
        SignatureSearch::SignatureMissing => Err(XmlSecError::NodeNotFound),
        SignatureSearch::Found => Ok(()),
    }
}

/// Inserting a key and releasing it right after hands back that very key;
/// releasing again without another insertion hands back nothing.
pub proof fn lemma_insert_then_release(
    c0: XmlSecSignatureContext,
    key: XmlSecKey,
    c1: XmlSecSignatureContext,
    c2: XmlSecSignatureContext,
    first: Option<XmlSecKey>,
    c3: XmlSecSignatureContext,
    second: Option<XmlSecKey>,
)
    requires
        key_inserted(c0, key, c1),
        key_released(c1, c2, first),
        key_released(c2, c3, second),
    ensures
        first == Some(key),
        second is None,
{
}

/// A verification reports a valid signature only when the backend ran
/// without error and reported success; every other report is `false` or an
/// error, never `true`.
pub proof fn lemma_valid_only_on_success(rc: i32, status: i32)
    ensures
        verify_result(rc, status) == Ok::<bool, XmlSecError>(true) <==> (rc >= 0 && status == 1),
{
}

/// The backend status code of a status.
pub open spec fn code_of_status(s: XmlSecDSigStatus) -> i32 {
    match s {
        XmlSecDSigStatus::Unknown => 0,
        XmlSecDSigStatus::Succeeded => 1,
        XmlSecDSigStatus::Invalid => 2,
    }
}

impl XmlSecDSigStatus {
    /// The backend status code of this status.
    pub fn code(&self) -> (r: i32)
        ensures
            r == code_of_status(*self),
            status_of_code(r) == Some(*self),
    {
        match self {
            XmlSecDSigStatus::Unknown => 0,
            XmlSecDSigStatus::Succeeded => 1,
            XmlSecDSigStatus::Invalid => 2,
        }
    }
}

/// Whether a reference's stored digest value matches the digest that its
/// transform chain computes from the canonical bytes of its node set; a
/// chain that fails reports its error.
pub open spec fn digest_check(
    steps: Seq<XmlSecTransform>,
    canonical: Seq<u8>,
    stored: Seq<u8>,
) -> XmlSecResult<bool> {
    match chain_result(steps, canonical) {
        Ok(digest) => Ok(digest == stored),
        Err(e) => Err(e),
    }
}

/// The status of a signature from the outcome of its reference checks and
/// of the check of its signature value: `Succeeded` exactly when every
/// reference matched and the signature value is valid.
pub open spec fn signature_status(references: Seq<bool>, signature_valid: bool) -> XmlSecDSigStatus {
    if signature_valid && forall|i: int| 0 <= i < references.len() ==> #[trigger] references[i] {
        XmlSecDSigStatus::Succeeded
    } else {
        XmlSecDSigStatus::Invalid
    }
}

/// Whether two byte strings are equal.
pub fn bytes_equal(a: &[u8], b: &[u8]) -> (r: bool)
    ensures
        r == (a@ == b@),
{
    if a.len() != b.len() {
        return false;
    }
    let mut i: usize = 0;
    while i < a.len()
        invariant
            a@.len() == b@.len(),
            i <= a@.len(),
            forall|j: int| 0 <= j < i ==> a@[j] == b@[j],
        decreases a.len() - i,
    {
        if a[i] != b[i] {
            return false;
        }
        i = i + 1;
    }
    assert(a@ =~= b@);
    true
}

/// Recomputes a reference's digest with its chain, on the canonical bytes of
/// its node set, and compares it with the stored digest value.
pub fn check_reference(chain: &XmlSecTransformCtx, canonical: &[u8], stored: &[u8]) -> (r:
    XmlSecResult<bool>)
    ensures
        r == digest_check(chain@, canonical@, stored@),
{
    match chain.execute_canonical(canonical) {
        Ok(digest) => Ok(bytes_equal(digest.as_slice(), stored)),
        Err(e) => Err(e),
    }
}

/// Settles the status of a signature from its reference checks and the
/// check of its signature value.
pub fn settle_status(references: &[bool], signature_valid: bool) -> (r: XmlSecDSigStatus)
    ensures
        r == signature_status(references@, signature_valid),
{
    if !signature_valid {
        return XmlSecDSigStatus::Invalid;
    }
    let mut i: usize = 0;
    while i < references.len()
        invariant
            i <= references@.len(),
            forall|j: int| 0 <= j < i ==> #[trigger] references@[j],
        decreases references.len() - i,
    {
        if !references[i] {
            return XmlSecDSigStatus::Invalid;
        }
        i = i + 1;
    }
    XmlSecDSigStatus::Succeeded
}

/// The digest half of signing then verifying with the same key: when every
/// reference's stored digest is what its chain computed at signing time and
/// the node sets are unchanged, every reference matches. Assuming in
/// addition that the signature value checks out (which the backend's
/// cryptography decides, not this library), the status is `Succeeded` and a
/// verification of a document whose `<Signature>` was found answers `true`.
pub proof fn lemma_sign_then_verify(
    chains: Seq<Seq<XmlSecTransform>>,
    canonical: Seq<Seq<u8>>,
    stored: Seq<Seq<u8>>,
    checks: Seq<bool>,
)
    requires
        chains.len() == canonical.len(),
        stored.len() == canonical.len(),
        checks.len() == canonical.len(),
        forall|i: int|
            0 <= i < chains.len() ==> chain_result(#[trigger] chains[i], canonical[i]) == Ok::<
                Seq<u8>,
                XmlSecError,
            >(stored[i]),
        forall|i: int|
            0 <= i < chains.len() ==> digest_check(chains[i], canonical[i], stored[i]) == Ok::<
                bool,
                XmlSecError,
            >(#[trigger] checks[i]),
    ensures
        signature_status(checks, true) == XmlSecDSigStatus::Succeeded,
        verify_result(0, code_of_status(signature_status(checks, true))) == Ok::<bool, XmlSecError>(
            true,
        ),
        verdict(Ok(()), 0, code_of_status(signature_status(checks, true))) == Ok::<
            bool,
            XmlSecError,
        >(true),
{
    assert forall|i: int| 0 <= i < checks.len() implies #[trigger] checks[i] by {
        assert(chain_result(chains[i], canonical[i]) == Ok::<Seq<u8>, XmlSecError>(stored[i]));
    }
}

/// Tampering that changes what a reference's chain computes makes the
/// verification answer `false`: if the recomputed digest of one reference
/// differs from its stored value, that reference does not match, the status
/// is `Invalid`, and a verification that reports it answers `false`,
/// whatever the other references and the signature value say.
pub proof fn lemma_tampered_reference_fails(
    chains: Seq<Seq<XmlSecTransform>>,
    canonical: Seq<Seq<u8>>,
    stored: Seq<Seq<u8>>,
    checks: Seq<bool>,
    signature_valid: bool,
    k: int,
)
    requires
        chains.len() == canonical.len(),
        stored.len() == canonical.len(),
        checks.len() == canonical.len(),
        0 <= k < chains.len(),
        chain_result(chains[k], canonical[k]) is Ok,
        chain_result(chains[k], canonical[k]).unwrap() != stored[k],
        digest_check(chains[k], canonical[k], stored[k]) == Ok::<bool, XmlSecError>(checks[k]),
    ensures
        !checks[k],
        signature_status(checks, signature_valid) == XmlSecDSigStatus::Invalid,
        verify_result(0, code_of_status(signature_status(checks, signature_valid))) == Ok::<
            bool,
            XmlSecError,
        >(false),
        verdict(Ok(()), 0, code_of_status(signature_status(checks, signature_valid))) == Ok::<
            bool,
            XmlSecError,
        >(false),
{
}

} // verus!
