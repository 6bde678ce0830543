//! Signature context: construction, key slot, and the decisions around the
//! backend run.

use openssl::pkey::PKey;
use openssl::rsa::Rsa;
use xmlsec::SignatureSearch;
use xmlsec::XmlSecCanonicalizationMethod;
use xmlsec::XmlSecDSigStatus;
use xmlsec::XmlSecTransform;
use xmlsec::XmlSecTransformOperation;
use xmlsec::XmlSecError;
use xmlsec::XmlSecKey;
use xmlsec::XmlSecKeyFormat;
use xmlsec::XmlSecKeysMngr;
use xmlsec::XmlSecSignatureContext;
use xmlsec::XmlSecSignatureMethod;
use xmlsec::XmlSecSignatureOutcome;

fn test_key_pem() -> Vec<u8> {
    let rsa = Rsa::generate(2048).unwrap();
    PKey::from_rsa(rsa).unwrap().private_key_to_pem_pkcs8().unwrap()
}

#[test]
fn test_dsig_context_creation() {
    XmlSecSignatureContext::new();
}

#[test]
fn test_dsig_key_setting() {
    let mut ctx = XmlSecSignatureContext::new();

    let pem = test_key_pem();
    let mut key = XmlSecKey::from_memory(&pem, XmlSecKeyFormat::Pem, None)
        .expect("Failed to properly load key for test");
    key.set_name("slot-key");

    let key_id = key.identity();

    let oldkey = ctx.insert_key(key);
    assert!(oldkey.is_none(), "It should never have been set at this point");

    let newkey = ctx
        .release_key()
        .expect("Should have had a set key now being released");
    assert!(
        newkey.identity() == key_id,
        "Key should have remained to be exactly the same"
    );
    assert_eq!(newkey.get_name(), "slot-key");
    assert_eq!(newkey.material(), pem.as_slice());

    assert!(ctx.release_key().is_none());
}

#[test]
fn insert_key_hands_back_the_displaced_key() {
    let mut ctx = XmlSecSignatureContext::new();
    let pem = test_key_pem();
    let mut first = XmlSecKey::from_memory(&pem, XmlSecKeyFormat::Pem, None).unwrap();
    first.set_name("first");
    let mut second = XmlSecKey::from_memory(&pem, XmlSecKeyFormat::Pem, None).unwrap();
    second.set_name("second");
    assert!(ctx.insert_key(first).is_none());
    let displaced = ctx.insert_key(second).unwrap();
    assert_eq!(displaced.get_name(), "first");
    assert_eq!(ctx.release_key().unwrap().get_name(), "second");
}

fn managed_context() -> XmlSecSignatureContext {
    XmlSecSignatureContext::with_keys_manager(XmlSecKeysMngr::new())
}

#[test]
fn sign_without_key_is_key_not_loaded() {
    let mut ctx = XmlSecSignatureContext::new();
    assert_eq!(ctx.can_sign_document(SignatureSearch::Found), Err(XmlSecError::KeyNotLoaded));
    assert_eq!(
        ctx.sign_document(SignatureSearch::RootMissing, 0, None),
        Err(XmlSecError::KeyNotLoaded)
    );
    assert_eq!(ctx.sign_node(0, None), Err(XmlSecError::KeyNotLoaded));
    assert_eq!(ctx.verify_node(0, 1, None), Err(XmlSecError::KeyNotLoaded));
    assert_eq!(ctx.key_is_set(), Err(XmlSecError::KeyNotLoaded));
    assert_eq!(ctx.outcome(), XmlSecSignatureOutcome::Pending);
}

#[test]
fn document_search_outcomes_decide_the_error() {
    let mut ctx = XmlSecSignatureContext::new();
    let pem = test_key_pem();
    ctx.insert_key(XmlSecKey::from_memory(&pem, XmlSecKeyFormat::Pem, None).unwrap());
    assert_eq!(
        ctx.can_sign_document(SignatureSearch::RootMissing),
        Err(XmlSecError::RootNotFound)
    );
    assert_eq!(
        ctx.verify_document(SignatureSearch::SignatureMissing, 0, 1, None),
        Err(XmlSecError::NodeNotFound)
    );
    assert_eq!(
        ctx.sign_document(SignatureSearch::RootMissing, 0, None),
        Err(XmlSecError::RootNotFound)
    );
    assert_eq!(ctx.can_sign_document(SignatureSearch::Found), Ok(()));
    assert_eq!(ctx.sign_document(SignatureSearch::Found, 0, None), Ok(()));
    assert_eq!(ctx.sign_node(0, None), Ok(()));
}

#[test]
fn keys_manager_alone_is_enough_to_proceed() {
    let ctx = managed_context();
    assert_eq!(ctx.can_verify_document(SignatureSearch::Found), Ok(()));
}

#[test]
fn verification_status_collapses_to_bool() {
    let mut ctx = managed_context();
    assert_eq!(
        ctx.verify_document(SignatureSearch::Found, 0, 1, Some("rsa-sha256")),
        Ok(true)
    );
    assert_eq!(ctx.outcome(), XmlSecSignatureOutcome::VerifiedValid);
    assert_eq!(ctx.signature_method(), Some(XmlSecSignatureMethod::RsaSha256));
    assert_eq!(ctx.signature_method_name(), Some("rsa-sha256".to_string()));

    let mut ctx = managed_context();
    assert_eq!(ctx.verify_node(0, 2, Some("rsa-sha1")), Ok(false));
    assert_eq!(ctx.outcome(), XmlSecSignatureOutcome::VerifiedInvalid);

    let mut ctx = managed_context();
    assert_eq!(ctx.verify_node(0, 0, None), Ok(false));
    assert_eq!(ctx.signature_method(), None);

    let mut ctx = managed_context();
    assert_eq!(ctx.verify_node(-1, 1, None), Err(XmlSecError::VerifyError));
    assert_eq!(
        ctx.verify_document(SignatureSearch::Found, 0, 7, None),
        Err(XmlSecError::VerifyError)
    );
    assert_eq!(ctx.outcome(), XmlSecSignatureOutcome::Pending);
}

#[test]
fn signing_outcome_follows_backend_code() {
    let mut ctx = managed_context();
    assert_eq!(ctx.sign_node(-1, None), Err(XmlSecError::SigningError));
    assert_eq!(
        ctx.sign_document(SignatureSearch::Found, -3, None),
        Err(XmlSecError::SigningError)
    );
    assert_eq!(ctx.outcome(), XmlSecSignatureOutcome::Pending);
    assert_eq!(ctx.sign_node(0, Some("not-a-method")), Ok(()));
    assert_eq!(ctx.outcome(), XmlSecSignatureOutcome::Signed);
    assert_eq!(ctx.signature_method(), None);
    assert_eq!(ctx.signature_method_name(), Some("not-a-method".to_string()));
}

#[test]
fn verification_time_is_kept() {
    let mut ctx = XmlSecSignatureContext::new();
    assert_eq!(ctx.verification_time(), 0);
    ctx.set_verification_time(1_600_000_000);
    assert_eq!(ctx.verification_time(), 1_600_000_000);
}

fn reference_chain() -> xmlsec::XmlSecTransformCtx {
    let mut chain = xmlsec::XmlSecTransformCtx::new();
    chain.append(XmlSecTransform::new(XmlSecCanonicalizationMethod::ExclusiveC14N));
    chain.append(XmlSecTransform::with_operation(
        XmlSecCanonicalizationMethod::Sha1,
        XmlSecTransformOperation::Sign,
    ));
    chain.append(XmlSecTransform::with_operation(
        XmlSecCanonicalizationMethod::Base64,
        XmlSecTransformOperation::Encode,
    ));
    chain
}

#[test]
fn reference_digest_round_trip_and_tamper() {
    let chain = reference_chain();
    let signed = b"<Data Id=\"ThisID\">payload</Data>";
    let stored = chain.execute_canonical(signed).unwrap();
    assert_eq!(xmlsec::check_reference(&chain, signed, &stored), Ok(true));
    let tampered = b"<Data Id=\"ThisID\">paylOad</Data>";
    assert_eq!(xmlsec::check_reference(&chain, tampered, &stored), Ok(false));
    let empty = xmlsec::XmlSecTransformCtx::new();
    assert_eq!(
        xmlsec::check_reference(&empty, signed, &stored),
        Err(XmlSecError::EmptyResultError)
    );
}

#[test]
fn signature_status_needs_every_reference_and_the_value() {
    assert_eq!(xmlsec::settle_status(&[true, true], true), XmlSecDSigStatus::Succeeded);
    assert_eq!(xmlsec::settle_status(&[], true), XmlSecDSigStatus::Succeeded);
    assert_eq!(xmlsec::settle_status(&[true, false], true), XmlSecDSigStatus::Invalid);
    assert_eq!(xmlsec::settle_status(&[true], false), XmlSecDSigStatus::Invalid);

    let mut ctx = managed_context();
    let status = xmlsec::settle_status(&[true, true], true);
    assert_eq!(ctx.verify_document(SignatureSearch::Found, 0, status.code(), None), Ok(true));
    let mut ctx = managed_context();
    let status = xmlsec::settle_status(&[true, false], true);
    assert_eq!(ctx.verify_document(SignatureSearch::Found, 0, status.code(), None), Ok(false));
}
