//! Error reasons, algorithm tables and the runtime lifecycle.

use xmlsec::XmlSecContext;
use xmlsec::XmlSecEncryptionContext;
use xmlsec::XmlSecEncryptionContextMode;
use xmlsec::XmlSecEncryptionOutcome;
use xmlsec::XmlSecError;
use xmlsec::XmlSecErrorReason;
use xmlsec::XmlSecInitStep;
use xmlsec::XmlSecRuntime;
use xmlsec::XmlSecSignatureMethod;

#[test]
fn error_reason_codes() {
    assert_eq!(XmlSecErrorReason::from(0), XmlSecErrorReason::NoError);
    assert_eq!(XmlSecErrorReason::from(28), XmlSecErrorReason::NodeNotFound);
    assert_eq!(XmlSecErrorReason::from(76), XmlSecErrorReason::CertHasExpired);
    assert_eq!(XmlSecErrorReason::from(101), XmlSecErrorReason::CastImpossible);
    assert_eq!(XmlSecErrorReason::from(20), XmlSecErrorReason::Unknown);
    assert_eq!(XmlSecErrorReason::from(-5), XmlSecErrorReason::Unknown);
    assert_eq!(XmlSecErrorReason::DsigInvalidReference.code(), Some(82));
    assert_eq!(XmlSecErrorReason::Unknown.code(), None);
}

#[test]
fn signature_method_tables() {
    assert_eq!(
        XmlSecSignatureMethod::RsaSha256.href(),
        "http://www.w3.org/2001/04/xmldsig-more#rsa-sha256"
    );
    assert_eq!(XmlSecSignatureMethod::Sha1.href(), "http://www.w3.org/2000/09/xmldsig#sha1");
    assert_eq!(
        XmlSecSignatureMethod::from_href("http://www.w3.org/2001/04/xmlenc#kw-aes128"),
        Some(XmlSecSignatureMethod::KWAes128)
    );
    assert_eq!(XmlSecSignatureMethod::from_href("urn:nothing"), None);
    assert_eq!(XmlSecSignatureMethod::from_name("ecdsa-sha384"), Some(XmlSecSignatureMethod::EcdsaSha384));
    assert_eq!(XmlSecSignatureMethod::from_name("md5"), None);
    for m in XmlSecSignatureMethod::all() {
        assert_eq!(XmlSecSignatureMethod::from_href(m.href()), Some(m));
        assert_eq!(XmlSecSignatureMethod::from_name(m.name()), Some(m));
    }
}

#[test]
fn runtime_initialises_once_and_tears_down_in_reverse() {
    let mut rt = XmlSecRuntime::new();
    assert!(!rt.is_initialized());
    let first = rt.ensure_initialized(0x3000_0000);
    assert_eq!(
        first,
        vec![XmlSecInitStep::Core, XmlSecInitStep::CryptoApp, XmlSecInitStep::Crypto]
    );
    assert!(rt.ensure_initialized(0x3000_0000).is_empty());
    assert!(rt.is_initialized());
    assert_eq!(
        rt.shutdown(),
        vec![XmlSecInitStep::Crypto, XmlSecInitStep::CryptoApp, XmlSecInitStep::Core]
    );
    assert!(rt.shutdown().is_empty());
    assert_eq!(XmlSecContext::new().cleanup_steps().len(), 3);
    assert!(xmlsec::version_supported(0x1010_1000));
    assert!(!xmlsec::version_supported(0x0090_8000));
}

#[test]
fn error_message_lookup() {
    let codes = [1, 4, 28, 4];
    assert_eq!(xmlsec::find_error_message(&codes, 4), Some(1));
    assert_eq!(xmlsec::find_error_message(&codes, 28), Some(2));
    assert_eq!(xmlsec::find_error_message(&codes, 99), None);
    assert_eq!(xmlsec::find_error_message(&[], 1), None);
}

#[test]
fn encryption_context_modes_and_results() {
    let mut ctx = XmlSecEncryptionContext::new();
    assert_eq!(ctx.mode(), XmlSecEncryptionContextMode::Data);
    ctx.set_mode(XmlSecEncryptionContextMode::Key);
    assert_eq!(ctx.mode(), XmlSecEncryptionContextMode::Key);
    assert_eq!(
        ctx.set_mode(XmlSecEncryptionContextMode::Data)
            .set_mode(XmlSecEncryptionContextMode::Key)
            .mode(),
        XmlSecEncryptionContextMode::Key
    );
    assert_eq!(ctx.finish_decrypt(-1, b"x"), Err(XmlSecError::SigningError));
    assert_eq!(ctx.finish_decrypt(0, b""), Err(XmlSecError::SigningError));
    assert_eq!(ctx.outcome(), XmlSecEncryptionOutcome::Pending);
    assert_eq!(ctx.finish_decrypt(0, b"plain"), Ok(b"plain".to_vec()));
    assert_eq!(ctx.outcome(), XmlSecEncryptionOutcome::Decrypted);
    assert_eq!(ctx.finish_encrypt(3, b"cipher"), Ok(b"cipher".to_vec()));
    assert_eq!(ctx.outcome(), XmlSecEncryptionOutcome::Encrypted);
}
