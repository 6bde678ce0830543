//! Keys, key formats and data types, and the trust store.

use openssl::asn1::Asn1Time;
use openssl::bn::BigNum;
use openssl::hash::MessageDigest;
use openssl::pkey::PKey;
use openssl::pkey::Private;
use openssl::rsa::Rsa;
use openssl::x509::X509Name;
use openssl::x509::X509;
use xmlsec::XmlSecError;
use xmlsec::XmlSecKey;
use xmlsec::XmlSecKeyDataType;
use xmlsec::XmlSecKeyFormat;
use xmlsec::XmlSecKeysMngr;

fn test_pkey() -> PKey<Private> {
    PKey::from_rsa(Rsa::generate(2048).unwrap()).unwrap()
}

fn test_cert(pkey: &PKey<Private>) -> X509 {
    let mut name = X509Name::builder().unwrap();
    name.append_entry_by_text("O", "Example Org").unwrap();
    name.append_entry_by_text("CN", "signer").unwrap();
    let name = name.build();
    let mut builder = X509::builder().unwrap();
    builder.set_version(2).unwrap();
    let serial = BigNum::from_u32(32047).unwrap().to_asn1_integer().unwrap();
    builder.set_serial_number(&serial).unwrap();
    builder.set_subject_name(&name).unwrap();
    builder.set_issuer_name(&name).unwrap();
    builder.set_pubkey(pkey).unwrap();
    builder.set_not_before(&Asn1Time::days_from_now(0).unwrap()).unwrap();
    builder.set_not_after(&Asn1Time::days_from_now(30).unwrap()).unwrap();
    builder.sign(pkey, MessageDigest::sha256()).unwrap();
    builder.build()
}

#[test]
fn test_key_cert_loading_memory() {
    let pkey = test_pkey();
    let keybuff = pkey.private_key_to_pem_pkcs8().unwrap();
    let crtbuff = test_cert(&pkey).to_pem().unwrap();

    let mut key = XmlSecKey::from_memory(&keybuff, XmlSecKeyFormat::Pem, None)
        .expect("Failed to properly load key for test");

    key.load_cert_from_memory(&crtbuff, XmlSecKeyFormat::Pem)
        .expect("Failed to properly load key certificate for test");
    assert_eq!(key.certificate_count(), 1);
}

#[test]
fn test_key_name_handing() {
    let keybuff = test_pkey().private_key_to_pem_pkcs8().unwrap();
    let mut key = XmlSecKey::from_memory(&keybuff, XmlSecKeyFormat::Pem, None)
        .expect("Failed to properly load key for test");

    key.set_name("testname");

    let name = key.get_name();

    assert_eq!(name, "testname");
}

#[test]
fn test_keys_mngr_load() {
    let mut keys_mngr = XmlSecKeysMngr::new();
    let cert_vec = test_cert(&test_pkey()).to_der().unwrap();
    keys_mngr
        .cert_load_from_memory(cert_vec.as_slice(), XmlSecKeyFormat::Der)
        .expect("Failed to load certificate");
    assert_eq!(keys_mngr.len(), 1);
    assert_eq!(keys_mngr.certificate_data_type().bits(), 0x0100);
}

#[test]
fn keys_mngr_refuses_garbage_and_stays_empty() {
    let mut keys_mngr = XmlSecKeysMngr::new();
    assert_eq!(
        keys_mngr.cert_load_from_memory(b"not a certificate", XmlSecKeyFormat::Der),
        Err(XmlSecError::CertLoadError)
    );
    assert_eq!(
        keys_mngr.cert_load_from_memory(b"whatever", XmlSecKeyFormat::Pkcs12),
        Err(XmlSecError::CertLoadError)
    );
    assert_eq!(keys_mngr.len(), 0);
}

#[test]
fn private_pem_key_loads_as_private() {
    let keybuff = test_pkey().private_key_to_pem_pkcs8().unwrap();
    let key = XmlSecKey::from_memory(&keybuff, XmlSecKeyFormat::Pem, None).unwrap();
    assert_eq!(key.data_type().bits(), 0x0002);
    assert_eq!(key.format(), XmlSecKeyFormat::Pem);
    assert_eq!(key.get_name(), "");
}

#[test]
fn public_pem_key_loads_as_public() {
    let keybuff = test_pkey().public_key_to_pem().unwrap();
    let key = XmlSecKey::from_memory(&keybuff, XmlSecKeyFormat::Pem, None).unwrap();
    assert_eq!(key.data_type().bits(), 0x0001);
}

#[test]
fn der_key_and_certificate_load() {
    let pkey = test_pkey();
    let der = pkey.private_key_to_der().unwrap();
    let key = XmlSecKey::from_memory(&der, XmlSecKeyFormat::Der, None).unwrap();
    assert_eq!(key.data_type().bits(), 0x0002);
    let cert = test_cert(&pkey).to_der().unwrap();
    let key = XmlSecKey::from_memory(&cert, XmlSecKeyFormat::CertDer, None).unwrap();
    assert_eq!(key.data_type().bits(), 0x0001);
}

#[test]
fn binary_key_is_symmetric_and_needs_bytes() {
    let key = XmlSecKey::from_memory(&[1, 2, 3, 4], XmlSecKeyFormat::Binary, None).unwrap();
    assert_eq!(key.data_type().bits(), 0x0004);
    assert_eq!(key.material(), &[1u8, 2, 3, 4][..]);
    assert!(matches!(
        XmlSecKey::from_memory(&[], XmlSecKeyFormat::Binary, None),
        Err(XmlSecError::KeyLoadError)
    ));
}

#[test]
fn corrupt_or_unloadable_material_is_key_load_error() {
    assert!(matches!(
        XmlSecKey::from_memory(b"-----BEGIN NOTHING-----", XmlSecKeyFormat::Pem, None),
        Err(XmlSecError::KeyLoadError)
    ));
    let keybuff = test_pkey().private_key_to_pem_pkcs8().unwrap();
    assert!(matches!(
        XmlSecKey::from_memory(&keybuff, XmlSecKeyFormat::Engine, None),
        Err(XmlSecError::KeyLoadError)
    ));
    assert!(matches!(
        XmlSecKey::from_memory(&keybuff, XmlSecKeyFormat::Unknown, None),
        Err(XmlSecError::KeyLoadError)
    ));
    assert!(matches!(
        XmlSecKey::from_memory(&keybuff, XmlSecKeyFormat::Pem, Some("a\0b")),
        Err(XmlSecError::KeyLoadError)
    ));
}

#[test]
fn encrypted_pem_needs_its_password() {
    let pkey = test_pkey();
    let pem = pkey
        .private_key_to_pem_pkcs8_passphrase(openssl::symm::Cipher::aes_256_cbc(), b"secret")
        .unwrap();
    assert!(XmlSecKey::from_memory(&pem, XmlSecKeyFormat::Pem, Some("secret")).is_ok());
    assert!(matches!(
        XmlSecKey::from_memory(&pem, XmlSecKeyFormat::Pem, Some("wrong")),
        Err(XmlSecError::KeyLoadError)
    ));
}

#[test]
fn refused_certificate_leaves_key_unchanged() {
    let keybuff = test_pkey().private_key_to_pem_pkcs8().unwrap();
    let mut key = XmlSecKey::from_memory(&keybuff, XmlSecKeyFormat::Pem, None).unwrap();
    assert_eq!(
        key.load_cert_from_memory(b"junk", XmlSecKeyFormat::CertPem),
        Err(XmlSecError::CertLoadError)
    );
    assert_eq!(
        key.load_cert_from_memory(b"junk", XmlSecKeyFormat::Binary),
        Err(XmlSecError::CertLoadError)
    );
    assert_eq!(key.certificate_count(), 0);
}

#[test]
fn duplicate_is_a_deep_copy() {
    let keybuff = test_pkey().private_key_to_pem_pkcs8().unwrap();
    let mut key = XmlSecKey::from_memory(&keybuff, XmlSecKeyFormat::Pem, None).unwrap();
    key.set_name("source");
    let mut copy = key.duplicate();
    copy.set_name("copy");
    assert_eq!(key.get_name(), "source");
    assert_eq!(copy.get_name(), "copy");
    assert_eq!(copy.material(), key.material());
}

#[test]
fn key_format_codes() {
    assert_eq!(XmlSecKeyFormat::Unknown.into_raw(), 0);
    assert_eq!(XmlSecKeyFormat::Pem.into_raw(), 2);
    assert_eq!(XmlSecKeyFormat::CertDer.into_raw(), 8);
    assert_eq!(XmlSecKeyFormat::Store.into_raw(), 10);
}

#[test]
fn key_data_type_flags() {
    let public = XmlSecKeyDataType::from_bits(xmlsec::KEY_DATA_TYPE_PUBLIC);
    let private = XmlSecKeyDataType::from_bits(xmlsec::KEY_DATA_TYPE_PRIVATE);
    let both = public.union(private);
    assert_eq!(both.bits(), 0x0003);
    assert!(both.contains(public));
    assert!(!public.contains(private));
    assert!(XmlSecKeyDataType::from_bits(0).is_empty());
    assert!(XmlSecKeyDataType::from_bits(xmlsec::KEY_DATA_TYPE_ANY).contains(both));
    assert_eq!(xmlsec::KEY_DATA_TYPE_TRUSTED, 0x0100);
}

#[test]
fn keys_loaded_from_identical_bytes_are_different_keys() {
    let keybuff = test_pkey().private_key_to_pem_pkcs8().unwrap();
    let first = XmlSecKey::from_memory(&keybuff, XmlSecKeyFormat::Pem, None).unwrap();
    let second = XmlSecKey::from_memory(&keybuff, XmlSecKeyFormat::Pem, None).unwrap();
    assert!(first == first);
    assert!(first != second);
    assert!(first.identity() != second.identity());
    let copy = first.duplicate();
    assert!(copy != first);
    assert_eq!(copy.material(), first.material());
}

#[test]
fn pkcs8_der_and_pkcs12_load_as_private() {
    let pkey = test_pkey();
    let der = pkey
        .private_key_to_pkcs8_passphrase(openssl::symm::Cipher::aes_256_cbc(), b"pw")
        .unwrap();
    let key = XmlSecKey::from_memory(&der, XmlSecKeyFormat::Pkcs8Der, Some("pw")).unwrap();
    assert_eq!(key.data_type().bits(), 0x0002);
    let cert = test_cert(&pkey);
    let archive = openssl::pkcs12::Pkcs12::builder()
        .name("signer")
        .pkey(&pkey)
        .cert(&cert)
        .build2("pw")
        .unwrap()
        .to_der()
        .unwrap();
    let key = XmlSecKey::from_memory(&archive, XmlSecKeyFormat::Pkcs12, Some("pw")).unwrap();
    assert_eq!(key.data_type().bits(), 0x0002);
    assert!(matches!(
        XmlSecKey::from_memory(&archive, XmlSecKeyFormat::Pkcs12, Some("nope")),
        Err(XmlSecError::KeyLoadError)
    ));
}

#[test]
fn pem_certificate_attaches_to_key_and_store() {
    let pkey = test_pkey();
    let pem = test_cert(&pkey).to_pem().unwrap();
    let keybuff = pkey.private_key_to_pem_pkcs8().unwrap();
    let mut key = XmlSecKey::from_memory(&keybuff, XmlSecKeyFormat::Pem, None).unwrap();
    assert_eq!(key.load_cert_from_memory(&pem, XmlSecKeyFormat::CertPem), Ok(()));
    assert_eq!(
        key.load_cert_from_memory(&pem, XmlSecKeyFormat::Der),
        Err(XmlSecError::CertLoadError)
    );
    assert_eq!(key.certificate_count(), 1);
    let mut store = XmlSecKeysMngr::new();
    assert_eq!(store.cert_load_from_memory(&pem, XmlSecKeyFormat::Pem), Ok(()));
    assert_eq!(store.len(), 1);
}
