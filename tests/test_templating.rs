//! Signature templates and their builders.

use openssl::asn1::Asn1Time;
use openssl::bn::BigNum;
use openssl::hash::MessageDigest;
use openssl::pkey::PKey;
use openssl::rsa::Rsa;
use openssl::x509::X509Name;
use openssl::x509::X509;
use xmlsec::KeyInfoBuilder;
use xmlsec::KeyInfoChildKind;
use xmlsec::ReferenceSignatureBuilder;
use xmlsec::X509Builder;
use xmlsec::XmlDocumentTemplateBuilder;
use xmlsec::XmlSecCanonicalizationMethod;
use xmlsec::XmlSecError;
use xmlsec::XmlSecSignatureMethod;

#[test]
fn template_defaults_and_settings() {
    let node = XmlDocumentTemplateBuilder::new().build(true).unwrap();
    assert_eq!(node.canonicalization(), XmlSecCanonicalizationMethod::ExclusiveC14N);
    assert_eq!(node.signature(), XmlSecSignatureMethod::RsaSha1);
    assert_eq!(node.ns_prefix(), None);
    assert_eq!(node.reference_count(), 0);
    assert!(!node.has_key_info());

    let node = XmlDocumentTemplateBuilder::new()
        .canonicalization(XmlSecCanonicalizationMethod::InclusiveC14N)
        .signature(XmlSecSignatureMethod::RsaSha256)
        .ns_prefix("ds")
        .build(true)
        .unwrap();
    assert_eq!(node.canonicalization(), XmlSecCanonicalizationMethod::InclusiveC14N);
    assert_eq!(node.signature(), XmlSecSignatureMethod::RsaSha256);
    assert_eq!(node.ns_prefix(), Some("ds".to_string()));
}

#[test]
fn template_without_root_or_parent_is_root_not_found() {
    assert!(matches!(
        XmlDocumentTemplateBuilder::new().build(false),
        Err(XmlSecError::RootNotFound)
    ));
    assert!(XmlDocumentTemplateBuilder::new().parent_node().build(false).is_ok());
}

#[test]
fn references_are_appended_in_order() {
    let mut node = XmlDocumentTemplateBuilder::new().build(true).unwrap();
    ReferenceSignatureBuilder::new().uri("ReferencedID").add_node(&mut node);
    ReferenceSignatureBuilder::new()
        .signature(XmlSecSignatureMethod::Sha256)
        .uri("#ID_RecordAuthData")
        .with_enveloped(false)
        .add_node(&mut node);
    assert_eq!(node.reference_count(), 2);
    assert_eq!(
        node.reference(0),
        (XmlSecSignatureMethod::Sha1, Some("ReferencedID".to_string()), true)
    );
    assert_eq!(
        node.reference(1),
        (XmlSecSignatureMethod::Sha256, Some("#ID_RecordAuthData".to_string()), false)
    );
}

#[test]
fn key_info_is_created_lazily_and_extended() {
    let mut node = XmlDocumentTemplateBuilder::new().build(true).unwrap();
    KeyInfoBuilder::new().add_node(&mut node);
    assert!(node.has_key_info());
    assert_eq!(node.key_info_len(), 0);
    KeyInfoBuilder::new().keyname(true).keyvalue(true).x509data(true).add_node(&mut node);
    assert_eq!(node.key_info_len(), 3);
    KeyInfoBuilder::new().keyname(true).add_node(&mut node);
    assert_eq!(node.key_info_len(), 4);
    assert_eq!(node.x509_content(2), None);
    assert_eq!(node.key_info_child(0), KeyInfoChildKind::KeyName);
    assert_eq!(node.key_info_child(1), KeyInfoChildKind::KeyValue);
    assert_eq!(node.key_info_child(2), KeyInfoChildKind::X509Data);
}

#[test]
fn x509_data_from_values() {
    let mut node = XmlDocumentTemplateBuilder::new().build(true).unwrap();
    let issuer = vec![
        ("O".to_string(), "Example Org".to_string()),
        ("CN".to_string(), "signer".to_string()),
    ];
    let der: Vec<u8> = (0u8..60).collect();
    X509Builder::new().add_data(&mut node, &issuer, "32047", &der).unwrap();
    assert_eq!(node.key_info_child(0), KeyInfoChildKind::X509Certificate);
    let (name, serial, text) = node.x509_content(0).unwrap();
    assert_eq!(name, "O=Example Org,CN=signer");
    assert_eq!(serial, "32047");
    assert_eq!(text.len(), 81);
    assert_eq!(text[64], b'\n');
    assert_eq!(&text[..4], b"AAEC");
}

#[test]
fn x509_data_from_certificate() {
    let pkey = PKey::from_rsa(Rsa::generate(2048).unwrap()).unwrap();
    let mut name = X509Name::builder().unwrap();
    name.append_entry_by_text("O", "Example Org").unwrap();
    name.append_entry_by_text("CN", "signer").unwrap();
    let name = name.build();
    let mut builder = X509::builder().unwrap();
    let serial = BigNum::from_u32(32047).unwrap().to_asn1_integer().unwrap();
    builder.set_serial_number(&serial).unwrap();
    builder.set_subject_name(&name).unwrap();
    builder.set_issuer_name(&name).unwrap();
    builder.set_pubkey(&pkey).unwrap();
    builder.set_not_before(&Asn1Time::days_from_now(0).unwrap()).unwrap();
    builder.set_not_after(&Asn1Time::days_from_now(30).unwrap()).unwrap();
    builder.sign(&pkey, MessageDigest::sha256()).unwrap();
    let cert = builder.build();

    let mut node = XmlDocumentTemplateBuilder::new().build(true).unwrap();
    X509Builder::new().add_node(&mut node, &cert).unwrap();
    let (issuer, serial, text) = node.x509_content(0).unwrap();
    assert_eq!(issuer, "O=Example Org,CN=signer");
    assert_eq!(serial, "32047");
    let der = cert.to_der().unwrap();
    let joined: Vec<u8> = text.iter().copied().filter(|b| *b != b'\n').collect();
    assert_eq!(joined, openssl::base64::encode_block(&der).into_bytes());
    assert!(text.split(|b| *b == b'\n').all(|line| line.len() <= 64));
}

#[test]
fn empty_issuer_list_gives_empty_name() {
    assert_eq!(xmlsec::issuer_name_text(&Vec::new()), "");
    let one = vec![("C".to_string(), "US".to_string())];
    assert_eq!(xmlsec::issuer_name_text(&one), "C=US");
}
