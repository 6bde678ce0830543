//! Transform chains and node sets.

use xmlsec::XmlSecCanonicalizationMethod;
use xmlsec::XmlSecError;
use xmlsec::XmlSecNodeSet;
use xmlsec::XmlSecNodeSetType;
use xmlsec::XmlSecTransform;
use xmlsec::XmlSecTransformCtx;
use xmlsec::XmlSecTransformOperation;

/// Inclusive C14N of the `LogRecordBody` subtree of the log report document:
/// the in-scope namespace declarations land on the apex element, sorted.
const LOG_RECORD_BODY_C14N: &str = "<lr:LogRecordBody xmlns:dcml=\"http://www.smpte-ra.org/schemas/433/2008/dcmlTypes/\" xmlns:ds=\"http://www.w3.org/2000/09/xmldsig#\" xmlns:lr=\"http://www.smpte-ra.org/schemas/430-4/2008/LogRecord/\" xmlns:xs=\"http://www.w3.org/2001/XMLSchema\" xmlns:xsi=\"http://www.w3.org/2001/XMLSchema-instance\"><lr:EventID>urn:uuid:1f9d3a08-edd6-4402-99c0-b80d9c7614fc</lr:EventID><lr:EventSubType scope=\"http://www.smpte-ra.org/430-5/2008/SecurityLog/#EventSubTypes-operations\">SPBStartup</lr:EventSubType></lr:LogRecordBody>";

fn digest_chain() -> XmlSecTransformCtx {
    let mut trans_ctx = XmlSecTransformCtx::new();
    trans_ctx.append(XmlSecTransform::new(XmlSecCanonicalizationMethod::InclusiveC14N));
    trans_ctx.append(XmlSecTransform::with_operation(
        XmlSecCanonicalizationMethod::Sha1,
        XmlSecTransformOperation::Sign,
    ));
    trans_ctx.append(XmlSecTransform::with_operation(
        XmlSecCanonicalizationMethod::Base64,
        XmlSecTransformOperation::Encode,
    ));
    trans_ctx
}

#[test]
fn chain_digest_of_canonical_log_record_body() {
    let node_set = XmlSecNodeSet::get_children(false, false);
    assert_eq!(node_set.node_type(), XmlSecNodeSetType::TreeWithoutComments);
    let trans_ctx = digest_chain();
    assert_eq!(trans_ctx.canonicalization(), XmlSecCanonicalizationMethod::InclusiveC14N);
    assert!(!node_set.canonical_comments(trans_ctx.canonicalization()));
    let data = trans_ctx.execute_canonical(LOG_RECORD_BODY_C14N.as_bytes()).unwrap();
    let base64_data = std::str::from_utf8(&data).unwrap();
    assert_eq!(base64_data, "0HwjYW3B/l79oq2NHVctyN7qMhE=");
}

#[test]
fn executing_twice_gives_identical_bytes() {
    let trans_ctx = digest_chain();
    let a = trans_ctx.execute_canonical(LOG_RECORD_BODY_C14N.as_bytes()).unwrap();
    let b = trans_ctx.execute_canonical(LOG_RECORD_BODY_C14N.as_bytes()).unwrap();
    assert_eq!(a, b);
}

#[test]
fn chain_runs_in_append_order() {
    let mut ab = XmlSecTransformCtx::new();
    ab.append(XmlSecTransform::with_operation(
        XmlSecCanonicalizationMethod::Sha1,
        XmlSecTransformOperation::Sign,
    ));
    ab.append(XmlSecTransform::with_operation(
        XmlSecCanonicalizationMethod::Base64,
        XmlSecTransformOperation::Encode,
    ));
    let mut ba = XmlSecTransformCtx::new();
    ba.append(XmlSecTransform::with_operation(
        XmlSecCanonicalizationMethod::Base64,
        XmlSecTransformOperation::Encode,
    ));
    ba.append(XmlSecTransform::with_operation(
        XmlSecCanonicalizationMethod::Sha1,
        XmlSecTransformOperation::Sign,
    ));
    let ab_out = ab.execute_canonical(b"abc").unwrap();
    let ba_out = ba.execute_canonical(b"abc").unwrap();
    // SHA-1("abc"), then base64.
    assert_eq!(ab_out, b"qZk+NkcGgWq6PiVxeFDCbJzQ2J0=".to_vec());
    // base64("abc") is "YWJj"; its SHA-1 is 20 raw bytes.
    assert_eq!(ba_out.len(), 20);
    assert_ne!(ab_out, ba_out);
}

#[test]
fn empty_chain_is_empty_result_error() {
    let ctx = XmlSecTransformCtx::new();
    assert_eq!(ctx.execute_canonical(b"<a/>"), Err(XmlSecError::EmptyResultError));
}

#[test]
fn chain_with_empty_output_is_empty_result_error() {
    let mut ctx = XmlSecTransformCtx::new();
    ctx.append(XmlSecTransform::new(XmlSecCanonicalizationMethod::ExclusiveC14N));
    assert_eq!(ctx.execute_canonical(b""), Err(XmlSecError::EmptyResultError));
    assert_eq!(ctx.canonicalization(), XmlSecCanonicalizationMethod::ExclusiveC14N);
    assert_eq!(ctx.execute_canonical(b"<a></a>"), Ok(b"<a></a>".to_vec()));
}

#[test]
fn unsupported_step_is_transform_error() {
    let mut ctx = XmlSecTransformCtx::new();
    ctx.append(XmlSecTransform::with_operation(
        XmlSecCanonicalizationMethod::Sha1,
        XmlSecTransformOperation::Decrypt,
    ));
    assert_eq!(ctx.execute_canonical(b"x"), Err(XmlSecError::TransformError));

    let mut ctx = XmlSecTransformCtx::new();
    ctx.append(XmlSecTransform::new(XmlSecCanonicalizationMethod::InclusiveC14N));
    ctx.append(XmlSecTransform::new(XmlSecCanonicalizationMethod::ExclusiveC14N));
    assert_eq!(ctx.execute_canonical(b"<a/>"), Err(XmlSecError::TransformError));
}

#[test]
fn base64_encode_wraps_at_64_columns_and_decode_reverses_it() {
    let input: Vec<u8> = (0u8..60).collect();
    let mut enc = XmlSecTransformCtx::new();
    enc.append(XmlSecTransform::with_operation(
        XmlSecCanonicalizationMethod::Base64,
        XmlSecTransformOperation::Encode,
    ));
    let text = enc.execute_canonical(&input).unwrap();
    assert_eq!(text.len(), 80 + 1);
    assert_eq!(text[64], b'\n');

    let mut dec = XmlSecTransformCtx::new();
    dec.append(XmlSecTransform::with_operation(
        XmlSecCanonicalizationMethod::Base64,
        XmlSecTransformOperation::Decode,
    ));
    assert_eq!(dec.execute_canonical(&text).unwrap(), input);
    assert_eq!(dec.execute_canonical(b"!!!!"), Err(XmlSecError::TransformError));
}

#[test]
fn node_set_selection_rules() {
    assert_eq!(XmlSecNodeSet::new().node_type(), XmlSecNodeSetType::Normal);
    assert!(!XmlSecNodeSet::new().is_subtree());
    let tree = XmlSecNodeSet::get_children(true, false);
    assert_eq!(tree.node_type(), XmlSecNodeSetType::Tree);
    assert!(tree.canonical_comments(XmlSecCanonicalizationMethod::InclusiveC14NWithComments));
    assert!(!tree.canonical_comments(XmlSecCanonicalizationMethod::InclusiveC14N));
    let inv = XmlSecNodeSet::get_children(true, true);
    assert_eq!(inv.node_type(), XmlSecNodeSetType::TreeInvert);
    assert!(inv.is_inverted());
    assert_eq!(
        XmlSecNodeSet::get_children(false, true).node_type(),
        XmlSecNodeSetType::TreeWithoutCommentsInvert
    );
}

#[test]
fn canonicalization_method_identifiers() {
    assert_eq!(
        XmlSecCanonicalizationMethod::ExclusiveC14N.href(),
        "http://www.w3.org/2001/10/xml-exc-c14n#"
    );
    assert_eq!(XmlSecCanonicalizationMethod::InclusiveC14N11.name(), "c14n11");
    assert!(!XmlSecCanonicalizationMethod::Base64.is_canonicalization());
    assert!(XmlSecCanonicalizationMethod::InclusiveC14N.is_canonicalization());
}

#[test]
fn final_step_with_no_output_is_empty_result_error() {
    let mut ctx = XmlSecTransformCtx::new();
    ctx.append(XmlSecTransform::with_operation(
        XmlSecCanonicalizationMethod::Base64,
        XmlSecTransformOperation::Decode,
    ));
    assert_eq!(ctx.execute_canonical(b"\n"), Err(XmlSecError::EmptyResultError));
}

#[test]
fn canonicalization_modes_and_selection() {
    assert_eq!(XmlSecCanonicalizationMethod::InclusiveC14NWithComments.c14n_mode(), Some(0));
    assert_eq!(XmlSecCanonicalizationMethod::ExclusiveC14N.c14n_mode(), Some(1));
    assert_eq!(XmlSecCanonicalizationMethod::InclusiveC14N11.c14n_mode(), Some(2));
    assert_eq!(XmlSecCanonicalizationMethod::Base64.c14n_mode(), None);
    let whole = XmlSecNodeSet::new();
    assert!(whole.selects(false));
    let tree = XmlSecNodeSet::get_children(false, false);
    assert!(tree.selects(true));
    assert!(!tree.selects(false));
    let inverted = XmlSecNodeSet::get_children(false, true);
    assert!(!inverted.selects(true));
    assert!(inverted.selects(false));
}
