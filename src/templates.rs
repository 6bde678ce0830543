//! Signature templates: the `<Signature>` skeleton that a signing context
//! later fills in, and the builders that shape it.
//!
//! A `SignatureNode` describes the template as plain values: the
//! canonicalization and signature methods of `<SignedInfo>`, the namespace
//! prefix, the `<Reference>` elements in document order and the children of
//! `<KeyInfo>` in document order. The builders only ever add to it.

use vstd::prelude::*;
use vstd::string::*;

use crate::crypto::XmlSecSignatureMethod;
use crate::error::XmlSecError;
use crate::error::XmlSecResult;
use crate::primitives::base64_encode;
use crate::primitives::base64_encoding_of;
use crate::primitives::wrap;
use crate::primitives::wrap_lines;
use crate::primitives::BASE64_LINE_WIDTH;
use crate::primitives::MAX_BASE64_INPUT;
use crate::transforms::XmlSecCanonicalizationMethod;

verus! {

/// Relied on for certificates: `openssl::x509::X509`, held opaque.
#[verifier::external_type_specification]
#[verifier::external_body]
pub struct ExX509(openssl::x509::X509);

/// One `<Reference>` element.
pub struct ReferenceView {
    pub digest: XmlSecSignatureMethod,
    pub uri: Option<Seq<char>>,
    pub enveloped: bool,
}

/// The content of an `<X509Data>` element built from a certificate.
pub struct X509View {
    pub issuer_name: Seq<char>,
    pub serial_number: Seq<char>,
    pub certificate: Seq<u8>,
}

/// One child of `<KeyInfo>`.
pub enum KeyInfoChildView {
    KeyName,
    KeyValue,
    X509Data(Option<X509View>),
}

/// The kind of a `<KeyInfo>` child.
#[derive(Debug, Clone, Copy, PartialEq, Eq, Structural)]
pub enum KeyInfoChildKind {
    /// `<KeyName>`.
    KeyName,
    /// `<KeyValue>`.
    KeyValue,
    /// An empty `<X509Data>`.
    X509Data,
    /// An `<X509Data>` describing a certificate.
    X509Certificate,
}

/// The kind of a `<KeyInfo>` child.
pub open spec fn child_kind(c: KeyInfoChildView) -> KeyInfoChildKind {
    match c {
        KeyInfoChildView::KeyName => KeyInfoChildKind::KeyName,
        KeyInfoChildView::KeyValue => KeyInfoChildKind::KeyValue,
        KeyInfoChildView::X509Data(None) => KeyInfoChildKind::X509Data,
        KeyInfoChildView::X509Data(Some(_)) => KeyInfoChildKind::X509Certificate,
    }
}

/// The whole template.
pub struct SignatureView {
    pub c14n: XmlSecCanonicalizationMethod,
    pub sig: XmlSecSignatureMethod,
    pub ns_prefix: Option<Seq<char>>,
    pub references: Seq<ReferenceView>,
    pub key_info: Option<Seq<KeyInfoChildView>>,
}

/// A `<Reference>` element.
struct ReferenceTemplate {
    digest: XmlSecSignatureMethod,
    uri: Option<String>,
    enveloped: bool,
}

/// The content of an `<X509Data>` element built from a certificate.
struct X509Template {
    issuer_name: String,
    serial_number: String,
    certificate: Vec<u8>,
}

/// A child of `<KeyInfo>`.
enum KeyInfoChild {
    KeyName,
    KeyValue,
    X509Data(Option<X509Template>),
}

/// The view of an optional owned string.
pub open spec fn opt_str_view(s: Option<String>) -> Option<Seq<char>> {
    match s {
        Some(t) => Some(t@),
        None => None,
    }
}

/// The view of a reference element.
spec fn reference_view(r: ReferenceTemplate) -> ReferenceView {
    ReferenceView { digest: r.digest, uri: opt_str_view(r.uri), enveloped: r.enveloped }
}

/// The view of a `<KeyInfo>` child.
spec fn key_info_child_view(c: KeyInfoChild) -> KeyInfoChildView {
    match c {
        KeyInfoChild::KeyName => KeyInfoChildView::KeyName,
        KeyInfoChild::KeyValue => KeyInfoChildView::KeyValue,
        KeyInfoChild::X509Data(None) => KeyInfoChildView::X509Data(None),
        KeyInfoChild::X509Data(Some(x)) => KeyInfoChildView::X509Data(
            Some(
                X509View {
                    issuer_name: x.issuer_name@,
                    serial_number: x.serial_number@,
                    certificate: x.certificate@,
                },
            ),
        ),
    }
}

/// The `<Signature>` template attached to a document.
pub struct SignatureNode {
    c14n: XmlSecCanonicalizationMethod,
    sig: XmlSecSignatureMethod,
    ns_prefix: Option<String>,
    references: Vec<ReferenceTemplate>,
    key_info: Option<Vec<KeyInfoChild>>,
}

impl View for SignatureNode {
    type V = SignatureView;

    closed spec fn view(&self) -> SignatureView {
        SignatureView {
            c14n: self.c14n,
            sig: self.sig,
            ns_prefix: opt_str_view(self.ns_prefix),
            references: self.references@.map_values(|r: ReferenceTemplate| reference_view(r)),
            key_info: match self.key_info {
                Some(children) => Some(
                    children@.map_values(|c: KeyInfoChild| key_info_child_view(c)),
                ),
                None => None,
            },
        }
    }
}

/// A template view with one more reference at the end.
pub open spec fn with_reference(v: SignatureView, r: ReferenceView) -> SignatureView {
    SignatureView { references: v.references.push(r), ..v }
}

/// A template view whose `<KeyInfo>` (created if absent) has `children`
/// appended.
pub open spec fn with_key_info(v: SignatureView, children: Seq<KeyInfoChildView>) -> SignatureView {
    SignatureView {
        key_info: Some(
            match v.key_info {
                Some(c) => c + children,
                None => children,
            },
        ),
        ..v
    }
}

/// An owned copy of an optional string.
fn copy_opt(s: &Option<String>) -> (r: Option<String>)
    ensures
        opt_str_view(r) == opt_str_view(*s),
{
    match s {
        Some(t) => Some(t.clone()),
        None => None,
    }
}

impl SignatureNode {
    /// The canonicalization method of `<SignedInfo>`.
    pub fn canonicalization(&self) -> (r: XmlSecCanonicalizationMethod)
        ensures
            r == self@.c14n,
    {
        self.c14n
    }

    /// The signature method of `<SignedInfo>`.
    pub fn signature(&self) -> (r: XmlSecSignatureMethod)
        ensures
            r == self@.sig,
    {
        self.sig
    }

    /// The namespace prefix of the template's elements.
    pub fn ns_prefix(&self) -> (r: Option<String>)
        ensures
            opt_str_view(r) == self@.ns_prefix,
    {
        copy_opt(&self.ns_prefix)
    }

    /// The number of `<Reference>` elements.
    pub fn reference_count(&self) -> (r: usize)
        ensures
            r == self@.references.len(),
    {
        self.references.len()
    }

    /// The digest method, URI and enveloped flag of the `i`-th reference.
    pub fn reference(&self, i: usize) -> (r: (XmlSecSignatureMethod, Option<String>, bool))
        requires
            i < self@.references.len(),
        ensures
            r.0 == self@.references[i as int].digest,
            opt_str_view(r.1) == self@.references[i as int].uri,
            r.2 == self@.references[i as int].enveloped,
    {
        let x = &self.references[i];
        (x.digest, copy_opt(&x.uri), x.enveloped)
    }

    /// Whether the template has a `<KeyInfo>` element.
    pub fn has_key_info(&self) -> (r: bool)
        ensures
            r == self@.key_info is Some,
    {
        self.key_info.is_some()
    }

    /// The number of children of `<KeyInfo>` (0 when it is absent).
    pub fn key_info_len(&self) -> (r: usize)
        ensures
            r == match self@.key_info {
                Some(c) => c.len(),
                None => 0,
            },
    {
        match &self.key_info {
            Some(c) => c.len(),
            None => 0,
        }
    }

    /// The kind of the `i`-th child of `<KeyInfo>`.
    pub fn key_info_child(&self, i: usize) -> (r: KeyInfoChildKind)
        requires
            self@.key_info is Some,
            i < self@.key_info.unwrap().len(),
        ensures
            r == child_kind(self@.key_info.unwrap()[i as int]),
    {
        match &self.key_info {
            Some(c) => match &c[i] {
                KeyInfoChild::KeyName => KeyInfoChildKind::KeyName,
                KeyInfoChild::KeyValue => KeyInfoChildKind::KeyValue,
                KeyInfoChild::X509Data(None) => KeyInfoChildKind::X509Data,
                KeyInfoChild::X509Data(Some(_)) => KeyInfoChildKind::X509Certificate,
            },
            None => KeyInfoChildKind::KeyName,
        }
    }

    /// The issuer name, serial number and certificate text of the `i`-th
    /// child of `<KeyInfo>`, when it is an `<X509Data>` built from a
    /// certificate.
    pub fn x509_content(&self, i: usize) -> (r: Option<(String, String, Vec<u8>)>)
        requires
            self@.key_info is Some,
            i < self@.key_info.unwrap().len(),
        ensures
            match self@.key_info.unwrap()[i as int] {
                KeyInfoChildView::X509Data(Some(x)) => r is Some && r.unwrap().0@ == x.issuer_name
                    && r.unwrap().1@ == x.serial_number && r.unwrap().2@ == x.certificate,
                _ => r is None,
            },
    {
        match &self.key_info {
            Some(c) => match &c[i] {
                KeyInfoChild::X509Data(Some(x)) => Some(
                    (
                        x.issuer_name.clone(),
                        x.serial_number.clone(),
                        crate::primitives::copy_bytes(x.certificate.as_slice()),
                    ),
                ),
                _ => None,
            },
            None => None,
        }
    }

    /// Appends a reference element to `<SignedInfo>`.
    fn push_reference(&mut self, r: ReferenceTemplate)
        ensures
            final(self)@ == with_reference(old(self)@, reference_view(r)),
    {
        let ghost before = self.references@;
        self.references.push(r);
        proof {
            let f = |x: ReferenceTemplate| reference_view(x);
            assert(self.references@.map_values(f) =~= before.map_values(f).push(reference_view(r)));
        }
    }

    /// Appends children to `<KeyInfo>`, creating it first if absent.
    fn extend_key_info(&mut self, children: Vec<KeyInfoChild>)
        ensures
            final(self)@ == with_key_info(
                old(self)@,
                children@.map_values(|c: KeyInfoChild| key_info_child_view(c)),
            ),
    {
        let ghost f = |c: KeyInfoChild| key_info_child_view(c);
        let mut existing: Vec<KeyInfoChild> = match self.key_info.take() {
            Some(v) => v,
            None => Vec::new(),
        };
        let ghost start = existing@;
        let ghost added = children@;
        let mut rest = children;
        existing.append(&mut rest);
        proof {
            assert((start + added).map_values(f) =~= start.map_values(f) + added.map_values(f));
            assert(Seq::<KeyInfoChild>::empty().map_values(f) =~= Seq::<KeyInfoChildView>::empty());
            assert(Seq::<KeyInfoChildView>::empty() + added.map_values(f) =~= added.map_values(f));
        }
        self.key_info = Some(existing);
    }
}

/// Builds a `<Signature>` template over a document.
pub struct XmlDocumentTemplateBuilder {
    c14n: XmlSecCanonicalizationMethod,
    sig: XmlSecSignatureMethod,
    ns_prefix: Option<String>,
    explicit_parent: bool,
}

/// What a template builder holds.
pub struct TemplateBuilderView {
    pub c14n: XmlSecCanonicalizationMethod,
    pub sig: XmlSecSignatureMethod,
    pub ns_prefix: Option<Seq<char>>,
    pub explicit_parent: bool,
}

impl View for XmlDocumentTemplateBuilder {
    type V = TemplateBuilderView;

    closed spec fn view(&self) -> TemplateBuilderView {
        TemplateBuilderView {
            c14n: self.c14n,
            sig: self.sig,
            ns_prefix: opt_str_view(self.ns_prefix),
            explicit_parent: self.explicit_parent,
        }
    }
}

impl XmlDocumentTemplateBuilder {
    /// A builder with exclusive C14N, RSA-SHA1, no prefix, attaching to the
    /// document's root element.
    pub fn new() -> (r: Self)
        ensures
            r@ == (TemplateBuilderView {
                c14n: XmlSecCanonicalizationMethod::ExclusiveC14N,
                sig: XmlSecSignatureMethod::RsaSha1,
                ns_prefix: None,
                explicit_parent: false,
            }),
    {
        XmlDocumentTemplateBuilder {
            c14n: XmlSecCanonicalizationMethod::ExclusiveC14N,
            sig: XmlSecSignatureMethod::RsaSha1,
            ns_prefix: None,
            explicit_parent: false,
        }
    }

    /// Sets the canonicalization method.
    pub fn canonicalization(self, c14n: XmlSecCanonicalizationMethod) -> (r: Self)
        ensures
            r@ == (TemplateBuilderView { c14n, ..self@ }),
    {
        XmlDocumentTemplateBuilder { c14n, ..self }
    }

    /// Sets the signature method.
    pub fn signature(self, sig: XmlSecSignatureMethod) -> (r: Self)
        ensures
            r@ == (TemplateBuilderView { sig, ..self@ }),
    {
        XmlDocumentTemplateBuilder { sig, ..self }
    }

    /// Sets the namespace prefix of the signature elements (e.g. `dsig`).
    pub fn ns_prefix(self, ns_prefix: &str) -> (r: Self)
        ensures
            r@ == (TemplateBuilderView { ns_prefix: Some(ns_prefix@), ..self@ }),
    {
        XmlDocumentTemplateBuilder { ns_prefix: Some(ns_prefix.to_owned()), ..self }
    }

    /// Records that the signature goes under a node chosen by the caller
    /// rather than under the root element.
    pub fn parent_node(self) -> (r: Self)
        ensures
            r@ == (TemplateBuilderView { explicit_parent: true, ..self@ }),
    {
        XmlDocumentTemplateBuilder { explicit_parent: true, ..self }
    }

    /// Builds the template. `root_present` says whether the document has a
    /// root element; without an explicit parent and without a root there is
    /// nowhere to attach the signature.
    pub fn build(self, root_present: bool) -> (r: XmlSecResult<SignatureNode>)
        ensures
            !self@.explicit_parent && !root_present ==> r == Err::<SignatureNode, XmlSecError>(
                XmlSecError::RootNotFound,
            ),
            self@.explicit_parent || root_present ==> r is Ok && r.unwrap()@ == (SignatureView {
                c14n: self@.c14n,
                sig: self@.sig,
                ns_prefix: self@.ns_prefix,
                references: Seq::empty(),
                key_info: None,
            }),
    {
        if !self.explicit_parent && !root_present {
            return Err(XmlSecError::RootNotFound);
        }
        let node = SignatureNode {
            c14n: self.c14n,
            sig: self.sig,
            ns_prefix: self.ns_prefix,
            references: Vec::new(),
            key_info: None,
        };
        assert(node@.references =~= Seq::<ReferenceView>::empty());
        Ok(node)
    }
}

/// Builds a `<Reference>` element.
pub struct ReferenceSignatureBuilder {
    sig: XmlSecSignatureMethod,
    uri: Option<String>,
    with_enveloped: bool,
}

impl View for ReferenceSignatureBuilder {
    type V = ReferenceView;

    closed spec fn view(&self) -> ReferenceView {
        ReferenceView { digest: self.sig, uri: opt_str_view(self.uri), enveloped: self.with_enveloped }
    }
}

impl ReferenceSignatureBuilder {
    /// A reference with SHA-1 digest, no URI and the enveloped-signature
    /// transform.
    pub fn new() -> (r: Self)
        ensures
            r@ == (ReferenceView { digest: XmlSecSignatureMethod::Sha1, uri: None, enveloped: true }),
    {
        ReferenceSignatureBuilder { sig: XmlSecSignatureMethod::Sha1, uri: None, with_enveloped: true }
    }

    /// Sets the digest method.
    pub fn signature(self, sig: XmlSecSignatureMethod) -> (r: Self)
        ensures
            r@ == (ReferenceView { digest: sig, ..self@ }),
    {
        ReferenceSignatureBuilder { sig, ..self }
    }

    /// Sets the URI of the signed resource.
    pub fn uri(self, uri: &str) -> (r: Self)
        ensures
            r@ == (ReferenceView { uri: Some(uri@), ..self@ }),
    {
        ReferenceSignatureBuilder { uri: Some(uri.to_owned()), ..self }
    }

    /// Sets whether the enveloped-signature transform is added, which keeps
    /// the signature out of its own digest.
    pub fn with_enveloped(self, with_enveloped: bool) -> (r: Self)
        ensures
            r@ == (ReferenceView { enveloped: with_enveloped, ..self@ }),
    {
        ReferenceSignatureBuilder { with_enveloped, ..self }
    }

    /// Appends the reference to the template's `<SignedInfo>`.
    pub fn add_node(self, signature_node: &mut SignatureNode)
        ensures
            final(signature_node)@ == with_reference(old(signature_node)@, self@),
    {
        let r = ReferenceTemplate { digest: self.sig, uri: self.uri, enveloped: self.with_enveloped };
        signature_node.push_reference(r);
    }
}

/// Builds `<KeyInfo>` children.
pub struct KeyInfoBuilder {
    keyname: bool,
    keyvalue: bool,
    x509data: bool,
}

/// What a `<KeyInfo>` builder is set to add.
pub struct KeyInfoBuilderView {
    pub keyname: bool,
    pub keyvalue: bool,
    pub x509data: bool,
}

impl View for KeyInfoBuilder {
    type V = KeyInfoBuilderView;

    closed spec fn view(&self) -> KeyInfoBuilderView {
        KeyInfoBuilderView { keyname: self.keyname, keyvalue: self.keyvalue, x509data: self.x509data }
    }
}

/// The children a `<KeyInfo>` builder adds, in document order.
pub open spec fn key_info_children(b: KeyInfoBuilderView) -> Seq<KeyInfoChildView> {
    (if b.keyname { seq![KeyInfoChildView::KeyName] } else { Seq::empty() }) + (if b.keyvalue {
        seq![KeyInfoChildView::KeyValue]
    } else {
        Seq::empty()
    }) + (if b.x509data { seq![KeyInfoChildView::X509Data(None)] } else { Seq::empty() })
}

impl KeyInfoBuilder {
    /// A builder that adds nothing yet.
    pub fn new() -> (r: Self)
        ensures
            r@ == (KeyInfoBuilderView { keyname: false, keyvalue: false, x509data: false }),
    {
        KeyInfoBuilder { keyname: false, keyvalue: false, x509data: false }
    }

    /// Whether to add `<KeyName>`.
    pub fn keyname(self, keyname: bool) -> (r: Self)
        ensures
            r@ == (KeyInfoBuilderView { keyname, ..self@ }),
    {
        KeyInfoBuilder { keyname, ..self }
    }

    /// Whether to add `<KeyValue>`.
    pub fn keyvalue(self, keyvalue: bool) -> (r: Self)
        ensures
            r@ == (KeyInfoBuilderView { keyvalue, ..self@ }),
    {
        KeyInfoBuilder { keyvalue, ..self }
    }

    /// Whether to add an empty `<X509Data>`.
    pub fn x509data(self, x509data: bool) -> (r: Self)
        ensures
            r@ == (KeyInfoBuilderView { x509data, ..self@ }),
    {
        KeyInfoBuilder { x509data, ..self }
    }

    /// Adds the selected children to the template's `<KeyInfo>`, creating it
    /// if needed.
    pub fn add_node(self, signature_node: &mut SignatureNode)
        ensures
            final(signature_node)@ == with_key_info(old(signature_node)@, key_info_children(self@)),
    {
        let mut children: Vec<KeyInfoChild> = Vec::new();
        if self.keyname {
            children.push(KeyInfoChild::KeyName);
        }
        if self.keyvalue {
            children.push(KeyInfoChild::KeyValue);
        }
        if self.x509data {
            children.push(KeyInfoChild::X509Data(None));
        }
        proof {
            let f = |c: KeyInfoChild| key_info_child_view(c);
            assert(children@.map_values(f) =~= key_info_children(self@));
        }
        signature_node.extend_key_info(children);
    }
}

/// One issuer entry written as `attr=value`.
pub open spec fn entry_text(e: (Seq<char>, Seq<char>)) -> Seq<char> {
    e.0 + seq!['='] + e.1
}

/// The text of `<X509IssuerName>`: the issuer's entries as `attr=value`,
/// in the certificate's order, joined by commas.
pub open spec fn issuer_text(entries: Seq<(Seq<char>, Seq<char>)>) -> Seq<char>
    decreases entries.len(),
{
    if entries.len() == 0 {
        Seq::empty()
    } else if entries.len() == 1 {
        entry_text(entries[0])
    } else {
        issuer_text(entries.drop_last()) + seq![','] + entry_text(entries.last())
    }
}

/// The views of issuer entries.
pub open spec fn entry_views(entries: Seq<(String, String)>) -> Seq<(Seq<char>, Seq<char>)> {
    entries.map_values(|e: (String, String)| (e.0@, e.1@))
}

/// The text of `<X509Certificate>`: the DER bytes in base64, in lines of 64
/// columns.
pub open spec fn certificate_text(der: Seq<u8>) -> Seq<u8> {
    wrap_lines(base64_encoding_of(der), BASE64_LINE_WIDTH as nat)
}

/// Writes an issuer name from its entries: `attr=value` pairs in the given
/// order, joined by commas.
pub fn issuer_name_text(entries: &Vec<(String, String)>) -> (r: String)
    ensures
        r@ == issuer_text(entry_views(entries@)),
{
    let mut out = String::new();
    let mut i: usize = 0;
    proof {
        reveal_strlit("=");
        reveal_strlit(",");
    }
    while i < entries.len()
        invariant
            i <= entries@.len(),
            out@ == issuer_text(entry_views(entries@.take(i as int))),
            "="@ == seq!['='],
            ","@ == seq![','],
        decreases entries.len() - i,
    {
        let ghost prev = entries@.take(i as int);
        let ghost next = entries@.take(i as int + 1);
        assert(entry_views(next).drop_last() =~= entry_views(prev));
        assert(entry_views(next).last() == (entries@[i as int].0@, entries@[i as int].1@));
        if i > 0 {
            out.append(",");
        }
        out.append(entries[i].0.as_str());
        out.append("=");
        out.append(entries[i].1.as_str());
        proof {
            if i == 0 {
                assert(entry_views(next).len() == 1);
                assert(out@ =~= entry_text(entry_views(next)[0]));
            } else {
                assert(out@ =~= issuer_text(entry_views(prev)) + seq![','] + entry_text(
                    entry_views(next).last(),
                ));
            }
        }
        i = i + 1;
    }
    assert(entries@.take(entries@.len() as int) =~= entries@);
    out
}

/// The serial number, in decimal, of the certificate whose DER encoding is
/// `der`.
pub uninterp spec fn serial_decimal_of(der: Seq<u8>) -> Seq<char>;

/// Relies on `X509::from_der`, then `X509Ref::issuer_name`,
/// `X509NameRef::entries`, `X509NameEntryRef::object` / `data`,
/// `Nid::short_name` and `Asn1StringRef::as_utf8`: the issuer's entries as
/// (short name, value) in the certificate's order, when every entry has a
/// short name (the table of which the process may extend) and a UTF-8 value.
#[verifier::external_body]
fn issuer_entries(der: &[u8]) -> Option<Vec<(String, String)>> {
    let cert = openssl::x509::X509::from_der(der).ok()?;
    let mut out = Vec::new();
    for entry in cert.issuer_name().entries() {
        let key = entry.object().nid().short_name().ok()?;
        let value = entry.data().as_utf8().ok()?;
        out.push((key.to_string(), value.to_string()));
    }
    Some(out)
}

/// Relies on `X509::from_der`, then `X509Ref::serial_number`,
/// `Asn1IntegerRef::to_bn` and `BigNumRef::to_dec_str`: the serial number in
/// decimal, when the bytes parse as a certificate.
#[verifier::external_body]
fn serial_decimal(der: &[u8]) -> (r: Option<String>)
    ensures
        r.is_some() ==> r.unwrap()@ == serial_decimal_of(der@),
{
    let cert = openssl::x509::X509::from_der(der).ok()?;
    let bn = cert.serial_number().to_bn().ok()?;
    let dec = bn.to_dec_str().ok()?;
    Some(dec.to_string())
}

/// Relies on `X509Ref::to_der`: the certificate's DER encoding.
#[verifier::external_body]
fn certificate_der(cert: &openssl::x509::X509) -> Option<Vec<u8>> {
    cert.to_der().ok()
}

/// Builds `<X509Data>` children (issuer and serial, certificate) from
/// certificates.
pub struct X509Builder {}

impl X509Builder {
    /// A builder for one certificate's `<X509Data>`.
    pub fn new() -> (r: Self) {
        X509Builder {  }
    }

    /// Appends to `<KeyInfo>` (created if absent) an `<X509Data>` holding the
    /// given issuer entries, decimal serial number and DER certificate.
    pub fn add_data(
        &self,
        signature_node: &mut SignatureNode,
        issuer: &Vec<(String, String)>,
        serial: &str,
        der: &[u8],
    ) -> (r: XmlSecResult<()>)
        ensures
            der@.len() > MAX_BASE64_INPUT ==> r == Err::<(), XmlSecError>(XmlSecError::CertLoadError)
                && final(signature_node)@ == old(signature_node)@,
            der@.len() <= MAX_BASE64_INPUT ==> r is Ok && final(signature_node)@ == with_key_info(
                old(signature_node)@,
                seq![
                    KeyInfoChildView::X509Data(
                        Some(
                            X509View {
                                issuer_name: issuer_text(entry_views(issuer@)),
                                serial_number: serial@,
                                certificate: certificate_text(der@),
                            },
                        ),
                    ),
                ],
            ),
    {
        if der.len() > MAX_BASE64_INPUT {
            return Err(XmlSecError::CertLoadError);
        }
        let encoded = base64_encode(der);
        let text = wrap(encoded.as_slice(), BASE64_LINE_WIDTH);
        let x = X509Template {
            issuer_name: issuer_name_text(issuer),
            serial_number: serial.to_owned(),
            certificate: text,
        };
        let mut children: Vec<KeyInfoChild> = Vec::new();
        children.push(KeyInfoChild::X509Data(Some(x)));
        proof {
            let f = |c: KeyInfoChild| key_info_child_view(c);
            assert(children@.map_values(f) =~= seq![key_info_child_view(KeyInfoChild::X509Data(Some(x)))]);
        }
        signature_node.extend_key_info(children);
        Ok(())
    }

    /// Appends to `<KeyInfo>` an `<X509Data>` describing `cert`: its issuer
    /// entries and serial number, read by OpenSSL from the certificate's DER
    /// encoding, and that encoding in base64. A certificate that cannot be
    /// read, or whose encoding is too long, is `CertLoadError`, and the
    /// template stays as it was.
    pub fn add_node(self, signature_node: &mut SignatureNode, cert: &openssl::x509::X509) -> (r:
        XmlSecResult<()>)
        ensures
            r is Err ==> r == Err::<(), XmlSecError>(XmlSecError::CertLoadError)
                && final(signature_node)@ == old(signature_node)@,
            r is Ok ==> exists|issuer: Seq<(Seq<char>, Seq<char>)>, der: Seq<u8>|
                der.len() <= MAX_BASE64_INPUT && final(signature_node)@ == with_key_info(
                    old(signature_node)@,
                    seq![
                        KeyInfoChildView::X509Data(
                            Some(
                                X509View {
                                    issuer_name: issuer_text(issuer),
                                    serial_number: serial_decimal_of(der),
                                    certificate: certificate_text(der),
                                },
                            ),
                        ),
                    ],
                ),
    {
        let der = match certificate_der(cert) {
            Some(d) => d,
            None => return Err(XmlSecError::CertLoadError),
        };
        let issuer = match issuer_entries(der.as_slice()) {
            Some(e) => e,
            None => return Err(XmlSecError::CertLoadError),
        };
        let serial = match serial_decimal(der.as_slice()) {
            Some(s) => s,
            None => return Err(XmlSecError::CertLoadError),
        };
        self.add_data(signature_node, &issuer, serial.as_str(), der.as_slice())
    }
}

} // verus!
