//! Keys: key material loaded from memory, with its format, data type, name
//! and attached certificates.

use vstd::prelude::*;
use vstd::string::*;

use crate::error::XmlSecError;
use crate::error::XmlSecResult;
use crate::primitives::copy_bytes;

verus! {

/// Format of key or certificate material.
#[derive(Debug, Clone, Copy, PartialEq, Eq, Structural)]
pub enum XmlSecKeyFormat {
    Unknown,
    Binary,
    Pem,
    Der,
    Pkcs8Pem,
    Pkcs8Der,
    Pkcs12,
    CertPem,
    CertDer,
    Engine,
    Store,
}

/// The backend's numeric code of a format.
pub open spec fn format_code(f: XmlSecKeyFormat) -> u32 {
    match f {
        XmlSecKeyFormat::Unknown => 0,
        XmlSecKeyFormat::Binary => 1,
        XmlSecKeyFormat::Pem => 2,
        XmlSecKeyFormat::Der => 3,
        XmlSecKeyFormat::Pkcs8Pem => 4,
        XmlSecKeyFormat::Pkcs8Der => 5,
        XmlSecKeyFormat::Pkcs12 => 6,
        XmlSecKeyFormat::CertPem => 7,
        XmlSecKeyFormat::CertDer => 8,
        XmlSecKeyFormat::Engine => 9,
        XmlSecKeyFormat::Store => 10,
    }
}

impl XmlSecKeyFormat {
    /// The backend's numeric code of this format.
    pub fn into_raw(self) -> (r: u32)
        ensures
            r == format_code(self),
    {
        match self {
            XmlSecKeyFormat::Unknown => 0,
            XmlSecKeyFormat::Binary => 1,
            XmlSecKeyFormat::Pem => 2,
            XmlSecKeyFormat::Der => 3,
            XmlSecKeyFormat::Pkcs8Pem => 4,
            XmlSecKeyFormat::Pkcs8Der => 5,
            XmlSecKeyFormat::Pkcs12 => 6,
            XmlSecKeyFormat::CertPem => 7,
            XmlSecKeyFormat::CertDer => 8,
            XmlSecKeyFormat::Engine => 9,
            XmlSecKeyFormat::Store => 10,
        }
    }
}

/// Distinct formats have distinct codes.
pub proof fn lemma_format_code_injective(a: XmlSecKeyFormat, b: XmlSecKeyFormat)
    ensures
        format_code(a) == format_code(b) ==> a == b,
{
}

/// Key data type: a set of flags.
#[derive(Debug, Clone, Copy, PartialEq, Eq, Structural)]
pub struct XmlSecKeyDataType {
    bits: u32,
}

/// No data type is known.
pub const KEY_DATA_TYPE_UNKNOWN: u32 = 0x0000;

/// Same as unknown: no flag set.
pub const KEY_DATA_TYPE_NONE: u32 = 0x0000;

/// Public key material.
pub const KEY_DATA_TYPE_PUBLIC: u32 = 0x0001;

/// Private key material.
pub const KEY_DATA_TYPE_PRIVATE: u32 = 0x0002;

/// Symmetric key material.
pub const KEY_DATA_TYPE_SYMMETRIC: u32 = 0x0004;

/// Session key.
pub const KEY_DATA_TYPE_SESSION: u32 = 0x0008;

/// Permanent key.
pub const KEY_DATA_TYPE_PERMANENT: u32 = 0x0010;

/// Trusted material (certificates of a trust store).
pub const KEY_DATA_TYPE_TRUSTED: u32 = 0x0100;

/// Every flag.
pub const KEY_DATA_TYPE_ANY: u32 = 0xFFFF;

impl XmlSecKeyDataType {
    /// The data type with exactly the given flag bits.
    pub fn from_bits(bits: u32) -> (r: Self)
        ensures
            r.bits() == bits,
    {
        XmlSecKeyDataType { bits }
    }

    /// The flag bits.
    pub closed spec fn spec_bits(&self) -> u32 {
        self.bits
    }

    /// The flag bits.
    #[verifier::when_used_as_spec(spec_bits)]
    pub fn bits(&self) -> (r: u32)
        ensures
            r == self.spec_bits(),
    {
        self.bits
    }

    /// Whether no flag is set.
    pub fn is_empty(&self) -> (r: bool)
        ensures
            r == (self.bits() == 0),
    {
        self.bits == 0
    }

    /// Whether every flag of `other` is set here.
    pub fn contains(&self, other: XmlSecKeyDataType) -> (r: bool)
        ensures
            r == (self.bits() & other.bits() == other.bits()),
    {
        self.bits & other.bits == other.bits
    }

    /// The flags of both.
    pub fn union(&self, other: XmlSecKeyDataType) -> (r: XmlSecKeyDataType)
        ensures
            r.bits() == self.bits() | other.bits(),
    {
        XmlSecKeyDataType { bits: self.bits | other.bits }
    }
}

/// What a key holds.
pub struct XmlSecKeyView {
    pub material: Seq<u8>,
    pub format: XmlSecKeyFormat,
    pub password: Option<Seq<char>>,
    pub data_type: u32,
    pub name: Seq<char>,
    pub certificates: Seq<(Seq<u8>, XmlSecKeyFormat)>,
}

/// The longest buffer that the backend's memory loaders accept: a C `int`.
pub const MAX_LOAD_LEN: usize = 2_147_483_647;

/// Whether key material of this format can be loaded from memory at all.
pub open spec fn loadable_format(f: XmlSecKeyFormat) -> bool {
    !(f is Unknown || f is Engine || f is Store)
}

/// Whether a password has no NUL byte, which C strings cannot carry.
pub open spec fn password_usable(password: Option<&str>) -> bool {
    password is None || !password.unwrap().spec_bytes().contains(0u8)
}

/// The view of a key freshly loaded from `material`.
pub open spec fn loaded_key_view(
    material: Seq<u8>,
    format: XmlSecKeyFormat,
    password: Option<Seq<char>>,
    data_type: u32,
) -> XmlSecKeyView {
    XmlSecKeyView {
        material,
        format,
        password,
        data_type,
        name: Seq::empty(),
        certificates: Seq::empty(),
    }
}

/// The view of an optional string.
pub open spec fn opt_view(s: Option<&str>) -> Option<Seq<char>> {
    match s {
        Some(t) => Some(t@),
        None => None,
    }
}

/// The views of certificate entries.
pub open spec fn certificate_views(v: Seq<(Vec<u8>, XmlSecKeyFormat)>) -> Seq<(Seq<u8>, XmlSecKeyFormat)> {
    v.map_values(|c: (Vec<u8>, XmlSecKeyFormat)| (c.0@, c.1))
}

/// Key material with an identity of its own: it is owned by exactly one
/// holder at a time (a caller, a key manager or a context).
pub struct XmlSecKey {
    handle: std::rc::Rc<()>,
    material: Vec<u8>,
    format: XmlSecKeyFormat,
    password: Option<String>,
    data_type: XmlSecKeyDataType,
    name: String,
    certificates: Vec<(Vec<u8>, XmlSecKeyFormat)>,
}

impl View for XmlSecKey {
    type V = XmlSecKeyView;

    closed spec fn view(&self) -> XmlSecKeyView {
        XmlSecKeyView {
            material: self.material@,
            format: self.format,
            password: match self.password {
                Some(p) => Some(p@),
                None => None,
            },
            data_type: self.data_type.bits(),
            name: self.name@,
            certificates: certificate_views(self.certificates@),
        }
    }
}

/// Relies on `std::rc::Rc::ptr_eq`: whether two handles point to the same
/// allocation.
#[verifier::external_body]
fn same_allocation(a: &std::rc::Rc<()>, b: &std::rc::Rc<()>) -> bool {
    std::rc::Rc::ptr_eq(a, b)
}

/// Relies on `<std::rc::Rc as Clone>::clone`: another handle to the same
/// allocation.
#[verifier::external_body]
fn share_handle(h: &std::rc::Rc<()>) -> std::rc::Rc<()> {
    h.clone()
}

/// The identity of a key: every load and every duplicate makes a new one,
/// and it moves with the key from holder to holder.
pub struct XmlSecKeyIdentity {
    handle: std::rc::Rc<()>,
}

impl PartialEq for XmlSecKeyIdentity {
    fn eq(&self, other: &XmlSecKeyIdentity) -> (r: bool) {
        same_allocation(&self.handle, &other.handle)
    }
}

impl vstd::std_specs::cmp::PartialEqSpecImpl for XmlSecKeyIdentity {
    /// Identity is not a property of values, so `==` claims nothing in specs.
    open spec fn obeys_eq_spec() -> bool {
        false
    }

    open spec fn eq_spec(&self, other: &XmlSecKeyIdentity) -> bool {
        false
    }
}

impl Eq for XmlSecKeyIdentity {}

impl PartialEq for XmlSecKey {
    /// Two keys are equal when they are the same key, not when they hold the
    /// same material.
    fn eq(&self, other: &XmlSecKey) -> (r: bool) {
        same_allocation(&self.handle, &other.handle)
    }
}

impl vstd::std_specs::cmp::PartialEqSpecImpl for XmlSecKey {
    /// Identity is not a property of values, so `==` claims nothing in specs.
    open spec fn obeys_eq_spec() -> bool {
        false
    }

    open spec fn eq_spec(&self, other: &XmlSecKey) -> bool {
        false
    }
}

impl Eq for XmlSecKey {}

/// Relies on `openssl::pkey::PKey::private_key_from_pem_passphrase`: whether
/// the PEM text holds a private key, decrypted with the password if needed.
#[verifier::external_body]
fn private_key_pem_parses(pem: &[u8], password: Option<&str>) -> bool
    requires
        pem@.len() <= MAX_LOAD_LEN,
        password_usable(password),
{
    let passphrase = password.map(|p| p.as_bytes()).unwrap_or(b"");
    openssl::pkey::PKey::private_key_from_pem_passphrase(pem, passphrase).is_ok()
}

/// Relies on `openssl::pkey::PKey::public_key_from_pem`: whether the PEM
/// text holds a public key.
#[verifier::external_body]
fn public_key_pem_parses(pem: &[u8]) -> bool
    requires
        pem@.len() <= MAX_LOAD_LEN,
{
    openssl::pkey::PKey::public_key_from_pem(pem).is_ok()
}

/// Relies on `openssl::pkey::PKey::private_key_from_der`: whether the DER
/// bytes hold a private key.
#[verifier::external_body]
fn private_key_der_parses(der: &[u8]) -> bool {
    openssl::pkey::PKey::private_key_from_der(der).is_ok()
}

/// Relies on `openssl::pkey::PKey::public_key_from_der`: whether the DER
/// bytes hold a public key.
#[verifier::external_body]
fn public_key_der_parses(der: &[u8]) -> bool {
    openssl::pkey::PKey::public_key_from_der(der).is_ok()
}

/// Relies on `openssl::pkey::PKey::private_key_from_pkcs8_passphrase`:
/// whether the DER bytes hold an encrypted PKCS#8 private key that
/// the password opens.
#[verifier::external_body]
fn pkcs8_der_parses(der: &[u8], password: Option<&str>) -> bool
    requires
        der@.len() <= MAX_LOAD_LEN,
        password_usable(password),
{
    let passphrase = password.map(|p| p.as_bytes()).unwrap_or(b"");
    openssl::pkey::PKey::private_key_from_pkcs8_passphrase(der, passphrase).is_ok()
}

/// Relies on `openssl::pkcs12::Pkcs12::from_der` and, on the archive it
/// yields, `Pkcs12Ref::parse2`: whether the DER bytes hold a PKCS#12
/// archive that the password (empty when absent) opens. The archive itself
/// never leaves this function.
#[verifier::external_body]
fn pkcs12_opens(der: &[u8], password: Option<&str>) -> bool
    requires
        password_usable(password),
{
    match openssl::pkcs12::Pkcs12::from_der(der) {
        Ok(archive) => archive.parse2(password.unwrap_or("")).is_ok(),
        Err(_) => false,
    }
}

/// Relies on `openssl::x509::X509::from_pem`: whether the PEM text holds a
/// certificate.
#[verifier::external_body]
pub(crate) fn certificate_pem_parses(pem: &[u8]) -> bool
    requires
        pem@.len() <= MAX_LOAD_LEN,
{
    openssl::x509::X509::from_pem(pem).is_ok()
}

/// Relies on `openssl::x509::X509::from_der`: whether the DER bytes hold a
/// certificate.
#[verifier::external_body]
pub(crate) fn certificate_der_parses(der: &[u8]) -> bool {
    openssl::x509::X509::from_der(der).is_ok()
}

/// Whether certificate material of this format can be attached at all: PEM
/// and DER, plain or certificate formats.
pub open spec fn certificate_format(f: XmlSecKeyFormat) -> bool {
    f is Pem || f is CertPem || f is Der || f is CertDer
}

/// Asks OpenSSL whether certificate material of this format parses; any
/// other format is refused without asking.
pub(crate) fn parse_certificate(data: &[u8], format: XmlSecKeyFormat) -> (r: bool)
    requires
        data@.len() <= MAX_LOAD_LEN,
    ensures
        !certificate_format(format) ==> !r,
{
    match format {
        XmlSecKeyFormat::Pem | XmlSecKeyFormat::CertPem => certificate_pem_parses(data),
        XmlSecKeyFormat::Der | XmlSecKeyFormat::CertDer => certificate_der_parses(data),
        _ => false,
    }
}

/// The data types that a key loaded from material of this format may
/// carry: private or public for PEM and DER, private for PKCS#8 DER and
/// PKCS#12, public for certificates, symmetric for binary material.
pub open spec fn loaded_data_type(format: XmlSecKeyFormat, t: u32) -> bool {
    match format {
        XmlSecKeyFormat::Pem | XmlSecKeyFormat::Pkcs8Pem | XmlSecKeyFormat::Der => t
            == KEY_DATA_TYPE_PRIVATE || t == KEY_DATA_TYPE_PUBLIC,
        XmlSecKeyFormat::Pkcs8Der | XmlSecKeyFormat::Pkcs12 => t == KEY_DATA_TYPE_PRIVATE,
        XmlSecKeyFormat::CertPem | XmlSecKeyFormat::CertDer => t == KEY_DATA_TYPE_PUBLIC,
        XmlSecKeyFormat::Binary => t == KEY_DATA_TYPE_SYMMETRIC,
        _ => false,
    }
}

/// Whether a string has no NUL byte.
pub fn has_no_nul(s: &str) -> (r: bool)
    ensures
        r == !s.spec_bytes().contains(0u8),
{
    let b = s.as_bytes();
    let mut i: usize = 0;
    while i < b.len()
        invariant
            b@ == s.spec_bytes(),
            i <= b@.len(),
            forall|j: int| 0 <= j < i ==> b@[j] != 0u8,
        decreases b.len() - i,
    {
        if b[i] == 0u8 {
            return false;
        }
        i = i + 1;
    }
    true
}

/// Whether key material of this format and size, with this password, can be
/// handed to the backend at all.
pub open spec fn load_request_valid(buffer: Seq<u8>, format: XmlSecKeyFormat, password: Option<&str>) -> bool {
    &&& loadable_format(format)
    &&& buffer.len() <= MAX_LOAD_LEN
    &&& password_usable(password)
    &&& (format is Binary ==> buffer.len() > 0)
}

/// A key view with another name.
pub open spec fn renamed(v: XmlSecKeyView, name: Seq<char>) -> XmlSecKeyView {
    XmlSecKeyView { name, ..v }
}

/// A key view with one more certificate at the end.
pub open spec fn with_certificate(v: XmlSecKeyView, cert: Seq<u8>, format: XmlSecKeyFormat) -> XmlSecKeyView {
    XmlSecKeyView { certificates: v.certificates.push((cert, format)), ..v }
}

impl XmlSecKey {
    /// Builds a key from material that the backend parsed as `data_type`
    /// (`None`: it refused the material).
    pub fn from_loaded(
        buffer: &[u8],
        format: XmlSecKeyFormat,
        password: Option<&str>,
        data_type: Option<u32>,
    ) -> (r: XmlSecResult<Self>)
        ensures
            data_type is None ==> r == Err::<Self, XmlSecError>(XmlSecError::KeyLoadError),
            data_type is Some ==> r is Ok && r.unwrap()@ == loaded_key_view(
                buffer@,
                format,
                opt_view(password),
                data_type.unwrap(),
            ),
    {
        match data_type {
            None => Err(XmlSecError::KeyLoadError),
            Some(t) => {
                let pw: Option<String> = match password {
                    Some(p) => Some(p.to_owned()),
                    None => None,
                };
                let key = XmlSecKey {
                    handle: std::rc::Rc::new(()),
                    material: copy_bytes(buffer),
                    format,
                    password: pw,
                    data_type: XmlSecKeyDataType::from_bits(t),
                    name: String::new(),
                    certificates: Vec::new(),
                };
                assert(key@.certificates =~= Seq::<(Seq<u8>, XmlSecKeyFormat)>::empty());
                Ok(key)
            },
        }
    }

    /// Loads a key from material in memory, in the given format, unlocked by
    /// `password` if it is encrypted. The material is parsed by OpenSSL; the
    /// key keeps a copy of it.
    pub fn from_memory(buffer: &[u8], format: XmlSecKeyFormat, password: Option<&str>) -> (r:
        XmlSecResult<Self>)
        ensures
            !load_request_valid(buffer@, format, password) ==> r == Err::<Self, XmlSecError>(
                XmlSecError::KeyLoadError,
            ),
            format is Binary && load_request_valid(buffer@, format, password) ==> r is Ok,
            r is Err ==> r == Err::<Self, XmlSecError>(XmlSecError::KeyLoadError),
            r is Ok ==> loaded_data_type(format, r.unwrap()@.data_type) && r.unwrap()@
                == loaded_key_view(buffer@, format, opt_view(password), r.unwrap()@.data_type),
    {
        let usable = match password {
            Some(p) => has_no_nul(p),
            None => true,
        };
        if !usable || buffer.len() > MAX_LOAD_LEN {
            return Err(XmlSecError::KeyLoadError);
        }
        let parsed: Option<u32> = match format {
            XmlSecKeyFormat::Binary => if buffer.len() > 0 {
                Some(KEY_DATA_TYPE_SYMMETRIC)
            } else {
                None
            },
            XmlSecKeyFormat::Pem | XmlSecKeyFormat::Pkcs8Pem => if private_key_pem_parses(
                buffer,
                password,
            ) {
                Some(KEY_DATA_TYPE_PRIVATE)
            } else if public_key_pem_parses(buffer) {
                Some(KEY_DATA_TYPE_PUBLIC)
            } else {
                None
            },
            XmlSecKeyFormat::Der => if private_key_der_parses(buffer) {
                Some(KEY_DATA_TYPE_PRIVATE)
            } else if public_key_der_parses(buffer) {
                Some(KEY_DATA_TYPE_PUBLIC)
            } else {
                None
            },
            XmlSecKeyFormat::Pkcs8Der => if pkcs8_der_parses(buffer, password) {
                Some(KEY_DATA_TYPE_PRIVATE)
            } else {
                None
            },
            XmlSecKeyFormat::Pkcs12 => if pkcs12_opens(buffer, password) {
                Some(KEY_DATA_TYPE_PRIVATE)
            } else {
                None
            },
            XmlSecKeyFormat::CertPem => if certificate_pem_parses(buffer) {
                Some(KEY_DATA_TYPE_PUBLIC)
            } else {
                None
            },
            XmlSecKeyFormat::CertDer => if certificate_der_parses(buffer) {
                Some(KEY_DATA_TYPE_PUBLIC)
            } else {
                None
            },
            _ => None,
        };
        Self::from_loaded(buffer, format, password, parsed)
    }

    /// The key's identity.
    pub fn identity(&self) -> XmlSecKeyIdentity {
        XmlSecKeyIdentity { handle: share_handle(&self.handle) }
    }

    /// Sets the key's name: a free-form label.
    pub fn set_name(&mut self, name: &str)
        ensures
            final(self)@ == renamed(old(self)@, name@),
    {
        self.name = name.to_owned();
    }

    /// The key's name; empty until one is set.
    pub fn get_name(&self) -> (r: &str)
        ensures
            r@ == self@.name,
    {
        self.name.as_str()
    }

    /// The key's format.
    pub fn format(&self) -> (r: XmlSecKeyFormat)
        ensures
            r == self@.format,
    {
        self.format
    }

    /// The key's data type.
    pub fn data_type(&self) -> (r: XmlSecKeyDataType)
        ensures
            r.bits() == self@.data_type,
    {
        self.data_type
    }

    /// The key material as it was loaded.
    pub fn material(&self) -> (r: &[u8])
        ensures
            r@ == self@.material,
    {
        self.material.as_slice()
    }

    /// The number of certificates attached.
    pub fn certificate_count(&self) -> (r: usize)
        ensures
            r == self@.certificates.len(),
    {
        self.certificates.len()
    }

    /// Attaches certificate material that the backend parsed (`accepted`) or
    /// refused; a refused certificate leaves the key as it was.
    pub fn attach_certificate(&mut self, buff: &[u8], format: XmlSecKeyFormat, accepted: bool) -> (r:
        XmlSecResult<()>)
        ensures
            accepted ==> r is Ok && final(self)@ == with_certificate(old(self)@, buff@, format),
            !accepted ==> r == Err::<(), XmlSecError>(XmlSecError::CertLoadError) && final(self)@
                == old(self)@,
    {
        if accepted {
            let ghost before = self.certificates@;
            self.certificates.push((copy_bytes(buff), format));
            proof {
                assert(certificate_views(self.certificates@) =~= certificate_views(before).push(
                    (buff@, format),
                ));
            }
            Ok(())
        } else {
            Err(XmlSecError::CertLoadError)
        }
    }

    /// Loads a certificate from memory into the key. PEM and DER material
    /// (plain or certificate formats) is parsed by OpenSSL.
    pub fn load_cert_from_memory(&mut self, buff: &[u8], format: XmlSecKeyFormat) -> (r: XmlSecResult<()>)
        ensures
            !certificate_format(format) || buff@.len() > MAX_LOAD_LEN ==> r is Err,
            r is Ok ==> final(self)@ == with_certificate(old(self)@, buff@, format),
            r is Err ==> r == Err::<(), XmlSecError>(XmlSecError::CertLoadError) && final(self)@
                == old(self)@,
    {
        if buff.len() > MAX_LOAD_LEN {
            return Err(XmlSecError::CertLoadError);
        }
        let accepted = parse_certificate(buff, format);
        self.attach_certificate(buff, format, accepted)
    }

    /// A deep copy of the key, with a lifetime of its own.
    pub fn duplicate(&self) -> (r: Self)
        ensures
            r@ == self@,
    {
        let mut certs: Vec<(Vec<u8>, XmlSecKeyFormat)> = Vec::new();
        let mut i: usize = 0;
        while i < self.certificates.len()
            invariant
                i <= self.certificates@.len(),
                certs@.len() == i,
                forall|j: int|
                    0 <= j < i ==> (#[trigger] certs@[j]).0@ == self.certificates@[j].0@
                        && certs@[j].1 == self.certificates@[j].1,
            decreases self.certificates.len() - i,
        {
            let c = &self.certificates[i];
            certs.push((copy_bytes(c.0.as_slice()), c.1));
            i = i + 1;
        }
        assert(certificate_views(certs@) =~= certificate_views(self.certificates@));
        let pw: Option<String> = match &self.password {
            Some(p) => Some(p.clone()),
            None => None,
        };
        XmlSecKey {
            handle: std::rc::Rc::new(()),
            material: copy_bytes(self.material.as_slice()),
            format: self.format,
            password: pw,
            data_type: self.data_type,
            name: self.name.clone(),
            certificates: certs,
        }
    }
}

} // verus!
