//! Digest, MAC, cipher and signature algorithms of the OpenSSL backend, with
//! their wire identifiers.

use vstd::prelude::*;

verus! {

/// Supported digesting, signing and encryption algorithms.
#[derive(Debug, Clone, Copy, PartialEq, Eq, Structural)]
pub enum XmlSecSignatureMethod {
    Aes128Cbc,
    Aes192Cbc,
    Aes256Cbc,
    KWAes128,
    KWAes192,
    KWAes256,
    Des3Cbc,
    KWDes3,
    DsaSha1,
    DsaSha256,
    EcdsaSha1,
    EcdsaSha224,
    EcdsaSha256,
    EcdsaSha384,
    EcdsaSha512,
    HmacRipemd160,
    HmacSha1,
    HmacSha224,
    HmacSha256,
    HmacSha384,
    HmacSha512,
    Ripemd160,
    RsaRipemd160,
    RsaSha1,
    RsaSha224,
    RsaSha256,
    RsaSha384,
    RsaSha512,
    RsaPkcs1,
    RsaOaep,
    Sha1,
    Sha224,
    Sha256,
    Sha384,
    Sha512,
}

/// The algorithm identifier (`Algorithm` attribute value) of a method.
pub open spec fn signature_href(m: XmlSecSignatureMethod) -> Seq<char> {
    match m {
        XmlSecSignatureMethod::Aes128Cbc => "http://www.w3.org/2001/04/xmlenc#aes128-cbc"@,
        XmlSecSignatureMethod::Aes192Cbc => "http://www.w3.org/2001/04/xmlenc#aes192-cbc"@,
        XmlSecSignatureMethod::Aes256Cbc => "http://www.w3.org/2001/04/xmlenc#aes256-cbc"@,
        XmlSecSignatureMethod::KWAes128 => "http://www.w3.org/2001/04/xmlenc#kw-aes128"@,
        XmlSecSignatureMethod::KWAes192 => "http://www.w3.org/2001/04/xmlenc#kw-aes192"@,
        XmlSecSignatureMethod::KWAes256 => "http://www.w3.org/2001/04/xmlenc#kw-aes256"@,
        XmlSecSignatureMethod::Des3Cbc => "http://www.w3.org/2001/04/xmlenc#tripledes-cbc"@,
        XmlSecSignatureMethod::KWDes3 => "http://www.w3.org/2001/04/xmlenc#kw-tripledes"@,
        XmlSecSignatureMethod::DsaSha1 => "http://www.w3.org/2000/09/xmldsig#dsa-sha1"@,
        XmlSecSignatureMethod::DsaSha256 => "http://www.w3.org/2009/xmldsig11#dsa-sha256"@,
        XmlSecSignatureMethod::EcdsaSha1 => "http://www.w3.org/2001/04/xmldsig-more#ecdsa-sha1"@,
        XmlSecSignatureMethod::EcdsaSha224 => "http://www.w3.org/2001/04/xmldsig-more#ecdsa-sha224"@,
        XmlSecSignatureMethod::EcdsaSha256 => "http://www.w3.org/2001/04/xmldsig-more#ecdsa-sha256"@,
        XmlSecSignatureMethod::EcdsaSha384 => "http://www.w3.org/2001/04/xmldsig-more#ecdsa-sha384"@,
        XmlSecSignatureMethod::EcdsaSha512 => "http://www.w3.org/2001/04/xmldsig-more#ecdsa-sha512"@,
        XmlSecSignatureMethod::HmacRipemd160 => "http://www.w3.org/2001/04/xmldsig-more#hmac-ripemd160"@,
        XmlSecSignatureMethod::HmacSha1 => "http://www.w3.org/2000/09/xmldsig#hmac-sha1"@,
        XmlSecSignatureMethod::HmacSha224 => "http://www.w3.org/2001/04/xmldsig-more#hmac-sha224"@,
        XmlSecSignatureMethod::HmacSha256 => "http://www.w3.org/2001/04/xmldsig-more#hmac-sha256"@,
        XmlSecSignatureMethod::HmacSha384 => "http://www.w3.org/2001/04/xmldsig-more#hmac-sha384"@,
        XmlSecSignatureMethod::HmacSha512 => "http://www.w3.org/2001/04/xmldsig-more#hmac-sha512"@,
        XmlSecSignatureMethod::Ripemd160 => "http://www.w3.org/2001/04/xmlenc#ripemd160"@,
        XmlSecSignatureMethod::RsaRipemd160 => "http://www.w3.org/2001/04/xmldsig-more#rsa-ripemd160"@,
        XmlSecSignatureMethod::RsaSha1 => "http://www.w3.org/2000/09/xmldsig#rsa-sha1"@,
        XmlSecSignatureMethod::RsaSha224 => "http://www.w3.org/2001/04/xmldsig-more#rsa-sha224"@,
        XmlSecSignatureMethod::RsaSha256 => "http://www.w3.org/2001/04/xmldsig-more#rsa-sha256"@,
        XmlSecSignatureMethod::RsaSha384 => "http://www.w3.org/2001/04/xmldsig-more#rsa-sha384"@,
        XmlSecSignatureMethod::RsaSha512 => "http://www.w3.org/2001/04/xmldsig-more#rsa-sha512"@,
        XmlSecSignatureMethod::RsaPkcs1 => "http://www.w3.org/2001/04/xmlenc#rsa-1_5"@,
        XmlSecSignatureMethod::RsaOaep => "http://www.w3.org/2001/04/xmlenc#rsa-oaep-mgf1p"@,
        XmlSecSignatureMethod::Sha1 => "http://www.w3.org/2000/09/xmldsig#sha1"@,
        XmlSecSignatureMethod::Sha224 => "http://www.w3.org/2001/04/xmldsig-more#sha224"@,
        XmlSecSignatureMethod::Sha256 => "http://www.w3.org/2001/04/xmlenc#sha256"@,
        XmlSecSignatureMethod::Sha384 => "http://www.w3.org/2001/04/xmldsig-more#sha384"@,
        XmlSecSignatureMethod::Sha512 => "http://www.w3.org/2001/04/xmlenc#sha512"@,
    }
}

/// The backend's short name of a method.
pub open spec fn signature_name(m: XmlSecSignatureMethod) -> Seq<char> {
    match m {
        XmlSecSignatureMethod::Aes128Cbc => "aes128-cbc"@,
        XmlSecSignatureMethod::Aes192Cbc => "aes192-cbc"@,
        XmlSecSignatureMethod::Aes256Cbc => "aes256-cbc"@,
        XmlSecSignatureMethod::KWAes128 => "kw-aes128"@,
        XmlSecSignatureMethod::KWAes192 => "kw-aes192"@,
        XmlSecSignatureMethod::KWAes256 => "kw-aes256"@,
        XmlSecSignatureMethod::Des3Cbc => "tripledes-cbc"@,
        XmlSecSignatureMethod::KWDes3 => "kw-tripledes"@,
        XmlSecSignatureMethod::DsaSha1 => "dsa-sha1"@,
        XmlSecSignatureMethod::DsaSha256 => "dsa-sha256"@,
        XmlSecSignatureMethod::EcdsaSha1 => "ecdsa-sha1"@,
        XmlSecSignatureMethod::EcdsaSha224 => "ecdsa-sha224"@,
        XmlSecSignatureMethod::EcdsaSha256 => "ecdsa-sha256"@,
        XmlSecSignatureMethod::EcdsaSha384 => "ecdsa-sha384"@,
        XmlSecSignatureMethod::EcdsaSha512 => "ecdsa-sha512"@,
        XmlSecSignatureMethod::HmacRipemd160 => "hmac-ripemd160"@,
        XmlSecSignatureMethod::HmacSha1 => "hmac-sha1"@,
        XmlSecSignatureMethod::HmacSha224 => "hmac-sha224"@,
        XmlSecSignatureMethod::HmacSha256 => "hmac-sha256"@,
        XmlSecSignatureMethod::HmacSha384 => "hmac-sha384"@,
        XmlSecSignatureMethod::HmacSha512 => "hmac-sha512"@,
        XmlSecSignatureMethod::Ripemd160 => "ripemd160"@,
        XmlSecSignatureMethod::RsaRipemd160 => "rsa-ripemd160"@,
        XmlSecSignatureMethod::RsaSha1 => "rsa-sha1"@,
        XmlSecSignatureMethod::RsaSha224 => "rsa-sha224"@,
        XmlSecSignatureMethod::RsaSha256 => "rsa-sha256"@,
        XmlSecSignatureMethod::RsaSha384 => "rsa-sha384"@,
        XmlSecSignatureMethod::RsaSha512 => "rsa-sha512"@,
        XmlSecSignatureMethod::RsaPkcs1 => "rsa-1_5"@,
        XmlSecSignatureMethod::RsaOaep => "rsa-oaep-mgf1p"@,
        XmlSecSignatureMethod::Sha1 => "sha1"@,
        XmlSecSignatureMethod::Sha224 => "sha224"@,
        XmlSecSignatureMethod::Sha256 => "sha256"@,
        XmlSecSignatureMethod::Sha384 => "sha384"@,
        XmlSecSignatureMethod::Sha512 => "sha512"@,
    }
}

/// Every method, in declaration order.
pub open spec fn all_signature_methods() -> Seq<XmlSecSignatureMethod> {
    seq![
        XmlSecSignatureMethod::Aes128Cbc,
        XmlSecSignatureMethod::Aes192Cbc,
        XmlSecSignatureMethod::Aes256Cbc,
        XmlSecSignatureMethod::KWAes128,
        XmlSecSignatureMethod::KWAes192,
        XmlSecSignatureMethod::KWAes256,
        XmlSecSignatureMethod::Des3Cbc,
        XmlSecSignatureMethod::KWDes3,
        XmlSecSignatureMethod::DsaSha1,
        XmlSecSignatureMethod::DsaSha256,
        XmlSecSignatureMethod::EcdsaSha1,
        XmlSecSignatureMethod::EcdsaSha224,
        XmlSecSignatureMethod::EcdsaSha256,
        XmlSecSignatureMethod::EcdsaSha384,
        XmlSecSignatureMethod::EcdsaSha512,
        XmlSecSignatureMethod::HmacRipemd160,
        XmlSecSignatureMethod::HmacSha1,
        XmlSecSignatureMethod::HmacSha224,
        XmlSecSignatureMethod::HmacSha256,
        XmlSecSignatureMethod::HmacSha384,
        XmlSecSignatureMethod::HmacSha512,
        XmlSecSignatureMethod::Ripemd160,
        XmlSecSignatureMethod::RsaRipemd160,
        XmlSecSignatureMethod::RsaSha1,
        XmlSecSignatureMethod::RsaSha224,
        XmlSecSignatureMethod::RsaSha256,
        XmlSecSignatureMethod::RsaSha384,
        XmlSecSignatureMethod::RsaSha512,
        XmlSecSignatureMethod::RsaPkcs1,
        XmlSecSignatureMethod::RsaOaep,
        XmlSecSignatureMethod::Sha1,
        XmlSecSignatureMethod::Sha224,
        XmlSecSignatureMethod::Sha256,
        XmlSecSignatureMethod::Sha384,
        XmlSecSignatureMethod::Sha512,
    ]
}

/// Every method occurs in the table of all methods.
pub proof fn lemma_all_signature_methods_complete(m: XmlSecSignatureMethod)
    ensures
        all_signature_methods().contains(m),
{
    let all = all_signature_methods();
    match m {
        XmlSecSignatureMethod::Aes128Cbc => assert(all[0] == m),
        XmlSecSignatureMethod::Aes192Cbc => assert(all[1] == m),
        XmlSecSignatureMethod::Aes256Cbc => assert(all[2] == m),
        XmlSecSignatureMethod::KWAes128 => assert(all[3] == m),
        XmlSecSignatureMethod::KWAes192 => assert(all[4] == m),
        XmlSecSignatureMethod::KWAes256 => assert(all[5] == m),
        XmlSecSignatureMethod::Des3Cbc => assert(all[6] == m),
        XmlSecSignatureMethod::KWDes3 => assert(all[7] == m),
        XmlSecSignatureMethod::DsaSha1 => assert(all[8] == m),
        XmlSecSignatureMethod::DsaSha256 => assert(all[9] == m),
        XmlSecSignatureMethod::EcdsaSha1 => assert(all[10] == m),
        XmlSecSignatureMethod::EcdsaSha224 => assert(all[11] == m),
        XmlSecSignatureMethod::EcdsaSha256 => assert(all[12] == m),
        XmlSecSignatureMethod::EcdsaSha384 => assert(all[13] == m),
        XmlSecSignatureMethod::EcdsaSha512 => assert(all[14] == m),
        XmlSecSignatureMethod::HmacRipemd160 => assert(all[15] == m),
        XmlSecSignatureMethod::HmacSha1 => assert(all[16] == m),
        XmlSecSignatureMethod::HmacSha224 => assert(all[17] == m),
        XmlSecSignatureMethod::HmacSha256 => assert(all[18] == m),
        XmlSecSignatureMethod::HmacSha384 => assert(all[19] == m),
        XmlSecSignatureMethod::HmacSha512 => assert(all[20] == m),
        XmlSecSignatureMethod::Ripemd160 => assert(all[21] == m),
        XmlSecSignatureMethod::RsaRipemd160 => assert(all[22] == m),
        XmlSecSignatureMethod::RsaSha1 => assert(all[23] == m),
        XmlSecSignatureMethod::RsaSha224 => assert(all[24] == m),
        XmlSecSignatureMethod::RsaSha256 => assert(all[25] == m),
        XmlSecSignatureMethod::RsaSha384 => assert(all[26] == m),
        XmlSecSignatureMethod::RsaSha512 => assert(all[27] == m),
        XmlSecSignatureMethod::RsaPkcs1 => assert(all[28] == m),
        XmlSecSignatureMethod::RsaOaep => assert(all[29] == m),
        XmlSecSignatureMethod::Sha1 => assert(all[30] == m),
        XmlSecSignatureMethod::Sha224 => assert(all[31] == m),
        XmlSecSignatureMethod::Sha256 => assert(all[32] == m),
        XmlSecSignatureMethod::Sha384 => assert(all[33] == m),
        XmlSecSignatureMethod::Sha512 => assert(all[34] == m),
    }
}

/// Whether two strings hold the same characters.
pub fn text_equal(a: &str, b: &str) -> (r: bool)
    ensures
        r == (a@ == b@),
{
    let x = a.to_owned();
    let y = b.to_owned();
    x == y
}

impl XmlSecSignatureMethod {
    /// The algorithm identifier of this method, as written in an
    /// `Algorithm` attribute.
    pub fn href(&self) -> (r: &'static str)
        ensures
            r@ == signature_href(*self),
    {
        match self {
            XmlSecSignatureMethod::Aes128Cbc => "http://www.w3.org/2001/04/xmlenc#aes128-cbc",
            XmlSecSignatureMethod::Aes192Cbc => "http://www.w3.org/2001/04/xmlenc#aes192-cbc",
            XmlSecSignatureMethod::Aes256Cbc => "http://www.w3.org/2001/04/xmlenc#aes256-cbc",
            XmlSecSignatureMethod::KWAes128 => "http://www.w3.org/2001/04/xmlenc#kw-aes128",
            XmlSecSignatureMethod::KWAes192 => "http://www.w3.org/2001/04/xmlenc#kw-aes192",
            XmlSecSignatureMethod::KWAes256 => "http://www.w3.org/2001/04/xmlenc#kw-aes256",
            XmlSecSignatureMethod::Des3Cbc => "http://www.w3.org/2001/04/xmlenc#tripledes-cbc",
            XmlSecSignatureMethod::KWDes3 => "http://www.w3.org/2001/04/xmlenc#kw-tripledes",
            XmlSecSignatureMethod::DsaSha1 => "http://www.w3.org/2000/09/xmldsig#dsa-sha1",
            XmlSecSignatureMethod::DsaSha256 => "http://www.w3.org/2009/xmldsig11#dsa-sha256",
            XmlSecSignatureMethod::EcdsaSha1 => "http://www.w3.org/2001/04/xmldsig-more#ecdsa-sha1",
            XmlSecSignatureMethod::EcdsaSha224 => "http://www.w3.org/2001/04/xmldsig-more#ecdsa-sha224",
            XmlSecSignatureMethod::EcdsaSha256 => "http://www.w3.org/2001/04/xmldsig-more#ecdsa-sha256",
            XmlSecSignatureMethod::EcdsaSha384 => "http://www.w3.org/2001/04/xmldsig-more#ecdsa-sha384",
            XmlSecSignatureMethod::EcdsaSha512 => "http://www.w3.org/2001/04/xmldsig-more#ecdsa-sha512",
            XmlSecSignatureMethod::HmacRipemd160 => "http://www.w3.org/2001/04/xmldsig-more#hmac-ripemd160",
            XmlSecSignatureMethod::HmacSha1 => "http://www.w3.org/2000/09/xmldsig#hmac-sha1",
            XmlSecSignatureMethod::HmacSha224 => "http://www.w3.org/2001/04/xmldsig-more#hmac-sha224",
            XmlSecSignatureMethod::HmacSha256 => "http://www.w3.org/2001/04/xmldsig-more#hmac-sha256",
            XmlSecSignatureMethod::HmacSha384 => "http://www.w3.org/2001/04/xmldsig-more#hmac-sha384",
            XmlSecSignatureMethod::HmacSha512 => "http://www.w3.org/2001/04/xmldsig-more#hmac-sha512",
            XmlSecSignatureMethod::Ripemd160 => "http://www.w3.org/2001/04/xmlenc#ripemd160",
            XmlSecSignatureMethod::RsaRipemd160 => "http://www.w3.org/2001/04/xmldsig-more#rsa-ripemd160",
            XmlSecSignatureMethod::RsaSha1 => "http://www.w3.org/2000/09/xmldsig#rsa-sha1",
            XmlSecSignatureMethod::RsaSha224 => "http://www.w3.org/2001/04/xmldsig-more#rsa-sha224",
            XmlSecSignatureMethod::RsaSha256 => "http://www.w3.org/2001/04/xmldsig-more#rsa-sha256",
            XmlSecSignatureMethod::RsaSha384 => "http://www.w3.org/2001/04/xmldsig-more#rsa-sha384",
            XmlSecSignatureMethod::RsaSha512 => "http://www.w3.org/2001/04/xmldsig-more#rsa-sha512",
            XmlSecSignatureMethod::RsaPkcs1 => "http://www.w3.org/2001/04/xmlenc#rsa-1_5",
            XmlSecSignatureMethod::RsaOaep => "http://www.w3.org/2001/04/xmlenc#rsa-oaep-mgf1p",
            XmlSecSignatureMethod::Sha1 => "http://www.w3.org/2000/09/xmldsig#sha1",
            XmlSecSignatureMethod::Sha224 => "http://www.w3.org/2001/04/xmldsig-more#sha224",
            XmlSecSignatureMethod::Sha256 => "http://www.w3.org/2001/04/xmlenc#sha256",
            XmlSecSignatureMethod::Sha384 => "http://www.w3.org/2001/04/xmldsig-more#sha384",
            XmlSecSignatureMethod::Sha512 => "http://www.w3.org/2001/04/xmlenc#sha512",
        }
    }

    /// The backend's short name of this method.
    pub fn name(&self) -> (r: &'static str)
        ensures
            r@ == signature_name(*self),
    {
        match self {
            XmlSecSignatureMethod::Aes128Cbc => "aes128-cbc",
            XmlSecSignatureMethod::Aes192Cbc => "aes192-cbc",
            XmlSecSignatureMethod::Aes256Cbc => "aes256-cbc",
            XmlSecSignatureMethod::KWAes128 => "kw-aes128",
            XmlSecSignatureMethod::KWAes192 => "kw-aes192",
            XmlSecSignatureMethod::KWAes256 => "kw-aes256",
            XmlSecSignatureMethod::Des3Cbc => "tripledes-cbc",
            XmlSecSignatureMethod::KWDes3 => "kw-tripledes",
            XmlSecSignatureMethod::DsaSha1 => "dsa-sha1",
            XmlSecSignatureMethod::DsaSha256 => "dsa-sha256",
            XmlSecSignatureMethod::EcdsaSha1 => "ecdsa-sha1",
            XmlSecSignatureMethod::EcdsaSha224 => "ecdsa-sha224",
            XmlSecSignatureMethod::EcdsaSha256 => "ecdsa-sha256",
            XmlSecSignatureMethod::EcdsaSha384 => "ecdsa-sha384",
            XmlSecSignatureMethod::EcdsaSha512 => "ecdsa-sha512",
            XmlSecSignatureMethod::HmacRipemd160 => "hmac-ripemd160",
            XmlSecSignatureMethod::HmacSha1 => "hmac-sha1",
            XmlSecSignatureMethod::HmacSha224 => "hmac-sha224",
            XmlSecSignatureMethod::HmacSha256 => "hmac-sha256",
            XmlSecSignatureMethod::HmacSha384 => "hmac-sha384",
            XmlSecSignatureMethod::HmacSha512 => "hmac-sha512",
            XmlSecSignatureMethod::Ripemd160 => "ripemd160",
            XmlSecSignatureMethod::RsaRipemd160 => "rsa-ripemd160",
            XmlSecSignatureMethod::RsaSha1 => "rsa-sha1",
            XmlSecSignatureMethod::RsaSha224 => "rsa-sha224",
            XmlSecSignatureMethod::RsaSha256 => "rsa-sha256",
            XmlSecSignatureMethod::RsaSha384 => "rsa-sha384",
            XmlSecSignatureMethod::RsaSha512 => "rsa-sha512",
            XmlSecSignatureMethod::RsaPkcs1 => "rsa-1_5",
            XmlSecSignatureMethod::RsaOaep => "rsa-oaep-mgf1p",
            XmlSecSignatureMethod::Sha1 => "sha1",
            XmlSecSignatureMethod::Sha224 => "sha224",
            XmlSecSignatureMethod::Sha256 => "sha256",
            XmlSecSignatureMethod::Sha384 => "sha384",
            XmlSecSignatureMethod::Sha512 => "sha512",
        }
    }

    /// Every method, in declaration order.
    pub fn all() -> (r: Vec<Self>)
        ensures
            r@ == all_signature_methods(),
    {
        let r = vec![
            XmlSecSignatureMethod::Aes128Cbc,
            XmlSecSignatureMethod::Aes192Cbc,
            XmlSecSignatureMethod::Aes256Cbc,
            XmlSecSignatureMethod::KWAes128,
            XmlSecSignatureMethod::KWAes192,
            XmlSecSignatureMethod::KWAes256,
            XmlSecSignatureMethod::Des3Cbc,
            XmlSecSignatureMethod::KWDes3,
            XmlSecSignatureMethod::DsaSha1,
            XmlSecSignatureMethod::DsaSha256,
            XmlSecSignatureMethod::EcdsaSha1,
            XmlSecSignatureMethod::EcdsaSha224,
            XmlSecSignatureMethod::EcdsaSha256,
            XmlSecSignatureMethod::EcdsaSha384,
            XmlSecSignatureMethod::EcdsaSha512,
            XmlSecSignatureMethod::HmacRipemd160,
            XmlSecSignatureMethod::HmacSha1,
            XmlSecSignatureMethod::HmacSha224,
            XmlSecSignatureMethod::HmacSha256,
            XmlSecSignatureMethod::HmacSha384,
            XmlSecSignatureMethod::HmacSha512,
            XmlSecSignatureMethod::Ripemd160,
            XmlSecSignatureMethod::RsaRipemd160,
            XmlSecSignatureMethod::RsaSha1,
            XmlSecSignatureMethod::RsaSha224,
            XmlSecSignatureMethod::RsaSha256,
            XmlSecSignatureMethod::RsaSha384,
            XmlSecSignatureMethod::RsaSha512,
            XmlSecSignatureMethod::RsaPkcs1,
            XmlSecSignatureMethod::RsaOaep,
            XmlSecSignatureMethod::Sha1,
            XmlSecSignatureMethod::Sha224,
            XmlSecSignatureMethod::Sha256,
            XmlSecSignatureMethod::Sha384,
            XmlSecSignatureMethod::Sha512,
        ];
        assert(r@ =~= all_signature_methods());
        r
    }

    /// The method whose backend name is `name`: the first in declaration
    /// order, or `None` when no method has that name.
    pub fn from_name(name: &str) -> (r: Option<Self>)
        ensures
            r.is_some() ==> signature_name(r.unwrap()) == name@,
            r.is_none() <==> (forall|m: XmlSecSignatureMethod| signature_name(m) != name@),
    {
        let all = Self::all();
        let mut i: usize = 0;
        while i < all.len()
            invariant
                all@ == all_signature_methods(),
                i <= all@.len(),
                forall|j: int| 0 <= j < i ==> signature_name(#[trigger] all@[j]) != name@,
            decreases all.len() - i,
        {
            if text_equal(all[i].name(), name) {
                return Some(all[i]);
            }
            i = i + 1;
        }
        proof {
            assert forall|m: XmlSecSignatureMethod| signature_name(m) != name@ by {
                lemma_all_signature_methods_complete(m);
                let k = all@.index_of(m);
                assert(all@[k] == m);
            }
        }
        None
    }

    /// The method whose algorithm identifier is `href`: the first in
    /// declaration order, or `None` when no method has that identifier.
    pub fn from_href(href: &str) -> (r: Option<Self>)
        ensures
            r.is_some() ==> signature_href(r.unwrap()) == href@,
            r.is_none() <==> (forall|m: XmlSecSignatureMethod| signature_href(m) != href@),
    {
        let all = Self::all();
        let mut i: usize = 0;
        while i < all.len()
            invariant
                all@ == all_signature_methods(),
                i <= all@.len(),
                forall|j: int| 0 <= j < i ==> signature_href(#[trigger] all@[j]) != href@,
            decreases all.len() - i,
        {
            if text_equal(all[i].href(), href) {
                return Some(all[i]);
            }
            i = i + 1;
        }
        proof {
            assert forall|m: XmlSecSignatureMethod| signature_href(m) != href@ by {
                lemma_all_signature_methods_complete(m);
                let k = all@.index_of(m);
                assert(all@[k] == m);
            }
        }
        None
    }
}

} // verus!
