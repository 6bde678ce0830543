//! Key manager: a trust store of certificates that a context consults to
//! resolve keys.

use vstd::prelude::*;

use crate::error::XmlSecError;
use crate::error::XmlSecResult;
use crate::keys::certificate_format;
use crate::keys::parse_certificate;
use crate::keys::certificate_views;
use crate::keys::XmlSecKeyDataType;
use crate::keys::XmlSecKeyFormat;
use crate::keys::KEY_DATA_TYPE_TRUSTED;
use crate::keys::MAX_LOAD_LEN;
use crate::primitives::copy_bytes;

verus! {

/// A trust store: the certificates loaded into it, in loading order. Every
/// one of them is loaded as trusted.
pub struct XmlSecKeysMngr {
    trusted: Vec<(Vec<u8>, XmlSecKeyFormat)>,
}

impl View for XmlSecKeysMngr {
    type V = Seq<(Seq<u8>, XmlSecKeyFormat)>;

    closed spec fn view(&self) -> Seq<(Seq<u8>, XmlSecKeyFormat)> {
        certificate_views(self.trusted@)
    }
}

impl XmlSecKeysMngr {
    /// An empty trust store.
    pub fn new() -> (r: Self)
        ensures
            r@ == Seq::<(Seq<u8>, XmlSecKeyFormat)>::empty(),
    {
        let r = XmlSecKeysMngr { trusted: Vec::new() };
        assert(r@ =~= Seq::<(Seq<u8>, XmlSecKeyFormat)>::empty());
        r
    }

    /// The data type with which certificates are loaded: always trusted.
    pub fn certificate_data_type(&self) -> (r: XmlSecKeyDataType)
        ensures
            r.bits() == KEY_DATA_TYPE_TRUSTED,
    {
        XmlSecKeyDataType::from_bits(KEY_DATA_TYPE_TRUSTED)
    }

    /// The number of trusted certificates.
    pub fn len(&self) -> (r: usize)
        ensures
            r == self@.len(),
    {
        self.trusted.len()
    }

    /// Adds certificate material that the backend parsed (`accepted`) or
    /// refused; a refused certificate leaves the store as it was.
    pub fn add_trusted(&mut self, data: &[u8], format: XmlSecKeyFormat, accepted: bool) -> (r:
        XmlSecResult<()>)
        ensures
            accepted ==> r is Ok && final(self)@ == old(self)@.push((data@, format)),
            !accepted ==> r == Err::<(), XmlSecError>(XmlSecError::CertLoadError) && final(self)@
                == old(self)@,
    {
        if accepted {
            let ghost before = self.trusted@;
            self.trusted.push((copy_bytes(data), format));
            assert(certificate_views(self.trusted@) =~= certificate_views(before).push(
                (data@, format),
            ));
            Ok(())
        } else {
            Err(XmlSecError::CertLoadError)
        }
    }

    /// Loads a certificate from memory into the trust store. PEM and DER
    /// material (plain or certificate formats) is parsed by OpenSSL.
    pub fn cert_load_from_memory(&mut self, data: &[u8], format: XmlSecKeyFormat) -> (r:
        XmlSecResult<()>)
        ensures
            !certificate_format(format) || data@.len() > MAX_LOAD_LEN ==> r is Err,
            r is Ok ==> final(self)@ == old(self)@.push((data@, format)),
            r is Err ==> r == Err::<(), XmlSecError>(XmlSecError::CertLoadError) && final(self)@
                == old(self)@,
    {
        if data.len() > MAX_LOAD_LEN {
            return Err(XmlSecError::CertLoadError);
        }
        let accepted = parse_certificate(data, format);
        self.add_trusted(data, format, accepted)
    }
}

} // verus!
