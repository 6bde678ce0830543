//! Process-wide runtime of the engine: the error reasons that the backend
//! reports, the order of its initialisation and teardown, and the lookup of
//! an error message by reason code.

use vstd::prelude::*;

verus! {

/// Reason code that the crypto backend attaches to an error it reports.
#[derive(Debug, Clone, Copy, PartialEq, Eq, Structural)]
pub enum XmlSecErrorReason {
    NoError,
    Unknown,
    XmlSecFailed,
    MallocFailed,
    StrdupFailed,
    CryptoFailed,
    XmlFailed,
    XsltFailed,
    IoFailed,
    Disabled,
    NotImplemented,
    InvalidConfig,
    InvalidSize,
    InvalidData,
    InvalidResult,
    InvalidType,
    InvalidOperation,
    InvalidStatus,
    InvalidFormat,
    DataNotMatch,
    InvalidVersion,
    InvalidNode,
    InvalidNodeContent,
    InvalidNodeAttribute,
    MissingNodeAttribute,
    NodeAlreadyPresent,
    UnexpectedNode,
    NodeNotFound,
    InvalidTransform,
    InvalidTransformKey,
    InvalidUriType,
    TransformSameDocumentRequired,
    TransformDisabled,
    InvalidAlgorithm,
    InvalidKeyData,
    KeyDataNotFound,
    KeyDataAlreadyExist,
    InvalidKeyDataSize,
    KeyNotFound,
    KeyDataDisabled,
    MaxRetrievalsLevel,
    MaxRetrievalTypeMismatch,
    MaxEncKeyLevel,
    CertVerifyFailed,
    CertNotFound,
    CertRevoked,
    CertIssuerFailed,
    CertNotYetValid,
    CertHasExpired,
    CrlVerifyFailed,
    CrlNotYetValid,
    CrlHasExpired,
    DsigNoReferences,
    DsigInvalidReference,
    Assertion,
    CastImpossible,
}

/// The reason that a backend reason code stands for; codes that the backend
/// does not define map to `Unknown`.
pub open spec fn reason_of_code(code: i32) -> XmlSecErrorReason {
    match code {
        0 => XmlSecErrorReason::NoError,
        1 => XmlSecErrorReason::XmlSecFailed,
        2 => XmlSecErrorReason::MallocFailed,
        3 => XmlSecErrorReason::StrdupFailed,
        4 => XmlSecErrorReason::CryptoFailed,
        5 => XmlSecErrorReason::XmlFailed,
        6 => XmlSecErrorReason::XsltFailed,
        7 => XmlSecErrorReason::IoFailed,
        8 => XmlSecErrorReason::Disabled,
        9 => XmlSecErrorReason::NotImplemented,
        10 => XmlSecErrorReason::InvalidConfig,
        11 => XmlSecErrorReason::InvalidSize,
        12 => XmlSecErrorReason::InvalidData,
        13 => XmlSecErrorReason::InvalidResult,
        14 => XmlSecErrorReason::InvalidType,
        15 => XmlSecErrorReason::InvalidOperation,
        16 => XmlSecErrorReason::InvalidStatus,
        17 => XmlSecErrorReason::InvalidFormat,
        18 => XmlSecErrorReason::DataNotMatch,
        19 => XmlSecErrorReason::InvalidVersion,
        21 => XmlSecErrorReason::InvalidNode,
        22 => XmlSecErrorReason::InvalidNodeContent,
        23 => XmlSecErrorReason::InvalidNodeAttribute,
        25 => XmlSecErrorReason::MissingNodeAttribute,
        26 => XmlSecErrorReason::NodeAlreadyPresent,
        27 => XmlSecErrorReason::UnexpectedNode,
        28 => XmlSecErrorReason::NodeNotFound,
        31 => XmlSecErrorReason::InvalidTransform,
        32 => XmlSecErrorReason::InvalidTransformKey,
        33 => XmlSecErrorReason::InvalidUriType,
        34 => XmlSecErrorReason::TransformSameDocumentRequired,
        35 => XmlSecErrorReason::TransformDisabled,
        36 => XmlSecErrorReason::InvalidAlgorithm,
        41 => XmlSecErrorReason::InvalidKeyData,
        42 => XmlSecErrorReason::KeyDataNotFound,
        43 => XmlSecErrorReason::KeyDataAlreadyExist,
        44 => XmlSecErrorReason::InvalidKeyDataSize,
        45 => XmlSecErrorReason::KeyNotFound,
        46 => XmlSecErrorReason::KeyDataDisabled,
        51 => XmlSecErrorReason::MaxRetrievalsLevel,
        52 => XmlSecErrorReason::MaxRetrievalTypeMismatch,
        61 => XmlSecErrorReason::MaxEncKeyLevel,
        71 => XmlSecErrorReason::CertVerifyFailed,
        72 => XmlSecErrorReason::CertNotFound,
        73 => XmlSecErrorReason::CertRevoked,
        74 => XmlSecErrorReason::CertIssuerFailed,
        75 => XmlSecErrorReason::CertNotYetValid,
        76 => XmlSecErrorReason::CertHasExpired,
        77 => XmlSecErrorReason::CrlVerifyFailed,
        78 => XmlSecErrorReason::CrlNotYetValid,
        79 => XmlSecErrorReason::CrlHasExpired,
        81 => XmlSecErrorReason::DsigNoReferences,
        82 => XmlSecErrorReason::DsigInvalidReference,
        100 => XmlSecErrorReason::Assertion,
        101 => XmlSecErrorReason::CastImpossible,
        _ => XmlSecErrorReason::Unknown,
    }
}

/// The backend reason code of a reason; `Unknown` has none.
pub open spec fn code_of_reason(r: XmlSecErrorReason) -> Option<i32> {
    match r {
        XmlSecErrorReason::Unknown => None,
        XmlSecErrorReason::NoError => Some(0i32),
        XmlSecErrorReason::XmlSecFailed => Some(1i32),
        XmlSecErrorReason::MallocFailed => Some(2i32),
        XmlSecErrorReason::StrdupFailed => Some(3i32),
        XmlSecErrorReason::CryptoFailed => Some(4i32),
        XmlSecErrorReason::XmlFailed => Some(5i32),
        XmlSecErrorReason::XsltFailed => Some(6i32),
        XmlSecErrorReason::IoFailed => Some(7i32),
        XmlSecErrorReason::Disabled => Some(8i32),
        XmlSecErrorReason::NotImplemented => Some(9i32),
        XmlSecErrorReason::InvalidConfig => Some(10i32),
        XmlSecErrorReason::InvalidSize => Some(11i32),
        XmlSecErrorReason::InvalidData => Some(12i32),
        XmlSecErrorReason::InvalidResult => Some(13i32),
        XmlSecErrorReason::InvalidType => Some(14i32),
        XmlSecErrorReason::InvalidOperation => Some(15i32),
        XmlSecErrorReason::InvalidStatus => Some(16i32),
        XmlSecErrorReason::InvalidFormat => Some(17i32),
        XmlSecErrorReason::DataNotMatch => Some(18i32),
        XmlSecErrorReason::InvalidVersion => Some(19i32),
        XmlSecErrorReason::InvalidNode => Some(21i32),
        XmlSecErrorReason::InvalidNodeContent => Some(22i32),
        XmlSecErrorReason::InvalidNodeAttribute => Some(23i32),
        XmlSecErrorReason::MissingNodeAttribute => Some(25i32),
        XmlSecErrorReason::NodeAlreadyPresent => Some(26i32),
        XmlSecErrorReason::UnexpectedNode => Some(27i32),
        XmlSecErrorReason::NodeNotFound => Some(28i32),
        XmlSecErrorReason::InvalidTransform => Some(31i32),
        XmlSecErrorReason::InvalidTransformKey => Some(32i32),
        XmlSecErrorReason::InvalidUriType => Some(33i32),
        XmlSecErrorReason::TransformSameDocumentRequired => Some(34i32),
        XmlSecErrorReason::TransformDisabled => Some(35i32),
        XmlSecErrorReason::InvalidAlgorithm => Some(36i32),
        XmlSecErrorReason::InvalidKeyData => Some(41i32),
        XmlSecErrorReason::KeyDataNotFound => Some(42i32),
        XmlSecErrorReason::KeyDataAlreadyExist => Some(43i32),
        XmlSecErrorReason::InvalidKeyDataSize => Some(44i32),
        XmlSecErrorReason::KeyNotFound => Some(45i32),
        XmlSecErrorReason::KeyDataDisabled => Some(46i32),
        XmlSecErrorReason::MaxRetrievalsLevel => Some(51i32),
        XmlSecErrorReason::MaxRetrievalTypeMismatch => Some(52i32),
        XmlSecErrorReason::MaxEncKeyLevel => Some(61i32),
        XmlSecErrorReason::CertVerifyFailed => Some(71i32),
        XmlSecErrorReason::CertNotFound => Some(72i32),
        XmlSecErrorReason::CertRevoked => Some(73i32),
        XmlSecErrorReason::CertIssuerFailed => Some(74i32),
        XmlSecErrorReason::CertNotYetValid => Some(75i32),
        XmlSecErrorReason::CertHasExpired => Some(76i32),
        XmlSecErrorReason::CrlVerifyFailed => Some(77i32),
        XmlSecErrorReason::CrlNotYetValid => Some(78i32),
        XmlSecErrorReason::CrlHasExpired => Some(79i32),
        XmlSecErrorReason::DsigNoReferences => Some(81i32),
        XmlSecErrorReason::DsigInvalidReference => Some(82i32),
        XmlSecErrorReason::Assertion => Some(100i32),
        XmlSecErrorReason::CastImpossible => Some(101i32),
    }
}

impl From<i32> for XmlSecErrorReason {
    fn from(reason: i32) -> (r: Self)
        ensures
            r == reason_of_code(reason),
    {
        match reason {
            0 => XmlSecErrorReason::NoError,
            1 => XmlSecErrorReason::XmlSecFailed,
            2 => XmlSecErrorReason::MallocFailed,
            3 => XmlSecErrorReason::StrdupFailed,
            4 => XmlSecErrorReason::CryptoFailed,
            5 => XmlSecErrorReason::XmlFailed,
            6 => XmlSecErrorReason::XsltFailed,
            7 => XmlSecErrorReason::IoFailed,
            8 => XmlSecErrorReason::Disabled,
            9 => XmlSecErrorReason::NotImplemented,
            10 => XmlSecErrorReason::InvalidConfig,
            11 => XmlSecErrorReason::InvalidSize,
            12 => XmlSecErrorReason::InvalidData,
            13 => XmlSecErrorReason::InvalidResult,
            14 => XmlSecErrorReason::InvalidType,
            15 => XmlSecErrorReason::InvalidOperation,
            16 => XmlSecErrorReason::InvalidStatus,
            17 => XmlSecErrorReason::InvalidFormat,
            18 => XmlSecErrorReason::DataNotMatch,
            19 => XmlSecErrorReason::InvalidVersion,
            21 => XmlSecErrorReason::InvalidNode,
            22 => XmlSecErrorReason::InvalidNodeContent,
            23 => XmlSecErrorReason::InvalidNodeAttribute,
            25 => XmlSecErrorReason::MissingNodeAttribute,
            26 => XmlSecErrorReason::NodeAlreadyPresent,
            27 => XmlSecErrorReason::UnexpectedNode,
            28 => XmlSecErrorReason::NodeNotFound,
            31 => XmlSecErrorReason::InvalidTransform,
            32 => XmlSecErrorReason::InvalidTransformKey,
            33 => XmlSecErrorReason::InvalidUriType,
            34 => XmlSecErrorReason::TransformSameDocumentRequired,
            35 => XmlSecErrorReason::TransformDisabled,
            36 => XmlSecErrorReason::InvalidAlgorithm,
            41 => XmlSecErrorReason::InvalidKeyData,
            42 => XmlSecErrorReason::KeyDataNotFound,
            43 => XmlSecErrorReason::KeyDataAlreadyExist,
            44 => XmlSecErrorReason::InvalidKeyDataSize,
            45 => XmlSecErrorReason::KeyNotFound,
            46 => XmlSecErrorReason::KeyDataDisabled,
            51 => XmlSecErrorReason::MaxRetrievalsLevel,
            52 => XmlSecErrorReason::MaxRetrievalTypeMismatch,
            61 => XmlSecErrorReason::MaxEncKeyLevel,
            71 => XmlSecErrorReason::CertVerifyFailed,
            72 => XmlSecErrorReason::CertNotFound,
            73 => XmlSecErrorReason::CertRevoked,
            74 => XmlSecErrorReason::CertIssuerFailed,
            75 => XmlSecErrorReason::CertNotYetValid,
            76 => XmlSecErrorReason::CertHasExpired,
            77 => XmlSecErrorReason::CrlVerifyFailed,
            78 => XmlSecErrorReason::CrlNotYetValid,
            79 => XmlSecErrorReason::CrlHasExpired,
            81 => XmlSecErrorReason::DsigNoReferences,
            82 => XmlSecErrorReason::DsigInvalidReference,
            100 => XmlSecErrorReason::Assertion,
            101 => XmlSecErrorReason::CastImpossible,
            _ => XmlSecErrorReason::Unknown,
        }
    }
}

impl vstd::std_specs::convert::FromSpecImpl<i32> for XmlSecErrorReason {
    open spec fn obeys_from_spec() -> bool {
        true
    }

    open spec fn from_spec(v: i32) -> Self {
        reason_of_code(v)
    }
}

impl XmlSecErrorReason {
    /// The backend reason code of this reason, `None` for `Unknown`.
    pub fn code(&self) -> (r: Option<i32>)
        ensures
            r == code_of_reason(*self),
    {
        match self {
            XmlSecErrorReason::Unknown => None,
            XmlSecErrorReason::NoError => Some(0i32),
            XmlSecErrorReason::XmlSecFailed => Some(1i32),
            XmlSecErrorReason::MallocFailed => Some(2i32),
            XmlSecErrorReason::StrdupFailed => Some(3i32),
            XmlSecErrorReason::CryptoFailed => Some(4i32),
            XmlSecErrorReason::XmlFailed => Some(5i32),
            XmlSecErrorReason::XsltFailed => Some(6i32),
            XmlSecErrorReason::IoFailed => Some(7i32),
            XmlSecErrorReason::Disabled => Some(8i32),
            XmlSecErrorReason::NotImplemented => Some(9i32),
            XmlSecErrorReason::InvalidConfig => Some(10i32),
            XmlSecErrorReason::InvalidSize => Some(11i32),
            XmlSecErrorReason::InvalidData => Some(12i32),
            XmlSecErrorReason::InvalidResult => Some(13i32),
            XmlSecErrorReason::InvalidType => Some(14i32),
            XmlSecErrorReason::InvalidOperation => Some(15i32),
            XmlSecErrorReason::InvalidStatus => Some(16i32),
            XmlSecErrorReason::InvalidFormat => Some(17i32),
            XmlSecErrorReason::DataNotMatch => Some(18i32),
            XmlSecErrorReason::InvalidVersion => Some(19i32),
            XmlSecErrorReason::InvalidNode => Some(21i32),
            XmlSecErrorReason::InvalidNodeContent => Some(22i32),
            XmlSecErrorReason::InvalidNodeAttribute => Some(23i32),
            XmlSecErrorReason::MissingNodeAttribute => Some(25i32),
            XmlSecErrorReason::NodeAlreadyPresent => Some(26i32),
            XmlSecErrorReason::UnexpectedNode => Some(27i32),
            XmlSecErrorReason::NodeNotFound => Some(28i32),
            XmlSecErrorReason::InvalidTransform => Some(31i32),
            XmlSecErrorReason::InvalidTransformKey => Some(32i32),
            XmlSecErrorReason::InvalidUriType => Some(33i32),
            XmlSecErrorReason::TransformSameDocumentRequired => Some(34i32),
            XmlSecErrorReason::TransformDisabled => Some(35i32),
            XmlSecErrorReason::InvalidAlgorithm => Some(36i32),
            XmlSecErrorReason::InvalidKeyData => Some(41i32),
            XmlSecErrorReason::KeyDataNotFound => Some(42i32),
            XmlSecErrorReason::KeyDataAlreadyExist => Some(43i32),
            XmlSecErrorReason::InvalidKeyDataSize => Some(44i32),
            XmlSecErrorReason::KeyNotFound => Some(45i32),
            XmlSecErrorReason::KeyDataDisabled => Some(46i32),
            XmlSecErrorReason::MaxRetrievalsLevel => Some(51i32),
            XmlSecErrorReason::MaxRetrievalTypeMismatch => Some(52i32),
            XmlSecErrorReason::MaxEncKeyLevel => Some(61i32),
            XmlSecErrorReason::CertVerifyFailed => Some(71i32),
            XmlSecErrorReason::CertNotFound => Some(72i32),
            XmlSecErrorReason::CertRevoked => Some(73i32),
            XmlSecErrorReason::CertIssuerFailed => Some(74i32),
            XmlSecErrorReason::CertNotYetValid => Some(75i32),
            XmlSecErrorReason::CertHasExpired => Some(76i32),
            XmlSecErrorReason::CrlVerifyFailed => Some(77i32),
            XmlSecErrorReason::CrlNotYetValid => Some(78i32),
            XmlSecErrorReason::CrlHasExpired => Some(79i32),
            XmlSecErrorReason::DsigNoReferences => Some(81i32),
            XmlSecErrorReason::DsigInvalidReference => Some(82i32),
            XmlSecErrorReason::Assertion => Some(100i32),
            XmlSecErrorReason::CastImpossible => Some(101i32),
        }
    }
}

/// Every reason but `Unknown` has a code, and reading that code back gives the
/// same reason; so no two reasons share a code.
pub proof fn lemma_reason_code_round_trip(r: XmlSecErrorReason)
    ensures
        r != XmlSecErrorReason::Unknown ==> code_of_reason(r).is_some(),
        code_of_reason(r).is_some() ==> reason_of_code(code_of_reason(r).unwrap()) == r,
{
}

/// A code that names a reason is that reason's code.
pub proof fn lemma_code_reason_round_trip(code: i32)
    ensures
        reason_of_code(code) != XmlSecErrorReason::Unknown ==> code_of_reason(reason_of_code(code))
            == Some(code),
{
}

/// One step of the backend's global initialisation; teardown runs the same
/// steps in reverse order.
#[derive(Debug, Clone, Copy, PartialEq, Eq, Structural)]
pub enum XmlSecInitStep {
    /// The core XML security library.
    Core,
    /// The crypto backend's application layer.
    CryptoApp,
    /// The crypto backend's algorithm tables.
    Crypto,
}

/// The order of initialisation.
pub open spec fn init_sequence() -> Seq<XmlSecInitStep> {
    seq![XmlSecInitStep::Core, XmlSecInitStep::CryptoApp, XmlSecInitStep::Crypto]
}

/// The order of teardown: initialisation reversed.
pub open spec fn cleanup_sequence() -> Seq<XmlSecInitStep> {
    seq![XmlSecInitStep::Crypto, XmlSecInitStep::CryptoApp, XmlSecInitStep::Core]
}

/// Teardown runs the initialisation steps in reverse order.
pub proof fn lemma_cleanup_reverses_init()
    ensures
        cleanup_sequence().len() == init_sequence().len(),
        forall|i: int|
            0 <= i < init_sequence().len() ==> cleanup_sequence()[i] == init_sequence()[init_sequence().len() - 1 - i],
{
    assert(cleanup_sequence().len() == 3);
    assert forall|i: int| 0 <= i < init_sequence().len() implies cleanup_sequence()[i] == init_sequence()[init_sequence().len() - 1 - i] by {
        if i == 0 {
        } else if i == 1 {
        } else {
        }
    }
}

/// The oldest OpenSSL release the backend runs on, as an
/// `OPENSSL_VERSION_NUMBER` (1.0.0).
pub const MIN_OPENSSL_VERSION: u64 = 0x1000_0000;

/// Whether an OpenSSL version number is recent enough.
pub fn version_supported(version: u64) -> (r: bool)
    ensures
        r == (version >= MIN_OPENSSL_VERSION),
{
    version >= MIN_OPENSSL_VERSION
}

/// The initialised global state of the engine.
pub struct XmlSecContext {
    steps: Vec<XmlSecInitStep>,
}

impl View for XmlSecContext {
    type V = Seq<XmlSecInitStep>;

    /// The initialisation steps that were run, in order.
    closed spec fn view(&self) -> Seq<XmlSecInitStep> {
        self.steps@
    }
}

impl XmlSecContext {
    /// The steps that ran are always the full initialisation, in order.
    #[verifier::type_invariant]
    spec fn well_formed(&self) -> bool {
        self.steps@ == init_sequence()
    }

    /// The global state right after the initialisation steps ran, in order.
    pub fn new() -> (r: Self)
        ensures
            r@ == init_sequence(),
    {
        let steps = vec![XmlSecInitStep::Core, XmlSecInitStep::CryptoApp, XmlSecInitStep::Crypto];
        assert(steps@ =~= init_sequence());
        XmlSecContext { steps }
    }

    /// The initialisation steps, in the order they ran.
    pub fn init_steps(&self) -> (r: Vec<XmlSecInitStep>)
        ensures
            r@ == self@,
    {
        let mut out: Vec<XmlSecInitStep> = Vec::new();
        let mut i: usize = 0;
        while i < self.steps.len()
            invariant
                i <= self.steps@.len(),
                out@ == self.steps@.take(i as int),
            decreases self.steps.len() - i,
        {
            out.push(self.steps[i]);
            i = i + 1;
            assert(out@ =~= self.steps@.take(i as int));
        }
        assert(self.steps@.take(i as int) =~= self.steps@);
        out
    }

    /// The teardown steps: the initialisation steps in reverse order.
    pub fn cleanup_steps(&self) -> (r: Vec<XmlSecInitStep>)
        ensures
            r@ == self@.reverse(),
    {
        let mut out: Vec<XmlSecInitStep> = Vec::new();
        let mut i: usize = self.steps.len();
        while i > 0
            invariant
                i <= self.steps@.len(),
                out@ == self.steps@.skip(i as int).reverse(),
            decreases i,
        {
            i = i - 1;
            out.push(self.steps[i]);
            assert(out@ =~= self.steps@.skip(i as int).reverse());
        }
        assert(self.steps@.skip(0) =~= self.steps@);
        out
    }
}

/// The process-wide runtime: initialised at most once, on first use.
pub struct XmlSecRuntime {
    context: Option<XmlSecContext>,
}

impl XmlSecRuntime {
    /// Whether the runtime is initialised.
    pub closed spec fn initialized(&self) -> bool {
        self.context is Some
    }

    /// A runtime that has not been initialised.
    pub fn new() -> (r: Self)
        ensures
            !r.initialized(),
    {
        XmlSecRuntime { context: None }
    }

    /// Whether the runtime is initialised.
    pub fn is_initialized(&self) -> (r: bool)
        ensures
            r == self.initialized(),
    {
        self.context.is_some()
    }

    /// Makes sure the runtime is initialised; returns the initialisation
    /// steps that the caller must run now: all of them, in order, on the
    /// first call, none afterwards.
    pub fn ensure_initialized(&mut self, openssl_version: u64) -> (r: Vec<XmlSecInitStep>)
        requires
            openssl_version >= MIN_OPENSSL_VERSION,
        ensures
            final(self).initialized(),
            !old(self).initialized() ==> r@ == init_sequence(),
            old(self).initialized() ==> r@.len() == 0,
    {
        if self.context.is_some() {
            Vec::new()
        } else {
            let ctx = XmlSecContext::new();
            let steps = ctx.init_steps();
            self.context = Some(ctx);
            steps
        }
    }

    /// Tears the runtime down; returns the teardown steps that the caller
    /// must run now: the initialisation steps reversed if it was
    /// initialised, none otherwise.
    pub fn shutdown(&mut self) -> (r: Vec<XmlSecInitStep>)
        ensures
            !final(self).initialized(),
            old(self).initialized() ==> r@ == cleanup_sequence(),
            !old(self).initialized() ==> r@.len() == 0,
    {
        match self.context.take() {
            Some(ctx) => {
                proof {
                    use_type_invariant(&ctx);
                    assert(init_sequence().reverse() =~= cleanup_sequence());
                }
                ctx.cleanup_steps()
            },
            None => Vec::new(),
        }
    }
}

/// Where the message for a reason code stands in the backend's message
/// table: the first entry whose code is `reason`, or `None` if no entry has
/// it.
pub fn find_error_message(codes: &[i32], reason: i32) -> (r: Option<usize>)
    ensures
        r is Some ==> r.unwrap() < codes@.len() && codes@[r.unwrap() as int] == reason && forall|
            j: int,
        |
            0 <= j < r.unwrap() ==> codes@[j] != reason,
        r is None ==> forall|j: int| 0 <= j < codes@.len() ==> codes@[j] != reason,
{
    let mut i: usize = 0;
    while i < codes.len()
        invariant
            i <= codes@.len(),
            forall|j: int| 0 <= j < i ==> codes@[j] != reason,
        decreases codes.len() - i,
    {
        if codes[i] == reason {
            return Some(i);
        }
        i = i + 1;
    }
    None
}

} // verus!
