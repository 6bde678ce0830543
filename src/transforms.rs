//! Transforms and the transform chain executor.
//!
//! A chain is an ordered sequence of transforms. Executed against a node set,
//! its leading canonicalization (or inclusive C14N when it has none) turns the
//! node set into bytes; every following step then consumes the output of the
//! step before it, strictly in the order in which the steps were appended.

use vstd::prelude::*;

use crate::error::XmlSecError;
use crate::error::XmlSecResult;
use crate::primitives::sha1_digest_of;
use crate::primitives::base64_encoding_of;
use crate::primitives::base64_decoding_of;
use crate::primitives::MAX_BASE64_INPUT;
use crate::primitives::MAX_BASE64_TEXT;
use crate::primitives::BASE64_LINE_WIDTH;
use crate::primitives::sha1_digest;
use crate::primitives::base64_encode;
use crate::primitives::base64_decode;
use crate::primitives::wrap_lines;
use crate::primitives::strip_line_breaks;
use crate::primitives::wrap;
use crate::primitives::copy_bytes;
use crate::primitives::utf8_text;
use vstd::utf8::valid_utf8;
use crate::primitives::strip_breaks;

verus! {

/// Canonicalization algorithms, plus two byte transforms (a digest and an
/// encoding) that share the selector.
#[derive(Debug, Clone, Copy, PartialEq, Eq, Structural)]
pub enum XmlSecCanonicalizationMethod {
    InclusiveC14N,
    InclusiveC14NWithComments,
    InclusiveC14N11,
    InclusiveC14N11WithComments,
    ExclusiveC14N,
    ExclusiveC14NWithComments,
    Sha1,
    Base64,
}

/// The algorithm identifier of a method.
pub open spec fn method_href(m: XmlSecCanonicalizationMethod) -> Seq<char> {
    match m {
        XmlSecCanonicalizationMethod::InclusiveC14N => "http://www.w3.org/TR/2001/REC-xml-c14n-20010315"@,
        XmlSecCanonicalizationMethod::InclusiveC14NWithComments => "http://www.w3.org/TR/2001/REC-xml-c14n-20010315#WithComments"@,
        XmlSecCanonicalizationMethod::InclusiveC14N11 => "http://www.w3.org/2006/12/xml-c14n11"@,
        XmlSecCanonicalizationMethod::InclusiveC14N11WithComments => "http://www.w3.org/2006/12/xml-c14n11#WithComments"@,
        XmlSecCanonicalizationMethod::ExclusiveC14N => "http://www.w3.org/2001/10/xml-exc-c14n#"@,
        XmlSecCanonicalizationMethod::ExclusiveC14NWithComments => "http://www.w3.org/2001/10/xml-exc-c14n#WithComments"@,
        XmlSecCanonicalizationMethod::Sha1 => "http://www.w3.org/2000/09/xmldsig#sha1"@,
        XmlSecCanonicalizationMethod::Base64 => "http://www.w3.org/2000/09/xmldsig#base64"@,
    }
}

/// The backend's short name of a method.
pub open spec fn method_name(m: XmlSecCanonicalizationMethod) -> Seq<char> {
    match m {
        XmlSecCanonicalizationMethod::InclusiveC14N => "c14n"@,
        XmlSecCanonicalizationMethod::InclusiveC14NWithComments => "c14n-with-comments"@,
        XmlSecCanonicalizationMethod::InclusiveC14N11 => "c14n11"@,
        XmlSecCanonicalizationMethod::InclusiveC14N11WithComments => "c14n11-with-comments"@,
        XmlSecCanonicalizationMethod::ExclusiveC14N => "exc-c14n"@,
        XmlSecCanonicalizationMethod::ExclusiveC14NWithComments => "exc-c14n-with-comments"@,
        XmlSecCanonicalizationMethod::Sha1 => "sha1"@,
        XmlSecCanonicalizationMethod::Base64 => "base64"@,
    }
}

/// Whether a method is a true canonicalization algorithm, one that turns a
/// node set into bytes.
pub open spec fn is_canonicalization(m: XmlSecCanonicalizationMethod) -> bool {
    !(m is Sha1 || m is Base64)
}

/// Whether a canonicalization method keeps comment nodes.
pub open spec fn keeps_comments(m: XmlSecCanonicalizationMethod) -> bool {
    m is InclusiveC14NWithComments || m is InclusiveC14N11WithComments
        || m is ExclusiveC14NWithComments
}

/// The canonicalization mode code of libxml2's C14N engine for a method:
/// 0 for C14N 1.0, 1 for exclusive C14N 1.0, 2 for C14N 1.1; `None` for the
/// methods that are not canonicalizations.
pub open spec fn c14n_mode_of(m: XmlSecCanonicalizationMethod) -> Option<u32> {
    match m {
        XmlSecCanonicalizationMethod::InclusiveC14N
        | XmlSecCanonicalizationMethod::InclusiveC14NWithComments => Some(0),
        XmlSecCanonicalizationMethod::ExclusiveC14N
        | XmlSecCanonicalizationMethod::ExclusiveC14NWithComments => Some(1),
        XmlSecCanonicalizationMethod::InclusiveC14N11
        | XmlSecCanonicalizationMethod::InclusiveC14N11WithComments => Some(2),
        _ => None,
    }
}

/// A method has a canonicalization mode exactly when it is a
/// canonicalization.
pub proof fn lemma_mode_iff_canonicalization(m: XmlSecCanonicalizationMethod)
    ensures
        c14n_mode_of(m) is Some <==> is_canonicalization(m),
{
}

impl XmlSecCanonicalizationMethod {
    /// The canonicalization mode code of libxml2's C14N engine for this
    /// method, or `None` when it is not a canonicalization.
    pub fn c14n_mode(&self) -> (r: Option<u32>)
        ensures
            r == c14n_mode_of(*self),
    {
        match self {
            XmlSecCanonicalizationMethod::InclusiveC14N
            | XmlSecCanonicalizationMethod::InclusiveC14NWithComments => Some(0),
            XmlSecCanonicalizationMethod::ExclusiveC14N
            | XmlSecCanonicalizationMethod::ExclusiveC14NWithComments => Some(1),
            XmlSecCanonicalizationMethod::InclusiveC14N11
            | XmlSecCanonicalizationMethod::InclusiveC14N11WithComments => Some(2),
            _ => None,
        }
    }

    /// The algorithm identifier of this method.
    pub fn href(&self) -> (r: &'static str)
        ensures
            r@ == method_href(*self),
    {
        match self {
            XmlSecCanonicalizationMethod::InclusiveC14N => "http://www.w3.org/TR/2001/REC-xml-c14n-20010315",
            XmlSecCanonicalizationMethod::InclusiveC14NWithComments => "http://www.w3.org/TR/2001/REC-xml-c14n-20010315#WithComments",
            XmlSecCanonicalizationMethod::InclusiveC14N11 => "http://www.w3.org/2006/12/xml-c14n11",
            XmlSecCanonicalizationMethod::InclusiveC14N11WithComments => "http://www.w3.org/2006/12/xml-c14n11#WithComments",
            XmlSecCanonicalizationMethod::ExclusiveC14N => "http://www.w3.org/2001/10/xml-exc-c14n#",
            XmlSecCanonicalizationMethod::ExclusiveC14NWithComments => "http://www.w3.org/2001/10/xml-exc-c14n#WithComments",
            XmlSecCanonicalizationMethod::Sha1 => "http://www.w3.org/2000/09/xmldsig#sha1",
            XmlSecCanonicalizationMethod::Base64 => "http://www.w3.org/2000/09/xmldsig#base64",
        }
    }

    /// The backend's short name of this method.
    pub fn name(&self) -> (r: &'static str)
        ensures
            r@ == method_name(*self),
    {
        match self {
            XmlSecCanonicalizationMethod::InclusiveC14N => "c14n",
            XmlSecCanonicalizationMethod::InclusiveC14NWithComments => "c14n-with-comments",
            XmlSecCanonicalizationMethod::InclusiveC14N11 => "c14n11",
            XmlSecCanonicalizationMethod::InclusiveC14N11WithComments => "c14n11-with-comments",
            XmlSecCanonicalizationMethod::ExclusiveC14N => "exc-c14n",
            XmlSecCanonicalizationMethod::ExclusiveC14NWithComments => "exc-c14n-with-comments",
            XmlSecCanonicalizationMethod::Sha1 => "sha1",
            XmlSecCanonicalizationMethod::Base64 => "base64",
        }
    }

    /// Whether this method is a true canonicalization algorithm.
    pub fn is_canonicalization(&self) -> (r: bool)
        ensures
            r == is_canonicalization(*self),
    {
        !matches!(self, XmlSecCanonicalizationMethod::Sha1 | XmlSecCanonicalizationMethod::Base64)
    }

    /// Whether this canonicalization method keeps comment nodes.
    pub fn keeps_comments(&self) -> (r: bool)
        ensures
            r == keeps_comments(*self),
    {
        matches!(
            self,
            XmlSecCanonicalizationMethod::InclusiveC14NWithComments | XmlSecCanonicalizationMethod::InclusiveC14N11WithComments
                | XmlSecCanonicalizationMethod::ExclusiveC14NWithComments
        )
    }
}

/// Direction of a transform.
#[derive(Debug, Clone, Copy, PartialEq, Eq, Structural)]
pub enum XmlSecTransformOperation {
    NoOperation,
    Encode,
    Decode,
    Sign,
    Verify,
    Encrypt,
    Decrypt,
}

/// A single transform: a method and the direction it runs in.
#[derive(Debug, Clone, Copy, PartialEq, Eq, Structural)]
pub struct XmlSecTransform {
    pub method: XmlSecCanonicalizationMethod,
    pub operation: XmlSecTransformOperation,
}

impl XmlSecTransform {
    /// A transform of the given method, with no operation set.
    pub fn new(method: XmlSecCanonicalizationMethod) -> (r: Self)
        ensures
            r.method == method,
            r.operation == XmlSecTransformOperation::NoOperation,
    {
        XmlSecTransform { method, operation: XmlSecTransformOperation::NoOperation }
    }

    /// A transform of the given method and operation.
    pub fn with_operation(method: XmlSecCanonicalizationMethod, operation: XmlSecTransformOperation) -> (r: Self)
        ensures
            r.method == method,
            r.operation == operation,
    {
        let mut trans = Self::new(method);
        trans.set_operation(operation);
        trans
    }

    /// Sets the operation, keeping the method.
    pub fn set_operation(&mut self, operation: XmlSecTransformOperation)
        ensures
            final(self).method == old(self).method,
            final(self).operation == operation,
    {
        self.operation = operation;
    }
}


/// What one transform makes of the bytes handed to it, or `None` when it
/// fails: a canonicalization cannot take bytes, SHA-1 runs in the `Sign`
/// direction, base64 encodes (in lines of 64 columns) or decodes (ignoring
/// line breaks, on UTF-8 text), and every other pairing is refused.
pub open spec fn step_output(t: XmlSecTransform, input: Seq<u8>) -> Option<Seq<u8>> {
    match t.method {
        XmlSecCanonicalizationMethod::Sha1 => if t.operation is Sign {
            Some(sha1_digest_of(input))
        } else {
            None
        },
        XmlSecCanonicalizationMethod::Base64 => if t.operation is Encode {
            if input.len() <= MAX_BASE64_INPUT {
                Some(wrap_lines(base64_encoding_of(input), BASE64_LINE_WIDTH as nat))
            } else {
                None
            }
        } else if t.operation is Decode {
            if valid_utf8(strip_line_breaks(input)) && strip_line_breaks(input).len()
                <= MAX_BASE64_TEXT {
                base64_decoding_of(strip_line_breaks(input))
            } else {
                None
            }
        } else {
            None
        },
        _ => None,
    }
}

/// The bytes that a sequence of byte transforms makes of `input`, each step
/// consuming the previous step's output, or `None` when a step fails.
pub open spec fn run_steps(steps: Seq<XmlSecTransform>, input: Seq<u8>) -> Option<Seq<u8>>
    decreases steps.len(),
{
    if steps.len() == 0 {
        Some(input)
    } else {
        match run_steps(steps.drop_last(), input) {
            Some(mid) => step_output(steps.last(), mid),
            None => None,
        }
    }
}

/// The canonicalization that turns the node set into bytes: the chain's
/// leading step when that is a canonicalization, inclusive C14N otherwise.
pub open spec fn chain_canonicalization(steps: Seq<XmlSecTransform>) -> XmlSecCanonicalizationMethod {
    if steps.len() > 0 && is_canonicalization(steps[0].method) {
        steps[0].method
    } else {
        XmlSecCanonicalizationMethod::InclusiveC14N
    }
}

/// The steps that run on bytes: all but a leading canonicalization.
pub open spec fn byte_steps(steps: Seq<XmlSecTransform>) -> Seq<XmlSecTransform> {
    if steps.len() > 0 && is_canonicalization(steps[0].method) {
        steps.skip(1)
    } else {
        steps
    }
}

/// The result of executing a chain whose canonicalization produced
/// `canonical`: an empty chain or an empty output is `EmptyResultError`, a
/// failing step `TransformError`.
pub open spec fn chain_result(steps: Seq<XmlSecTransform>, canonical: Seq<u8>) -> XmlSecResult<
    Seq<u8>,
> {
    if steps.len() == 0 {
        Err(XmlSecError::EmptyResultError)
    } else {
        match run_steps(byte_steps(steps), canonical) {
            None => Err(XmlSecError::TransformError),
            Some(out) => if out.len() == 0 {
                Err(XmlSecError::EmptyResultError)
            } else {
                Ok(out)
            },
        }
    }
}

/// Runs one transform on bytes.
pub fn apply_step(t: &XmlSecTransform, input: &[u8]) -> (r: Option<Vec<u8>>)
    ensures
        r.is_some() == step_output(*t, input@).is_some(),
        r.is_some() ==> r.unwrap()@ == step_output(*t, input@).unwrap(),
{
    match t.method {
        XmlSecCanonicalizationMethod::Sha1 => {
            if matches!(t.operation, XmlSecTransformOperation::Sign) {
                Some(sha1_digest(input))
            } else {
                None
            }
        },
        XmlSecCanonicalizationMethod::Base64 => {
            if matches!(t.operation, XmlSecTransformOperation::Encode) {
                if input.len() <= MAX_BASE64_INPUT {
                    let encoded = base64_encode(input);
                    Some(wrap(encoded.as_slice(), BASE64_LINE_WIDTH))
                } else {
                    None
                }
            } else if matches!(t.operation, XmlSecTransformOperation::Decode) {
                let text = strip_breaks(input);
                if text.len() <= MAX_BASE64_TEXT {
                    match utf8_text(text.as_slice()) {
                        Some(t) => base64_decode(t),
                        None => None,
                    }
                } else {
                    None
                }
            } else {
                None
            }
        },
        _ => None,
    }
}

/// A transform chain: transforms in the order they were appended.
pub struct XmlSecTransformCtx {
    steps: Vec<XmlSecTransform>,
}

impl View for XmlSecTransformCtx {
    type V = Seq<XmlSecTransform>;

    closed spec fn view(&self) -> Seq<XmlSecTransform> {
        self.steps@
    }
}

impl XmlSecTransformCtx {
    /// An empty chain.
    pub fn new() -> (r: Self)
        ensures
            r@ == Seq::<XmlSecTransform>::empty(),
    {
        XmlSecTransformCtx { steps: Vec::new() }
    }

    /// Appends a transform at the tail; the chain owns it from now on.
    pub fn append(&mut self, transform: XmlSecTransform)
        ensures
            final(self)@ == old(self)@.push(transform),
    {
        self.steps.push(transform);
    }

    /// The transforms of the chain, in execution order.
    pub fn transforms(&self) -> (r: &[XmlSecTransform])
        ensures
            r@ == self@,
    {
        self.steps.as_slice()
    }

    /// The canonicalization with which the node set is to be turned into
    /// bytes before the chain's byte steps run.
    pub fn canonicalization(&self) -> (r: XmlSecCanonicalizationMethod)
        ensures
            r == chain_canonicalization(self@),
            is_canonicalization(r),
    {
        if self.steps.len() > 0 && self.steps[0].method.is_canonicalization() {
            self.steps[0].method
        } else {
            XmlSecCanonicalizationMethod::InclusiveC14N
        }
    }

    /// Executes the chain on the canonical bytes of its node set: every byte
    /// step in append order, each on the previous step's output. The result
    /// is an owned copy of the final buffer.
    pub fn execute_canonical(&self, canonical: &[u8]) -> (r: XmlSecResult<Vec<u8>>)
        ensures
            match chain_result(self@, canonical@) {
                Ok(out) => r is Ok && r.unwrap()@ == out,
                Err(e) => r == Err::<Vec<u8>, XmlSecError>(e),
            },
    {
        if self.steps.len() == 0 {
            return Err(XmlSecError::EmptyResultError);
        }
        let first: usize = if self.steps[0].method.is_canonicalization() { 1 } else { 0 };
        let ghost bs = byte_steps(self@);
        assert(bs =~= self@.subrange(first as int, self@.len() as int));
        let mut cur: Vec<u8> = copy_bytes(canonical);
        let mut i: usize = first;
        while i < self.steps.len()
            invariant
                first <= i <= self@.len(),
                bs == self@.subrange(first as int, self@.len() as int),
                bs == byte_steps(self@),
                self@.len() > 0,
                self.steps@ == self@,
                run_steps(bs.take(i - first), canonical@) == Some(cur@),
            decreases self@.len() - i,
        {
            assert(bs.take(i - first + 1).drop_last() =~= bs.take(i - first));
            assert(bs.take(i - first + 1).last() == self@[i as int]);
            match apply_step(&self.steps[i], cur.as_slice()) {
                Some(next) => {
                    cur = next;
                },
                None => {
                    proof {
                        let k = (i - first + 1) as int;
                        assert(step_output(self@[i as int], cur@) is None);
                        assert(run_steps(bs.take(k), canonical@) is None);
                        lemma_failed_prefix(bs, canonical@, (i - first + 1) as nat);
                    }
                    return Err(XmlSecError::TransformError);
                },
            }
            i = i + 1;
        }
        assert(bs.take(i - first) =~= bs);
        if cur.len() == 0 {
            Err(XmlSecError::EmptyResultError)
        } else {
            Ok(cur)
        }
    }
}

/// Once a prefix of the steps fails, every longer prefix fails too.
proof fn lemma_failed_prefix(steps: Seq<XmlSecTransform>, input: Seq<u8>, k: nat)
    requires
        k <= steps.len(),
        run_steps(steps.take(k as int), input) is None,
    ensures
        run_steps(steps, input) is None,
    decreases steps.len() - k,
{
    if k < steps.len() {
        assert(steps.take(k as int + 1).drop_last() =~= steps.take(k as int));
        lemma_failed_prefix(steps, input, k + 1);
    } else {
        assert(steps.take(k as int) =~= steps);
    }
}

/// Appending a transform runs it after every transform already in the
/// chain, on their output, and on nothing else.
pub proof fn lemma_append_runs_last(
    steps: Seq<XmlSecTransform>,
    t: XmlSecTransform,
    input: Seq<u8>,
)
    ensures
        run_steps(steps.push(t), input) == match run_steps(steps, input) {
            Some(mid) => step_output(t, mid),
            None => None,
        },
{
    assert(steps.push(t).drop_last() =~= steps);
}

/// Two chains built by the same appends, executed on the same canonical
/// bytes, give the same result: byte-identical output or the same error.
pub proof fn lemma_execution_deterministic(
    first: Seq<XmlSecTransform>,
    second: Seq<XmlSecTransform>,
    a: Seq<u8>,
    b: Seq<u8>,
)
    requires
        first == second,
        a == b,
    ensures
        chain_result(first, a) == chain_result(second, b),
{
}

/// What a chain reports for the output of its byte steps: a failure is
/// `TransformError`, an empty output `EmptyResultError`.
pub open spec fn finish_output(out: Option<Seq<u8>>) -> XmlSecResult<Seq<u8>> {
    match out {
        None => Err(XmlSecError::TransformError),
        Some(o) => if o.len() == 0 {
            Err(XmlSecError::EmptyResultError)
        } else {
            Ok(o)
        },
    }
}

/// The output of step `b` run on the output of step `a`.
pub open spec fn a_then_b(a: XmlSecTransform, b: XmlSecTransform, input: Seq<u8>) -> Option<Seq<u8>> {
    match step_output(a, input) {
        Some(mid) => step_output(b, mid),
        None => None,
    }
}

/// Chains `[a, b]` and `[b, a]` of byte steps run exactly in append order:
/// the first gives `b` applied to `a`'s output, the second `a` applied to
/// `b`'s output.
pub proof fn lemma_two_steps_in_append_order(
    a: XmlSecTransform,
    b: XmlSecTransform,
    input: Seq<u8>,
)
    requires
        !is_canonicalization(a.method),
        !is_canonicalization(b.method),
    ensures
        chain_result(seq![a, b], input) == finish_output(a_then_b(a, b, input)),
        chain_result(seq![b, a], input) == finish_output(a_then_b(b, a, input)),
{
    lemma_pair_runs_in_order(a, b, input);
    lemma_pair_runs_in_order(b, a, input);
}

proof fn lemma_pair_runs_in_order(a: XmlSecTransform, b: XmlSecTransform, input: Seq<u8>)
    requires
        !is_canonicalization(a.method),
    ensures
        chain_result(seq![a, b], input) == finish_output(a_then_b(a, b, input)),
{
    let one = seq![a];
    let two = seq![a, b];
    assert(two[0] == a);
    assert(byte_steps(two) == two);
    assert(one.drop_last() =~= Seq::<XmlSecTransform>::empty());
    assert(run_steps(Seq::<XmlSecTransform>::empty(), input) == Some(input));
    assert(one.last() == a);
    assert(run_steps(one, input) == step_output(a, input));
    assert(two.drop_last() =~= one);
    assert(two.last() == b);
    assert(run_steps(two, input) == a_then_b(a, b, input));
}

/// An empty chain never yields a successful result.
pub proof fn lemma_empty_chain_is_empty_result(canonical: Seq<u8>)
    ensures
        chain_result(Seq::<XmlSecTransform>::empty(), canonical) == Err::<Seq<u8>, XmlSecError>(
            XmlSecError::EmptyResultError,
        ),
{
}

/// A successful execution never yields an empty buffer.
pub proof fn lemma_success_is_nonempty(steps: Seq<XmlSecTransform>, canonical: Seq<u8>)
    ensures
        chain_result(steps, canonical) is Ok ==> chain_result(steps, canonical).unwrap().len() > 0,
{
}

} // verus!
