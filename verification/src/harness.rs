//! The differential harness: one payload is put to this library and to a
//! second, independent implementation of the same check, and the two have
//! to agree on success and on the answer.
use vstd::prelude::*;
use crate::errors::{ApiError, ErrorKind};
use crate::pairing_ops::{outcome, spec_pair, PairingApi, PublicPairingApi};

verus! {

/// The byte with which the second implementation is asked for a pairing check.
pub const OPERATION_PAIRING: u8 = 0x07;

/// The longest request the second implementation takes.
pub const MAX_REFERENCE_REQUEST: usize = 0xffff_ffff;

/// What the second implementation answers a request with: its output, or
/// the sentence of its error.
pub uninterp spec fn reference_outcome(request: Seq<u8>) -> Result<Seq<u8>, Seq<char>>;

/// Calls `eth_pairings_cpp::run`, which hands the request to the C++
/// implementation and returns its output or the description of its error.
/// It passes the length as 32 bits, so longer requests are excluded.  All
/// that is claimed is that the answer depends on the request alone.
#[verifier::external_body]
pub(crate) fn reference_run(request: &[u8]) -> (r: Result<Vec<u8>, String>)
    requires
        request@.len() <= MAX_REFERENCE_REQUEST,
    ensures
        reference_outcome(request@) == match r {
            Ok(v) => Ok::<Seq<u8>, Seq<char>>(v@),
            Err(e) => Err::<Seq<u8>, Seq<char>>(e@),
        },
{
    eth_pairings_cpp::run(request)
}

/// The hexadecimal digit of a number below 16, in lower case.
pub open spec fn hex_digit(n: int) -> char {
    seq!['0', '1', '2', '3', '4', '5', '6', '7', '8', '9', 'a', 'b', 'c', 'd', 'e', 'f'][n]
}

/// The bytes in hexadecimal: two digits for each byte, the high one first.
pub open spec fn hex_string(s: Seq<u8>) -> Seq<char> {
    Seq::new(
        2 * s.len(),
        |i: int|
            hex_digit(
                if i % 2 == 0 {
                    s[i / 2] as int / 16
                } else {
                    s[i / 2] as int % 16
                },
            ),
    )
}

/// Calls `hex::encode`, which encodes each byte with two hexadecimal digits
/// in lower case.
#[verifier::external_body]
pub(crate) fn hex_encode(data: &[u8]) -> (r: String)
    ensures
        r@ == hex_string(data@),
{
    hex::encode(data)
}

/// How the answers of the two implementations compare.
#[derive(Clone, Copy, Debug, PartialEq, Eq, Structural)]
pub enum Verdict {
    /// Both failed, or both succeeded with the same output.
    Agree,
    /// This library failed and the second implementation did not.
    NativeFailedOnly,
    /// The second implementation failed and this library did not.
    ReferenceFailedOnly,
    /// Both succeeded, with different outputs.
    OutputsDiffer,
}

/// How two answers compare.
pub open spec fn spec_verdict(
    native: Result<Seq<u8>, ErrorKind>,
    reference: Result<Seq<u8>, Seq<char>>,
) -> Verdict {
    match (native, reference) {
        (Err(_), Err(_)) => Verdict::Agree,
        (Err(_), Ok(_)) => Verdict::NativeFailedOnly,
        (Ok(_), Err(_)) => Verdict::ReferenceFailedOnly,
        (Ok(n), Ok(c)) => if n == c {
            Verdict::Agree
        } else {
            Verdict::OutputsDiffer
        },
    }
}

/// What is reported of a disagreement.
#[derive(Debug, Clone, PartialEq, Eq)]
pub struct MismatchReport {
    /// How the answers differ.
    pub verdict: Verdict,
    /// The payload in hexadecimal.
    pub input: String,
    /// The output of this library in hexadecimal, or the sentence of its error.
    pub native: String,
    /// The output of the second implementation in hexadecimal, or the
    /// sentence of its error.
    pub reference: String,
}

/// The value of a report.
pub struct MismatchReportV {
    pub verdict: Verdict,
    pub input: Seq<char>,
    pub native: Seq<char>,
    pub reference: Seq<char>,
}

impl View for MismatchReport {
    type V = MismatchReportV;

    open spec fn view(&self) -> MismatchReportV {
        MismatchReportV {
            verdict: self.verdict,
            input: self.input@,
            native: self.native@,
            reference: self.reference@,
        }
    }
}

/// What a call of this library ended in, with the sentence of an error.
pub open spec fn native_view(r: Result<Vec<u8>, ApiError>) -> Result<Seq<u8>, Seq<char>> {
    match r {
        Ok(v) => Ok(v@),
        Err(e) => Err(e.spec_message()),
    }
}

/// What a call of the second implementation ended in.
pub open spec fn reference_view(r: Result<Vec<u8>, String>) -> Result<Seq<u8>, Seq<char>> {
    match r {
        Ok(v) => Ok(v@),
        Err(e) => Err(e@),
    }
}

/// An output in hexadecimal, or the sentence of an error.
pub open spec fn describe(r: Result<Seq<u8>, Seq<char>>) -> Seq<char> {
    match r {
        Ok(v) => hex_string(v),
        Err(e) => e,
    }
}

/// The report on two answers to a payload: none where they agree.
pub open spec fn spec_report(
    data: Seq<u8>,
    native: Result<Vec<u8>, ApiError>,
    reference: Result<Vec<u8>, String>,
) -> Option<MismatchReportV> {
    let verdict = spec_verdict(outcome(native), reference_view(reference));
    if verdict == Verdict::Agree {
        None
    } else {
        Some(
            MismatchReportV {
                verdict,
                input: hex_string(data),
                native: describe(native_view(native)),
                reference: describe(reference_view(reference)),
            },
        )
    }
}

/// Whether two byte strings are the same.
pub fn same_bytes(a: &[u8], b: &[u8]) -> (r: bool)
    ensures
        r == (a@ == b@),
{
    if a.len() != b.len() {
        return false;
    }
    let mut i: usize = 0;
    while i < a.len()
        invariant
            a.len() == b.len(),
            i <= a.len(),
            forall|j: int| 0 <= j < i ==> a@[j] == b@[j],
        decreases a.len() - i,
    {
        if a[i] != b[i] {
            return false;
        }
        i = i + 1;
    }
    assert(a@ =~= b@);
    true
}

/// Compares the answers of the two implementations.
pub fn compare_outcomes(native: &Result<Vec<u8>, ApiError>, reference: &Result<Vec<u8>, String>)
    -> (v: Verdict)
    ensures
        v == spec_verdict(outcome(*native), reference_view(*reference)),
{
    match (native, reference) {
        (Err(_), Err(_)) => Verdict::Agree,
        (Err(_), Ok(_)) => Verdict::NativeFailedOnly,
        (Ok(_), Err(_)) => Verdict::ReferenceFailedOnly,
        (Ok(n), Ok(c)) => {
            if same_bytes(n.as_slice(), c.as_slice()) {
                Verdict::Agree
            } else {
                Verdict::OutputsDiffer
            }
        },
    }
}

/// Reports on the answers of the two implementations to a payload: nothing
/// where they agree, and else the payload and both answers.
pub fn mismatch_report(
    data: &[u8],
    native: &Result<Vec<u8>, ApiError>,
    reference: &Result<Vec<u8>, String>,
) -> (r: Option<MismatchReport>)
    ensures
        match r {
            Some(m) => spec_report(data@, *native, *reference) == Some(m@),
            None => spec_report(data@, *native, *reference) is None,
        },
{
    let verdict = compare_outcomes(native, reference);
    if verdict == Verdict::Agree {
        return None;
    }
    let native_text = match native {
        Ok(v) => hex_encode(v.as_slice()),
        Err(e) => e.message(),
    };
    let reference_text = match reference {
        Ok(v) => hex_encode(v.as_slice()),
        Err(e) => e.clone(),
    };
    Some(
        MismatchReport {
            verdict,
            input: hex_encode(data),
            native: native_text,
            reference: reference_text,
        },
    )
}

/// The request that asks the second implementation for the pairing check of a payload.
pub open spec fn reference_request(data: Seq<u8>) -> Seq<u8> {
    seq![OPERATION_PAIRING] + data
}

/// Puts a payload to both implementations and reports where they disagree.
pub fn differential_check(data: &[u8]) -> (r: Option<MismatchReport>)
    requires
        data@.len() < MAX_REFERENCE_REQUEST,
    ensures
        r is None <==> spec_verdict(spec_pair(data@), reference_outcome(reference_request(data@)))
            == Verdict::Agree,
        r is Some ==> r->0.verdict == spec_verdict(
            spec_pair(data@),
            reference_outcome(reference_request(data@)),
        ) && r->0.input@ == hex_string(data@) && r->0.reference@ == describe(
            reference_outcome(reference_request(data@)),
        ),
        r is Some && spec_pair(data@) is Ok ==> r->0.native@ == hex_string(spec_pair(data@)->Ok_0),
{
    let native = PublicPairingApi::pair(data);
    let mut request: Vec<u8> = Vec::new();
    request.push(OPERATION_PAIRING);
    let mut i: usize = 0;
    while i < data.len()
        invariant
            i <= data.len(),
            request@ == seq![OPERATION_PAIRING] + data@.take(i as int),
        decreases data.len() - i,
    {
        request.push(data[i]);
        assert(data@.take(i + 1) =~= data@.take(i as int).push(data@[i as int]));
        assert(seq![OPERATION_PAIRING] + data@.take(i as int).push(data@[i as int]) =~= (
        seq![OPERATION_PAIRING] + data@.take(i as int)).push(data@[i as int]));
        i = i + 1;
    }
    assert(data@.take(data@.len() as int) =~= data@);
    let reference = reference_run(request.as_slice());
    mismatch_report(data, &native, &reference)
}

} // verus!
