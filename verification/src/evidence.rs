//! Attestation evidence, as the transport hands it to the evidence callback.

use crate::canonical::{Measurement, MEASUREMENT_LEN};
use vstd::prelude::*;

verus! {

/// The transport's tag for evidence of an SGX enclave with an ECDSA quote.
pub const TAG_SGX_ECDSA: u32 = 1;

/// The transport's tag for CSV evidence.
pub const TAG_CSV: u32 = 5;

/// The kinds of evidence that can be judged, and one for all the others.
#[derive(Clone, Copy, Debug, PartialEq, Eq, Structural)]
pub enum EvidenceKind {
    SgxEcdsa,
    Csv,
    Unsupported,
}

/// The kind of evidence that a tag of the transport announces.
pub open spec fn kind_of_tag(tag: u32) -> EvidenceKind {
    if tag == TAG_SGX_ECDSA {
        EvidenceKind::SgxEcdsa
    } else if tag == TAG_CSV {
        EvidenceKind::Csv
    } else {
        EvidenceKind::Unsupported
    }
}

impl EvidenceKind {
    /// Classifies a tag. Every tag but the two known ones is unsupported.
    pub fn from_tag(tag: u32) -> (kind: EvidenceKind)
        ensures
            kind == kind_of_tag(tag),
    {
        if tag == TAG_SGX_ECDSA {
            EvidenceKind::SgxEcdsa
        } else if tag == TAG_CSV {
            EvidenceKind::Csv
        } else {
            EvidenceKind::Unsupported
        }
    }
}

/// Evidence of an SGX enclave.
#[derive(Clone, Copy, Debug, PartialEq, Eq)]
pub struct SgxEvidence {
    /// Measurement of the enclave.
    pub mr_enclave: Measurement,
    /// Measurement of the enclave's signer.
    pub mr_signer: Measurement,
    /// Product identifier of the enclave.
    pub product_id: u32,
    /// Security version of the enclave.
    pub security_version: u32,
}

/// CSV evidence.
#[derive(Clone, Copy, Debug, PartialEq, Eq)]
pub struct CsvEvidence {
    /// Measurement of the guest.
    pub measure: Measurement,
}

/// One piece of evidence, by kind. Evidence that cannot be judged keeps
/// only its tag.
#[derive(Clone, Copy, Debug, PartialEq, Eq)]
pub enum Evidence {
    SgxEcdsa(SgxEvidence),
    Csv(CsvEvidence),
    /// Evidence of a known kind whose fields could not be read.
    Malformed(u32),
    /// Evidence of a kind that is not known.
    Unsupported(u32),
}

/// The measurement held by a field of raw evidence, if the field is there
/// and has the length of a measurement.
pub open spec fn measurement_in(field: Option<&[u8]>) -> Option<Seq<u8>> {
    match field {
        Some(bytes) => if bytes@.len() == MEASUREMENT_LEN {
            Some(bytes@)
        } else {
            None
        },
        None => None,
    }
}

/// Reads a measurement from a field of raw evidence.
fn read_measurement(field: Option<&[u8]>) -> (r: Option<Measurement>)
    ensures
        match r {
            Some(m) => measurement_in(field) == Some(m@),
            None => measurement_in(field).is_none(),
        },
{
    match field {
        Some(bytes) => Measurement::from_slice(bytes),
        None => None,
    }
}

impl Evidence {
    /// SGX evidence from its raw fields. Where a measurement is missing or
    /// has not the length of one, the evidence is malformed.
    pub fn sgx_from_raw(
        mr_enclave: Option<&[u8]>,
        mr_signer: Option<&[u8]>,
        product_id: u32,
        security_version: u32,
    ) -> (evidence: Evidence)
        ensures
            match (measurement_in(mr_enclave), measurement_in(mr_signer)) {
                (Some(enclave), Some(signer)) => {
                    &&& evidence matches Evidence::SgxEcdsa(ev)
                    &&& ev.mr_enclave@ == enclave
                    &&& ev.mr_signer@ == signer
                    &&& ev.product_id == product_id
                    &&& ev.security_version == security_version
                },
                _ => evidence == Evidence::Malformed(TAG_SGX_ECDSA),
            },
    {
        match (read_measurement(mr_enclave), read_measurement(mr_signer)) {
            (Some(mr_enclave), Some(mr_signer)) => Evidence::SgxEcdsa(
                SgxEvidence { mr_enclave, mr_signer, product_id, security_version },
            ),
            _ => Evidence::Malformed(TAG_SGX_ECDSA),
        }
    }

    /// CSV evidence from its raw field. Where the measurement is missing or
    /// has not the length of one, the evidence is malformed.
    pub fn csv_from_raw(measure: Option<&[u8]>) -> (evidence: Evidence)
        ensures
            match measurement_in(measure) {
                Some(bytes) => evidence matches Evidence::Csv(ev) && ev.measure@ == bytes,
                None => evidence == Evidence::Malformed(TAG_CSV),
            },
    {
        match read_measurement(measure) {
            Some(measure) => Evidence::Csv(CsvEvidence { measure }),
            None => Evidence::Malformed(TAG_CSV),
        }
    }
}

} // verus!
