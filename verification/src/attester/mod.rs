//! Attesters: one per TEE, each producing evidence for a challenge, and the
//! detection that picks the TEE a host runs in.

use vstd::prelude::*;
use crate::error::{AgentError, ErrorKind, ErrorView};

pub mod cca;
pub mod sample;

verus! {

/// The TEE types the agent knows of. `Sample` is a dummy TEE for tests and
/// demos; `Unknown` is what detection yields on a host with no known TEE.
#[derive(Clone, Copy, Debug, PartialEq, Eq, Structural)]
pub enum Tee {
    Tdx,
    Sgx,
    Sevsnp,
    Sample,
    CCA,
    Unknown,
}

/// What probing the host found: for each TEE with an attester in this
/// build, whether its marker is present.
#[derive(Clone, Copy, Debug, PartialEq, Eq, Structural)]
pub struct PlatformMarkers {
    /// The sample attester was asked for.
    pub sample: bool,
    /// The CCA attestation device exists.
    pub cca: bool,
}

/// The TEEs that detection probes for, highest priority first.
pub open spec fn detection_order() -> Seq<Tee> {
    seq![Tee::Sample, Tee::CCA]
}

/// Whether the marker of `tee` is among `markers`.
pub open spec fn marker_present(markers: PlatformMarkers, tee: Tee) -> bool {
    match tee {
        Tee::Sample => markers.sample,
        Tee::CCA => markers.cca,
        _ => false,
    }
}

/// Whether `tee` is what detection owes for `markers`: the first TEE in
/// priority order whose marker is present, or `Unknown` where none is.
pub open spec fn is_detected(markers: PlatformMarkers, tee: Tee) -> bool {
    let order = detection_order();
    if exists|i: int| 0 <= i < order.len() && marker_present(markers, #[trigger] order[i]) {
        exists|i: int|
            0 <= i < order.len() && #[trigger] order[i] == tee && marker_present(markers, tee)
                && forall|j: int| 0 <= j < i ==> !marker_present(markers, #[trigger] order[j])
    } else {
        tee == Tee::Unknown
    }
}

/// Detects which TEE the host runs in, from the markers found on it.
pub fn detect_tee_type(markers: &PlatformMarkers) -> (tee: Tee)
    ensures
        is_detected(*markers, tee),
{
    proof {
        assert(detection_order()[0] == Tee::Sample);
        assert(detection_order()[1] == Tee::CCA);
    }
    if sample::detect_platform(markers) {
        return Tee::Sample;
    }
    if cca::detect_platform(markers) {
        return Tee::CCA;
    }
    Tee::Unknown
}

/// Detection has one answer: for the same markers it never owes two
/// different TEEs. With no marker present the answer is `Unknown`, and with
/// any marker present it is not.
pub proof fn lemma_detection_is_unique(markers: PlatformMarkers, first: Tee, second: Tee)
    requires
        is_detected(markers, first),
        is_detected(markers, second),
    ensures
        first == second,
        first == Tee::Unknown <==> !markers.sample && !markers.cca,
{
    let order = detection_order();
    assert(order[0] == Tee::Sample);
    assert(order[1] == Tee::CCA);
    if markers.sample {
        assert(marker_present(markers, order[0]));
    } else if markers.cca {
        assert(marker_present(markers, order[1]));
    }
}

/// The capability to produce attestation evidence for a challenge.
///
/// What evidence is made of is the attester's own matter. The sample
/// attester implements the capability here. An attester with a device
/// behind it is completed by the driver of that device, which runs the
/// bridge of the attester's module and hands it what the device gave.
pub trait Attester {
    /// Evidence, as JSON text, that binds `report_data`.
    fn get_evidence(&self, report_data: Vec<u8>) -> Result<String, AgentError>;
}

/// The attesters of this build, one for each supported TEE.
#[derive(Debug)]
pub enum Backend {
    /// Gives evidence by itself.
    Sample(sample::SampleAttester),
    /// Gives evidence from the token of the attestation device.
    Cca(cca::CCAAttester),
}

impl Backend {
    /// The TEE that this attester speaks for.
    pub open spec fn tee(self) -> Tee {
        match self {
            Backend::Sample(_) => Tee::Sample,
            Backend::Cca(_) => Tee::CCA,
        }
    }
}

/// The failure that `to_attester` reports.
pub open spec fn unsupported_tee() -> ErrorView {
    ErrorView { kind: ErrorKind::UnsupportedTee, cause: "TEE is not supported!"@ }
}

impl Tee {
    /// Whether this build has an attester for the TEE.
    pub open spec fn is_supported(self) -> bool {
        self == Tee::Sample || self == Tee::CCA
    }

    /// The attester for this TEE. There is no fallback: a TEE without an
    /// attester in this build, `Unknown` among them, is an error.
    pub fn to_attester(&self) -> (attester: Result<Backend, AgentError>)
        ensures
            self.is_supported() ==> (attester matches Ok(backend) && backend.tee() == *self),
            !self.is_supported() ==> (attester matches Err(e) && e@ == unsupported_tee()),
    {
        match self {
            Tee::Sample => Ok(Backend::Sample(sample::SampleAttester {  })),
            Tee::CCA => Ok(Backend::Cca(cca::CCAAttester {  })),
            _ => Err(AgentError::with_message(ErrorKind::UnsupportedTee, "TEE is not supported!")),
        }
    }
}

} // verus!
