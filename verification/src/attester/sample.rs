//! The sample attester: deterministic evidence with no hardware behind it,
//! for tests and demos only.

use vstd::prelude::*;
use vstd::string::*;
use crate::attester::{Attester, PlatformMarkers};
use crate::encoding::{
    base64_fits,
    base64_standard,
    encode_base64,
    json_object,
    json_record,
    members_view,
};
use crate::error::{AgentError, ErrorKind, ErrorView};

verus! {

/// Whether the host asks for the sample attester.
pub fn detect_platform(markers: &PlatformMarkers) -> (present: bool)
    ensures
        present == markers.sample,
{
    markers.sample
}

/// The attester of the sample TEE. Its evidence proves nothing.
#[derive(Debug, Default)]
pub struct SampleAttester {}

/// The sample evidence for `report_data`: a record of a fixed security
/// version number and the report data in base64.
pub open spec fn sample_evidence(report_data: Seq<u8>) -> Seq<char> {
    json_object(seq![("svn"@, "1"@), ("report_data"@, base64_standard(report_data))])
}

/// The failure for report data too long to encode.
pub open spec fn evidence_not_encodable() -> ErrorView {
    ErrorView {
        kind: ErrorKind::SerializationFailure,
        cause: "Serialize sample evidence failed"@,
    }
}

/// The failure to encode the sample evidence.
fn not_serialized() -> (e: AgentError)
    ensures
        e@ == evidence_not_encodable(),
{
    AgentError::with_message(ErrorKind::SerializationFailure, "Serialize sample evidence failed")
}

impl Attester for SampleAttester {
    fn get_evidence(&self, report_data: Vec<u8>) -> (evidence: Result<String, AgentError>)
        ensures
            base64_fits(report_data@.len()) ==> (evidence matches Ok(text) && text@
                == sample_evidence(report_data@)),
            !base64_fits(report_data@.len()) ==> (evidence matches Err(e) && e@
                == evidence_not_encodable()),
    {
        match encode_base64(report_data.as_slice()) {
            Some(encoded) => {
                let mut members: Vec<(String, String)> = Vec::new();
                members.push((String::from_str("svn"), String::from_str("1")));
                members.push((String::from_str("report_data"), encoded));
                assert(members_view(members@) == seq![
                    ("svn"@, "1"@),
                    ("report_data"@, base64_standard(report_data@)),
                ]);
                match json_record(&members) {
                    Ok(text) => Ok(text),
                    Err(_) => Err(not_serialized()),
                }
            },
            None => Err(not_serialized()),
        }
    }
}

} // verus!
