//! Interpretation of submission-status documents: the five-stage legacy
//! progress classification driven by field presence, and the mapping of both
//! response shapes to a success / failure / try-again-later outcome.

use vstd::prelude::*;
use vstd::string::*;

use crate::error::ClientError;
use crate::strfmt::dec_i64;
use crate::strfmt::dec_int;
use crate::strfmt::str_eq;

verus! {

/// The optional "more info" section of a legacy status document.
pub struct MoreInfo {
    pub hash: Option<String>,
}

/// The payload of a legacy status document. Which of the optional fields are
/// populated is what drives the progress classification: the remote pipeline
/// fills them in over time, later snapshots holding a superset of the fields
/// of earlier ones.
pub struct DevIdPlus {
    pub date_str: String,
    pub log_file_url: Option<String>,
    pub more_info: Option<MoreInfo>,
    pub request_status: i64,
    pub request_uuid: String,
    pub status_code: Option<i64>,
    pub status_message: Option<String>,
}

/// A legacy status document as returned by the remote procedure call.
pub struct DevIdPlusInfoResponse {
    pub dev_id_plus: DevIdPlus,
}

/// The five ordered stages of legacy progress, inferred from field presence
/// alone: a fresh snapshot determines the stage without any history.
#[derive(Clone, Copy, Debug, PartialEq, Eq, Structural)]
pub enum LegacyProgress {
    /// Only base metadata is present.
    Initial,
    /// A "more info" section exists but its content digest is absent.
    MetadataPresent,
    /// The content digest is present.
    HashKnown,
    /// The numeric status code is present.
    StatusKnown,
    /// A log URL is present; the operation is complete.
    LogAvailable,
}

/// The position of a stage in the canonical order, one through five.
pub open spec fn stage_index(p: LegacyProgress) -> int {
    match p {
        LegacyProgress::Initial => 1,
        LegacyProgress::MetadataPresent => 2,
        LegacyProgress::HashKnown => 3,
        LegacyProgress::StatusKnown => 4,
        LegacyProgress::LogAvailable => 5,
    }
}

/// The stage of a legacy document: the log URL marks completion, then the
/// status code, then the content digest, then the bare presence of the
/// "more info" section; otherwise the document is in its initial state.
pub open spec fn spec_classify(d: DevIdPlus) -> LegacyProgress {
    if d.log_file_url is Some {
        LegacyProgress::LogAvailable
    } else if d.status_code is Some {
        LegacyProgress::StatusKnown
    } else if d.more_info matches Some(mi) && mi.hash is Some {
        LegacyProgress::HashKnown
    } else if d.more_info is Some {
        LegacyProgress::MetadataPresent
    } else {
        LegacyProgress::Initial
    }
}

/// Whether every distinguishing field that is populated in `a` is also
/// populated in `b`: the order in which the remote pipeline accumulates
/// fields over time.
pub open spec fn presence_le(a: DevIdPlus, b: DevIdPlus) -> bool {
    &&& a.log_file_url is Some ==> b.log_file_url is Some
    &&& a.status_code is Some ==> b.status_code is Some
    &&& a.more_info is Some ==> b.more_info is Some
    &&& (a.more_info matches Some(x) && x.hash is Some) ==> (b.more_info matches Some(y)
        && y.hash is Some)
}

/// Law: classification is monotonic in the data observed. A snapshot holding
/// a superset of another's distinguishing fields never classifies to an
/// earlier stage, so no history of prior snapshots is needed.
pub proof fn lemma_classify_monotonic(a: DevIdPlus, b: DevIdPlus)
    requires
        presence_le(a, b),
    ensures
        stage_index(spec_classify(a)) <= stage_index(spec_classify(b)),
{
}

/// The outcome a legacy snapshot resolves to: success on status code zero
/// with a message present, a rejection carrying the code and message on any
/// other code, and "poll again later" while either terminal field is absent.
pub open spec fn spec_legacy_outcome(resp: DevIdPlusInfoResponse) -> Result<
    DevIdPlusInfoResponse,
    ClientError,
> {
    if resp.dev_id_plus.status_code is Some && resp.dev_id_plus.status_message is Some {
        if resp.dev_id_plus.status_code->0 == 0 {
            Ok(resp)
        } else {
            Err(
                ClientError::NotarizeRejected(
                    resp.dev_id_plus.status_code->0,
                    resp.dev_id_plus.status_message->0,
                ),
            )
        }
    } else {
        Err(ClientError::NotarizeIncomplete)
    }
}

/// Law: terminal success or failure is only decidable once the status code
/// has appeared. A snapshot classified before the status-known stage resolves
/// to "poll again later" — an early stage is never misreported as failure.
pub proof fn lemma_early_stage_is_incomplete(resp: DevIdPlusInfoResponse)
    requires
        stage_index(spec_classify(resp.dev_id_plus)) < stage_index(LegacyProgress::StatusKnown),
    ensures
        spec_legacy_outcome(resp) == Err::<DevIdPlusInfoResponse, ClientError>(
            ClientError::NotarizeIncomplete,
        ),
{
}

/// The diagnostic narration for each stage of a legacy document.
pub open spec fn spec_state_str(d: DevIdPlus) -> Seq<char> {
    if d.log_file_url is Some {
        "5/5 have log URL; operation complete"@
    } else if d.status_code is Some {
        "4/5 have status code ("@ + dec_int(d.status_code->0 as int) + "); waiting on log URL"@
    } else if d.more_info matches Some(mi) && mi.hash is Some {
        "3/5 have hash ("@ + d.more_info->0.hash->0@ + "); waiting on status code"@
    } else if d.more_info is Some {
        "2/5 some metadata; waiting on hash to appear"@
    } else {
        "1/5 initial state; waiting on initial metadata"@
    }
}

impl DevIdPlusInfoResponse {
    /// The progress stage of this snapshot, determined by field presence.
    pub fn classify(&self) -> (p: LegacyProgress)
        ensures
            p == spec_classify(self.dev_id_plus),
    {
        if self.dev_id_plus.log_file_url.is_some() {
            LegacyProgress::LogAvailable
        } else if self.dev_id_plus.status_code.is_some() {
            LegacyProgress::StatusKnown
        } else if let Some(more_info) = &self.dev_id_plus.more_info {
            if more_info.hash.is_some() {
                LegacyProgress::HashKnown
            } else {
                LegacyProgress::MetadataPresent
            }
        } else {
            LegacyProgress::Initial
        }
    }

    /// The human-readable progress narration for this snapshot. Purely
    /// diagnostic: it must never be used to drive control flow.
    pub fn state_str(&self) -> (s: String)
        ensures
            s@ == spec_state_str(self.dev_id_plus),
    {
        if self.dev_id_plus.log_file_url.is_some() {
            String::from_str("5/5 have log URL; operation complete")
        } else if let Some(code) = self.dev_id_plus.status_code {
            let mut s = String::from_str("4/5 have status code (");
            let digits = dec_i64(code);
            s.append(digits.as_str());
            s.append("); waiting on log URL");
            proof {
                assert(s@ =~= spec_state_str(self.dev_id_plus));
            }
            s
        } else if let Some(more_info) = &self.dev_id_plus.more_info {
            if let Some(hash) = &more_info.hash {
                let mut s = String::from_str("3/5 have hash (");
                s.append(hash.as_str());
                s.append("); waiting on status code");
                proof {
                    assert(s@ =~= spec_state_str(self.dev_id_plus));
                }
                s
            } else {
                String::from_str("2/5 some metadata; waiting on hash to appear")
            }
        } else {
            String::from_str("1/5 initial state; waiting on initial metadata")
        }
    }

    /// Whether the remote pipeline appears done with the request: true
    /// exactly when both a status code and a log URL are present.
    pub fn is_done(&self) -> (r: bool)
        ensures
            r == (self.dev_id_plus.status_code is Some && self.dev_id_plus.log_file_url is Some),
    {
        self.dev_id_plus.status_code.is_some() && self.dev_id_plus.log_file_url.is_some()
    }

    /// The outcome of this snapshot. With both a status code and a status
    /// message present, code zero is success and any other code is a
    /// rejection carrying that code and message; with either field absent the
    /// remote pipeline has not finished and the caller should poll again.
    pub fn into_result(self) -> (r: Result<Self, ClientError>)
        ensures
            r == spec_legacy_outcome(self),
    {
        if let (Some(code), Some(message)) = (
            self.dev_id_plus.status_code,
            &self.dev_id_plus.status_message,
        ) {
            if code == 0 {
                Ok(self)
            } else {
                let msg = message.clone();
                Err(ClientError::NotarizeRejected(code, msg))
            }
        } else {
            Err(ClientError::NotarizeIncomplete)
        }
    }
}

/// The closed set of states a submission status response reports. Any status
/// string the client does not recognize decodes to `Unknown` and is treated
/// conservatively as failure.
#[derive(Clone, Copy, Debug, PartialEq, Eq, Structural)]
pub enum SubmissionResponseStatus {
    Accepted,
    InProgress,
    Invalid,
    Rejected,
    Unknown,
}

/// The status named by a wire status string: the four recognized spellings
/// map to their states and every other string maps to `Unknown`.
pub open spec fn spec_parse_status(s: Seq<char>) -> SubmissionResponseStatus {
    if s == "Accepted"@ {
        SubmissionResponseStatus::Accepted
    } else if s == "In Progress"@ {
        SubmissionResponseStatus::InProgress
    } else if s == "Invalid"@ {
        SubmissionResponseStatus::Invalid
    } else if s == "Rejected"@ {
        SubmissionResponseStatus::Rejected
    } else {
        SubmissionResponseStatus::Unknown
    }
}

/// Parses the wire status string, mapping unrecognized values to `Unknown`.
pub fn parse_status(s: &str) -> (st: SubmissionResponseStatus)
    ensures
        st == spec_parse_status(s@),
{
    if str_eq(s, "Accepted") {
        SubmissionResponseStatus::Accepted
    } else if str_eq(s, "In Progress") {
        SubmissionResponseStatus::InProgress
    } else if str_eq(s, "Invalid") {
        SubmissionResponseStatus::Invalid
    } else if str_eq(s, "Rejected") {
        SubmissionResponseStatus::Rejected
    } else {
        SubmissionResponseStatus::Unknown
    }
}

/// The attributes of a submission status response.
pub struct SubmissionResponseDataAttributes {
    pub created_date: String,
    pub name: String,
    pub status: SubmissionResponseStatus,
}

/// The data envelope of a submission status response.
pub struct SubmissionResponseData {
    pub attributes: SubmissionResponseDataAttributes,
    pub id: String,
    pub type_: String,
}

/// A submission status response.
pub struct SubmissionResponse {
    pub data: SubmissionResponseData,
    pub meta: serde_json::Value,
}

impl SubmissionResponse {
    /// The outcome of this response. `Accepted` is success; `InProgress`
    /// means the caller should poll again; `Invalid` and any unrecognized
    /// status are structural failure; `Rejected` is a rejection whose
    /// specific code and message this response shape does not carry, so a
    /// generic diagnostic stands in their place.
    pub fn into_result(self) -> (r: Result<Self, ClientError>)
        ensures
            match self.data.attributes.status {
                SubmissionResponseStatus::Accepted => r matches Ok(v) && v == self,
                SubmissionResponseStatus::InProgress => r == Err::<Self, ClientError>(
                    ClientError::NotarizeIncomplete,
                ),
                SubmissionResponseStatus::Invalid => r == Err::<Self, ClientError>(
                    ClientError::NotarizeInvalid,
                ),
                SubmissionResponseStatus::Rejected => r matches Err(
                    ClientError::NotarizeRejected(code, msg),
                ) && code == 0 && msg@ == "Notarization error"@,
                SubmissionResponseStatus::Unknown => r == Err::<Self, ClientError>(
                    ClientError::NotarizeInvalid,
                ),
            },
    {
        match self.data.attributes.status {
            SubmissionResponseStatus::Accepted => Ok(self),
            SubmissionResponseStatus::InProgress => Err(ClientError::NotarizeIncomplete),
            SubmissionResponseStatus::Invalid => Err(ClientError::NotarizeInvalid),
            SubmissionResponseStatus::Rejected => Err(
                ClientError::NotarizeRejected(0, String::from_str("Notarization error")),
            ),
            SubmissionResponseStatus::Unknown => Err(ClientError::NotarizeInvalid),
        }
    }
}

} // verus!
