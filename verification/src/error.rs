use vstd::prelude::*;

verus! {

/// The error taxonomy of the client.
///
/// `KeyLoad` and `Signing` are fatal credential failures; `Transport` and
/// `Decode` surface transport-layer and response-shape failures; the three
/// `Notarize*` variants carry the domain-level outcome of a status document.
/// `NotarizeIncomplete` is the sole retry signal: the remote pipeline has not
/// finished, and the caller should poll again later.
#[derive(Clone, Debug, PartialEq, Eq)]
pub enum ClientError {
    /// Key bytes were missing or malformed.
    KeyLoad,
    /// The signing primitive rejected the claim set (unexpected).
    Signing,
    /// Network-layer failure; the caller may retry per its own policy.
    Transport,
    /// Response shape mismatch: malformed JSON or schema drift.
    Decode,
    /// Remote processing is still in progress; poll again later.
    NotarizeIncomplete,
    /// The remote service rejected the artifact as structurally invalid.
    NotarizeInvalid,
    /// The remote service rejected the artifact with a diagnostic code and
    /// message, when the response shape carries them.
    NotarizeRejected(i64, String),
}

} // verus!
