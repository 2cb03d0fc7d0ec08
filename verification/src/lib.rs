//! Client-side core of a notarization / build-submission service client:
//! signed bearer-token minting and caching, interpretation of asynchronous
//! submission-status documents, and construction of the exact wire requests
//! that the gateway sends.

pub mod error;
pub mod status;
pub mod strfmt;
pub mod token;
pub mod wire;
