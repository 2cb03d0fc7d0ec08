//! Credential lifecycle: minting a signed, time-bounded bearer token from an
//! elliptic-curve signing identity, and the single-slot cache that lets
//! concurrent callers share one minted token instead of re-signing per call.

use vstd::prelude::*;
use vstd::string::*;

use crate::error::ClientError;

verus! {

/// Declares jsonwebtoken's encoding-key type. The parsed key material is
/// opaque to the library: it is produced and consumed only by the trusted
/// signing items below.
#[verifier::external_type_specification]
#[verifier::external_body]
pub struct ExEncodingKey(jsonwebtoken::EncodingKey);

/// Declares jsonwebtoken's error type, so the trusted items below can return
/// it; verified code maps it to the library's own error taxonomy.
#[verifier::external_type_specification]
#[verifier::external_body]
pub struct ExJwtError(jsonwebtoken::errors::Error);

/// Whether a byte sequence parses as PEM-encoded elliptic-curve private-key
/// material, as jsonwebtoken's EncodingKey::from_ec_pem decides it. A
/// deterministic function of the bytes alone.
pub uninterp spec fn ec_pem_ok(data: Seq<u8>) -> bool;

/// The (key identifier, algorithm name) pair named by the header of a signed
/// token, as decoding the token's header reports it. A function of the token
/// text alone.
pub uninterp spec fn jwt_header(token: Seq<char>) -> (Option<Seq<char>>, Seq<char>);

/// The (issuer, issued-at, expiry, audience) claim set carried by the payload
/// of a signed token, as decoding the token's payload reports it. A function
/// of the token text alone.
pub uninterp spec fn jwt_claims(token: Seq<char>) -> (Seq<char>, u64, u64, Seq<char>);

/// Relies on jsonwebtoken's EncodingKey::from_ec_pem: parses PEM-encoded
/// elliptic-curve key material; whether it succeeds is decided by the bytes
/// alone, and every malformed input is rejected with an error.
#[verifier::external_body]
fn ec_key_from_pem(data: &[u8]) -> (r: Result<
    jsonwebtoken::EncodingKey,
    jsonwebtoken::errors::Error,
>)
    ensures
        (r is Ok) == ec_pem_ok(data@),
{
    jsonwebtoken::EncodingKey::from_ec_pem(data)
}

/// Relies on jsonwebtoken's encode: the token it signs carries the supplied
/// key identifier and the ES256 algorithm in its header and exactly the
/// supplied claim set in its payload, which decoding the token recovers.
#[verifier::external_body]
fn sign_es256(
    key: &jsonwebtoken::EncodingKey,
    kid: &str,
    iss: &str,
    iat: u64,
    exp: u64,
    aud: &str,
) -> (r: Result<String, jsonwebtoken::errors::Error>)
    ensures
        (r matches Ok(t) ==> jwt_header(t@) == (Some(kid@), "ES256"@) && jwt_claims(t@) == (
            iss@,
            iat,
            exp,
            aud@,
        )),
{
    let mut header = jsonwebtoken::Header::new(jsonwebtoken::Algorithm::ES256);
    header.kid = Some(kid.to_string());
    let mut claims = serde_json::Map::new();
    claims.insert("iss".to_string(), serde_json::Value::from(iss));
    claims.insert("iat".to_string(), serde_json::Value::from(iat));
    claims.insert("exp".to_string(), serde_json::Value::from(exp));
    claims.insert("aud".to_string(), serde_json::Value::from(aud));
    jsonwebtoken::encode(&header, &serde_json::Value::Object(claims), key)
}

/// The fixed audience claim every minted token carries.
pub open spec fn spec_audience() -> Seq<char> {
    "appstoreconnect-v1"@
}

/// A signing identity: key identifier, issuer identifier, and the parsed
/// elliptic-curve key material. Immutable once constructed.
pub struct ConnectToken {
    pub key_id: String,
    pub issuer_id: String,
    pub encoding_key: jsonwebtoken::EncodingKey,
}

impl ConnectToken {
    /// Builds a signing identity from PKCS#8 / EC-PEM key bytes: it succeeds
    /// exactly when the bytes parse as elliptic-curve key material, and
    /// malformed key material is rejected as a key-load failure.
    pub fn from_pkcs8_ec(data: &[u8], key_id: String, issuer_id: String) -> (r: Result<
        Self,
        ClientError,
    >)
        ensures
            match r {
                Ok(t) => ec_pem_ok(data@) && t.key_id == key_id && t.issuer_id == issuer_id,
                Err(e) => !ec_pem_ok(data@) && e == ClientError::KeyLoad,
            },
    {
        match ec_key_from_pem(data) {
            Ok(encoding_key) => Ok(ConnectToken { key_id, issuer_id, encoding_key }),
            Err(_) => Err(ClientError::KeyLoad),
        }
    }

    /// Mints a bearer token valid for `duration` seconds from `now`: the
    /// token's header names this identity's key id and the ES256 algorithm,
    /// and its claim set is (issuer id, now, now + duration, the fixed
    /// audience). A failure of the signing primitive is unexpected and
    /// surfaces as a signing error.
    pub fn new_token(&self, duration: u64, now: u64) -> (r: Result<String, ClientError>)
        requires
            now + duration <= u64::MAX,
        ensures
            match r {
                Ok(t) => jwt_header(t@) == (Some(self.key_id@), "ES256"@) && jwt_claims(t@) == (
                    self.issuer_id@,
                    now,
                    (now + duration) as u64,
                    spec_audience(),
                ),
                Err(e) => e == ClientError::Signing,
            },
    {
        let exp = now + duration;
        match sign_es256(
            &self.encoding_key,
            self.key_id.as_str(),
            self.issuer_id.as_str(),
            now,
            exp,
            "appstoreconnect-v1",
        ) {
            Ok(token) => Ok(token),
            Err(_) => Err(ClientError::Signing),
        }
    }
}

/// A minted token together with the timestamp it was minted at. Replaced,
/// never mutated in place.
pub struct CachedToken {
    pub value: String,
    pub minted_at: u64,
}

/// The single-slot, lazily populated token cache. It owns the signing
/// identity; the caller serializes access (one lock around the cache), and
/// within that discipline at most one mint occurs while the slot is empty.
pub struct TokenCache {
    pub identity: ConnectToken,
    pub slot: Option<CachedToken>,
}

/// What one `get_or_mint` call does: with a token already cached it returns
/// that token and changes nothing; with the slot empty it mints, caches the
/// minted token stamped `now`, and returns it, or fails with a signing error
/// leaving the cache empty.
pub open spec fn get_or_mint_post(
    pre: TokenCache,
    post: TokenCache,
    r: Result<String, ClientError>,
    validity_seconds: u64,
    now: u64,
) -> bool {
    match pre.slot {
        Some(tok) => post == pre && r == Ok::<String, ClientError>(tok.value),
        None => match r {
            Ok(v) => post.identity == pre.identity && (post.slot matches Some(t) && t.value == v
                && t.minted_at == now) && jwt_header(v@) == (Some(pre.identity.key_id@), "ES256"@)
                && jwt_claims(v@) == (
                pre.identity.issuer_id@,
                now,
                (now + validity_seconds) as u64,
                spec_audience(),
            ),
            Err(e) => post == pre && e == ClientError::Signing,
        },
    }
}

impl TokenCache {
    /// A cache with an empty slot around the given identity.
    pub fn new(identity: ConnectToken) -> (c: TokenCache)
        ensures
            c.identity == identity,
            c.slot is None,
    {
        TokenCache { identity, slot: None }
    }

    /// Returns the cached token, minting and caching one first if the slot is
    /// empty. The caller holds the surrounding lock for the duration of the
    /// call, so the check-and-mint is atomic with respect to other callers.
    pub fn get_or_mint(&mut self, validity_seconds: u64, now: u64) -> (r: Result<
        String,
        ClientError,
    >)
        requires
            now + validity_seconds <= u64::MAX,
        ensures
            get_or_mint_post(*old(self), *final(self), r, validity_seconds, now),
    {
        if let Some(tok) = &self.slot {
            return Ok(tok.value.clone());
        }
        match self.identity.new_token(validity_seconds, now) {
            Ok(value) => {
                let ret = value.clone();
                self.slot = Some(CachedToken { value, minted_at: now });
                Ok(ret)
            },
            Err(e) => Err(e),
        }
    }
}

/// Law: the cache mints at most once. After any call that returned a token,
/// the slot is filled; every later call returns that very token, no matter
/// its validity or clock arguments, and leaves the cache unchanged — so all
/// callers observe one identical token value.
pub proof fn lemma_at_most_one_mint(
    c0: TokenCache,
    c1: TokenCache,
    c2: TokenCache,
    r1: Result<String, ClientError>,
    r2: Result<String, ClientError>,
    v1: u64,
    v2: u64,
    n1: u64,
    n2: u64,
)
    requires
        get_or_mint_post(c0, c1, r1, v1, n1),
        get_or_mint_post(c1, c2, r2, v2, n2),
        r1 is Ok,
    ensures
        c2 == c1,
        r2 == Ok::<String, ClientError>(r1->Ok_0),
{
}

/// The file name under which the private key for a key identifier is looked
/// up in the key search paths.
pub open spec fn spec_auth_key_filename(key_id: Seq<char>) -> Seq<char> {
    "AuthKey_"@ + key_id + ".p8"@
}

/// Builds the key-file name for a key identifier.
pub fn auth_key_filename(key_id: &str) -> (s: String)
    ensures
        s@ == spec_auth_key_filename(key_id@),
{
    let mut s = String::from_str("AuthKey_");
    s.append(key_id);
    s.append(".p8");
    proof {
        assert(s@ =~= spec_auth_key_filename(key_id@));
    }
    s
}

} // verus!
