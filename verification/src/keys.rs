//! Signing-key handling: splitting a signer identity into name and
//! revision, and the decisions of the key-fetch-and-verify phase.

use vstd::prelude::*;
use vstd::string::*;
use crate::error::{ApiFault, Error};
use crate::task::DownloadTask;

verus! {

/// A digit of a key revision (a 14-digit timestamp).
pub open spec fn is_rev_digit(c: char) -> bool {
    48 <= c as u32 && c as u32 <= 57
}

/// A signer identity has the shape `name-REV`: a nonempty name, a dash,
/// and a revision of exactly 14 digits.
pub open spec fn valid_name_with_rev(s: Seq<char>) -> bool {
    &&& s.len() >= 16
    &&& s[s.len() - 15] == '-'
    &&& forall|i: int| s.len() - 14 <= i < s.len() ==> is_rev_digit(#[trigger] s[i])
}

/// The name part of a valid signer identity.
pub open spec fn name_part(s: Seq<char>) -> Seq<char> {
    s.take(s.len() - 15)
}

/// The revision part of a valid signer identity.
pub open spec fn rev_part(s: Seq<char>) -> Seq<char> {
    s.skip(s.len() - 14)
}

/// Splits a signer identity into its name and its revision; an identity
/// without the `name-REV` shape is rejected as `InvalidKeyName`.
pub fn parse_name_with_rev(name_with_rev: &str) -> (r: Result<(String, String), Error>)
    ensures
        match r {
            Ok(parts) => valid_name_with_rev(name_with_rev@) && parts.0@ == name_part(
                name_with_rev@,
            ) && parts.1@ == rev_part(name_with_rev@),
            Err(e) => !valid_name_with_rev(name_with_rev@) && (e matches Error::InvalidKeyName(m)
                && m@ == name_with_rev@),
        },
{
    let n = name_with_rev.unicode_len();
    if n < 16 {
        return Err(Error::InvalidKeyName(name_with_rev.to_owned()));
    }
    if name_with_rev.get_char(n - 15) != '-' {
        return Err(Error::InvalidKeyName(name_with_rev.to_owned()));
    }
    let mut i: usize = n - 14;
    while i < n
        invariant
            n == name_with_rev@.len(),
            16 <= n,
            n - 14 <= i <= n,
            forall|k: int| n - 14 <= k < i ==> is_rev_digit(#[trigger] name_with_rev@[k]),
        decreases n - i,
    {
        let c = name_with_rev.get_char(i);
        let u = c as u32;
        if u < 48 || u > 57 {
            return Err(Error::InvalidKeyName(name_with_rev.to_owned()));
        }
        i += 1;
    }
    let name = name_with_rev.substring_char(0, n - 15).to_owned();
    let rev = name_with_rev.substring_char(n - 14, n).to_owned();
    Ok((name, rev))
}

/// What the key-fetch-and-verify phase does for one artifact, decided
/// from the run's verify flag and whether the signer's key is cached.
pub open spec fn key_verify_plan_spec(verify: bool, key_cached: bool) -> KeyVerifyPlan {
    KeyVerifyPlan { fetch_key: !key_cached, run_verify: verify }
}

/// The actions of the key phase for one artifact.
#[derive(Debug, PartialEq, Eq)]
pub struct KeyVerifyPlan {
    /// Fetch the signer's public key from the depot into the keys
    /// directory.
    pub fetch_key: bool,
    /// Verify the artifact's signature against the local key store.
    pub run_verify: bool,
}

impl DownloadTask {
    /// Plans the key phase for an artifact whose signer is known: the key
    /// is fetched exactly when it is locally absent — key presence is a
    /// precondition independent of whether verification will run — and
    /// the signature is checked exactly when the run asks for it.
    pub fn fetch_keys_and_verify_artifact(&self, key_cached: bool) -> (r: KeyVerifyPlan)
        ensures
            r == key_verify_plan_spec(self.verify, key_cached),
    {
        KeyVerifyPlan { fetch_key: !key_cached, run_verify: self.verify }
    }
}

/// With `verify = false` the signature is never checked, yet an absent
/// signer key is still fetched: the key-fetch decision does not depend on
/// the verify flag.
pub proof fn lemma_key_fetch_independent_of_verify(key_cached: bool)
    ensures
        key_verify_plan_spec(false, key_cached).fetch_key == key_verify_plan_spec(
            true,
            key_cached,
        ).fetch_key,
        key_verify_plan_spec(false, key_cached).fetch_key == !key_cached,
        !key_verify_plan_spec(false, key_cached).run_verify,
{
}

/// The depot's answer to fetching one signer key.
#[derive(Debug, PartialEq, Eq)]
pub enum KeyFetchResponse {
    /// The key file was stored in the keys directory.
    Stored,
    /// The depot failed; key-fetch failures propagate as they are.
    Fault(ApiFault),
}

/// Folds a key-fetch answer into the run: a depot failure here is fatal.
pub fn fetch_origin_key(response: KeyFetchResponse) -> (r: Result<(), Error>)
    ensures
        r == (match response {
            KeyFetchResponse::Stored => Ok::<(), Error>(()),
            KeyFetchResponse::Fault(f) => Err(Error::ApiError(f)),
        }),
{
    match response {
        KeyFetchResponse::Stored => Ok(()),
        KeyFetchResponse::Fault(f) => Err(Error::ApiError(f)),
    }
}

/// The verifier's answer to reading an artifact's signer identity.
#[derive(Debug, PartialEq, Eq)]
pub enum SignerReadResponse {
    /// The embedded signer identity, `name-REV`.
    Signer(String),
    /// The artifact header could not be parsed.
    ParseFault(String),
}

/// Folds a signer-read answer into the run: an unreadable header is fatal.
pub fn signer_read_outcome(response: SignerReadResponse) -> (r: Result<String, Error>)
    ensures
        r == (match response {
            SignerReadResponse::Signer(s) => Ok::<String, Error>(s),
            SignerReadResponse::ParseFault(m) => Err(Error::ArtifactParse(m)),
        }),
{
    match response {
        SignerReadResponse::Signer(s) => Ok(s),
        SignerReadResponse::ParseFault(m) => Err(Error::ArtifactParse(m)),
    }
}

/// The verifier's answer to checking one artifact's signature.
#[derive(Debug, PartialEq, Eq)]
pub enum VerifyResponse {
    /// The signature checks out against the local key store.
    Verified,
    /// It does not; the message says why.
    Fault(String),
}

/// Folds a verification answer into the run: a bad signature is fatal.
pub fn verify_outcome(response: VerifyResponse) -> (r: Result<(), Error>)
    ensures
        r == (match response {
            VerifyResponse::Verified => Ok::<(), Error>(()),
            VerifyResponse::Fault(m) => Err(Error::VerificationFailed(m)),
        }),
{
    match response {
        VerifyResponse::Verified => Ok(()),
        VerifyResponse::Fault(m) => Err(Error::VerificationFailed(m)),
    }
}

} // verus!
