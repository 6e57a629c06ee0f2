//! The two Base64 alphabets the wire and the bridge read.
use base64::Engine;
use vstd::prelude::*;

verus! {

/// What `base64`'s URL-safe engine with padding writes for these bytes.
pub uninterp spec fn base64_url_safe(bytes: Seq<u8>) -> Seq<char>;

/// What `base64`'s standard engine with padding writes for these bytes.
pub uninterp spec fn base64_standard(bytes: Seq<u8>) -> Seq<char>;

/// `base64::engine::general_purpose::URL_SAFE.encode`: the URL-safe
/// alphabet, padding kept. The text is named, not stated.
#[verifier::external_body]
pub(crate) fn url_safe(bytes: &[u8]) -> (s: String)
    ensures
        s@ == base64_url_safe(bytes@),
{
    base64::engine::general_purpose::URL_SAFE.encode(bytes)
}

/// `base64::engine::general_purpose::STANDARD.encode`: the standard
/// alphabet, padding kept. The text is named, not stated.
#[verifier::external_body]
pub(crate) fn standard(bytes: &[u8]) -> (s: String)
    ensures
        s@ == base64_standard(bytes@),
{
    base64::engine::general_purpose::STANDARD.encode(bytes)
}

} // verus!
