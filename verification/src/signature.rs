//! Transaction signatures: 64 bytes, written in base58.

use std::str::FromStr;
use vstd::prelude::*;

verus! {

/// Number of bytes in a transaction signature.
pub const SIGNATURE_BYTES: usize = 64;

/// The bytes that a text stands for as a base58 signature, or `None` where the
/// text is no such signature. The value is whatever
/// `solana_signature::Signature::from_str` decodes; the encoding itself is not
/// restated here.
pub uninterp spec fn base58_signature(text: Seq<char>) -> Option<Seq<u8>>;

/// The base58 text of 64 signature bytes, as `solana_signature::Signature`
/// displays them.
pub uninterp spec fn signature_base58(bytes: Seq<u8>) -> Seq<char>;

/// The reference that the ledger hands out for a transaction it accepted.
#[derive(Clone, Copy, Debug, PartialEq, Eq)]
pub struct Signature {
    pub bytes: [u8; 64],
}

impl View for Signature {
    type V = Seq<u8>;

    open spec fn view(&self) -> Seq<u8> {
        self.bytes@
    }
}

/// Calls `<solana_signature::Signature as FromStr>::from_str` and hands out the
/// 64 bytes of the signature it decoded. Trusted: the result is `Some` exactly
/// where that function returns `Ok`, and then holds the decoded bytes.
#[verifier::external_body]
fn decode_base58_signature(text: &str) -> (decoded: Option<[u8; 64]>)
    ensures
        match decoded {
            Some(bytes) => base58_signature(text@) == Some(bytes@),
            None => base58_signature(text@) is None,
        },
{
    match solana_signature::Signature::from_str(text) {
        Ok(signature) => Some(<[u8; 64]>::from(signature)),
        Err(_) => None,
    }
}

/// Calls `solana_signature::Signature`'s `Display` through `to_string`.
/// Trusted: the result is the base58 text of the bytes.
#[verifier::external_body]
fn encode_base58_signature(bytes: &[u8; 64]) -> (text: String)
    ensures
        text@ == signature_base58(bytes@),
{
    solana_signature::Signature::from(*bytes).to_string()
}

impl Signature {
    /// Reads a signature from its base58 text.
    pub fn parse(text: &str) -> (parsed: Option<Signature>)
        ensures
            match parsed {
                Some(signature) => base58_signature(text@) == Some(signature@),
                None => base58_signature(text@) is None,
            },
    {
        match decode_base58_signature(text) {
            Some(bytes) => Some(Signature { bytes }),
            None => None,
        }
    }

    /// The base58 text of this signature.
    pub fn to_string(&self) -> (text: String)
        ensures
            text@ == signature_base58(self@),
    {
        encode_base58_signature(&self.bytes)
    }
}

} // verus!
