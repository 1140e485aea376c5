//! Base64 text and PEM blocks, written and read by the `base64` and `pem`
//! crates.
//!
//! Nothing in this module is proved.

use crate::text::bytes_view;
use vstd::prelude::*;

verus! {

/// The base64 text of a byte string: what `base64::encode` returns.
pub uninterp spec fn base64_text_of(bytes: Seq<u8>) -> Seq<char>;

/// The byte string that a base64 text holds: what `base64::decode` returns.
pub uninterp spec fn base64_bytes_of(text: Seq<u8>) -> Option<Seq<u8>>;

/// Calls `base64::encode`: standard alphabet, with padding.
#[verifier::external_body]
pub(crate) fn base64_encode(bytes: &[u8]) -> (r: String)
    ensures
        r@ == base64_text_of(bytes@),
{
    base64::encode(bytes)
}

/// Calls `base64::decode`. The result is `None` where `text` is not base64
/// in the standard alphabet.
#[verifier::external_body]
pub(crate) fn base64_decode(text: &[u8]) -> (r: Option<Vec<u8>>)
    ensures
        bytes_view(r) == base64_bytes_of(text@),
{
    base64::decode(text).ok()
}

/// The tag and the contents of the first PEM block in a text: what
/// `pem::parse` returns.
pub uninterp spec fn pem_block_of(text: Seq<u8>) -> Option<(Seq<char>, Seq<u8>)>;

/// The PEM block with a tag and contents: what `pem::encode` returns.
pub uninterp spec fn pem_text_of(tag: Seq<char>, contents: Seq<u8>) -> Seq<char>;

/// The view of a PEM block that may be missing.
pub open spec fn block_view(block: Option<(String, Vec<u8>)>) -> Option<(Seq<char>, Seq<u8>)> {
    match block {
        Some(b) => Some((b.0@, b.1@)),
        None => None,
    }
}

/// Calls `pem::parse` and takes the block apart. The result is `None` where
/// the text holds no well-formed PEM block.
#[verifier::external_body]
pub(crate) fn pem_parse(text: &[u8]) -> (r: Option<(String, Vec<u8>)>)
    ensures
        block_view(r) == pem_block_of(text@),
{
    let block = rsa::pem::parse(text).ok()?;
    Some((block.tag, block.contents))
}

/// Calls `pem::encode` on a block with the tag and the contents.
#[verifier::external_body]
pub(crate) fn pem_encode(tag: &str, contents: &[u8]) -> (r: String)
    ensures
        r@ == pem_text_of(tag@, contents@),
{
    rsa::pem::encode(&rsa::pem::Pem { tag: tag.to_string(), contents: contents.to_vec() })
}

} // verus!
