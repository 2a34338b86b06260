//! Shared rules for reading what the CryptoKit bridge hands back.

use vstd::prelude::*;
use vstd::utf8::{decode_utf8, valid_utf8};

use crate::error::CryptoKitError;

verus! {

/// What `Vec::truncate(len)` leaves of `bytes`: its first `len` bytes, or
/// all of it when it is no longer than `len`.
pub open spec fn truncated(bytes: Seq<u8>, len: int) -> Seq<u8> {
    if len < bytes.len() {
        bytes.take(len)
    } else {
        bytes
    }
}

/// What is kept of a buffer is its prefix of the reported length, or the
/// whole buffer when the reported length exceeds it: a signature read back
/// from the bridge is never longer than the buffer the bridge was given, nor
/// than the length it reported.
pub proof fn lemma_truncated_is_prefix(bytes: Seq<u8>, len: int)
    requires
        0 <= len,
    ensures
        truncated(bytes, len).len() == if len < bytes.len() {
            len
        } else {
            bytes.len() as int
        },
        truncated(bytes, len) == bytes.take(truncated(bytes, len).len() as int),
{
    assert(bytes.take(bytes.len() as int) =~= bytes);
}

/// Cuts a buffer filled by the bridge down to the length the bridge reported.
pub fn truncate_to(buf: Vec<u8>, len: usize) -> (out: Vec<u8>)
    ensures
        out@ == truncated(buf@, len as int),
{
    let mut buf = buf;
    buf.truncate(len);
    buf
}

/// The first 64 bytes of `bytes`, as an array.
pub fn first_64(bytes: &[u8]) -> (out: [u8; 64])
    requires
        bytes@.len() >= 64,
    ensures
        out@ == bytes@.take(64),
{
    let mut out = [0u8; 64];
    let mut i: usize = 0;
    while i < 64
        invariant
            0 <= i <= 64,
            bytes@.len() >= 64,
            forall|j: int| 0 <= j < i ==> out@[j] == bytes@[j],
        decreases 64 - i,
    {
        out[i] = bytes[i];
        i = i + 1;
    }
    assert(out@ =~= bytes@.take(64));
    out
}

/// The text that `String::from_utf8_lossy` makes of `bytes`.
pub uninterp spec fn utf8_lossy(bytes: Seq<u8>) -> Seq<char>;

/// Decodes `bytes` as UTF-8 with `String::from_utf8_lossy`, which puts
/// U+FFFD in place of each invalid sequence. Its documentation promises that
/// valid UTF-8 comes back as the text it encodes; that is all this contract
/// states beyond naming the result. Where the replacement characters go is
/// left unsaid.
#[verifier::external_body]
pub(crate) fn decode_utf8_lossy(bytes: &[u8]) -> (text: String)
    ensures
        text@ == utf8_lossy(bytes@),
        valid_utf8(bytes@) ==> text@ == decode_utf8(bytes@),
{
    String::from_utf8_lossy(bytes).into_owned()
}

/// Interprets the bridge's reply to a signing request that fills a
/// variable-length buffer: status 0 yields the buffer cut to the reported
/// length, any other status `SigningFailed`.
pub fn signature_from_status(status: i32, signature: Vec<u8>, signature_len: usize) -> (r: Result<
    Vec<u8>,
    CryptoKitError,
>)
    ensures
        status == 0 ==> (r matches Ok(sig) && sig@ == truncated(signature@, signature_len as int)),
        status != 0 ==> r == Err::<Vec<u8>, CryptoKitError>(CryptoKitError::SigningFailed),
{
    if status != 0 {
        return Err(CryptoKitError::SigningFailed);
    }
    Ok(truncate_to(signature, signature_len))
}

} // verus!
