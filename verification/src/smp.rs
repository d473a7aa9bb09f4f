//! Sound packages: their payload is encrypted with XXTEA under one fixed
//! key. The archive that holds the payload is opened by the host; what
//! stands here is the step from the stored bytes to the plain ones.

use vstd::prelude::*;

verus! {

/// The key that every sound package is encrypted with.
pub const SMP_KEY: &'static str = "Vampire.C.J at Softstar Technology (ShangHai) Co., Ltd";

/// The plain bytes that XXTEA decryption gives for `data` under `key`.
pub uninterp spec fn xxtea_decrypt_raw(data: Seq<u8>, key: Seq<char>) -> Seq<u8>;

/// The number of stored bytes that are decrypted: the length is taken as a
/// 32-bit number and rounded down to whole 32-bit words.
pub open spec fn payload_len(len: nat) -> nat {
    ((len % 0x1_0000_0000) / 4 * 4) as nat
}

/// Decrypts `data` with `xxtea::decrypt_raw`. The cipher works on the words
/// that the bytes and the key spell, so the result is a function of the two
/// alone. It takes the length of the data as a 32-bit number and divides by
/// the number of words: data of no byte, or of more bytes than 32 bits
/// count, are kept from it.
#[verifier::external_body]
fn decrypt_raw(data: &Vec<u8>, key: &str) -> (plain: Vec<u8>)
    requires
        0 < data@.len() <= u32::MAX,
    ensures
        plain@ == xxtea_decrypt_raw(data@, key@),
{
    xxtea::decrypt_raw(data, key)
}

/// The plain content of a sound package whose stored bytes are `content`.
///
/// The bytes beyond the last whole word are dropped before decryption.
/// Where no whole word is left there is nothing to decrypt.
pub fn decrypt_smp(content: Vec<u8>) -> (plain: Option<Vec<u8>>)
    ensures
        payload_len(content@.len()) == 0 ==> plain is None,
        payload_len(content@.len()) > 0 ==> plain is Some && plain->Some_0@ == xxtea_decrypt_raw(
            content@.subrange(0, payload_len(content@.len()) as int),
            SMP_KEY@,
        ),
{
    let mut content = content;
    let len: usize = content.len();
    let size: usize = ((len as u64 % 0x1_0000_0000) / 4 * 4) as usize;
    if size == 0 {
        return None;
    }
    content.truncate(size);
    Some(decrypt_raw(&content, SMP_KEY))
}

} // verus!
