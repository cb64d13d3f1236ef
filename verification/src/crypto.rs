//! The two primitives that the frame codec rests on: the MD5 digest and
//! AES-128 in CBC mode with PKCS#7 padding. Both are computed elsewhere;
//! this module gives their results a name.

use cbc::cipher::block_padding::Pkcs7;
use cbc::cipher::{BlockDecryptMut, BlockEncryptMut, KeyIvInit};
use vstd::prelude::*;

verus! {

/// The MD5 digest of `data`.
pub uninterp spec fn md5_digest(data: Seq<u8>) -> Seq<u8>;

/// The AES-128-CBC ciphertext of `plaintext`, padded by PKCS#7, under a key
/// and an initialization vector of 16 bytes each.
pub uninterp spec fn aes128_cbc_encrypt(key: Seq<u8>, iv: Seq<u8>, plaintext: Seq<u8>) -> Seq<u8>;

/// The plaintext that AES-128-CBC decryption and the removal of PKCS#7
/// padding recover from `ciphertext`, or `None` where the ciphertext is not a
/// whole number of blocks or the padding is malformed.
pub uninterp spec fn aes128_cbc_decrypt(key: Seq<u8>, iv: Seq<u8>, ciphertext: Seq<u8>) -> Option<
    Seq<u8>,
>;

/// Length of a message of `n` bytes once PKCS#7 has padded it to whole
/// blocks: the padding is never empty.
pub open spec fn padded_len(n: nat) -> nat {
    (n / 16 + 1) * 16
}

/// `md5::compute`: the 16 bytes of the MD5 digest of `data`.
#[verifier::external_body]
pub(crate) fn md5_of(data: &[u8]) -> (digest: [u8; 16])
    ensures
        digest@ == md5_digest(data@),
{
    md5::compute(data).0
}

/// `encrypt_padded_vec_mut` of `cbc::Encryptor<aes::Aes128>` with `Pkcs7`:
/// the ciphertext of `plaintext`. It is `padded_len` bytes long, and
/// decryption under the same key and vector gives the plaintext back.
#[verifier::external_body]
pub(crate) fn cbc_encrypt(key: &[u8; 16], iv: &[u8; 16], plaintext: &[u8]) -> (ciphertext: Vec<u8>)
    requires
        plaintext@.len() + 16 <= isize::MAX,
    ensures
        ciphertext@ == aes128_cbc_encrypt(key@, iv@, plaintext@),
        ciphertext@.len() == padded_len(plaintext@.len()),
        aes128_cbc_decrypt(key@, iv@, ciphertext@) == Some(plaintext@),
{
    cbc::Encryptor::<aes::Aes128>::new(key.into(), iv.into()).encrypt_padded_vec_mut::<Pkcs7>(
        plaintext,
    )
}

/// `decrypt_padded_vec_mut` of `cbc::Decryptor<aes::Aes128>` with `Pkcs7`:
/// the plaintext of `ciphertext`, or `None` where the call reports an
/// unpadding error.
#[verifier::external_body]
pub(crate) fn cbc_decrypt(key: &[u8; 16], iv: &[u8; 16], ciphertext: &[u8]) -> (plaintext: Option<
    Vec<u8>,
>)
    ensures
        match plaintext {
            Some(bytes) => aes128_cbc_decrypt(key@, iv@, ciphertext@) == Some(bytes@),
            None => aes128_cbc_decrypt(key@, iv@, ciphertext@) is None,
        },
{
    match cbc::Decryptor::<aes::Aes128>::new(key.into(), iv.into()).decrypt_padded_vec_mut::<Pkcs7>(
        ciphertext,
    ) {
        Ok(bytes) => Some(bytes),
        Err(_) => None,
    }
}

} // verus!
