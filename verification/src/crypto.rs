//! The envelope's cryptography: AES-128-CBC with PKCS#7 padding behind
//! trusted wrappers, a fresh random IV per frame, base64 key decoding and
//! gzip decompression. The verified functions here assemble and split the
//! `IV || ciphertext` body.

use vstd::prelude::*;

verus! {

use crate::errors::Error;
use block_modes::BlockMode;

/// What AES-128-CBC with PKCS#7 padding makes of `pt` under `key` and `iv`.
pub uninterp spec fn aes_cbc_cipher(key: Seq<u8>, iv: Seq<u8>, pt: Seq<u8>) -> Seq<u8>;

/// What AES-128-CBC with PKCS#7 unpadding makes of `ct` under `key` and
/// `iv`; `None` when the length is not a whole number of blocks or the
/// padding is invalid.
pub uninterp spec fn aes_cbc_plain(key: Seq<u8>, iv: Seq<u8>, ct: Seq<u8>) -> Option<Seq<u8>>;

/// The padded length of a plaintext of `n` bytes under PKCS#7: the next
/// multiple of sixteen, a whole block more when `n` is already one.
pub open spec fn spec_padded_len(n: nat) -> nat {
    (n + 16 - (n % 16)) as nat
}

/// Relies on block_modes' `Cbc::<Aes128, Pkcs7>`: `new_from_slices` accepts
/// exactly a 16-byte key and a 16-byte IV; `encrypt_vec` pads the plaintext
/// to the next block boundary and encrypts it, and `decrypt_vec` under the
/// same key and IV returns the plaintext.
#[verifier::external_body]
fn cbc_encrypt(key: &[u8], iv: &[u8], pt: &[u8]) -> (r: Result<Vec<u8>, Error>)
    ensures
        r is Ok <==> (key@.len() == 16 && iv@.len() == 16),
        match r {
            Result::Ok(c) => {
                &&& c@ == aes_cbc_cipher(key@, iv@, pt@)
                &&& c@.len() == spec_padded_len(pt@.len())
                &&& aes_cbc_plain(key@, iv@, c@) == Some(pt@)
            },
            Result::Err(e) => e == Error::InvalidKeyIvLength,
        },
{
    let cipher: block_modes::Cbc<aes::Aes128, block_modes::block_padding::Pkcs7> =
        match block_modes::Cbc::new_from_slices(key, iv) {
            Ok(c) => c,
            Err(_) => return Err(Error::InvalidKeyIvLength),
        };
    Ok(cipher.encrypt_vec(pt))
}

/// Relies on block_modes' `Cbc::<Aes128, Pkcs7>`: `decrypt_vec` rejects a
/// length that is not a whole number of blocks and invalid padding, and
/// inverts `encrypt_vec` under the same key and IV.
#[verifier::external_body]
fn cbc_decrypt(key: &[u8], iv: &[u8], ct: &[u8]) -> (r: Result<Vec<u8>, Error>)
    ensures
        match r {
            Result::Ok(p) => {
                &&& key@.len() == 16
                &&& iv@.len() == 16
                &&& aes_cbc_plain(key@, iv@, ct@) == Some(p@)
            },
            Result::Err(e) => {
                if key@.len() != 16 || iv@.len() != 16 {
                    e == Error::InvalidKeyIvLength
                } else {
                    e == Error::DecryptAesError && aes_cbc_plain(key@, iv@, ct@) is None
                }
            },
        },
{
    let cipher: block_modes::Cbc<aes::Aes128, block_modes::block_padding::Pkcs7> =
        match block_modes::Cbc::new_from_slices(key, iv) {
            Ok(c) => c,
            Err(_) => return Err(Error::InvalidKeyIvLength),
        };
    match cipher.decrypt_vec(ct) {
        Ok(p) => Ok(p),
        Err(_) => Err(Error::DecryptAesError),
    }
}

/// Relies on rand's `thread_rng` and `fill_bytes` to draw sixteen random
/// bytes; nothing is assumed of their values.
#[verifier::external_body]
fn fresh_iv() -> (r: Vec<u8>)
    ensures
        r@.len() == 16,
{
    let mut iv = [0u8; 16];
    rand::RngCore::fill_bytes(&mut rand::thread_rng(), &mut iv);
    iv.to_vec()
}

/// What base64 with the standard alphabet decodes `s` to; `None` when `s`
/// is not valid base64.
pub uninterp spec fn base64_of(s: Seq<char>) -> Option<Seq<u8>>;

/// Relies on `base64::decode` (standard alphabet): the result is a function
/// of the characters alone.
#[verifier::external_body]
pub(crate) fn base64_decode(s: &str) -> (r: Result<Vec<u8>, Error>)
    ensures
        match r {
            Result::Ok(v) => base64_of(s@) == Some(v@),
            Result::Err(e) => base64_of(s@) is None && e == Error::DecodeBase64Error,
        },
{
    match base64::decode(s) {
        Ok(v) => Ok(v),
        Err(_) => Err(Error::DecodeBase64Error),
    }
}

/// What gunzipping `b` yields; `None` when `b` is not a valid gzip stream.
pub uninterp spec fn gunzip_of(b: Seq<u8>) -> Option<Seq<u8>>;

/// Relies on flate2's `GzDecoder` and `read_to_end`: decompression is a
/// function of the bytes alone.
#[verifier::external_body]
pub(crate) fn gunzip(data: &[u8]) -> (r: Result<Vec<u8>, Error>)
    ensures
        match r {
            Result::Ok(v) => gunzip_of(data@) == Some(v@),
            Result::Err(e) => gunzip_of(data@) is None && e == Error::GzipError,
        },
{
    let mut reader = flate2::read::GzDecoder::new(data);
    let mut buf = Vec::new();
    match std::io::Read::read_to_end(&mut reader, &mut buf) {
        Ok(_) => Ok(buf),
        Err(_) => Err(Error::GzipError),
    }
}

/// Encrypts `plaintext` into `IV || ciphertext` under a fresh random IV.
/// The IV is the first sixteen bytes of the result, and the rest decrypts
/// back to the plaintext under it.
pub fn encrypt_body(key: &[u8], plaintext: &[u8]) -> (r: Result<Vec<u8>, Error>)
    ensures
        r is Ok <==> key@.len() == 16,
        match r {
            Result::Ok(b) => {
                &&& b@.len() == 16 + spec_padded_len(plaintext@.len())
                &&& b@.skip(16) == aes_cbc_cipher(key@, b@.take(16), plaintext@)
                &&& aes_cbc_plain(key@, b@.take(16), b@.skip(16)) == Some(plaintext@)
            },
            Result::Err(e) => e == Error::InvalidKeyIvLength,
        },
{
    let mut out = fresh_iv();
    let ghost ivv = out@;
    match cbc_encrypt(key, out.as_slice(), plaintext) {
        Ok(ct) => {
            crate::wire::write_bytes(&mut out, ct.as_slice());
            proof {
                assert(out@.take(16) =~= ivv);
                assert(out@.skip(16) =~= ct@);
            }
            Ok(out)
        },
        Err(e) => Err(e),
    }
}

/// Splits a body into `IV || ciphertext` and decrypts it. A body of no more
/// than one block is refused as too short, mirroring that an encrypted body
/// always holds the IV and at least one ciphertext block.
pub fn decrypt_body(key: &[u8], body: &[u8]) -> (r: Result<Vec<u8>, Error>)
    ensures
        match r {
            Result::Ok(p) => {
                &&& body@.len() > 16
                &&& key@.len() == 16
                &&& aes_cbc_plain(key@, body@.take(16), body@.skip(16)) == Some(p@)
            },
            Result::Err(e) => {
                if body@.len() <= 16 {
                    e == Error::CipherTextTooShort(body@.len() as usize)
                } else if key@.len() != 16 {
                    e == Error::InvalidKeyIvLength
                } else {
                    e == Error::DecryptAesError && aes_cbc_plain(
                        key@,
                        body@.take(16),
                        body@.skip(16),
                    ) is None
                }
            },
        },
{
    if body.len() <= 16 {
        return Err(Error::CipherTextTooShort(body.len()));
    }
    let iv = vstd::slice::slice_subrange(body, 0, 16);
    let ct = vstd::slice::slice_subrange(body, 16, body.len());
    proof {
        assert(iv@ =~= body@.take(16));
        assert(ct@ =~= body@.skip(16));
    }
    cbc_decrypt(key, iv, ct)
}

} // verus!
