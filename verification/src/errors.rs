//! The library's error kinds. Codec and protocol errors are fatal to a
//! session; input errors are surfaced at construction.

use vstd::prelude::*;

verus! {

#[derive(Clone, Copy, Debug, PartialEq, Eq, Structural)]
pub enum Error {
    /// The AES key or IV had a length other than sixteen bytes.
    InvalidKeyIvLength,
    /// The ciphertext did not decrypt to a validly padded plaintext.
    DecryptAesError,
    /// The body of an encrypted frame was no longer than one block; it
    /// carries the offending length.
    CipherTextTooShort(usize),
    /// The security key was not valid base64.
    DecodeBase64Error,
    /// A message could not be decoded from its wire bytes.
    DecodeProtoError,
    /// A frame's plaintext length differed from the header's declared
    /// length: the expected and the actual length.
    ProtoDataLengthError(usize, usize),
    /// A frame's length did not match the lengths it declares.
    FrameTooShort,
    /// A length did not fit the machine's word.
    LengthOverflow,
    /// The ticket index pointed outside the ticket list.
    IndexOutOfRange,
    /// The token handed to the client was missing a required field.
    InvalidToken,
    /// A session-key frame was requested before the register reply
    /// delivered the session key.
    NoSessionKey,
    /// The first reply of the server was not a register response.
    RegisterError,
    /// A compressed payload did not decompress.
    GzipError,
    /// The liver uid was not positive.
    InvalidUid(i64),
    /// The live id was empty.
    EmptyLiveId,
    /// No live metadata was available for the requested room.
    NoLiveInfo,
}

} // verus!
