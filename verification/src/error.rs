//! The error taxonomy of identity custody.

use vstd::prelude::*;

verus! {

/// Why a custody operation did not go through.
#[derive(Clone, Copy, Debug, PartialEq, Eq, Structural)]
pub enum SignerError {
    /// The operation needs key material that is not there.
    NoPrivateKey,
    /// The password did not open the encrypted private key, or the
    /// encrypted private key is corrupt.
    Decryption,
    /// An encryption, encoding or signing primitive failed.
    Crypto,
    /// The settings store could not persist what it was handed.
    Persistence,
}

impl SignerError {
    /// A message for people.
    pub fn message(&self) -> (r: &'static str)
        ensures
            r@ == match *self {
                SignerError::NoPrivateKey => "No private key available."@,
                SignerError::Decryption => "Wrong password, or the encrypted private key is corrupt."@,
                SignerError::Crypto => "A cryptographic operation failed."@,
                SignerError::Persistence => "The settings could not be saved."@,
            },
    {
        match self {
            SignerError::NoPrivateKey => "No private key available.",
            SignerError::Decryption => "Wrong password, or the encrypted private key is corrupt.",
            SignerError::Crypto => "A cryptographic operation failed.",
            SignerError::Persistence => "The settings could not be saved.",
        }
    }
}

} // verus!
