use vstd::prelude::*;

verus! {

/// The failure modes of the engine. A signature that merely does not match
/// is not an error: verification then succeeds with `false`. Only
/// structurally invalid input, or an authentication failure of the AEAD
/// cipher, is reported here.
#[derive(Clone, Copy, Debug, PartialEq, Eq, Structural)]
pub enum Error {
    /// Key material of the wrong length, or bytes that do not form a key.
    KeyFormat,
    /// A signature of the wrong length handed to verification.
    SignatureFormat,
    /// An AEAD seal or open failure (tampered or misframed ciphertext).
    Crypto,
}

} // verus!
