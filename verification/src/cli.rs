//! The option types of the command-line surface and the scheme tag they
//! carry. Only plain data lives here; argument parsing and file handling
//! belong to the surrounding program.

use vstd::prelude::*;
use vstd::string::StrSliceExecFns;

verus! {

/// The closed set of signing schemes the engine dispatches over.
#[derive(Debug, Clone, Copy, PartialEq, Eq, Structural)]
pub enum TextSignFormat {
    Blake3,
    Ed25519,
}

/// Character-for-character equality of two string slices.
fn str_eq(a: &str, b: &str) -> (r: bool)
    ensures
        r == (a@ == b@),
{
    let a_len = a.unicode_len();
    let b_len = b.unicode_len();
    if a_len != b_len {
        return false;
    }
    for i in 0..a_len
        invariant
            a_len == a@.len(),
            b_len == b@.len(),
            a@.len() == b@.len(),
            forall|j: int| 0 <= j < i ==> a@[j] == b@[j],
    {
        if a.get_char(i) != b.get_char(i) {
            return false;
        }
    }
    proof {
        assert(a@ =~= b@);
    }
    true
}

/// Turns a lowercase scheme tag into the scheme it names; any other string
/// is not a scheme.
pub fn parse_text_sign_format(format: &str) -> (r: Option<TextSignFormat>)
    ensures
        r == Some(TextSignFormat::Blake3) <==> format@ == "blake3"@,
        r == Some(TextSignFormat::Ed25519) <==> format@ == "ed25519"@,
        r is None <==> (format@ != "blake3"@ && format@ != "ed25519"@),
{
    proof {
        reveal_strlit("blake3");
        reveal_strlit("ed25519");
        assert("blake3"@.len() == 6);
        assert("ed25519"@.len() == 7);
    }
    if str_eq(format, "blake3") {
        Some(TextSignFormat::Blake3)
    } else if str_eq(format, "ed25519") {
        Some(TextSignFormat::Ed25519)
    } else {
        None
    }
}

impl TextSignFormat {
    /// The tag that names this scheme; the inverse of `parse_text_sign_format`.
    pub fn as_str(&self) -> (r: &'static str)
        ensures
            *self == TextSignFormat::Blake3 ==> r@ == "blake3"@,
            *self == TextSignFormat::Ed25519 ==> r@ == "ed25519"@,
    {
        match self {
            TextSignFormat::Blake3 => "blake3",
            TextSignFormat::Ed25519 => "ed25519",
        }
    }
}

/// Options of the password generator: the length asked for and which
/// character classes take part.
#[derive(Debug)]
pub struct GenPWDOpts {
    pub length: u8,
    pub no_upper_case: bool,
    pub lower_case: bool,
    pub numbers: bool,
    pub symbols: bool,
}

/// Options for signing: where the input and the key come from, and the scheme.
#[derive(Debug)]
pub struct TextSignOpts {
    pub input: String,
    pub key: String,
    pub format: TextSignFormat,
}

/// Options for verification: input, key, the encoded signature, and the scheme.
#[derive(Debug)]
pub struct TextVeriryOpts {
    pub input: String,
    pub key: String,
    pub sig: String,
    pub format: TextSignFormat,
}

/// Options for key generation: the scheme and the directory the key files go to.
#[derive(Debug)]
pub struct KeyGenerateOpts {
    pub format: TextSignFormat,
    pub output_path: String,
}

/// Options for encryption: where the plaintext comes from.
#[derive(Debug)]
pub struct TextEncryptOpts {
    pub input: String,
}

/// Options for decryption: the encoded ciphertext.
#[derive(Debug)]
pub struct TextDecryptOpts {
    pub input: String,
}

/// The text subcommands the engine serves.
#[derive(Debug)]
pub enum TextSubCommand {
    Sign(TextSignOpts),
    Verify(TextVeriryOpts),
    Generate(KeyGenerateOpts),
    Encrypt(TextEncryptOpts),
    Decrypt(TextDecryptOpts),
}

} // verus!
