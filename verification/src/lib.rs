//! A small text-cryptography engine over in-memory byte buffers: keyed
//! integrity signing and verification (Blake3 keyed hash or Ed25519),
//! authenticated symmetric encryption (ChaCha20-Poly1305), and the key
//! generation each scheme needs. Reading streams, files and the command
//! line is left to the surrounding program; every function here takes and
//! returns plain byte buffers.

pub mod cli;
pub mod error;
pub mod gen_pwd;
pub mod http_serve;
pub mod text;
