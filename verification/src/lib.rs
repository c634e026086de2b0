//! Core of a file-encryption utility: the fixed 16-byte parameter header that
//! records which algorithms protect a file, and the staging rules that pair a
//! plaintext path with its ciphertext path and size the destination file for
//! an in-place transform.
//!
//! The codec in [`crypto_parameters`] is total on encode and partial on
//! decode: every parameter value has exactly one header, and every header
//! either names a value or is rejected with the field that spoiled it. The
//! stager in [`file_loader`] decides from plain facts about the file system;
//! the surrounding program gathers those facts, and maps the files once a
//! plan comes back.

pub mod crypto_parameters;
pub mod file_loader;
pub mod password_getter;
