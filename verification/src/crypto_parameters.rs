pub mod block_cipher;
pub mod crypto_parameters;
pub mod kdf;
pub mod key_size;
pub mod operation_mode;
