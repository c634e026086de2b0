use sfe::crypto_parameters::block_cipher::BlockCipher;
use sfe::crypto_parameters::kdf::Kdf;
use sfe::crypto_parameters::key_size::KeySize;
use sfe::crypto_parameters::operation_mode::OperationMode;

#[test]
fn crypto_parameters_test_block_cipher_to_integer() {
    assert_eq!(BlockCipher::Aes.to_integer(), 1);
    assert_eq!(BlockCipher::Camellia.to_integer(), 2);
}

#[test]
fn crypto_parameters_test_block_cipher_from_integer() {
    assert_eq!(BlockCipher::from_integer(0), None);
    assert_eq!(BlockCipher::from_integer(1).unwrap(), BlockCipher::Aes);
    assert_eq!(BlockCipher::from_integer(2).unwrap(), BlockCipher::Camellia);
    assert_eq!(BlockCipher::from_integer(3), None);
}

#[test]
fn crypto_parameters_test_operation_mode_to_integer() {
    assert_eq!(OperationMode::Gcm.to_integer(), 1);
}

#[test]
fn crypto_parameters_test_operation_mode_from_integer() {
    assert_eq!(OperationMode::from_integer(0), None);
    assert_eq!(OperationMode::from_integer(1).unwrap(), OperationMode::Gcm);
    assert_eq!(OperationMode::from_integer(2), None);
}

#[test]
fn crypto_parameters_test_kdf_to_integer() {
    assert_eq!(Kdf::Pbkdf2.to_integer(), 1);
}

#[test]
fn crypto_parameters_test_kdf_from_integer() {
    assert_eq!(Kdf::from_integer(0), None);
    assert_eq!(Kdf::from_integer(1).unwrap(), Kdf::Pbkdf2);
    assert_eq!(Kdf::from_integer(2), None);
}

#[test]
fn crypto_parameters_test_key_size_to_integer() {
    assert_eq!(KeySize::Size128.to_integer(), 128);
    assert_eq!(KeySize::Size192.to_integer(), 192);
    assert_eq!(KeySize::Size256.to_integer(), 256);
}

#[test]
fn crypto_parameters_test_key_size_from_integer() {
    assert_eq!(KeySize::from_integer(127), None);
    assert_eq!(KeySize::from_integer(128).unwrap(), KeySize::Size128);
    assert_eq!(KeySize::from_integer(129), None);
    assert_eq!(KeySize::from_integer(191), None);
    assert_eq!(KeySize::from_integer(192).unwrap(), KeySize::Size192);
    assert_eq!(KeySize::from_integer(193), None);
    assert_eq!(KeySize::from_integer(255), None);
    assert_eq!(KeySize::from_integer(256).unwrap(), KeySize::Size256);
    assert_eq!(KeySize::from_integer(257), None);
}

#[test]
fn block_cipher_test_block_cipher_to_integer() {
    assert_eq!(BlockCipher::Aes.to_integer(), 1);
    assert_eq!(BlockCipher::Camellia.to_integer(), 2);
}

#[test]
fn block_cipher_test_block_cipher_from_integer() {
    assert_eq!(BlockCipher::from_integer(0), None);
    assert_eq!(BlockCipher::from_integer(1).unwrap(), BlockCipher::Aes);
    assert_eq!(BlockCipher::from_integer(2).unwrap(), BlockCipher::Camellia);
    assert_eq!(BlockCipher::from_integer(3), None);
}

#[test]
fn kdf_test_kdf_to_integer() {
    assert_eq!(Kdf::Pbkdf2.to_integer(), 1);
}

#[test]
fn kdf_test_kdf_from_integer() {
    assert_eq!(Kdf::from_integer(0), None);
    assert_eq!(Kdf::from_integer(1).unwrap(), Kdf::Pbkdf2);
    assert_eq!(Kdf::from_integer(2), None);
}

#[test]
fn key_size_test_key_size_to_integer() {
    assert_eq!(KeySize::Size128.to_integer(), 128);
    assert_eq!(KeySize::Size192.to_integer(), 192);
    assert_eq!(KeySize::Size256.to_integer(), 256);
}

#[test]
fn key_size_test_key_size_from_integer() {
    assert_eq!(KeySize::from_integer(127), None);
    assert_eq!(KeySize::from_integer(128).unwrap(), KeySize::Size128);
    assert_eq!(KeySize::from_integer(129), None);
    assert_eq!(KeySize::from_integer(191), None);
    assert_eq!(KeySize::from_integer(192).unwrap(), KeySize::Size192);
    assert_eq!(KeySize::from_integer(193), None);
    assert_eq!(KeySize::from_integer(255), None);
    assert_eq!(KeySize::from_integer(256).unwrap(), KeySize::Size256);
    assert_eq!(KeySize::from_integer(257), None);
}

#[test]
fn operation_mode_test_operation_mode_to_integer() {
    assert_eq!(OperationMode::Gcm.to_integer(), 1);
}

#[test]
fn operation_mode_test_operation_mode_from_integer() {
    assert_eq!(OperationMode::from_integer(0), None);
    assert_eq!(OperationMode::from_integer(1).unwrap(), OperationMode::Gcm);
    assert_eq!(OperationMode::from_integer(2), None);
}

#[test]
fn test_key_size_from_integer_zero() {
    assert_eq!(KeySize::from_integer(0), None);
}

#[test]
fn test_codes_distinct_within_each_enumeration() {
    assert_ne!(BlockCipher::Aes.to_integer(), BlockCipher::Camellia.to_integer());
    assert_ne!(KeySize::Size128.to_integer(), KeySize::Size192.to_integer());
    assert_ne!(KeySize::Size128.to_integer(), KeySize::Size256.to_integer());
    assert_ne!(KeySize::Size192.to_integer(), KeySize::Size256.to_integer());
}

#[test]
fn test_enum_integer_round_trips() {
    assert_eq!(
        BlockCipher::from_integer(BlockCipher::Aes.to_integer()).unwrap(),
        BlockCipher::Aes
    );
    assert_eq!(
        BlockCipher::from_integer(BlockCipher::Camellia.to_integer()).unwrap(),
        BlockCipher::Camellia
    );
    assert_eq!(Kdf::from_integer(Kdf::Pbkdf2.to_integer()).unwrap(), Kdf::Pbkdf2);
    assert_eq!(
        KeySize::from_integer(KeySize::Size128.to_integer()).unwrap(),
        KeySize::Size128
    );
    assert_eq!(
        KeySize::from_integer(KeySize::Size192.to_integer()).unwrap(),
        KeySize::Size192
    );
    assert_eq!(
        KeySize::from_integer(KeySize::Size256.to_integer()).unwrap(),
        KeySize::Size256
    );
    assert_eq!(
        OperationMode::from_integer(OperationMode::Gcm.to_integer()).unwrap(),
        OperationMode::Gcm
    );
}
