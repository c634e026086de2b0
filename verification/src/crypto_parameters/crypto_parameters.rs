use vstd::prelude::*;

use crate::crypto_parameters::block_cipher::BlockCipher;
use crate::crypto_parameters::kdf::Kdf;
use crate::crypto_parameters::key_size::KeySize;
use crate::crypto_parameters::operation_mode::OperationMode;

verus! {

/// The four bytes of `integer`, most significant first.
pub open spec fn spec_be_bytes(integer: u32) -> Seq<u8> {
    seq![
        ((integer >> 24) & 0xFF) as u8,
        ((integer >> 16) & 0xFF) as u8,
        ((integer >> 8) & 0xFF) as u8,
        (integer & 0xFF) as u8,
    ]
}

/// The integer whose bytes, most significant first, are `bytes`.
pub open spec fn spec_be_u32(bytes: Seq<u8>) -> u32
    recommends
        bytes.len() == 4,
{
    ((bytes[0] as u32) << 24) | ((bytes[1] as u32) << 16) | ((bytes[2] as u32) << 8) | (
    bytes[3] as u32)
}

/// Reading back the four big-endian bytes of an integer recovers the integer.
pub proof fn lemma_be_round_trip(integer: u32)
    ensures
        spec_be_u32(spec_be_bytes(integer)) == integer,
{
    let bytes = spec_be_bytes(integer);
    assert(bytes[0] == ((integer >> 24) & 0xFF) as u8);
    assert(bytes[1] == ((integer >> 16) & 0xFF) as u8);
    assert(bytes[2] == ((integer >> 8) & 0xFF) as u8);
    assert(bytes[3] == (integer & 0xFF) as u8);
    assert(((((integer >> 24) & 0xFF) as u8 as u32) << 24) | ((((integer >> 16) & 0xFF) as u8
        as u32) << 16) | ((((integer >> 8) & 0xFF) as u8 as u32) << 8) | ((integer
        & 0xFF) as u8 as u32) == integer) by (bit_vector);
}

pub fn u32_to_byte_array(integer: u32) -> (r: [u8; 4])
    ensures
        r@ == spec_be_bytes(integer),
{
    proof {
        assert((integer >> 24) & 0xFF < 256 && (integer >> 16) & 0xFF < 256 && (integer >> 8)
            & 0xFF < 256 && integer & 0xFF < 256) by (bit_vector);
    }
    let byte_array: [u8; 4] = [
        ((integer >> 24) & 0xFF) as u8,
        ((integer >> 16) & 0xFF) as u8,
        ((integer >> 8) & 0xFF) as u8,
        (integer & 0xFF) as u8,
    ];
    proof {
        assert(byte_array@ =~= spec_be_bytes(integer));
    }
    byte_array
}

pub fn byte_array_to_u32(byte_array: &[u8; 4]) -> (r: u32)
    ensures
        r == spec_be_u32(byte_array@),
{
    ((byte_array[0] as u32) << 24) | ((byte_array[1] as u32) << 16) | ((byte_array[2] as u32) << 8)
        | (byte_array[3] as u32)
}

/// The header field that a decode failure points at.
#[derive(Clone, Copy, PartialEq, Eq, Structural, Debug)]
pub enum HeaderField {
    BlockCipher,
    Kdf,
    KeySize,
    OperationMode,
}

/// A decode failure: `field` carried `code`, which names no member of that
/// field's enumeration.
#[derive(Clone, Copy, PartialEq, Eq, Structural, Debug)]
pub struct HeaderError {
    pub field: HeaderField,
    pub code: u32,
}

/// The algorithm choices recorded in a file's 16-byte parameter header.
#[derive(Clone, Copy, PartialEq, Eq, Structural, Debug)]
pub struct CryptoParameters {
    pub block_cipher: BlockCipher,
    pub kdf: Kdf,
    pub key_size: KeySize,
    pub operation_mode: OperationMode,
}

/// The four bytes of header field `field`: byte offsets `4 * field` up to
/// `4 * field + 4`.
pub open spec fn spec_field_bytes(bytes: Seq<u8>, field: int) -> Seq<u8>
    recommends
        bytes.len() == 16,
        0 <= field < 4,
{
    bytes.subrange(4 * field, 4 * field + 4)
}

/// The big-endian code carried at byte offset `4 * field` of a header.
pub open spec fn spec_field_code(bytes: Seq<u8>, field: int) -> u32
    recommends
        bytes.len() == 16,
        0 <= field < 4,
{
    spec_be_u32(spec_field_bytes(bytes, field))
}

/// Whether `code` names a member of the enumeration that header field `field`
/// draws from.
pub open spec fn spec_field_code_valid(field: int, code: u32) -> bool
    recommends
        0 <= field < 4,
{
    if field == 0 {
        BlockCipher::spec_from_integer(code) is Some
    } else if field == 1 {
        Kdf::spec_from_integer(code) is Some
    } else if field == 2 {
        KeySize::spec_from_integer(code) is Some
    } else {
        OperationMode::spec_from_integer(code) is Some
    }
}

impl CryptoParameters {
    /// The 16-byte header for these parameters: each field's code as four
    /// big-endian bytes, in field order.
    pub open spec fn spec_encode(self) -> Seq<u8> {
        spec_be_bytes(self.block_cipher.spec_code()) + spec_be_bytes(self.kdf.spec_code())
            + spec_be_bytes(self.key_size.spec_code()) + spec_be_bytes(
            self.operation_mode.spec_code())
    }

    /// What decoding a 16-byte header yields: the parameters whose codes it
    /// carries, or an error naming the first field whose code is unknown.
    pub open spec fn spec_decode(bytes: Seq<u8>) -> Result<CryptoParameters, HeaderError>
        recommends
            bytes.len() == 16,
    {
        let block_cipher_code = spec_field_code(bytes, 0);
        let kdf_code = spec_field_code(bytes, 1);
        let key_size_code = spec_field_code(bytes, 2);
        let operation_mode_code = spec_field_code(bytes, 3);
        if BlockCipher::spec_from_integer(block_cipher_code) is None {
            Err(HeaderError { field: HeaderField::BlockCipher, code: block_cipher_code })
        } else if Kdf::spec_from_integer(kdf_code) is None {
            Err(HeaderError { field: HeaderField::Kdf, code: kdf_code })
        } else if KeySize::spec_from_integer(key_size_code) is None {
            Err(HeaderError { field: HeaderField::KeySize, code: key_size_code })
        } else if OperationMode::spec_from_integer(operation_mode_code) is None {
            Err(HeaderError { field: HeaderField::OperationMode, code: operation_mode_code })
        } else {
            Ok(
                CryptoParameters {
                    block_cipher: BlockCipher::spec_from_integer(block_cipher_code)->Some_0,
                    kdf: Kdf::spec_from_integer(kdf_code)->Some_0,
                    key_size: KeySize::spec_from_integer(key_size_code)->Some_0,
                    operation_mode: OperationMode::spec_from_integer(operation_mode_code)->Some_0,
                },
            )
        }
    }

    pub fn to_byte_buffer(&self) -> (r: [u8; 16])
        ensures
            r@ == self.spec_encode(),
    {
        let block_cipher_bytes = self.get_block_cipher_byte_buffer();
        let kdf_bytes = self.get_kdf_byte_buffer();
        let key_size_bytes = self.get_key_size_byte_buffer();
        let operation_mode_bytes = self.get_operation_mode_byte_buffer();
        let byte_buffer: [u8; 16] = [
            block_cipher_bytes[0],
            block_cipher_bytes[1],
            block_cipher_bytes[2],
            block_cipher_bytes[3],
            kdf_bytes[0],
            kdf_bytes[1],
            kdf_bytes[2],
            kdf_bytes[3],
            key_size_bytes[0],
            key_size_bytes[1],
            key_size_bytes[2],
            key_size_bytes[3],
            operation_mode_bytes[0],
            operation_mode_bytes[1],
            operation_mode_bytes[2],
            operation_mode_bytes[3],
        ];
        proof {
            assert(byte_buffer@ =~= self.spec_encode());
        }
        byte_buffer
    }

    fn get_block_cipher_byte_buffer(&self) -> (r: [u8; 4])
        ensures
            r@ == spec_be_bytes(self.block_cipher.spec_code()),
    {
        let block_cipher_integer = self.block_cipher.to_integer();
        u32_to_byte_array(block_cipher_integer)
    }

    fn get_kdf_byte_buffer(&self) -> (r: [u8; 4])
        ensures
            r@ == spec_be_bytes(self.kdf.spec_code()),
    {
        let kdf_integer = self.kdf.to_integer();
        u32_to_byte_array(kdf_integer)
    }

    fn get_key_size_byte_buffer(&self) -> (r: [u8; 4])
        ensures
            r@ == spec_be_bytes(self.key_size.spec_code()),
    {
        let key_size_integer = self.key_size.to_integer();
        u32_to_byte_array(key_size_integer)
    }

    fn get_operation_mode_byte_buffer(&self) -> (r: [u8; 4])
        ensures
            r@ == spec_be_bytes(self.operation_mode.spec_code()),
    {
        let operation_mode_integer = self.operation_mode.to_integer();
        u32_to_byte_array(operation_mode_integer)
    }

    /// Decode a 16-byte header, reporting the first field whose code names no
    /// member of its enumeration.
    pub fn decode(byte_buffer: &[u8; 16]) -> (r: Result<CryptoParameters, HeaderError>)
        ensures
            r == Self::spec_decode(byte_buffer@),
    {
        let block_cipher_integer = Self::get_sub_array_at_offset_as_u32(byte_buffer, 0);
        let block_cipher = match BlockCipher::from_integer(block_cipher_integer) {
            None => {
                return Err(
                    HeaderError { field: HeaderField::BlockCipher, code: block_cipher_integer },
                );
            },
            Some(block_cipher) => block_cipher,
        };
        let kdf_integer = Self::get_sub_array_at_offset_as_u32(byte_buffer, 4);
        let kdf = match Kdf::from_integer(kdf_integer) {
            None => {
                return Err(HeaderError { field: HeaderField::Kdf, code: kdf_integer });
            },
            Some(kdf) => kdf,
        };
        let key_size_integer = Self::get_sub_array_at_offset_as_u32(byte_buffer, 8);
        let key_size = match KeySize::from_integer(key_size_integer) {
            None => {
                return Err(HeaderError { field: HeaderField::KeySize, code: key_size_integer });
            },
            Some(key_size) => key_size,
        };
        let operation_mode_integer = Self::get_sub_array_at_offset_as_u32(byte_buffer, 12);
        let operation_mode = match OperationMode::from_integer(operation_mode_integer) {
            None => {
                return Err(
                    HeaderError { field: HeaderField::OperationMode, code: operation_mode_integer },
                );
            },
            Some(operation_mode) => operation_mode,
        };
        Ok(CryptoParameters { block_cipher, kdf, key_size, operation_mode })
    }

    /// Decode a 16-byte header, dropping the error detail.
    pub fn from_byte_buffer(byte_buffer: &[u8; 16]) -> (r: Option<CryptoParameters>)
        ensures
            (r is Some) <==> (Self::spec_decode(byte_buffer@) is Ok),
            r is Some ==> r->Some_0 == Self::spec_decode(byte_buffer@)->Ok_0,
    {
        match Self::decode(byte_buffer) {
            Ok(parameters) => Some(parameters),
            Err(_) => None,
        }
    }

    fn get_sub_array_at_offset_as_u32(array: &[u8; 16], offset: usize) -> (r: u32)
        requires
            offset + 4 <= 16,
        ensures
            r == spec_be_u32(array@.subrange(offset as int, offset as int + 4)),
    {
        let sub_array: [u8; 4] = [array[offset], array[offset + 1], array[offset + 2], array[offset
            + 3]];
        proof {
            assert(sub_array@ =~= array@.subrange(offset as int, offset as int + 4));
        }
        byte_array_to_u32(&sub_array)
    }
}

/// Round trip: decoding the encoding of any parameter value yields that value.
pub proof fn lemma_decode_encode_round_trip(parameters: CryptoParameters)
    ensures
        CryptoParameters::spec_decode(CryptoParameters::spec_encode(parameters))
            == Ok::<CryptoParameters, HeaderError>(parameters),
{
    let bytes = parameters.spec_encode();
    assert(bytes.subrange(0, 4) =~= spec_be_bytes(parameters.block_cipher.spec_code()));
    assert(bytes.subrange(4, 8) =~= spec_be_bytes(parameters.kdf.spec_code()));
    assert(bytes.subrange(8, 12) =~= spec_be_bytes(parameters.key_size.spec_code()));
    assert(bytes.subrange(12, 16) =~= spec_be_bytes(parameters.operation_mode.spec_code()));
    lemma_be_round_trip(parameters.block_cipher.spec_code());
    lemma_be_round_trip(parameters.kdf.spec_code());
    lemma_be_round_trip(parameters.key_size.spec_code());
    lemma_be_round_trip(parameters.operation_mode.spec_code());
    BlockCipher::lemma_code_round_trip(parameters.block_cipher);
    Kdf::lemma_code_round_trip(parameters.kdf);
    KeySize::lemma_code_round_trip(parameters.key_size);
    OperationMode::lemma_code_round_trip(parameters.operation_mode);
}

/// Corrupting exactly one field of an otherwise valid header makes the whole
/// decode fail, while each untouched field still resolves on its own.
pub proof fn lemma_header_field_isolation(
    parameters: CryptoParameters,
    bytes: Seq<u8>,
    field: int,
)
    requires
        bytes.len() == 16,
        0 <= field < 4,
        forall|j: int|
            0 <= j < 4 && j != field ==> #[trigger] spec_field_bytes(bytes, j)
                == spec_field_bytes(CryptoParameters::spec_encode(parameters), j),
        !spec_field_code_valid(field, spec_field_code(bytes, field)),
    ensures
        CryptoParameters::spec_decode(bytes) is Err,
        forall|j: int|
            0 <= j < 4 && j != field ==> spec_field_code_valid(j, spec_field_code(bytes, j)),
{
    let encoded = CryptoParameters::spec_encode(parameters);
    assert(encoded.subrange(0, 4) =~= spec_be_bytes(parameters.block_cipher.spec_code()));
    assert(encoded.subrange(4, 8) =~= spec_be_bytes(parameters.kdf.spec_code()));
    assert(encoded.subrange(8, 12) =~= spec_be_bytes(parameters.key_size.spec_code()));
    assert(encoded.subrange(12, 16) =~= spec_be_bytes(parameters.operation_mode.spec_code()));
    lemma_be_round_trip(parameters.block_cipher.spec_code());
    lemma_be_round_trip(parameters.kdf.spec_code());
    lemma_be_round_trip(parameters.key_size.spec_code());
    lemma_be_round_trip(parameters.operation_mode.spec_code());
    BlockCipher::lemma_code_round_trip(parameters.block_cipher);
    Kdf::lemma_code_round_trip(parameters.kdf);
    KeySize::lemma_code_round_trip(parameters.key_size);
    OperationMode::lemma_code_round_trip(parameters.operation_mode);
    assert forall|j: int| 0 <= j < 4 && j != field implies spec_field_code_valid(
        j,
        spec_field_code(bytes, j),
    ) by {
        assert(spec_field_bytes(bytes, j) == spec_field_bytes(encoded, j));
    }
}

} // verus!
