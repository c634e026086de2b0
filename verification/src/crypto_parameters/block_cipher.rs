use vstd::prelude::*;

verus! {

/// A block cipher that the header can name.
#[derive(Clone, Copy, PartialEq, Eq, Structural, Debug)]
pub enum BlockCipher {
    Aes,
    Camellia,
}

impl BlockCipher {
    /// The integer code that stands for this cipher in the header.
    pub open spec fn spec_code(self) -> u32 {
        match self {
            BlockCipher::Aes => 1,
            BlockCipher::Camellia => 2,
        }
    }

    /// The cipher that an integer code names, if any.
    pub open spec fn spec_from_integer(integer: u32) -> Option<BlockCipher> {
        if integer == 1 {
            Some(BlockCipher::Aes)
        } else if integer == 2 {
            Some(BlockCipher::Camellia)
        } else {
            None
        }
    }

    pub fn to_integer(&self) -> (r: u32)
        ensures
            r == self.spec_code(),
    {
        match self {
            BlockCipher::Aes => 1,
            BlockCipher::Camellia => 2,
        }
    }

    pub fn from_integer(integer: u32) -> (r: Option<BlockCipher>)
        ensures
            r == Self::spec_from_integer(integer),
    {
        match integer {
            1 => Some(BlockCipher::Aes),
            2 => Some(BlockCipher::Camellia),
            _ => None,
        }
    }

    /// Every cipher's code resolves back to that cipher.
    pub proof fn lemma_code_round_trip(m: BlockCipher)
        ensures
            Self::spec_from_integer(m.spec_code()) == Some(m),
    {
    }

    /// Distinct ciphers carry distinct codes.
    pub proof fn lemma_codes_injective(m1: BlockCipher, m2: BlockCipher)
        ensures
            m1 != m2 ==> m1.spec_code() != m2.spec_code(),
    {
    }

    /// An integer resolves to a cipher exactly when some cipher carries it as
    /// its code; every other integer, zero included, is rejected.
    pub proof fn lemma_rejects_unknown_codes(integer: u32)
        ensures
            (Self::spec_from_integer(integer) is Some) <==> (exists|m: BlockCipher|
                m.spec_code() == integer),
    {
        if integer == 1 {
            assert(BlockCipher::Aes.spec_code() == integer);
        }
        if integer == 2 {
            assert(BlockCipher::Camellia.spec_code() == integer);
        }
    }
}

} // verus!
