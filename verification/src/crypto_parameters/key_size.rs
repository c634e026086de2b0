use vstd::prelude::*;

verus! {

/// A key size, in bits, that the header can name.
#[derive(Clone, Copy, PartialEq, Eq, Structural, Debug)]
pub enum KeySize {
    Size128,
    Size192,
    Size256,
}

impl KeySize {
    /// The integer code that stands for this key size in the header: the size
    /// itself, in bits.
    pub open spec fn spec_code(self) -> u32 {
        match self {
            KeySize::Size128 => 128,
            KeySize::Size192 => 192,
            KeySize::Size256 => 256,
        }
    }

    /// The key size that an integer code names, if any.
    pub open spec fn spec_from_integer(integer: u32) -> Option<KeySize> {
        if integer == 128 {
            Some(KeySize::Size128)
        } else if integer == 192 {
            Some(KeySize::Size192)
        } else if integer == 256 {
            Some(KeySize::Size256)
        } else {
            None
        }
    }

    pub fn to_integer(&self) -> (r: u32)
        ensures
            r == self.spec_code(),
    {
        match self {
            KeySize::Size128 => 128,
            KeySize::Size192 => 192,
            KeySize::Size256 => 256,
        }
    }

    pub fn from_integer(integer: u32) -> (r: Option<KeySize>)
        ensures
            r == Self::spec_from_integer(integer),
    {
        match integer {
            128 => Some(KeySize::Size128),
            192 => Some(KeySize::Size192),
            256 => Some(KeySize::Size256),
            _ => None,
        }
    }

    /// Every key size's code resolves back to that key size.
    pub proof fn lemma_code_round_trip(m: KeySize)
        ensures
            Self::spec_from_integer(m.spec_code()) == Some(m),
    {
    }

    /// Distinct key sizes carry distinct codes.
    pub proof fn lemma_codes_injective(m1: KeySize, m2: KeySize)
        ensures
            m1 != m2 ==> m1.spec_code() != m2.spec_code(),
    {
    }

    /// An integer resolves to a key size exactly when some key size carries it
    /// as its code; every other integer, zero included, is rejected.
    pub proof fn lemma_rejects_unknown_codes(integer: u32)
        ensures
            (Self::spec_from_integer(integer) is Some) <==> (exists|m: KeySize|
                m.spec_code() == integer),
    {
        if integer == 128 {
            assert(KeySize::Size128.spec_code() == integer);
        }
        if integer == 192 {
            assert(KeySize::Size192.spec_code() == integer);
        }
        if integer == 256 {
            assert(KeySize::Size256.spec_code() == integer);
        }
    }
}

} // verus!
