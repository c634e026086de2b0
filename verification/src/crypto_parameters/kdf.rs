use vstd::prelude::*;

verus! {

/// A key-derivation function that the header can name.
#[derive(Clone, Copy, PartialEq, Eq, Structural, Debug)]
pub enum Kdf {
    Pbkdf2,
}

impl Kdf {
    /// The integer code that stands for this key-derivation function in the header.
    pub open spec fn spec_code(self) -> u32 {
        match self {
            Kdf::Pbkdf2 => 1,
        }
    }

    /// The key-derivation function that an integer code names, if any.
    pub open spec fn spec_from_integer(integer: u32) -> Option<Kdf> {
        if integer == 1 {
            Some(Kdf::Pbkdf2)
        } else {
            None
        }
    }

    pub fn to_integer(&self) -> (r: u32)
        ensures
            r == self.spec_code(),
    {
        match self {
            Kdf::Pbkdf2 => 1,
        }
    }

    pub fn from_integer(integer: u32) -> (r: Option<Kdf>)
        ensures
            r == Self::spec_from_integer(integer),
    {
        match integer {
            1 => Some(Kdf::Pbkdf2),
            _ => None,
        }
    }

    /// Every member's code resolves back to that member.
    pub proof fn lemma_code_round_trip(m: Kdf)
        ensures
            Self::spec_from_integer(m.spec_code()) == Some(m),
    {
    }

    /// Distinct members carry distinct codes.
    pub proof fn lemma_codes_injective(m1: Kdf, m2: Kdf)
        ensures
            m1 != m2 ==> m1.spec_code() != m2.spec_code(),
    {
    }

    /// An integer resolves to a member exactly when some member carries it as
    /// its code; every other integer, zero included, is rejected.
    pub proof fn lemma_rejects_unknown_codes(integer: u32)
        ensures
            (Self::spec_from_integer(integer) is Some) <==> (exists|m: Kdf|
                m.spec_code() == integer),
    {
        if integer == 1 {
            assert(Kdf::Pbkdf2.spec_code() == integer);
        }
    }
}

} // verus!
