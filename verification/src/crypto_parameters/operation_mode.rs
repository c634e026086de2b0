use vstd::prelude::*;

verus! {

/// A cipher operation mode that the header can name.
#[derive(Clone, Copy, PartialEq, Eq, Structural, Debug)]
pub enum OperationMode {
    Gcm,
}

impl OperationMode {
    /// The integer code that stands for this operation mode in the header.
    pub open spec fn spec_code(self) -> u32 {
        match self {
            OperationMode::Gcm => 1,
        }
    }

    /// The operation mode that an integer code names, if any.
    pub open spec fn spec_from_integer(integer: u32) -> Option<OperationMode> {
        if integer == 1 {
            Some(OperationMode::Gcm)
        } else {
            None
        }
    }

    pub fn to_integer(&self) -> (r: u32)
        ensures
            r == self.spec_code(),
    {
        match self {
            OperationMode::Gcm => 1,
        }
    }

    pub fn from_integer(integer: u32) -> (r: Option<OperationMode>)
        ensures
            r == Self::spec_from_integer(integer),
    {
        match integer {
            1 => Some(OperationMode::Gcm),
            _ => None,
        }
    }

    /// Every member's code resolves back to that member.
    pub proof fn lemma_code_round_trip(m: OperationMode)
        ensures
            Self::spec_from_integer(m.spec_code()) == Some(m),
    {
    }

    /// Distinct members carry distinct codes.
    pub proof fn lemma_codes_injective(m1: OperationMode, m2: OperationMode)
        ensures
            m1 != m2 ==> m1.spec_code() != m2.spec_code(),
    {
    }

    /// An integer resolves to a member exactly when some member carries it as
    /// its code; every other integer, zero included, is rejected.
    pub proof fn lemma_rejects_unknown_codes(integer: u32)
        ensures
            (Self::spec_from_integer(integer) is Some) <==> (exists|m: OperationMode|
                m.spec_code() == integer),
    {
        if integer == 1 {
            assert(OperationMode::Gcm.spec_code() == integer);
        }
    }
}

} // verus!
