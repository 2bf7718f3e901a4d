//! Priority levels, kinds of transfer and kinds of frame.

use vstd::prelude::*;

verus! {

/// Transfer priority levels, from the most urgent to the least.
#[derive(PartialEq, Eq, Structural, Copy, Clone, Debug)]
pub enum CyphalPriority {
    Exceptional,
    Immediate,
    Fast,
    High,
    Nominal,
    Low,
    Slow,
    Optional,
    Undefined,
}

impl CyphalPriority {
    /// The number that stands for a priority level on the wire; `Undefined`
    /// is 8, one past the highest level.
    pub open spec fn code_spec(self) -> u8 {
        match self {
            CyphalPriority::Exceptional => 0,
            CyphalPriority::Immediate => 1,
            CyphalPriority::Fast => 2,
            CyphalPriority::High => 3,
            CyphalPriority::Nominal => 4,
            CyphalPriority::Low => 5,
            CyphalPriority::Slow => 6,
            CyphalPriority::Optional => 7,
            CyphalPriority::Undefined => 8,
        }
    }

    /// The priority level that a number stands for.
    pub open spec fn of_code(x: u8) -> CyphalPriority {
        if x == 0 {
            CyphalPriority::Exceptional
        } else if x == 1 {
            CyphalPriority::Immediate
        } else if x == 2 {
            CyphalPriority::Fast
        } else if x == 3 {
            CyphalPriority::High
        } else if x == 4 {
            CyphalPriority::Nominal
        } else if x == 5 {
            CyphalPriority::Low
        } else if x == 6 {
            CyphalPriority::Slow
        } else if x == 7 {
            CyphalPriority::Optional
        } else {
            CyphalPriority::Undefined
        }
    }

    /// Whether this is one of the eight levels that a frame can carry.
    pub open spec fn is_defined(self) -> bool {
        self != CyphalPriority::Undefined
    }

    #[verifier::when_used_as_spec(code_spec)]
    pub fn code(self) -> (r: u8)
        ensures
            r == self.code_spec(),
            r <= 8,
    {
        match self {
            CyphalPriority::Exceptional => 0,
            CyphalPriority::Immediate => 1,
            CyphalPriority::Fast => 2,
            CyphalPriority::High => 3,
            CyphalPriority::Nominal => 4,
            CyphalPriority::Low => 5,
            CyphalPriority::Slow => 6,
            CyphalPriority::Optional => 7,
            CyphalPriority::Undefined => 8,
        }
    }

    /// A level and its number determine each other.
    pub proof fn lemma_code_round_trip(self)
        ensures
            Self::of_code(self.code_spec()) == self,
            self.is_defined() <==> self.code_spec() <= 7,
    {
    }
}

impl From<u8> for CyphalPriority {
    fn from(x: u8) -> (r: Self) {
        match x {
            0 => CyphalPriority::Exceptional,
            1 => CyphalPriority::Immediate,
            2 => CyphalPriority::Fast,
            3 => CyphalPriority::High,
            4 => CyphalPriority::Nominal,
            5 => CyphalPriority::Low,
            6 => CyphalPriority::Slow,
            7 => CyphalPriority::Optional,
            _ => CyphalPriority::Undefined,
        }
    }
}

impl vstd::std_specs::convert::FromSpecImpl<u8> for CyphalPriority {
    open spec fn obeys_from_spec() -> bool {
        true
    }

    open spec fn from_spec(x: u8) -> Self {
        CyphalPriority::of_code(x)
    }
}

/// The three kinds of transfer.
#[derive(PartialEq, Eq, Structural, Debug, Clone, Copy)]
pub enum CyphalTransferKind {
    Message,
    Response,
    Request,
}

/// Where a received frame stands in its transfer.
#[derive(PartialEq, Eq, Structural, Debug, Copy, Clone)]
pub enum CyphalRxPacketType {
    SignleFrame,
    MultiFrameStart,
    MultiFrameEnd,
    MultiFrameInProcess,
}

} // verus!
