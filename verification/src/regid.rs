//! Identifiers of the 32 general-purpose registers.

use vstd::prelude::*;
use vstd::string::StringExecFns;

verus! {

/// One of the registers x0 through x31. x0 is hardwired to zero.
#[derive(PartialEq, Eq, Clone, Copy, Structural, Debug)]
pub enum RegID {
    X0,
    X1,
    X2,
    X3,
    X4,
    X5,
    X6,
    X7,
    X8,
    X9,
    X10,
    X11,
    X12,
    X13,
    X14,
    X15,
    X16,
    X17,
    X18,
    X19,
    X20,
    X21,
    X22,
    X23,
    X24,
    X25,
    X26,
    X27,
    X28,
    X29,
    X30,
    X31,
}

/// Every register encoding is below 32.
pub broadcast proof fn lemma_spec_encode_bound(id: RegID)
    ensures
        #[trigger] id.spec_encode() < 32,
{
}

impl RegID {
    /// The 5-bit encoding of this register in instruction words.
    pub open spec fn spec_encode(self) -> u8 {
        match self {
            RegID::X0 => 0,
            RegID::X1 => 1,
            RegID::X2 => 2,
            RegID::X3 => 3,
            RegID::X4 => 4,
            RegID::X5 => 5,
            RegID::X6 => 6,
            RegID::X7 => 7,
            RegID::X8 => 8,
            RegID::X9 => 9,
            RegID::X10 => 10,
            RegID::X11 => 11,
            RegID::X12 => 12,
            RegID::X13 => 13,
            RegID::X14 => 14,
            RegID::X15 => 15,
            RegID::X16 => 16,
            RegID::X17 => 17,
            RegID::X18 => 18,
            RegID::X19 => 19,
            RegID::X20 => 20,
            RegID::X21 => 21,
            RegID::X22 => 22,
            RegID::X23 => 23,
            RegID::X24 => 24,
            RegID::X25 => 25,
            RegID::X26 => 26,
            RegID::X27 => 27,
            RegID::X28 => 28,
            RegID::X29 => 29,
            RegID::X30 => 30,
            RegID::X31 => 31,
        }
    }

    /// The register named by a 5-bit encoding; out-of-range encodings
    /// (which no field extraction produces) fall back to x0.
    pub open spec fn spec_decode(encoding: u8) -> RegID {
        if encoding == 0 {
            RegID::X0
        } else if encoding == 1 {
            RegID::X1
        } else if encoding == 2 {
            RegID::X2
        } else if encoding == 3 {
            RegID::X3
        } else if encoding == 4 {
            RegID::X4
        } else if encoding == 5 {
            RegID::X5
        } else if encoding == 6 {
            RegID::X6
        } else if encoding == 7 {
            RegID::X7
        } else if encoding == 8 {
            RegID::X8
        } else if encoding == 9 {
            RegID::X9
        } else if encoding == 10 {
            RegID::X10
        } else if encoding == 11 {
            RegID::X11
        } else if encoding == 12 {
            RegID::X12
        } else if encoding == 13 {
            RegID::X13
        } else if encoding == 14 {
            RegID::X14
        } else if encoding == 15 {
            RegID::X15
        } else if encoding == 16 {
            RegID::X16
        } else if encoding == 17 {
            RegID::X17
        } else if encoding == 18 {
            RegID::X18
        } else if encoding == 19 {
            RegID::X19
        } else if encoding == 20 {
            RegID::X20
        } else if encoding == 21 {
            RegID::X21
        } else if encoding == 22 {
            RegID::X22
        } else if encoding == 23 {
            RegID::X23
        } else if encoding == 24 {
            RegID::X24
        } else if encoding == 25 {
            RegID::X25
        } else if encoding == 26 {
            RegID::X26
        } else if encoding == 27 {
            RegID::X27
        } else if encoding == 28 {
            RegID::X28
        } else if encoding == 29 {
            RegID::X29
        } else if encoding == 30 {
            RegID::X30
        } else if encoding == 31 {
            RegID::X31
        } else {
            RegID::X0
        }
    }

    /// Decode a 5-bit register field.
    pub fn decode(encoding: u8) -> (r: RegID)
        ensures
            r == RegID::spec_decode(encoding),
            encoding < 32 ==> r.spec_encode() == encoding,
    {
        match encoding {
            0 => RegID::X0,
            1 => RegID::X1,
            2 => RegID::X2,
            3 => RegID::X3,
            4 => RegID::X4,
            5 => RegID::X5,
            6 => RegID::X6,
            7 => RegID::X7,
            8 => RegID::X8,
            9 => RegID::X9,
            10 => RegID::X10,
            11 => RegID::X11,
            12 => RegID::X12,
            13 => RegID::X13,
            14 => RegID::X14,
            15 => RegID::X15,
            16 => RegID::X16,
            17 => RegID::X17,
            18 => RegID::X18,
            19 => RegID::X19,
            20 => RegID::X20,
            21 => RegID::X21,
            22 => RegID::X22,
            23 => RegID::X23,
            24 => RegID::X24,
            25 => RegID::X25,
            26 => RegID::X26,
            27 => RegID::X27,
            28 => RegID::X28,
            29 => RegID::X29,
            30 => RegID::X30,
            31 => RegID::X31,
            _ => RegID::X0,
        }
    }

    /// Encode this register as its 5-bit field value.
    pub fn encode(&self) -> (r: u8)
        ensures
            r == self.spec_encode(),
            r < 32,
            RegID::spec_decode(r) == *self,
    {
        match self {
            RegID::X0 => 0,
            RegID::X1 => 1,
            RegID::X2 => 2,
            RegID::X3 => 3,
            RegID::X4 => 4,
            RegID::X5 => 5,
            RegID::X6 => 6,
            RegID::X7 => 7,
            RegID::X8 => 8,
            RegID::X9 => 9,
            RegID::X10 => 10,
            RegID::X11 => 11,
            RegID::X12 => 12,
            RegID::X13 => 13,
            RegID::X14 => 14,
            RegID::X15 => 15,
            RegID::X16 => 16,
            RegID::X17 => 17,
            RegID::X18 => 18,
            RegID::X19 => 19,
            RegID::X20 => 20,
            RegID::X21 => 21,
            RegID::X22 => 22,
            RegID::X23 => 23,
            RegID::X24 => 24,
            RegID::X25 => 25,
            RegID::X26 => 26,
            RegID::X27 => 27,
            RegID::X28 => 28,
            RegID::X29 => 29,
            RegID::X30 => 30,
            RegID::X31 => 31,
        }
    }

    /// The ABI name of this register (for display and debugger lookup).
    pub fn abi_name(&self) -> (r: String)
        ensures
            self == RegID::X0 ==> r@ == "zero"@,
            self == RegID::X2 ==> r@ == "sp"@,
    {
        match self {
            RegID::X0 => String::from_str("zero"),
            RegID::X1 => String::from_str("ra"),
            RegID::X2 => String::from_str("sp"),
            RegID::X3 => String::from_str("gp"),
            RegID::X4 => String::from_str("tp"),
            RegID::X5 => String::from_str("t0"),
            RegID::X6 => String::from_str("t1"),
            RegID::X7 => String::from_str("t2"),
            RegID::X8 => String::from_str("s0"),
            RegID::X9 => String::from_str("s1"),
            RegID::X10 => String::from_str("a0"),
            RegID::X11 => String::from_str("a1"),
            RegID::X12 => String::from_str("a2"),
            RegID::X13 => String::from_str("a3"),
            RegID::X14 => String::from_str("a4"),
            RegID::X15 => String::from_str("a5"),
            RegID::X16 => String::from_str("a6"),
            RegID::X17 => String::from_str("a7"),
            RegID::X18 => String::from_str("s2"),
            RegID::X19 => String::from_str("s3"),
            RegID::X20 => String::from_str("s4"),
            RegID::X21 => String::from_str("s5"),
            RegID::X22 => String::from_str("s6"),
            RegID::X23 => String::from_str("s7"),
            RegID::X24 => String::from_str("s8"),
            RegID::X25 => String::from_str("s9"),
            RegID::X26 => String::from_str("s10"),
            RegID::X27 => String::from_str("s11"),
            RegID::X28 => String::from_str("t3"),
            RegID::X29 => String::from_str("t4"),
            RegID::X30 => String::from_str("t5"),
            RegID::X31 => String::from_str("t6"),
        }
    }

    /// A short human-readable description of the register's role.
    pub fn description(&self) -> (r: String) {
        match self {
            RegID::X0 => String::from_str("hardwired zero"),
            RegID::X1 => String::from_str("return address"),
            RegID::X2 => String::from_str("stack pointer"),
            RegID::X3 => String::from_str("global pointer"),
            RegID::X4 => String::from_str("thread pointer"),
            RegID::X5 => String::from_str("temporary register 0"),
            RegID::X6 => String::from_str("temporary register 1"),
            RegID::X7 => String::from_str("temporary register 2"),
            RegID::X8 => String::from_str("saved register 0 / frame pointer"),
            RegID::X9 => String::from_str("saved register 1"),
            RegID::X10 => String::from_str("function argument 0 / return value 0"),
            RegID::X11 => String::from_str("function argument 1 / return value 1"),
            RegID::X12 => String::from_str("function argument 2"),
            RegID::X13 => String::from_str("function argument 3"),
            RegID::X14 => String::from_str("function argument 4"),
            RegID::X15 => String::from_str("function argument 5"),
            RegID::X16 => String::from_str("function argument 6"),
            RegID::X17 => String::from_str("function argument 7"),
            RegID::X18 => String::from_str("saved register 2"),
            RegID::X19 => String::from_str("saved register 3"),
            RegID::X20 => String::from_str("saved register 4"),
            RegID::X21 => String::from_str("saved register 5"),
            RegID::X22 => String::from_str("saved register 6"),
            RegID::X23 => String::from_str("saved register 7"),
            RegID::X24 => String::from_str("saved register 8"),
            RegID::X25 => String::from_str("saved register 9"),
            RegID::X26 => String::from_str("saved register 10"),
            RegID::X27 => String::from_str("saved register 11"),
            RegID::X28 => String::from_str("temporary register 3"),
            RegID::X29 => String::from_str("temporary register 4"),
            RegID::X30 => String::from_str("temporary register 5"),
            RegID::X31 => String::from_str("temporary register 6"),
        }
    }
}

} // verus!
