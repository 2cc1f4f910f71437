use vstd::prelude::*;
use vstd::std_specs::convert::TryFromSpecImpl;
use std::convert::TryFrom;
use crate::error::DecodeError;

verus! {

/// The ARM condition field of an instruction (bits 28..=31); the value 15 is
/// not a condition.
///
/// The variants are declared in encoding order, so `cond as u8` equals
/// [`Condition::code`].
#[derive(Copy, Clone, Debug, PartialEq, Eq)]
pub enum Condition {
    Eq,
    Ne,
    Cs,
    Cc,
    Mi,
    Pl,
    Vs,
    Vc,
    Hi,
    Ls,
    Ge,
    Lt,
    Gt,
    Le,
    Al,
}

impl Condition {
    /// The four-bit encoding of the condition.
    pub open spec fn encoding(self) -> u8 {
        match self {
            Condition::Eq => 0x0,
            Condition::Ne => 0x1,
            Condition::Cs => 0x2,
            Condition::Cc => 0x3,
            Condition::Mi => 0x4,
            Condition::Pl => 0x5,
            Condition::Vs => 0x6,
            Condition::Vc => 0x7,
            Condition::Hi => 0x8,
            Condition::Ls => 0x9,
            Condition::Ge => 0xA,
            Condition::Lt => 0xB,
            Condition::Gt => 0xC,
            Condition::Le => 0xD,
            Condition::Al => 0xE,
        }
    }

    /// Returns the four-bit encoding of the condition.
    pub fn code(self) -> (r: u8)
        ensures
            r == self.encoding(),
    {
        match self {
            Condition::Eq => 0x0,
            Condition::Ne => 0x1,
            Condition::Cs => 0x2,
            Condition::Cc => 0x3,
            Condition::Mi => 0x4,
            Condition::Pl => 0x5,
            Condition::Vs => 0x6,
            Condition::Vc => 0x7,
            Condition::Hi => 0x8,
            Condition::Ls => 0x9,
            Condition::Ge => 0xA,
            Condition::Lt => 0xB,
            Condition::Gt => 0xC,
            Condition::Le => 0xD,
            Condition::Al => 0xE,
        }
    }
}

/// The condition encoded by `value`, if any: exactly the values 0 to 14
/// name a condition.
pub open spec fn condition_of(value: u8) -> Option<Condition> {
    if value == 0x0 {
        Some(Condition::Eq)
    } else if value == 0x1 {
        Some(Condition::Ne)
    } else if value == 0x2 {
        Some(Condition::Cs)
    } else if value == 0x3 {
        Some(Condition::Cc)
    } else if value == 0x4 {
        Some(Condition::Mi)
    } else if value == 0x5 {
        Some(Condition::Pl)
    } else if value == 0x6 {
        Some(Condition::Vs)
    } else if value == 0x7 {
        Some(Condition::Vc)
    } else if value == 0x8 {
        Some(Condition::Hi)
    } else if value == 0x9 {
        Some(Condition::Ls)
    } else if value == 0xA {
        Some(Condition::Ge)
    } else if value == 0xB {
        Some(Condition::Lt)
    } else if value == 0xC {
        Some(Condition::Gt)
    } else if value == 0xD {
        Some(Condition::Le)
    } else if value == 0xE {
        Some(Condition::Al)
    } else {
        None
    }
}

impl TryFrom<u8> for Condition {
    type Error = DecodeError;

    /// Decodes a condition field. The value is not masked: 15 and every value
    /// above it are rejected.
    fn try_from(value: u8) -> (r: Result<Self, Self::Error>)
        ensures
            r == (match condition_of(value) {
                Some(c) => Ok(c),
                None => Err(DecodeError::InvalidCondition(value)),
            }),
    {
        match value {
            0x0 => Ok(Condition::Eq),
            0x1 => Ok(Condition::Ne),
            0x2 => Ok(Condition::Cs),
            0x3 => Ok(Condition::Cc),
            0x4 => Ok(Condition::Mi),
            0x5 => Ok(Condition::Pl),
            0x6 => Ok(Condition::Vs),
            0x7 => Ok(Condition::Vc),
            0x8 => Ok(Condition::Hi),
            0x9 => Ok(Condition::Ls),
            0xA => Ok(Condition::Ge),
            0xB => Ok(Condition::Lt),
            0xC => Ok(Condition::Gt),
            0xD => Ok(Condition::Le),
            0xE => Ok(Condition::Al),
            _ => Err(DecodeError::InvalidCondition(value)),
        }
    }
}

impl TryFromSpecImpl<u8> for Condition {
    open spec fn obeys_try_from_spec() -> bool {
        true
    }

    open spec fn try_from_spec(v: u8) -> Result<Self, Self::Error> {
        match condition_of(v) {
            Some(c) => Ok(c),
            None => Err(DecodeError::InvalidCondition(v)),
        }
    }
}

/// Whether condition `cond` passes for the flags N, Z, C and V.
pub open spec fn passes(cond: Condition, n: bool, z: bool, c: bool, v: bool) -> bool {
    match cond {
        Condition::Eq => z,
        Condition::Ne => !z,
        Condition::Cs => c,
        Condition::Cc => !c,
        Condition::Mi => n,
        Condition::Pl => !n,
        Condition::Vs => v,
        Condition::Vc => !v,
        Condition::Hi => c && !z,
        Condition::Ls => !c || z,
        Condition::Ge => n == v,
        Condition::Lt => n != v,
        Condition::Gt => !z && n == v,
        Condition::Le => z || n != v,
        Condition::Al => true,
    }
}

/// Evaluates condition `cond` against the flags N (negative), Z (zero),
/// C (carry) and V (overflow).
pub fn evaluate_cond(cond: Condition, n: bool, z: bool, c: bool, v: bool) -> (r: bool)
    ensures
        r == passes(cond, n, z, c, v),
{
    match cond {
        Condition::Eq => z,
        Condition::Ne => !z,
        Condition::Cs => c,
        Condition::Cc => !c,
        Condition::Mi => n,
        Condition::Pl => !n,
        Condition::Vs => v,
        Condition::Vc => !v,
        Condition::Hi => c && !z,
        Condition::Ls => !c || z,
        Condition::Ge => n == v,
        Condition::Lt => n != v,
        Condition::Gt => !z && (n == v),
        Condition::Le => z || (n != v),
        Condition::Al => true,
    }
}

/// Decoding is the inverse of encoding: every condition decodes from its own
/// code, and a value decodes to a condition only if it is that condition's
/// code.
pub proof fn lemma_condition_code_roundtrip(cond: Condition, value: u8)
    ensures
        condition_of(cond.encoding()) == Some(cond),
        cond.encoding() < 15,
        condition_of(value) == Some(cond) <==> value == cond.encoding(),
        condition_of(value) is None <==> value >= 15,
{
}

/// The conditions come in complementary pairs: for each k below 7, the
/// condition coded 2k passes exactly when the one coded 2k + 1 fails.
pub proof fn lemma_condition_pairs_complementary(k: u8, n: bool, z: bool, c: bool, v: bool)
    requires
        k < 7,
    ensures
        condition_of((2 * k) as u8) is Some,
        condition_of((2 * k + 1) as u8) is Some,
        passes(condition_of((2 * k) as u8).unwrap(), n, z, c, v)
            == !passes(condition_of((2 * k + 1) as u8).unwrap(), n, z, c, v),
{
}

/// AL passes whatever the flags.
pub proof fn lemma_always_passes(n: bool, z: bool, c: bool, v: bool)
    ensures
        passes(Condition::Al, n, z, c, v),
{
}

/// Each condition tests only the flags the ARM architecture names for it:
/// EQ/NE test Z, CS/CC test C, MI/PL test N, VS/VC test V; HI is "carry set
/// and not equal", GE is "N equals V", GT is "GE and not equal", and LS, LT,
/// LE are the negations of HI, GE, GT.
pub proof fn lemma_condition_flags(n: bool, z: bool, c: bool, v: bool)
    ensures
        passes(Condition::Eq, n, z, c, v) == z,
        passes(Condition::Ne, n, z, c, v) == !z,
        passes(Condition::Cs, n, z, c, v) == c,
        passes(Condition::Cc, n, z, c, v) == !c,
        passes(Condition::Mi, n, z, c, v) == n,
        passes(Condition::Pl, n, z, c, v) == !n,
        passes(Condition::Vs, n, z, c, v) == v,
        passes(Condition::Vc, n, z, c, v) == !v,
        passes(Condition::Hi, n, z, c, v) == (passes(Condition::Cs, n, z, c, v) && passes(
            Condition::Ne,
            n,
            z,
            c,
            v,
        )),
        passes(Condition::Ls, n, z, c, v) == !passes(Condition::Hi, n, z, c, v),
        passes(Condition::Ge, n, z, c, v) == (passes(Condition::Mi, n, z, c, v) == passes(
            Condition::Vs,
            n,
            z,
            c,
            v,
        )),
        passes(Condition::Lt, n, z, c, v) == !passes(Condition::Ge, n, z, c, v),
        passes(Condition::Gt, n, z, c, v) == (passes(Condition::Ge, n, z, c, v) && passes(
            Condition::Ne,
            n,
            z,
            c,
            v,
        )),
        passes(Condition::Le, n, z, c, v) == !passes(Condition::Gt, n, z, c, v),
        passes(Condition::Al, n, z, c, v),
{
}

/// The condition field encoding of the ARM architecture: EQ 0, NE 1, CS 2,
/// CC 3, MI 4, PL 5, VS 6, VC 7, HI 8, LS 9, GE 10, LT 11, GT 12, LE 13,
/// AL 14; no other value of the field names a condition.
pub proof fn lemma_condition_encoding_table(value: u8)
    ensures
        condition_of(value) == Some(Condition::Eq) <==> value == 0,
        condition_of(value) == Some(Condition::Ne) <==> value == 1,
        condition_of(value) == Some(Condition::Cs) <==> value == 2,
        condition_of(value) == Some(Condition::Cc) <==> value == 3,
        condition_of(value) == Some(Condition::Mi) <==> value == 4,
        condition_of(value) == Some(Condition::Pl) <==> value == 5,
        condition_of(value) == Some(Condition::Vs) <==> value == 6,
        condition_of(value) == Some(Condition::Vc) <==> value == 7,
        condition_of(value) == Some(Condition::Hi) <==> value == 8,
        condition_of(value) == Some(Condition::Ls) <==> value == 9,
        condition_of(value) == Some(Condition::Ge) <==> value == 10,
        condition_of(value) == Some(Condition::Lt) <==> value == 11,
        condition_of(value) == Some(Condition::Gt) <==> value == 12,
        condition_of(value) == Some(Condition::Le) <==> value == 13,
        condition_of(value) == Some(Condition::Al) <==> value == 14,
        condition_of(value) is None <==> value >= 15,
{
}

} // verus!
