//! Prescaler settings of the bus clock domains.

use vstd::prelude::*;
use crate::scc::config::{ConfigError, ConfigField};

verus! {

/// The highest setting number of a bus clock prescaler.
pub const MAX_DIVIDER_CODE: u8 = 15;

/// HCLK prescaler.
///
/// Setting number `n` (counted from zero) divides SCLK by `n + 1`.
#[derive(Clone, Copy, Debug, PartialEq, Eq, Structural)]
pub enum HClockPrescaler {
    /// SCLK divided by 1.
    SclkDiv1,
    /// SCLK divided by 2.
    SclkDiv2,
    /// SCLK divided by 3.
    SclkDiv3,
    /// SCLK divided by 4.
    SclkDiv4,
    /// SCLK divided by 5.
    SclkDiv5,
    /// SCLK divided by 6.
    SclkDiv6,
    /// SCLK divided by 7.
    SclkDiv7,
    /// SCLK divided by 8.
    SclkDiv8,
    /// SCLK divided by 9.
    SclkDiv9,
    /// SCLK divided by 10.
    SclkDiv10,
    /// SCLK divided by 11.
    SclkDiv11,
    /// SCLK divided by 12.
    SclkDiv12,
    /// SCLK divided by 13.
    SclkDiv13,
    /// SCLK divided by 14.
    SclkDiv14,
    /// SCLK divided by 15.
    SclkDiv15,
    /// SCLK divided by 16.
    SclkDiv16,
}

impl HClockPrescaler {
    /// The setting's number, from 0 to 15.
    pub open spec fn spec_code(self) -> u8 {
        match self {
            HClockPrescaler::SclkDiv1 => 0,
            HClockPrescaler::SclkDiv2 => 1,
            HClockPrescaler::SclkDiv3 => 2,
            HClockPrescaler::SclkDiv4 => 3,
            HClockPrescaler::SclkDiv5 => 4,
            HClockPrescaler::SclkDiv6 => 5,
            HClockPrescaler::SclkDiv7 => 6,
            HClockPrescaler::SclkDiv8 => 7,
            HClockPrescaler::SclkDiv9 => 8,
            HClockPrescaler::SclkDiv10 => 9,
            HClockPrescaler::SclkDiv11 => 10,
            HClockPrescaler::SclkDiv12 => 11,
            HClockPrescaler::SclkDiv13 => 12,
            HClockPrescaler::SclkDiv14 => 13,
            HClockPrescaler::SclkDiv15 => 14,
            HClockPrescaler::SclkDiv16 => 15,
        }
    }

    /// The frequency that the setting makes of `parent`, both in hertz.
    pub open spec fn spec_divide(self, parent: nat) -> nat {
        match self {
            HClockPrescaler::SclkDiv1 => parent,
            HClockPrescaler::SclkDiv2 => parent / 2,
            HClockPrescaler::SclkDiv3 => parent / 3,
            HClockPrescaler::SclkDiv4 => parent / 4,
            HClockPrescaler::SclkDiv5 => parent / 5,
            HClockPrescaler::SclkDiv6 => parent / 6,
            HClockPrescaler::SclkDiv7 => parent / 7,
            HClockPrescaler::SclkDiv8 => parent / 8,
            HClockPrescaler::SclkDiv9 => parent / 9,
            HClockPrescaler::SclkDiv10 => parent / 10,
            HClockPrescaler::SclkDiv11 => parent / 11,
            HClockPrescaler::SclkDiv12 => parent / 12,
            HClockPrescaler::SclkDiv13 => parent / 13,
            HClockPrescaler::SclkDiv14 => parent / 14,
            HClockPrescaler::SclkDiv15 => parent / 15,
            HClockPrescaler::SclkDiv16 => parent / 16,
        }
    }

    /// The setting numbered `n` divides by `n + 1`, and what it yields is
    /// at most what it divides.
    pub proof fn lemma_divides_by_code_plus_one(self, parent: nat)
        ensures
            self.spec_divide(parent) == parent / (self.spec_code() as nat + 1),
            self.spec_divide(parent) <= parent,
    {
        match self {
            HClockPrescaler::SclkDiv1 => {
                assert(parent / 1 == parent);
            },
            _ => {},
        }
    }

    /// The setting's number, from 0 to 15.
    #[verifier::when_used_as_spec(spec_code)]
    pub fn code(self) -> (code: u8)
        ensures
            code == self.spec_code(),
            code <= MAX_DIVIDER_CODE,
    {
        match self {
            HClockPrescaler::SclkDiv1 => 0,
            HClockPrescaler::SclkDiv2 => 1,
            HClockPrescaler::SclkDiv3 => 2,
            HClockPrescaler::SclkDiv4 => 3,
            HClockPrescaler::SclkDiv5 => 4,
            HClockPrescaler::SclkDiv6 => 5,
            HClockPrescaler::SclkDiv7 => 6,
            HClockPrescaler::SclkDiv8 => 7,
            HClockPrescaler::SclkDiv9 => 8,
            HClockPrescaler::SclkDiv10 => 9,
            HClockPrescaler::SclkDiv11 => 10,
            HClockPrescaler::SclkDiv12 => 11,
            HClockPrescaler::SclkDiv13 => 12,
            HClockPrescaler::SclkDiv14 => 13,
            HClockPrescaler::SclkDiv15 => 14,
            HClockPrescaler::SclkDiv16 => 15,
        }
    }

    /// The setting with the given number; numbers above 15 name no
    /// setting and are refused.
    pub fn from_code(code: u8) -> (r: Result<Self, ConfigError>)
        ensures
            code <= MAX_DIVIDER_CODE ==> r is Ok && r->Ok_0.spec_code() == code,
            code > MAX_DIVIDER_CODE ==> r == Err::<Self, ConfigError>(
                ConfigError::OutOfRange(ConfigField::HclkDivider),
            ),
    {
        match code {
            0 => Ok(HClockPrescaler::SclkDiv1),
            1 => Ok(HClockPrescaler::SclkDiv2),
            2 => Ok(HClockPrescaler::SclkDiv3),
            3 => Ok(HClockPrescaler::SclkDiv4),
            4 => Ok(HClockPrescaler::SclkDiv5),
            5 => Ok(HClockPrescaler::SclkDiv6),
            6 => Ok(HClockPrescaler::SclkDiv7),
            7 => Ok(HClockPrescaler::SclkDiv8),
            8 => Ok(HClockPrescaler::SclkDiv9),
            9 => Ok(HClockPrescaler::SclkDiv10),
            10 => Ok(HClockPrescaler::SclkDiv11),
            11 => Ok(HClockPrescaler::SclkDiv12),
            12 => Ok(HClockPrescaler::SclkDiv13),
            13 => Ok(HClockPrescaler::SclkDiv14),
            14 => Ok(HClockPrescaler::SclkDiv15),
            15 => Ok(HClockPrescaler::SclkDiv16),
            _ => Err(ConfigError::OutOfRange(ConfigField::HclkDivider)),
        }
    }
}

/// ACLK prescaler.
///
/// Setting number `n` (counted from zero) divides SCLK by `n + 1`.
#[derive(Clone, Copy, Debug, PartialEq, Eq, Structural)]
pub enum AClockPrescaler {
    /// SCLK divided by 1.
    SclkDiv1,
    /// SCLK divided by 2.
    SclkDiv2,
    /// SCLK divided by 3.
    SclkDiv3,
    /// SCLK divided by 4.
    SclkDiv4,
    /// SCLK divided by 5.
    SclkDiv5,
    /// SCLK divided by 6.
    SclkDiv6,
    /// SCLK divided by 7.
    SclkDiv7,
    /// SCLK divided by 8.
    SclkDiv8,
    /// SCLK divided by 9.
    SclkDiv9,
    /// SCLK divided by 10.
    SclkDiv10,
    /// SCLK divided by 11.
    SclkDiv11,
    /// SCLK divided by 12.
    SclkDiv12,
    /// SCLK divided by 13.
    SclkDiv13,
    /// SCLK divided by 14.
    SclkDiv14,
    /// SCLK divided by 15.
    SclkDiv15,
    /// SCLK divided by 16.
    SclkDiv16,
}

impl AClockPrescaler {
    /// The setting's number, from 0 to 15.
    pub open spec fn spec_code(self) -> u8 {
        match self {
            AClockPrescaler::SclkDiv1 => 0,
            AClockPrescaler::SclkDiv2 => 1,
            AClockPrescaler::SclkDiv3 => 2,
            AClockPrescaler::SclkDiv4 => 3,
            AClockPrescaler::SclkDiv5 => 4,
            AClockPrescaler::SclkDiv6 => 5,
            AClockPrescaler::SclkDiv7 => 6,
            AClockPrescaler::SclkDiv8 => 7,
            AClockPrescaler::SclkDiv9 => 8,
            AClockPrescaler::SclkDiv10 => 9,
            AClockPrescaler::SclkDiv11 => 10,
            AClockPrescaler::SclkDiv12 => 11,
            AClockPrescaler::SclkDiv13 => 12,
            AClockPrescaler::SclkDiv14 => 13,
            AClockPrescaler::SclkDiv15 => 14,
            AClockPrescaler::SclkDiv16 => 15,
        }
    }

    /// The frequency that the setting makes of `parent`, both in hertz.
    pub open spec fn spec_divide(self, parent: nat) -> nat {
        match self {
            AClockPrescaler::SclkDiv1 => parent,
            AClockPrescaler::SclkDiv2 => parent / 2,
            AClockPrescaler::SclkDiv3 => parent / 3,
            AClockPrescaler::SclkDiv4 => parent / 4,
            AClockPrescaler::SclkDiv5 => parent / 5,
            AClockPrescaler::SclkDiv6 => parent / 6,
            AClockPrescaler::SclkDiv7 => parent / 7,
            AClockPrescaler::SclkDiv8 => parent / 8,
            AClockPrescaler::SclkDiv9 => parent / 9,
            AClockPrescaler::SclkDiv10 => parent / 10,
            AClockPrescaler::SclkDiv11 => parent / 11,
            AClockPrescaler::SclkDiv12 => parent / 12,
            AClockPrescaler::SclkDiv13 => parent / 13,
            AClockPrescaler::SclkDiv14 => parent / 14,
            AClockPrescaler::SclkDiv15 => parent / 15,
            AClockPrescaler::SclkDiv16 => parent / 16,
        }
    }

    /// The setting numbered `n` divides by `n + 1`, and what it yields is
    /// at most what it divides.
    pub proof fn lemma_divides_by_code_plus_one(self, parent: nat)
        ensures
            self.spec_divide(parent) == parent / (self.spec_code() as nat + 1),
            self.spec_divide(parent) <= parent,
    {
        match self {
            AClockPrescaler::SclkDiv1 => {
                assert(parent / 1 == parent);
            },
            _ => {},
        }
    }

    /// The setting's number, from 0 to 15.
    #[verifier::when_used_as_spec(spec_code)]
    pub fn code(self) -> (code: u8)
        ensures
            code == self.spec_code(),
            code <= MAX_DIVIDER_CODE,
    {
        match self {
            AClockPrescaler::SclkDiv1 => 0,
            AClockPrescaler::SclkDiv2 => 1,
            AClockPrescaler::SclkDiv3 => 2,
            AClockPrescaler::SclkDiv4 => 3,
            AClockPrescaler::SclkDiv5 => 4,
            AClockPrescaler::SclkDiv6 => 5,
            AClockPrescaler::SclkDiv7 => 6,
            AClockPrescaler::SclkDiv8 => 7,
            AClockPrescaler::SclkDiv9 => 8,
            AClockPrescaler::SclkDiv10 => 9,
            AClockPrescaler::SclkDiv11 => 10,
            AClockPrescaler::SclkDiv12 => 11,
            AClockPrescaler::SclkDiv13 => 12,
            AClockPrescaler::SclkDiv14 => 13,
            AClockPrescaler::SclkDiv15 => 14,
            AClockPrescaler::SclkDiv16 => 15,
        }
    }

    /// The setting with the given number; numbers above 15 name no
    /// setting and are refused.
    pub fn from_code(code: u8) -> (r: Result<Self, ConfigError>)
        ensures
            code <= MAX_DIVIDER_CODE ==> r is Ok && r->Ok_0.spec_code() == code,
            code > MAX_DIVIDER_CODE ==> r == Err::<Self, ConfigError>(
                ConfigError::OutOfRange(ConfigField::AclkDivider),
            ),
    {
        match code {
            0 => Ok(AClockPrescaler::SclkDiv1),
            1 => Ok(AClockPrescaler::SclkDiv2),
            2 => Ok(AClockPrescaler::SclkDiv3),
            3 => Ok(AClockPrescaler::SclkDiv4),
            4 => Ok(AClockPrescaler::SclkDiv5),
            5 => Ok(AClockPrescaler::SclkDiv6),
            6 => Ok(AClockPrescaler::SclkDiv7),
            7 => Ok(AClockPrescaler::SclkDiv8),
            8 => Ok(AClockPrescaler::SclkDiv9),
            9 => Ok(AClockPrescaler::SclkDiv10),
            10 => Ok(AClockPrescaler::SclkDiv11),
            11 => Ok(AClockPrescaler::SclkDiv12),
            12 => Ok(AClockPrescaler::SclkDiv13),
            13 => Ok(AClockPrescaler::SclkDiv14),
            14 => Ok(AClockPrescaler::SclkDiv15),
            15 => Ok(AClockPrescaler::SclkDiv16),
            _ => Err(ConfigError::OutOfRange(ConfigField::AclkDivider)),
        }
    }
}

/// PCLK prescaler.
///
/// Setting number `n` (counted from zero) divides HCLK by `n + 1`.
#[derive(Clone, Copy, Debug, PartialEq, Eq, Structural)]
pub enum PClockPrescaler {
    /// HCLK divided by 1.
    HclkDiv1,
    /// HCLK divided by 2.
    HclkDiv2,
    /// HCLK divided by 3.
    HclkDiv3,
    /// HCLK divided by 4.
    HclkDiv4,
    /// HCLK divided by 5.
    HclkDiv5,
    /// HCLK divided by 6.
    HclkDiv6,
    /// HCLK divided by 7.
    HclkDiv7,
    /// HCLK divided by 8.
    HclkDiv8,
    /// HCLK divided by 9.
    HclkDiv9,
    /// HCLK divided by 10.
    HclkDiv10,
    /// HCLK divided by 11.
    HclkDiv11,
    /// HCLK divided by 12.
    HclkDiv12,
    /// HCLK divided by 13.
    HclkDiv13,
    /// HCLK divided by 14.
    HclkDiv14,
    /// HCLK divided by 15.
    HclkDiv15,
    /// HCLK divided by 16.
    HclkDiv16,
}

impl PClockPrescaler {
    /// The setting's number, from 0 to 15.
    pub open spec fn spec_code(self) -> u8 {
        match self {
            PClockPrescaler::HclkDiv1 => 0,
            PClockPrescaler::HclkDiv2 => 1,
            PClockPrescaler::HclkDiv3 => 2,
            PClockPrescaler::HclkDiv4 => 3,
            PClockPrescaler::HclkDiv5 => 4,
            PClockPrescaler::HclkDiv6 => 5,
            PClockPrescaler::HclkDiv7 => 6,
            PClockPrescaler::HclkDiv8 => 7,
            PClockPrescaler::HclkDiv9 => 8,
            PClockPrescaler::HclkDiv10 => 9,
            PClockPrescaler::HclkDiv11 => 10,
            PClockPrescaler::HclkDiv12 => 11,
            PClockPrescaler::HclkDiv13 => 12,
            PClockPrescaler::HclkDiv14 => 13,
            PClockPrescaler::HclkDiv15 => 14,
            PClockPrescaler::HclkDiv16 => 15,
        }
    }

    /// The frequency that the setting makes of `parent`, both in hertz.
    pub open spec fn spec_divide(self, parent: nat) -> nat {
        match self {
            PClockPrescaler::HclkDiv1 => parent,
            PClockPrescaler::HclkDiv2 => parent / 2,
            PClockPrescaler::HclkDiv3 => parent / 3,
            PClockPrescaler::HclkDiv4 => parent / 4,
            PClockPrescaler::HclkDiv5 => parent / 5,
            PClockPrescaler::HclkDiv6 => parent / 6,
            PClockPrescaler::HclkDiv7 => parent / 7,
            PClockPrescaler::HclkDiv8 => parent / 8,
            PClockPrescaler::HclkDiv9 => parent / 9,
            PClockPrescaler::HclkDiv10 => parent / 10,
            PClockPrescaler::HclkDiv11 => parent / 11,
            PClockPrescaler::HclkDiv12 => parent / 12,
            PClockPrescaler::HclkDiv13 => parent / 13,
            PClockPrescaler::HclkDiv14 => parent / 14,
            PClockPrescaler::HclkDiv15 => parent / 15,
            PClockPrescaler::HclkDiv16 => parent / 16,
        }
    }

    /// The setting numbered `n` divides by `n + 1`, and what it yields is
    /// at most what it divides.
    pub proof fn lemma_divides_by_code_plus_one(self, parent: nat)
        ensures
            self.spec_divide(parent) == parent / (self.spec_code() as nat + 1),
            self.spec_divide(parent) <= parent,
    {
        match self {
            PClockPrescaler::HclkDiv1 => {
                assert(parent / 1 == parent);
            },
            _ => {},
        }
    }

    /// The setting's number, from 0 to 15.
    #[verifier::when_used_as_spec(spec_code)]
    pub fn code(self) -> (code: u8)
        ensures
            code == self.spec_code(),
            code <= MAX_DIVIDER_CODE,
    {
        match self {
            PClockPrescaler::HclkDiv1 => 0,
            PClockPrescaler::HclkDiv2 => 1,
            PClockPrescaler::HclkDiv3 => 2,
            PClockPrescaler::HclkDiv4 => 3,
            PClockPrescaler::HclkDiv5 => 4,
            PClockPrescaler::HclkDiv6 => 5,
            PClockPrescaler::HclkDiv7 => 6,
            PClockPrescaler::HclkDiv8 => 7,
            PClockPrescaler::HclkDiv9 => 8,
            PClockPrescaler::HclkDiv10 => 9,
            PClockPrescaler::HclkDiv11 => 10,
            PClockPrescaler::HclkDiv12 => 11,
            PClockPrescaler::HclkDiv13 => 12,
            PClockPrescaler::HclkDiv14 => 13,
            PClockPrescaler::HclkDiv15 => 14,
            PClockPrescaler::HclkDiv16 => 15,
        }
    }

    /// The setting with the given number; numbers above 15 name no
    /// setting and are refused.
    pub fn from_code(code: u8) -> (r: Result<Self, ConfigError>)
        ensures
            code <= MAX_DIVIDER_CODE ==> r is Ok && r->Ok_0.spec_code() == code,
            code > MAX_DIVIDER_CODE ==> r == Err::<Self, ConfigError>(
                ConfigError::OutOfRange(ConfigField::PclkDivider),
            ),
    {
        match code {
            0 => Ok(PClockPrescaler::HclkDiv1),
            1 => Ok(PClockPrescaler::HclkDiv2),
            2 => Ok(PClockPrescaler::HclkDiv3),
            3 => Ok(PClockPrescaler::HclkDiv4),
            4 => Ok(PClockPrescaler::HclkDiv5),
            5 => Ok(PClockPrescaler::HclkDiv6),
            6 => Ok(PClockPrescaler::HclkDiv7),
            7 => Ok(PClockPrescaler::HclkDiv8),
            8 => Ok(PClockPrescaler::HclkDiv9),
            9 => Ok(PClockPrescaler::HclkDiv10),
            10 => Ok(PClockPrescaler::HclkDiv11),
            11 => Ok(PClockPrescaler::HclkDiv12),
            12 => Ok(PClockPrescaler::HclkDiv13),
            13 => Ok(PClockPrescaler::HclkDiv14),
            14 => Ok(PClockPrescaler::HclkDiv15),
            15 => Ok(PClockPrescaler::HclkDiv16),
            _ => Err(ConfigError::OutOfRange(ConfigField::PclkDivider)),
        }
    }
}

} // verus!
