//! CRC Calculation Unit

use vstd::prelude::*;

verus! {

/// Polynomial setting
#[derive(Clone, Copy, Debug, PartialEq, Eq, Structural)]
pub enum Polynomial {
    /// CRC-16-CCITT
    Crc16Ccitt,
    /// CRC-16-IBM
    Crc16Ibm,
    /// CRC-8-Dallas/Maxim
    Crc8DallasMaxim,
}

impl Polynomial {
    /// The value of the polynomial select field for this polynomial.
    pub open spec fn spec_bits(self) -> u8 {
        match self {
            Polynomial::Crc16Ccitt => 0,
            Polynomial::Crc16Ibm => 1,
            Polynomial::Crc8DallasMaxim => 2,
        }
    }

    /// The value of the polynomial select field for this polynomial.
    #[verifier::when_used_as_spec(spec_bits)]
    pub fn bits(self) -> (bits: u8)
        ensures
            bits == self.spec_bits(),
    {
        match self {
            Polynomial::Crc16Ccitt => 0,
            Polynomial::Crc16Ibm => 1,
            Polynomial::Crc8DallasMaxim => 2,
        }
    }
}

/// Data width setting
#[derive(Clone, Copy, Debug, PartialEq, Eq, Structural)]
pub enum DataWidth {
    /// 32-bits
    Width32Bits,
    /// 8-bits
    Width8Bits,
}

/// One write to a register of the unit.
#[derive(Clone, Copy, Debug, PartialEq, Eq, Structural)]
pub enum CrcWrite {
    /// Set the polynomial select field and the input data width bit.
    Control {
        /// Polynomial select.
        polynomial_select: u8,
        /// Whether the input data is 8 bits wide, rather than 32.
        eight_bit: bool,
    },
    /// Set the seed value.
    Seed(u16),
}

/// The fields of the control and seed registers.
#[derive(Clone, Copy, Debug, PartialEq, Eq, Structural)]
pub struct CrcFields {
    /// Polynomial select.
    pub polynomial_select: u8,
    /// Whether the input data is 8 bits wide, rather than 32.
    pub eight_bit: bool,
    /// Seed value.
    pub seed: u16,
}

/// The fields after one write.
pub open spec fn apply_write(fields: CrcFields, write: CrcWrite) -> CrcFields {
    match write {
        CrcWrite::Control { polynomial_select, eight_bit } => CrcFields {
            polynomial_select,
            eight_bit,
            ..fields
        },
        CrcWrite::Seed(seed) => CrcFields { seed, ..fields },
    }
}

/// The registers of the unit as plain values, with a journal of the writes
/// made to them.
pub struct CrcRegisters {
    fields: CrcFields,
    journal: Vec<CrcWrite>,
}

impl CrcRegisters {
    /// The fields as they stand.
    pub closed spec fn fields(&self) -> CrcFields {
        self.fields
    }

    /// The writes made and not yet taken, oldest first.
    pub closed spec fn journal(&self) -> Seq<CrcWrite> {
        self.journal@
    }

    /// The registers as a reset leaves them, all zero, with nothing written.
    pub fn new() -> (regs: Self)
        ensures
            regs.fields() == (CrcFields { polynomial_select: 0, eight_bit: false, seed: 0 }),
            regs.journal() == Seq::<CrcWrite>::empty(),
    {
        CrcRegisters {
            fields: CrcFields { polynomial_select: 0, eight_bit: false, seed: 0 },
            journal: Vec::new(),
        }
    }

    /// The registers with the given fields, as read from a device, and with
    /// nothing written.
    pub fn with_fields(fields: CrcFields) -> (regs: Self)
        ensures
            regs.fields() == fields,
            regs.journal() == Seq::<CrcWrite>::empty(),
    {
        CrcRegisters { fields, journal: Vec::new() }
    }

    /// Reads all fields.
    pub fn read(&self) -> (fields: CrcFields)
        ensures
            fields == self.fields(),
    {
        self.fields
    }

    /// Makes one write: it takes effect on the fields and joins the journal.
    pub fn write(&mut self, write: CrcWrite)
        ensures
            final(self).fields() == apply_write(old(self).fields(), write),
            final(self).journal() == old(self).journal().push(write),
    {
        match write {
            CrcWrite::Control { polynomial_select, eight_bit } => {
                self.fields.polynomial_select = polynomial_select;
                self.fields.eight_bit = eight_bit;
            },
            CrcWrite::Seed(seed) => {
                self.fields.seed = seed;
            },
        }
        self.journal.push(write);
    }

    /// Hands out the journal, oldest write first, and leaves it empty. The
    /// fields stay as they are.
    pub fn take_journal(&mut self) -> (writes: Vec<CrcWrite>)
        ensures
            writes@ == old(self).journal(),
            final(self).journal() == Seq::<CrcWrite>::empty(),
            final(self).fields() == old(self).fields(),
    {
        let mut writes: Vec<CrcWrite> = Vec::new();
        core::mem::swap(&mut self.journal, &mut writes);
        writes
    }
}

/// The CRC unit.
pub struct Crc {
    /// The registers.
    pub crc: CrcRegisters,
}

impl Crc {
    /// Creates a new `Crc` peripheral instance.
    pub fn new(crc: CrcRegisters, poly: Polynomial, width: DataWidth) -> (unit: Self)
        ensures
            unit.crc.journal() == crc.journal().push(
                CrcWrite::Control {
                    polynomial_select: poly.spec_bits(),
                    eight_bit: width is Width8Bits,
                },
            ),
            unit.crc.fields() == (CrcFields {
                polynomial_select: poly.spec_bits(),
                eight_bit: width is Width8Bits,
                ..crc.fields()
            }),
    {
        let mut crc = crc;
        let eight_bit = match width {
            DataWidth::Width8Bits => true,
            DataWidth::Width32Bits => false,
        };
        crc.write(CrcWrite::Control { polynomial_select: poly.bits(), eight_bit });
        Crc { crc }
    }

    /// Set the CRC seed value.
    ///
    /// In any CRC-16 configuration, the seed will be sourced from bits 0:15.
    /// In the CRC-8 configuration, the seed will be sourced from bits 0:7.
    pub fn seed(&mut self, seed: u16)
        ensures
            final(self).crc.journal() == old(self).crc.journal().push(CrcWrite::Seed(seed)),
            final(self).crc.fields() == (CrcFields { seed, ..old(self).crc.fields() }),
    {
        self.crc.write(CrcWrite::Seed(seed));
    }

    /// Return ownership of the peripheral.
    ///
    /// This can be used in cases where the peripheral needs to be reconfigured
    /// at runtime.
    pub fn release(self) -> (crc: CrcRegisters)
        ensures
            crc == self.crc,
    {
        self.crc
    }
}

} // verus!
