//! The registers of a synchronous serial port as plain values, with a
//! journal of the writes made to them.

use vstd::prelude::*;
use crate::ssp::config::{CPH, CPO, FRF, MS, SOD};

verus! {

/// The frame settings of the control register.
#[derive(Clone, Copy, Debug, PartialEq, Eq, Structural)]
pub struct FrameSettings {
    /// Data size select: the number of bits of a frame, less one.
    pub data_size_select: u8,
    /// Frame format.
    pub frame_format: FRF,
    /// Clock polarity.
    pub clock_polarity: CPO,
    /// Clock output phase.
    pub clock_out_phase: CPH,
    /// Whether the slave drives its output.
    pub slave_output_drive: SOD,
    /// Master/slave mode.
    pub mode: MS,
    /// Whether the output is looped back to the input.
    pub loopback: bool,
    /// Whether the least significant bit goes first.
    pub lsb_first: bool,
}

/// One write to a register of the port.
#[derive(Clone, Copy, Debug, PartialEq, Eq, Structural)]
pub enum SspWrite {
    /// Set both clock prescalers.
    Clock {
        /// Clock M value.
        m: u8,
        /// Clock N value.
        n: u8,
    },
    /// Set the frame settings, all in one write of the control register.
    Frame(FrameSettings),
    /// Clear the receive timeout and receive overrun interrupt clear bits.
    ClearInterrupts,
    /// Enable the controller.
    Enable,
}

/// The fields of the clock and control registers.
#[derive(Clone, Copy, Debug, PartialEq, Eq, Structural)]
pub struct SspFields {
    /// Clock M value.
    pub m: u8,
    /// Clock N value.
    pub n: u8,
    /// Frame settings.
    pub frame: FrameSettings,
    /// Whether the controller is enabled.
    pub enabled: bool,
}

/// The fields after one write.
pub open spec fn apply_write(fields: SspFields, write: SspWrite) -> SspFields {
    match write {
        SspWrite::Clock { m, n } => SspFields { m, n, ..fields },
        SspWrite::Frame(frame) => SspFields { frame, ..fields },
        SspWrite::ClearInterrupts => fields,
        SspWrite::Enable => SspFields { enabled: true, ..fields },
    }
}

/// The registers of a synchronous serial port.
pub struct SspRegisters {
    fields: SspFields,
    journal: Vec<SspWrite>,
}

impl SspRegisters {
    /// The fields as they stand.
    pub closed spec fn fields(&self) -> SspFields {
        self.fields
    }

    /// The writes made and not yet taken, oldest first.
    pub closed spec fn journal(&self) -> Seq<SspWrite> {
        self.journal@
    }

    /// The registers as a reset leaves them, with nothing written.
    pub fn new() -> (regs: Self)
        ensures
            regs.fields() == (SspFields {
                m: 0,
                n: 0,
                frame: FrameSettings {
                    data_size_select: 0,
                    frame_format: FRF::Spi,
                    clock_polarity: CPO::ActiveHigh,
                    clock_out_phase: CPH::FirstEdge,
                    slave_output_drive: SOD::Enabled,
                    mode: MS::Master,
                    loopback: false,
                    lsb_first: false,
                },
                enabled: false,
            }),
            regs.journal() == Seq::<SspWrite>::empty(),
    {
        SspRegisters {
            fields: SspFields {
                m: 0,
                n: 0,
                frame: FrameSettings {
                    data_size_select: 0,
                    frame_format: FRF::Spi,
                    clock_polarity: CPO::ActiveHigh,
                    clock_out_phase: CPH::FirstEdge,
                    slave_output_drive: SOD::Enabled,
                    mode: MS::Master,
                    loopback: false,
                    lsb_first: false,
                },
                enabled: false,
            },
            journal: Vec::new(),
        }
    }

    /// The registers with the given fields, as read from a device, and with
    /// nothing written.
    pub fn with_fields(fields: SspFields) -> (regs: Self)
        ensures
            regs.fields() == fields,
            regs.journal() == Seq::<SspWrite>::empty(),
    {
        SspRegisters { fields, journal: Vec::new() }
    }

    /// Reads all fields.
    pub fn read(&self) -> (fields: SspFields)
        ensures
            fields == self.fields(),
    {
        self.fields
    }

    /// Makes one write: it takes effect on the fields and joins the journal.
    pub fn write(&mut self, write: SspWrite)
        ensures
            final(self).fields() == apply_write(old(self).fields(), write),
            final(self).journal() == old(self).journal().push(write),
    {
        match write {
            SspWrite::Clock { m, n } => {
                self.fields.m = m;
                self.fields.n = n;
            },
            SspWrite::Frame(frame) => {
                self.fields.frame = frame;
            },
            SspWrite::ClearInterrupts => {},
            SspWrite::Enable => {
                self.fields.enabled = true;
            },
        }
        self.journal.push(write);
    }

    /// Hands out the journal, oldest write first, and leaves it empty. The
    /// fields stay as they are.
    pub fn take_journal(&mut self) -> (writes: Vec<SspWrite>)
        ensures
            writes@ == old(self).journal(),
            final(self).journal() == Seq::<SspWrite>::empty(),
            final(self).fields() == old(self).fields(),
    {
        let mut writes: Vec<SspWrite> = Vec::new();
        core::mem::swap(&mut self.journal, &mut writes);
        writes
    }
}

} // verus!
