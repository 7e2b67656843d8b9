//! Synchronous serial port.

pub mod config;
pub mod registers;

pub use config::{Config, CPH, CPO, FRF, MS, SOD};
pub use registers::{FrameSettings, SspFields, SspRegisters, SspWrite};

use vstd::prelude::*;
use crate::scc::registers::apply_write;
use crate::scc::{Scc, SccWrite, UsartMode};

verus! {

/// The frame settings that a configuration asks for: its own, with the data
/// size select one less than the data size.
pub open spec fn frame_settings(config: Config) -> FrameSettings {
    FrameSettings {
        data_size_select: (config.data_size - 1) as u8,
        frame_format: config.frame_format,
        clock_polarity: config.clock_polarity,
        clock_out_phase: config.clock_out_phase,
        slave_output_drive: config.slave_output_drive,
        mode: config.mode,
        loopback: config.loopback,
        lsb_first: config.lsb_first,
    }
}

/// The writes that configure and enable the port, in order: the clock, the
/// frame settings, the interrupt clear bits and the enable.
pub open spec fn spi_writes(config: Config) -> Seq<SspWrite> {
    seq![
        SspWrite::Clock { m: config.m, n: config.n },
        SspWrite::Frame(frame_settings(config)),
        SspWrite::ClearInterrupts,
        SspWrite::Enable,
    ]
}

/// Extension trait that turns the raw registers into an SPI interface.
pub trait SspExt {
    /// Whether the configuration can be applied.
    spec fn accepts(config: Config) -> bool;

    /// Creates an SPI interface.
    fn spi(self, scc: &mut Scc, config: Config) -> Spi
        requires
            Self::accepts(config),
    ;
}

impl SspExt for SspRegisters {
    open spec fn accepts(config: Config) -> bool {
        config.data_size_in_range()
    }

    /// Creates an SPI interface.
    ///
    /// USART A is put into SSP mode first. Then the port is configured and
    /// enabled.
    fn spi(self, scc: &mut Scc, config: Config) -> (spi: Spi)
        ensures
            final(scc).clocks == old(scc).clocks,
            final(scc).reg.journal() == old(scc).reg.journal().push(
                SccWrite::UsartAMode(UsartMode::Ssp),
            ),
            final(scc).reg.fields() == apply_write(
                old(scc).reg.fields(),
                SccWrite::UsartAMode(UsartMode::Ssp),
            ),
            spi.reg.journal() == self.journal() + spi_writes(config),
            spi.reg.fields() == (SspFields {
                m: config.m,
                n: config.n,
                frame: frame_settings(config),
                enabled: true,
            }),
    {
        scc.reg.write(SccWrite::UsartAMode(UsartMode::Ssp));
        let mut reg = self;
        reg.write(SspWrite::Clock { m: config.m, n: config.n });
        reg.write(
            SspWrite::Frame(
                FrameSettings {
                    data_size_select: config.data_size - 1,
                    frame_format: config.frame_format,
                    clock_polarity: config.clock_polarity,
                    clock_out_phase: config.clock_out_phase,
                    slave_output_drive: config.slave_output_drive,
                    mode: config.mode,
                    loopback: config.loopback,
                    lsb_first: config.lsb_first,
                },
            ),
        );
        reg.write(SspWrite::ClearInterrupts);
        reg.write(SspWrite::Enable);
        assert(reg.journal() =~= self.journal() + spi_writes(config));
        Spi { reg }
    }
}

/// SPI interface.
pub struct Spi {
    /// The registers.
    pub reg: SspRegisters,
}

} // verus!
