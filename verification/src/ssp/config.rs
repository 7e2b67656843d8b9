//! SPI configuration.

use vstd::prelude::*;

verus! {

/// Fewest bits of a data frame.
pub const MIN_DATA_SIZE: u8 = 4;

/// Most bits of a data frame.
pub const MAX_DATA_SIZE: u8 = 32;

/// Frame format.
#[derive(Clone, Copy, Debug, PartialEq, Eq, Structural)]
pub enum FRF {
    /// SPI
    Spi,
    /// TI
    Ti,
    /// Microwire
    Microwire,
}

/// Master/slave mode.
#[derive(Clone, Copy, Debug, PartialEq, Eq, Structural)]
pub enum MS {
    /// The SSP acts as the bus master
    Master,
    /// The SSP acts as a bus slave
    Slave,
}

/// Clock out phase.
#[derive(Clone, Copy, Debug, PartialEq, Eq, Structural)]
pub enum CPH {
    /// Capture serial data on the first edge transition of the frame
    FirstEdge,
    /// Capture serial data on the second edge of transition the frame
    SecondEdge,
}

/// Clock out polarity.
#[derive(Clone, Copy, Debug, PartialEq, Eq, Structural)]
pub enum CPO {
    /// Active high
    ActiveHigh,
    /// Active low
    ActiveLow,
}

/// Slave output disable.
#[derive(Clone, Copy, Debug, PartialEq, Eq, Structural)]
pub enum SOD {
    /// The SSP can drive the MISO output in slave mode
    Enabled,
    /// The SSP must not drive the MISO output in slave mode
    Disabled,
}

/// SPI configuration.
#[derive(Clone, Copy, Debug, PartialEq, Eq, Structural)]
pub struct Config {
    /// Clock M value.
    pub m: u8,
    /// Clock N value.
    pub n: u8,
    /// Frame format.
    pub frame_format: FRF,
    /// Master/slave mode.
    pub mode: MS,
    /// Whether the least significant bit goes first.
    pub lsb_first: bool,
    /// Whether the output is looped back to the input.
    pub loopback: bool,
    /// Clock output phase.
    pub clock_out_phase: CPH,
    /// Clock polarity.
    pub clock_polarity: CPO,
    /// Data size in bits.
    pub data_size: u8,
    /// Whether the slave drives its output.
    pub slave_output_drive: SOD,
}

impl Default for Config {
    fn default() -> (config: Self)
        ensures
            config == (Config {
                m: 2,
                n: 254,
                frame_format: FRF::Spi,
                mode: MS::Master,
                lsb_first: false,
                loopback: false,
                clock_out_phase: CPH::FirstEdge,
                clock_polarity: CPO::ActiveHigh,
                data_size: 8,
                slave_output_drive: SOD::Disabled,
            }),
            config.data_size_in_range(),
    {
        Self {
            m: 2,
            n: 254,
            frame_format: FRF::Spi,
            mode: MS::Master,
            lsb_first: false,
            loopback: false,
            clock_out_phase: CPH::FirstEdge,
            clock_polarity: CPO::ActiveHigh,
            data_size: 8,
            slave_output_drive: SOD::Disabled,
        }
    }
}

impl Config {
    /// Whether the data size lies between 4 and 32 bits.
    pub open spec fn data_size_in_range(self) -> bool {
        MIN_DATA_SIZE <= self.data_size <= MAX_DATA_SIZE
    }

    /// Set clock M value.
    pub fn m(self, value: u8) -> (config: Self)
        ensures
            config == (Config { m: value, ..self }),
    {
        let mut config = self;
        config.m = value;
        config
    }

    /// Set clock N value.
    pub fn n(self, value: u8) -> (config: Self)
        ensures
            config == (Config { n: value, ..self }),
    {
        let mut config = self;
        config.n = value;
        config
    }

    /// Set frame fromat.
    pub fn frame_format(self, format: FRF) -> (config: Self)
        ensures
            config == (Config { frame_format: format, ..self }),
    {
        let mut config = self;
        config.frame_format = format;
        config
    }

    /// Set master/slave mode.
    pub fn mode(self, mode: MS) -> (config: Self)
        ensures
            config == (Config { mode, ..self }),
    {
        let mut config = self;
        config.mode = mode;
        config
    }

    /// Set endian order.
    pub fn lsb_first(self, first: bool) -> (config: Self)
        ensures
            config == (Config { lsb_first: first, ..self }),
    {
        let mut config = self;
        config.lsb_first = first;
        config
    }

    /// Set loopback mode.
    pub fn loopback(self, enabled: bool) -> (config: Self)
        ensures
            config == (Config { loopback: enabled, ..self }),
    {
        let mut config = self;
        config.loopback = enabled;
        config
    }

    /// Set clock output phase.
    pub fn clock_out_phase(self, phase: CPH) -> (config: Self)
        ensures
            config == (Config { clock_out_phase: phase, ..self }),
    {
        let mut config = self;
        config.clock_out_phase = phase;
        config
    }

    /// Set clock polarity.
    pub fn clock_polarity(self, polarity: CPO) -> (config: Self)
        ensures
            config == (Config { clock_polarity: polarity, ..self }),
    {
        let mut config = self;
        config.clock_polarity = polarity;
        config
    }

    /// Set data size in bits.
    ///
    /// Must be between 4 and 32 bits.
    pub fn data_size(self, size: u8) -> (config: Self)
        requires
            MIN_DATA_SIZE <= size <= MAX_DATA_SIZE,
        ensures
            config == (Config { data_size: size, ..self }),
            config.data_size_in_range(),
    {
        let mut config = self;
        config.data_size = size;
        config
    }
}

} // verus!
