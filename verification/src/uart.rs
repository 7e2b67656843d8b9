//! Serial port configuration.

use vstd::prelude::*;
use vstd::std_specs::convert::FromSpecImpl;
use crate::time::Bps;

verus! {

/// Baud rate of a configuration that sets none.
pub const DEFAULT_BAUDRATE: u32 = 115_200;

/// Parity of a frame.
#[derive(Clone, Copy, Debug, PartialEq, Eq, Structural)]
pub enum Parity {
    /// Odd parity
    Odd,
    /// Even parity
    Even,
    /// Forced 1 stick parity
    Forced1,
    /// Forced 0 stick parity
    Forced0,
}

/// Number of stop bits of a frame.
#[derive(Clone, Copy, Debug, PartialEq, Eq, Structural)]
pub enum StopBits {
    /// 1 stop bit
    Stop1,
    /// 2 stop bits
    Stop2,
}

/// Number of data bits of a frame.
#[derive(Clone, Copy, Debug, PartialEq, Eq, Structural)]
pub enum WordLength {
    /// 5-bit character length
    Length5,
    /// 6-bit character length
    Length6,
    /// 7-bit character length
    Length7,
    /// 8-bit character length
    Length8,
}

/// Serial port configuration.
#[derive(Clone, Copy, Debug, PartialEq, Eq, Structural)]
pub struct Config {
    /// Baud rate.
    pub baudrate: Bps,
    /// Parity, if any.
    pub parity: Option<Parity>,
    /// Number of stop bits.
    pub stop_bits: StopBits,
    /// Number of data bits.
    pub word_length: WordLength,
}

impl Config {
    /// The configuration with the given baud rate, no parity, one stop bit
    /// and eight data bits.
    pub open spec fn with_baudrate(baudrate: Bps) -> Config {
        Config {
            baudrate,
            parity: None,
            stop_bits: StopBits::Stop1,
            word_length: WordLength::Length8,
        }
    }

    /// Set the baudrate to a specific value
    pub fn baudrate(self, baudrate: Bps) -> (config: Self)
        ensures
            config == (Config { baudrate, ..self }),
    {
        let mut config = self;
        config.baudrate = baudrate;
        config
    }

    /// Set parity to none
    pub fn parity_none(self) -> (config: Self)
        ensures
            config == (Config { parity: None, ..self }),
    {
        let mut config = self;
        config.parity = None;
        config
    }

    /// Set parity to even
    pub fn parity_even(self) -> (config: Self)
        ensures
            config == (Config { parity: Some(Parity::Even), ..self }),
    {
        let mut config = self;
        config.parity = Some(Parity::Even);
        config
    }

    /// Set parity to odd
    pub fn parity_odd(self) -> (config: Self)
        ensures
            config == (Config { parity: Some(Parity::Odd), ..self }),
    {
        let mut config = self;
        config.parity = Some(Parity::Odd);
        config
    }

    /// Set the number of stop bits
    pub fn stop_bits(self, stop_bits: StopBits) -> (config: Self)
        ensures
            config == (Config { stop_bits, ..self }),
    {
        let mut config = self;
        config.stop_bits = stop_bits;
        config
    }

    /// Set word length
    pub fn word_length(self, word_length: WordLength) -> (config: Self)
        ensures
            config == (Config { word_length, ..self }),
    {
        let mut config = self;
        config.word_length = word_length;
        config
    }
}

impl Default for Config {
    fn default() -> (config: Config)
        ensures
            config == Config::with_baudrate(Bps(DEFAULT_BAUDRATE)),
    {
        Config {
            baudrate: Bps(DEFAULT_BAUDRATE),
            parity: None,
            stop_bits: StopBits::Stop1,
            word_length: WordLength::Length8,
        }
    }
}

impl From<Bps> for Config {
    fn from(baudrate: Bps) -> (config: Config) {
        Config {
            baudrate,
            parity: None,
            stop_bits: StopBits::Stop1,
            word_length: WordLength::Length8,
        }
    }
}

impl FromSpecImpl<Bps> for Config {
    open spec fn obeys_from_spec() -> bool {
        true
    }

    open spec fn from_spec(baudrate: Bps) -> Config {
        Config::with_baudrate(baudrate)
    }
}

} // verus!
