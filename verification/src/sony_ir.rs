//! Sony infrared remote protocol: command representations, the pulse-length
//! decoder for received frames, and the encoder that times transmissions on
//! the pulse channel.

pub mod rx;
pub mod tx;

use vstd::prelude::*;

verus! {

/// A raw command: `bits` data bits, least significant first.
#[derive(PartialEq, Eq, Clone, Copy, Debug, Structural)]
pub struct SonyIRRawCommand {
    pub data: u32,
    pub bits: u8,
}

/// A decoded command: twelve-bit form (5-bit address), fifteen-bit form
/// (8-bit address), or an unrecognised raw frame.
#[derive(PartialEq, Eq, Clone, Copy, Debug, Structural)]
pub enum SonyIRCommand {
    V12 { address: u8, command: u8 },
    V15 { address: u8, command: u8 },
    Raw(SonyIRRawCommand),
}

/// `SonyIRCommand::from_raw` at the specification level: the low seven bits
/// are the command, the bits above them the address.
pub open spec fn command_from_raw(raw: SonyIRRawCommand) -> SonyIRCommand {
    if raw.bits == 12 {
        SonyIRCommand::V12 {
            address: ((raw.data / 128) % 256) as u8,
            command: (raw.data % 128) as u8,
        }
    } else if raw.bits == 15 {
        SonyIRCommand::V15 {
            address: ((raw.data / 128) % 256) as u8,
            command: (raw.data % 128) as u8,
        }
    } else {
        SonyIRCommand::Raw(raw)
    }
}

/// `SonyIRRawCommand::from_command` at the specification level. (Both decoded
/// forms travel as the twelve-bit wire format.)
pub open spec fn raw_from_command(command: SonyIRCommand) -> SonyIRRawCommand {
    match command {
        SonyIRCommand::V12 { address, command } => SonyIRRawCommand {
            data: ((address % 32) * 128 + command % 128) as u32,
            bits: 12,
        },
        SonyIRCommand::V15 { address, command } => SonyIRRawCommand {
            data: (address * 128 + command % 128) as u32,
            bits: 12,
        },
        SonyIRCommand::Raw(raw) => raw,
    }
}

impl SonyIRCommand {
    /// Splits a raw command into address and command fields, by bit count.
    pub fn from_raw(raw: &SonyIRRawCommand) -> (r: SonyIRCommand)
        ensures
            r == command_from_raw(*raw),
    {
        match raw.bits {
            12 => SonyIRCommand::V12 {
                address: ((raw.data / 128) % 256) as u8,
                command: (raw.data % 128) as u8,
            },
            15 => SonyIRCommand::V15 {
                address: ((raw.data / 128) % 256) as u8,
                command: (raw.data % 128) as u8,
            },
            _ => SonyIRCommand::Raw(*raw),
        }
    }
}

impl SonyIRRawCommand {
    /// Packs a command back into its raw wire form.
    pub fn from_command(command: SonyIRCommand) -> (r: SonyIRRawCommand)
        ensures
            r == raw_from_command(command),
    {
        match command {
            SonyIRCommand::V12 { address, command } => SonyIRRawCommand {
                data: ((address % 32) as u32) * 128 + (command % 128) as u32,
                bits: 12,
            },
            SonyIRCommand::V15 { address, command } => SonyIRRawCommand {
                data: (address as u32) * 128 + (command % 128) as u32,
                bits: 12,
            },
            SonyIRCommand::Raw(raw) => raw,
        }
    }
}

} // verus!
