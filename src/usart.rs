use vstd::prelude::*;

verus! {

/// Introduction / handshake byte of the serial link.
pub const INTRODUCTION: u8 = 0x30;

/// Byte that requests a data frame (bridge) or begins one (controller).
pub const SEND_DATA: u8 = 0x31;

/// Byte that stands for a command that is not recognised.
pub const UNKNOWN: u8 = 0x00;

/// The class of a byte received over the serial link.
#[derive(Clone, Copy, Debug, PartialEq, Eq, Structural)]
pub enum UsartCommand {
    Introduction,
    SendData,
    Unknown,
}

/// The class of the byte `b`: one of the two command codes, or anything else.
pub open spec fn command_of(b: u8) -> UsartCommand {
    if b == INTRODUCTION {
        UsartCommand::Introduction
    } else if b == SEND_DATA {
        UsartCommand::SendData
    } else {
        UsartCommand::Unknown
    }
}

/// The byte that is sent for a command.
pub open spec fn command_byte(c: UsartCommand) -> u8 {
    match c {
        UsartCommand::Introduction => INTRODUCTION,
        UsartCommand::SendData => SEND_DATA,
        UsartCommand::Unknown => UNKNOWN,
    }
}

impl From<u8> for UsartCommand {
    fn from(data: u8) -> (r: UsartCommand)
        ensures
            r == command_of(data),
    {
        match data {
            INTRODUCTION => UsartCommand::Introduction,
            SEND_DATA => UsartCommand::SendData,
            _ => UsartCommand::Unknown,
        }
    }
}

impl vstd::std_specs::convert::FromSpecImpl<u8> for UsartCommand {
    open spec fn obeys_from_spec() -> bool {
        true
    }

    open spec fn from_spec(v: u8) -> UsartCommand {
        command_of(v)
    }
}

impl From<UsartCommand> for u8 {
    fn from(command: UsartCommand) -> (r: u8)
        ensures
            r == command_byte(command),
    {
        match command {
            UsartCommand::Introduction => INTRODUCTION,
            UsartCommand::SendData => SEND_DATA,
            UsartCommand::Unknown => UNKNOWN,
        }
    }
}

impl vstd::std_specs::convert::FromSpecImpl<UsartCommand> for u8 {
    open spec fn obeys_from_spec() -> bool {
        true
    }

    open spec fn from_spec(v: UsartCommand) -> u8 {
        command_byte(v)
    }
}

} // verus!
