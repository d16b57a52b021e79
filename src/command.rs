//! Remote commands: payload decoding and the per-device command topic.
use vstd::prelude::*;

verus! {

/// A decoded remote instruction.
#[derive(Clone, Copy, Debug, PartialEq, Eq, Structural)]
pub enum Command {
    /// Set the persistent flag and restart into provisioning.
    RebootToReconfigure,
}

/// Why an inbound payload is not a command.
#[derive(Clone, Copy, Debug, PartialEq, Eq, Structural)]
pub enum CommandError {
    CannotConvertPayload,
}

/// Byte that encodes the reboot command: ASCII '0'.
pub const REBOOT_BYTE: u8 = 48;

/// Base of the per-device command topic.
pub const COMMANDS_TOPIC_BASE: &'static str = "sensors/command";

/// The command a payload encodes: exactly one byte, ASCII '0'.
pub open spec fn command_of(payload: Seq<u8>) -> Option<Command> {
    if payload.len() == 1 && payload[0] == REBOOT_BYTE {
        Some(Command::RebootToReconfigure)
    } else {
        None
    }
}

/// The outcome of decoding a payload.
pub open spec fn parse_result(payload: Seq<u8>) -> Result<Command, CommandError> {
    match command_of(payload) {
        Some(c) => Ok(c),
        None => Err(CommandError::CannotConvertPayload),
    }
}

impl Command {
    /// Decodes a command payload; any payload other than the single byte
    /// ASCII '0' is rejected.
    pub fn try_from(payload: &[u8]) -> (r: Result<Command, CommandError>)
        ensures
            r == parse_result(payload@),
    {
        if payload.len() != 1 {
            return Err(CommandError::CannotConvertPayload);
        }
        if payload[0] == REBOOT_BYTE {
            Ok(Command::RebootToReconfigure)
        } else {
            Err(CommandError::CannotConvertPayload)
        }
    }
}

/// Relies on std's `format!`: "{base}/{leaf}" is base, a slash, then leaf.
#[verifier::external_body]
fn join_topic(base: &str, leaf: &str) -> (r: String)
    ensures
        r@ == base@ + seq!['/'] + leaf@,
{
    format!("{base}/{leaf}")
}

/// The topic on which a device receives commands: `sensors/command/<client_id>`.
pub fn command_topic(client_id: &str) -> (r: String)
    ensures
        r@ == COMMANDS_TOPIC_BASE@ + seq!['/'] + client_id@,
{
    join_topic(COMMANDS_TOPIC_BASE, client_id)
}

} // verus!
