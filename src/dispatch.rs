//! What a command line asks for, decided before anything is sent.

use vstd::prelude::*;

use crate::alias::{alias_target, AliasResolver};
use crate::cli::{build_command, command_for, values_view};
use crate::dto::ExecuteCommandDto;
use crate::error::ValidationError;

verus! {

/// The subcommands of the command line.
#[derive(Debug, Clone)]
pub enum Commands {
    /// List the registered devices.
    List,
    /// Send a command to one device.
    Exec { device: String, command: String, values: Option<Vec<String>>, customize: bool },
}

/// A parsed command line.
#[derive(Debug, Clone)]
pub struct Args {
    pub command: Commands,
}

/// What the program does for a command line.
#[derive(Debug, Clone)]
pub enum Action {
    ListDevices,
    Execute(ExecuteCommandDto),
}

/// Decides what `command` asks for: a listing, or a validated command for
/// the device that its alias (or identifier) names.
pub fn plan(command: Commands, resolver: &AliasResolver) -> (r: Result<Action, ValidationError>)
    ensures
        command is List ==> r matches Ok(Action::ListDevices),
        command matches Commands::Exec { device, command: word, values, customize } ==> {
            match command_for(word@, values_view(values), customize) {
                Ok(c) => r matches Ok(Action::Execute(dto)) && dto.device_id@ == alias_target(
                    resolver@,
                    device@,
                ) && dto.command@ == c,
                Err(e) => r == Err::<Action, ValidationError>(e),
            }
        },
{
    match command {
        Commands::List => Ok(Action::ListDevices),
        Commands::Exec { device, command: word, values, customize } => {
            let device_id = String::from_str(resolver.resolve(device.as_str()));
            let built = build_command(word.as_str(), values, customize);
            match built {
                Ok(c) => Ok(Action::Execute(ExecuteCommandDto::new(device_id, c))),
                Err(e) => Err(e),
            }
        },
    }
}

} // verus!
