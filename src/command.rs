use vstd::prelude::*;

use crate::platform::{platform_name, same_text, Platform};

verus! {

/// The commands that the front end can invoke by name.
#[derive(Clone, Copy, Debug, PartialEq, Eq, Structural)]
pub enum Command {
    /// Reports the host operating system's identifier; takes no argument.
    GetOs,
}

/// The name by which the front end invokes a command.
pub open spec fn command_name(c: Command) -> Seq<char> {
    match c {
        Command::GetOs => "get_os"@,
    }
}

/// The command registered under `name`, if any.
pub open spec fn command_named(name: Seq<char>) -> Option<Command> {
    if name == command_name(Command::GetOs) {
        Some(Command::GetOs)
    } else {
        None
    }
}

/// What a command answers on a given host.
pub open spec fn command_output(c: Command, host: Platform) -> Seq<char> {
    match c {
        Command::GetOs => platform_name(host),
    }
}

/// The handler of the OS-name command: the host's identifier, as text.
pub fn get_os(host: Platform) -> (r: String)
    ensures
        r@ == platform_name(host),
{
    host.name().to_owned()
}

impl Command {
    /// The command's name.
    pub fn name(&self) -> (r: &'static str)
        ensures
            r@ == command_name(*self),
    {
        match self {
            Command::GetOs => "get_os",
        }
    }

    /// The command registered under `name`, if any.
    pub fn from_name(name: &str) -> (r: Option<Command>)
        ensures
            r == command_named(name@),
    {
        if same_text(name, "get_os") {
            Some(Command::GetOs)
        } else {
            None
        }
    }

    /// Runs the command's handler for the given host.
    pub fn run(&self, host: Platform) -> (r: String)
        ensures
            r@ == command_output(*self, host),
    {
        match self {
            Command::GetOs => get_os(host),
        }
    }
}

} // verus!
