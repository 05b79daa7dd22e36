use vstd::prelude::*;

use crate::bootstrap::{
    advance, commands_registered, stage_rank, startup_order, startup_sequence, step_rank, BootstrapError, Stage, Step,
};
use crate::command::{command_name, command_named, command_output, Command};
use crate::platform::{is_platform_name, platform_name, Platform};

verus! {

/// Why an invocation from the front end was refused.
#[derive(Clone, Copy, Debug, PartialEq, Eq, Structural)]
pub enum InvokeError {
    /// The shell has not finished starting: no command is reachable yet.
    NotReady,
    /// No command is registered under that name.
    UnknownCommand,
    /// The command takes no argument and was given some.
    UnexpectedArguments,
}

/// The native side of the application: the host it runs on and how far
/// its startup has gone.
pub struct Shell {
    host: Platform,
    stage: Stage,
}

/// What a shell is, for contracts.
pub struct ShellState {
    pub host: Platform,
    pub stage: Stage,
}

impl View for Shell {
    type V = ShellState;

    closed spec fn view(&self) -> ShellState {
        ShellState { host: self.host, stage: self.stage }
    }
}

/// Whether the front end can reach the command called `name`: the shell
/// runs and the command is registered.
pub open spec fn reachable(s: ShellState, name: Seq<char>) -> bool {
    s.stage == Stage::Running && commands_registered(s.stage) && command_named(name) is Some
}

/// The answer to invoking `name` with `arg_count` arguments.
pub open spec fn invoke_result(s: ShellState, name: Seq<char>, arg_count: nat) -> Result<
    Seq<char>,
    InvokeError,
> {
    if s.stage != Stage::Running {
        Err(InvokeError::NotReady)
    } else if !reachable(s, name) {
        Err(InvokeError::UnknownCommand)
    } else if arg_count > 0 {
        Err(InvokeError::UnexpectedArguments)
    } else {
        Ok(command_output(command_named(name)->0, s.host))
    }
}

impl Shell {
    /// A fresh configuration for a shell on `host`: nothing attached yet.
    pub fn new(host: Platform) -> (r: Shell)
        ensures
            r@ == (ShellState { host, stage: Stage::Created }),
    {
        Shell { host, stage: Stage::Created }
    }

    /// A shell on `host` that has taken the whole startup sequence.
    pub fn bootstrap(host: Platform) -> (r: Shell)
        ensures
            r@ == (ShellState { host, stage: Stage::Running }),
    {
        let mut shell = Shell::new(host);
        let steps = startup_sequence();
        let mut i: usize = 0;
        while i < steps.len()
            invariant
                steps@ == startup_order(),
                0 <= i <= steps.len(),
                shell.host == host,
                stage_rank(shell.stage) == i,
                forall|j: int| 0 <= j < 4 ==> step_rank(#[trigger] startup_order()[j]) == j + 1,
            decreases steps.len() - i,
        {
            let _ = shell.take_step(steps[i]);
            i = i + 1;
        }
        shell
    }

    /// Takes one startup step; a refused step leaves the shell as it was.
    pub fn take_step(&mut self, step: Step) -> (r: Result<(), BootstrapError>)
        ensures
            final(self)@.host == old(self)@.host,
            match advance(old(self)@.stage, step) {
                Ok(s) => r is Ok && final(self)@.stage == s,
                Err(e) => r == Err::<(), BootstrapError>(e) && final(self)@.stage
                    == old(self)@.stage,
            },
    {
        match self.stage.advance(step) {
            Ok(s) => {
                self.stage = s;
                Ok(())
            },
            Err(e) => Err(e),
        }
    }

    /// The host this shell runs on.
    pub fn host(&self) -> (r: Platform)
        ensures
            r == self@.host,
    {
        self.host
    }

    /// How far this shell's startup has gone.
    pub fn stage(&self) -> (r: Stage)
        ensures
            r == self@.stage,
    {
        self.stage
    }

    /// Whether the front end can reach the command called `name`.
    pub fn is_reachable(&self, name: &str) -> (r: bool)
        ensures
            r == reachable(self@, name@),
    {
        let running = match self.stage {
            Stage::Running => true,
            _ => false,
        };
        match Command::from_name(name) {
            Some(_) => running,
            None => false,
        }
    }

    /// Answers an invocation of `name` with `args` from the front end.
    /// A command that takes no argument refuses any.
    pub fn invoke(&self, name: &str, args: &Vec<String>) -> (r: Result<String, InvokeError>)
        ensures
            match invoke_result(self@, name@, args@.len()) {
                Ok(t) => r matches Ok(u) && u@ == t,
                Err(e) => r == Err::<String, InvokeError>(e),
            },
    {
        match self.stage {
            Stage::Running => {},
            _ => return Err(InvokeError::NotReady),
        }
        match Command::from_name(name) {
            None => Err(InvokeError::UnknownCommand),
            Some(c) => {
                if args.len() > 0 {
                    Err(InvokeError::UnexpectedArguments)
                } else {
                    Ok(c.run(self.host))
                }
            },
        }
    }
}

/// On a started shell, the OS-name command invoked without arguments
/// answers the host's identifier, one of the recognized identifiers.
pub proof fn lemma_get_os_reports_host(s: ShellState)
    requires
        s.stage == Stage::Running,
    ensures
        invoke_result(s, command_name(Command::GetOs), 0) == Ok::<Seq<char>, InvokeError>(
            platform_name(s.host),
        ),
        is_platform_name(platform_name(s.host)),
{
}

/// The answer to the OS-name command depends on the host alone: any two
/// invocations on started shells of one host, in any order or at once,
/// succeed with the same text. Invoking borrows the shell without changing
/// it, so repeated invocations see one state.
pub proof fn lemma_get_os_answer_fixed(s: ShellState, t: ShellState)
    requires
        s.stage == Stage::Running,
        t.stage == Stage::Running,
        s.host == t.host,
    ensures
        invoke_result(s, command_name(Command::GetOs), 0) == invoke_result(
            t,
            command_name(Command::GetOs),
            0,
        ),
        invoke_result(s, command_name(Command::GetOs), 0) is Ok,
{
    lemma_get_os_reports_host(s);
    lemma_get_os_reports_host(t);
}

/// No command is reachable before startup has finished, and the OS-name
/// command is reachable as soon as the shell runs.
pub proof fn lemma_commands_gated(s: ShellState, name: Seq<char>, arg_count: nat)
    ensures
        s.stage != Stage::Running ==> !reachable(s, name) && invoke_result(s, name, arg_count)
            == Err::<Seq<char>, InvokeError>(InvokeError::NotReady),
        s.stage == Stage::Running ==> reachable(s, command_name(Command::GetOs)),
{
}

/// Arguments are refused, never ignored: an invocation that carries any
/// fails, and on a started shell the OS-name command says why.
pub proof fn lemma_arguments_rejected(s: ShellState, name: Seq<char>, arg_count: nat)
    requires
        arg_count > 0,
    ensures
        invoke_result(s, name, arg_count) is Err,
        s.stage == Stage::Running ==> invoke_result(s, command_name(Command::GetOs), arg_count)
            == Err::<Seq<char>, InvokeError>(InvokeError::UnexpectedArguments),
{
}

} // verus!
