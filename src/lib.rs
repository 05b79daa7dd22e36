//! A desktop shell's host bridge: the one command it exposes to its front
//! end (the host operating system's name), the registry that dispatches
//! commands by name, and the bootstrap sequence that must finish before
//! any command can be reached.

mod bootstrap;
mod command;
mod platform;
mod shell;

pub use bootstrap::{
    advance, advance_all, commands_registered, lemma_run_needs_registration, lemma_startup_order,
    stage_after, stage_rank, startup_order, startup_sequence, step_rank, BootstrapError, Stage,
    Step,
};
pub use command::{command_name, command_named, command_output, get_os, Command};
pub use platform::{is_platform_name, lemma_platform_name_injective, platform_name, Platform};
pub use shell::{
    invoke_result, lemma_arguments_rejected, lemma_commands_gated, lemma_get_os_answer_fixed,
    lemma_get_os_reports_host, reachable, InvokeError, Shell, ShellState,
};
