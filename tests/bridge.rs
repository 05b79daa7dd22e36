use habistat_lib::{
    get_os, startup_sequence, BootstrapError, Command, InvokeError, Platform, Shell, Stage, Step,
};

fn no_args() -> Vec<String> {
    Vec::new()
}

#[test]
fn get_os_on_linux_host() {
    let shell = Shell::bootstrap(Platform::Linux);
    assert_eq!(shell.invoke("get_os", &no_args()), Ok("linux".to_string()));
}

#[test]
fn get_os_on_windows_host() {
    let shell = Shell::bootstrap(Platform::Windows);
    assert_eq!(shell.invoke("get_os", &no_args()), Ok("windows".to_string()));
}

#[test]
fn get_os_on_macos_host() {
    let shell = Shell::bootstrap(Platform::Macos);
    assert_eq!(shell.invoke("get_os", &no_args()), Ok("macos".to_string()));
}

#[test]
fn handler_returns_identifier() {
    assert_eq!(get_os(Platform::Android), "android");
    assert_eq!(get_os(Platform::Freebsd), "freebsd");
    assert_eq!(Command::GetOs.run(Platform::Ios), "ios");
}

#[test]
fn every_identifier_round_trips() {
    let all = [
        Platform::Linux,
        Platform::Macos,
        Platform::Ios,
        Platform::Freebsd,
        Platform::Dragonfly,
        Platform::Netbsd,
        Platform::Openbsd,
        Platform::Solaris,
        Platform::Android,
        Platform::Windows,
    ];
    for p in all {
        assert_eq!(Platform::from_name(p.name()), Some(p));
        assert_eq!(get_os(p), p.name());
    }
}

#[test]
fn unknown_identifiers_are_not_platforms() {
    assert_eq!(Platform::from_name(""), None);
    assert_eq!(Platform::from_name("Linux"), None);
    assert_eq!(Platform::from_name("linux "), None);
    assert_eq!(Platform::from_name("haiku"), None);
}

#[test]
fn repeated_invocations_agree() {
    let shell = Shell::bootstrap(Platform::Openbsd);
    for _ in 0..100 {
        assert_eq!(shell.invoke("get_os", &no_args()), Ok("openbsd".to_string()));
    }
    assert_eq!(shell.stage(), Stage::Running);
    assert_eq!(shell.host(), Platform::Openbsd);
}

#[test]
fn command_unreachable_until_started() {
    let mut shell = Shell::new(Platform::Linux);
    for step in startup_sequence() {
        assert!(!shell.is_reachable("get_os"));
        assert_eq!(shell.invoke("get_os", &no_args()), Err(InvokeError::NotReady));
        assert_eq!(shell.take_step(step), Ok(()));
    }
    assert!(shell.is_reachable("get_os"));
    assert_eq!(shell.invoke("get_os", &no_args()), Ok("linux".to_string()));
}

#[test]
fn startup_sequence_order() {
    assert_eq!(
        startup_sequence(),
        vec![Step::AttachLinkOpener, Step::AttachOsInfo, Step::RegisterCommands, Step::Run]
    );
}

#[test]
fn skipping_a_step_is_refused() {
    let mut shell = Shell::new(Platform::Windows);
    assert_eq!(shell.take_step(Step::AttachOsInfo), Err(BootstrapError::OutOfOrder));
    assert_eq!(shell.take_step(Step::Run), Err(BootstrapError::OutOfOrder));
    assert_eq!(shell.stage(), Stage::Created);
    assert_eq!(shell.take_step(Step::AttachLinkOpener), Ok(()));
    assert_eq!(shell.take_step(Step::RegisterCommands), Err(BootstrapError::OutOfOrder));
    assert_eq!(shell.stage(), Stage::LinkOpenerAttached);
}

#[test]
fn repeated_steps_are_idempotent() {
    let mut shell = Shell::new(Platform::Windows);
    assert_eq!(shell.take_step(Step::AttachLinkOpener), Ok(()));
    assert_eq!(shell.take_step(Step::AttachLinkOpener), Ok(()));
    assert_eq!(shell.stage(), Stage::LinkOpenerAttached);
    assert_eq!(shell.take_step(Step::AttachOsInfo), Ok(()));
    assert_eq!(shell.take_step(Step::AttachLinkOpener), Ok(()));
    assert_eq!(shell.stage(), Stage::OsInfoAttached);
}

#[test]
fn running_shell_accepts_no_step() {
    let mut shell = Shell::bootstrap(Platform::Linux);
    assert_eq!(shell.take_step(Step::Run), Err(BootstrapError::AlreadyRunning));
    assert_eq!(shell.take_step(Step::AttachLinkOpener), Err(BootstrapError::AlreadyRunning));
    assert_eq!(shell.stage(), Stage::Running);
}

#[test]
fn stage_transitions() {
    assert_eq!(Stage::Created.advance(Step::AttachLinkOpener), Ok(Stage::LinkOpenerAttached));
    assert_eq!(Stage::OsInfoAttached.advance(Step::RegisterCommands), Ok(Stage::CommandsRegistered));
    assert_eq!(Stage::CommandsRegistered.advance(Step::Run), Ok(Stage::Running));
    assert_eq!(Stage::CommandsRegistered.advance(Step::AttachOsInfo), Ok(Stage::CommandsRegistered));
    assert_eq!(Stage::Created.advance(Step::RegisterCommands), Err(BootstrapError::OutOfOrder));
    assert_eq!(Stage::Running.advance(Step::Run), Err(BootstrapError::AlreadyRunning));
    assert_eq!(Stage::Running.rank(), 4);
    assert_eq!(Step::AttachOsInfo.rank(), 2);
    assert_eq!(Step::RegisterCommands.reaches(), Stage::CommandsRegistered);
}

#[test]
fn arguments_are_rejected() {
    let shell = Shell::bootstrap(Platform::Linux);
    let args = vec!["verbose".to_string()];
    assert_eq!(shell.invoke("get_os", &args), Err(InvokeError::UnexpectedArguments));
    let empty_arg = vec![String::new()];
    assert_eq!(shell.invoke("get_os", &empty_arg), Err(InvokeError::UnexpectedArguments));
    assert_eq!(shell.invoke("get_os", &no_args()), Ok("linux".to_string()));
}

#[test]
fn unknown_command_is_rejected() {
    let shell = Shell::bootstrap(Platform::Linux);
    assert_eq!(shell.invoke("get_o", &no_args()), Err(InvokeError::UnknownCommand));
    assert_eq!(shell.invoke("GET_OS", &no_args()), Err(InvokeError::UnknownCommand));
    assert_eq!(shell.invoke("", &no_args()), Err(InvokeError::UnknownCommand));
    assert!(!shell.is_reachable("get_version"));
}

#[test]
fn not_ready_takes_precedence() {
    let shell = Shell::new(Platform::Linux);
    let args = vec!["x".to_string()];
    assert_eq!(shell.invoke("nope", &args), Err(InvokeError::NotReady));
}

#[test]
fn command_names() {
    assert_eq!(Command::GetOs.name(), "get_os");
    assert_eq!(Command::from_name("get_os"), Some(Command::GetOs));
    assert_eq!(Command::from_name("get_os2"), None);
}
