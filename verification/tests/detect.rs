use kubie::error::KubieError;
use kubie::shell::detect::{
    command_of, detect, parent_of, parse_command, DetectAction, ShellKind,
};
use kubie::shell::configured_shell;

#[test]
fn test_parse_command_simple() {
    assert_eq!(parse_command("bash"), "bash");
}

#[test]
fn test_parse_command_with_args() {
    assert_eq!(parse_command("bash --rcfile hello.sh"), "bash");
}

#[test]
fn test_parse_command_with_path() {
    assert_eq!(parse_command("/bin/bash"), "bash");
}

#[test]
fn test_parse_command_with_path_and_args() {
    assert_eq!(parse_command("/bin/bash --rcfile hello.sh"), "bash");
}

#[test]
fn test_parse_command_login_shell() {
    assert_eq!(parse_command("-zsh"), "zsh");
}

#[test]
fn test_parse_command_versioned_intepreter() {
    assert_eq!(parse_command("python3.8"), "python");
}

#[test]
fn test_parse_command_nu() {
    assert_eq!(parse_command("/bin/nu"), "nu");
}

#[test]
fn parse_command_of_nothing_is_nothing() {
    assert_eq!(parse_command(""), "");
    assert_eq!(parse_command(" bash"), "");
    assert_eq!(parse_command("/usr/bin/"), "");
    assert_eq!(parse_command("---"), "");
    assert_eq!(parse_command("3.8"), "");
}

#[test]
fn parse_command_keeps_inner_hyphens_and_digits() {
    assert_eq!(parse_command("/opt/my-shell2go/bin/a1b-c --flag"), "a1b-c");
    assert_eq!(parse_command("--x86-64.2"), "x86-");
    assert_eq!(parse_command("dir with/space"), "dir");
}

#[test]
fn shell_kinds_by_name() {
    assert_eq!(ShellKind::from_str("bash"), Some(ShellKind::Bash));
    assert_eq!(ShellKind::from_str("dash"), Some(ShellKind::Bash));
    assert_eq!(ShellKind::from_str("fish"), Some(ShellKind::Fish));
    assert_eq!(ShellKind::from_str("xonsh"), Some(ShellKind::Xonsh));
    assert_eq!(ShellKind::from_str("python"), Some(ShellKind::Xonsh));
    assert_eq!(ShellKind::from_str("zsh"), Some(ShellKind::Zsh));
    assert_eq!(ShellKind::from_str("nu"), Some(ShellKind::Nu));
    assert_eq!(ShellKind::from_str("tcsh"), None);
    assert_eq!(ShellKind::from_str(""), None);
    assert_eq!(ShellKind::from_str("Bash"), None);
}

#[test]
fn detection_stops_at_the_first_process() {
    assert!(matches!(detect("1", None), Err(KubieError::ShellNotDetected)));
    assert!(matches!(detect("1", Some("/bin/bash")), Err(KubieError::ShellNotDetected)));
}

#[test]
fn detection_asks_for_the_command_then_decides() {
    assert!(matches!(detect("4711", None), Ok(DetectAction::QueryCommand)));
    assert!(matches!(
        detect("4711", Some("/bin/fish -l")),
        Ok(DetectAction::Done(ShellKind::Fish))
    ));
    assert!(matches!(detect("4711", Some("tmux: server")), Ok(DetectAction::QueryParent)));
    assert!(matches!(
        detect("4711", Some("/usr/bin/python3.11 -m xonsh")),
        Ok(DetectAction::Done(ShellKind::Xonsh))
    ));
    assert!(matches!(detect("2", Some("-zsh")), Ok(DetectAction::Done(ShellKind::Zsh))));
    assert!(matches!(detect("10", Some("/sbin/init splash")), Ok(DetectAction::QueryParent)));
}

#[test]
fn configured_shell_is_checked() {
    let mut settings = kubie::settings::Settings::new("/home/u");
    assert!(matches!(configured_shell(&settings), Ok(None)));
    settings.shell = Some(String::from("zsh"));
    assert!(matches!(configured_shell(&settings), Ok(Some(ShellKind::Zsh))));
    settings.shell = Some(String::from("powershell"));
    match configured_shell(&settings) {
        Err(e) => assert_eq!(e.message(), "Invalid shell setting: powershell"),
        Ok(_) => panic!("an unknown shell was accepted"),
    }
}

#[test]
fn the_answer_of_ps_is_its_first_line() {
    assert_eq!(parent_of("  4711\n").as_deref(), Some("4711"));
    assert_eq!(parent_of("\n\n 1 \n 2\n").as_deref(), Some("1"));
    assert_eq!(parent_of("4711").as_deref(), Some("4711"));
    assert_eq!(parent_of("\t\n").as_deref(), Some(""));
    assert_eq!(parent_of(""), None);
    assert_eq!(parent_of("\n\n"), None);
    assert_eq!(command_of("/bin/bash --login\n").as_deref(), Some("/bin/bash --login"));
    assert_eq!(command_of("\n -zsh \nother\n").as_deref(), Some(" -zsh "));
    assert_eq!(command_of(""), None);
    for text in ["", "\n", "a", " a \n", "\n\n  b\tc \n\nd", "\u{a0}x\u{3000}\n", "   "] {
        let first = text.split('\n').filter(|x| !x.is_empty()).map(String::from).next();
        assert_eq!(command_of(text), first);
        assert_eq!(parent_of(text), first.map(|x| x.trim().to_string()));
    }
}
