use kubie::settings::Settings;
use kubie::shell::detect::ShellKind;
use kubie::shell::prompt::{generate_ps1, Color, Command};
use kubie::shell::{spawn_shell, EnvVars};

#[test]
fn a_command_is_substituted_as_the_shell_wants_it() {
    assert_eq!(Command::new("kubie info ctx", ShellKind::Bash).render(), "$(kubie info ctx)");
    assert_eq!(Command::new("kubie info ctx", ShellKind::Zsh).render(), "$(kubie info ctx)");
    assert_eq!(Command::new("kubie info ctx", ShellKind::Fish).render(), "(kubie info ctx)");
    let command = Command::new("x", ShellKind::Nu);
    assert_eq!(command.content, "x");
    assert!(command.shell_kind == ShellKind::Nu);
}

#[test]
fn colours_are_isolated_as_the_shell_wants_it() {
    let bash = Color::new(31, String::from("txt"), ShellKind::Bash);
    assert_eq!(bash.isolate("X"), "\\[X\\]");
    assert_eq!(bash.start_color(31), "\\[\\e[31m\\]");
    assert_eq!(bash.end_color(), "\\[\\e[0m\\]");
    assert_eq!(bash.render(), "\\[\\e[31m\\]txt\\[\\e[0m\\]");
    let zsh = Color::new(32, String::from("txt"), ShellKind::Zsh);
    assert_eq!(zsh.isolate("X"), "%{X%}");
    assert_eq!(zsh.render(), "%{\\e[32m%}txt%{\\e[0m%}");
    let fish = Color::new(34, String::from("txt"), ShellKind::Fish);
    assert_eq!(fish.isolate("X"), "X");
    assert_eq!(fish.start_color(134), "\\e[134m");
    assert_eq!(fish.render(), "\\e[34mtxt\\e[0m");
}

#[test]
fn the_prompt_shows_context_namespace_and_depth() {
    let mut settings = Settings::new("/home/u");
    assert_eq!(
        generate_ps1(&settings, 1, ShellKind::Bash, "/usr/bin/kubie"),
        "[\\[\\e[31m\\]$(/usr/bin/kubie info ctx)\\[\\e[0m\\]|\\[\\e[32m\\]$(/usr/bin/kubie info ns)\\[\\e[0m\\]]"
    );
    assert_eq!(
        generate_ps1(&settings, 2, ShellKind::Zsh, "kubie"),
        "[%{\\e[31m%}$(kubie info ctx)%{\\e[0m%}|%{\\e[32m%}$(kubie info ns)%{\\e[0m%}|%{\\e[34m%}2%{\\e[0m%}]"
    );
    assert_eq!(
        generate_ps1(&settings, 10, ShellKind::Fish, "kubie"),
        "[\\e[31m(kubie info ctx)\\e[0m|\\e[32m(kubie info ns)\\e[0m|\\e[34m10\\e[0m]"
    );
    settings.prompt.show_depth = false;
    assert_eq!(
        generate_ps1(&settings, 10, ShellKind::Fish, "kubie"),
        "[\\e[31m(kubie info ctx)\\e[0m|\\e[32m(kubie info ns)\\e[0m]"
    );
    assert_eq!(
        generate_ps1(&settings, 0, ShellKind::Fish, "kubie"),
        "[\\e[31m(kubie info ctx)\\e[0m|\\e[32m(kubie info ns)\\e[0m]"
    );
}

#[test]
fn variables_are_set_once() {
    let mut vars = EnvVars::new();
    assert!(vars.apply().is_empty());
    vars.insert("A", "1");
    vars.insert("B", "2");
    vars.insert("A", "3");
    assert_eq!(
        vars.apply(),
        &vec![(String::from("A"), String::from("3")), (String::from("B"), String::from("2"))]
    );
}

#[test]
fn a_shell_is_spawned_with_its_variables_and_its_prompt() {
    let mut settings = Settings::new("/home/u");
    settings.prompt.zsh_use_rps1 = true;
    let info = spawn_shell(
        &settings,
        ShellKind::Zsh,
        1,
        "/tmp/kubie-config.yaml",
        "/tmp/kubie-session.json",
        "/home/u/.local/share/kubie/state.json",
        "/usr/bin/kubie",
    );
    assert!(info.kind == ShellKind::Zsh);
    let mut vars: Vec<(String, String)> = info.env_vars.apply().clone();
    vars.sort();
    let expected: Vec<(String, String)> = [
        ("KUBECONFIG", "/tmp/kubie-config.yaml"),
        ("KUBIE_ACTIVE", "1"),
        ("KUBIE_DEPTH", "2"),
        ("KUBIE_FISH_USE_RPROMPT", "0"),
        ("KUBIE_KUBECONFIG", "/tmp/kubie-config.yaml"),
        ("KUBIE_PROMPT_DISABLE", "0"),
        ("KUBIE_SESSION", "/tmp/kubie-session.json"),
        ("KUBIE_SHELL", "zsh"),
        ("KUBIE_STATE", "/home/u/.local/share/kubie/state.json"),
        ("KUBIE_ZSH_USE_RPS1", "1"),
    ]
    .iter()
    .map(|(k, v)| (String::from(*k), String::from(*v)))
    .collect();
    assert_eq!(vars, expected);
    assert_eq!(info.prompt, generate_ps1(&settings, 2, ShellKind::Zsh, "/usr/bin/kubie"));

    settings.prompt.disable = true;
    let info = spawn_shell(&settings, ShellKind::Nu, 0, "c", "s", "st", "kubie");
    assert!(info.env_vars.apply().contains(&(String::from("KUBIE_SHELL"), String::from("nu"))));
    assert!(info.env_vars.apply().contains(&(String::from("KUBIE_PROMPT_DISABLE"), String::from("1"))));
    assert!(info.env_vars.apply().contains(&(String::from("KUBIE_DEPTH"), String::from("1"))));
}
