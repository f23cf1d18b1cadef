use kubie::settings::{
    default_exclude_path, default_include_path, expanduser, Behavior, Prompt, Settings,
    ValidateNamespacesBehavior,
};

fn home_dir() -> String {
    dirs::home_dir()
        .and_then(|p| p.to_str().map(String::from))
        .unwrap_or_else(|| String::from("/home/nobody"))
}

#[test]
fn test_expanduser() {
    assert_eq!(
        expanduser("~/hello/world/*.foo", &home_dir()),
        format!("{}/hello/world/*.foo", home_dir())
    );
}

#[test]
fn expanduser_leaves_other_paths() {
    assert_eq!(expanduser("/etc/kube/*.yaml", "/home/u"), "/etc/kube/*.yaml");
    assert_eq!(expanduser("~", "/home/u"), "~");
    assert_eq!(expanduser("~user/x", "/home/u"), "~user/x");
    assert_eq!(expanduser("", "/home/u"), "");
    assert_eq!(expanduser("a/~/b", "/home/u"), "a/~/b");
}

#[test]
fn expanduser_edge_cases() {
    assert_eq!(expanduser("~/", "/home/u"), "/home/u/");
    assert_eq!(expanduser("~/é/ü", "/home/ö"), "/home/ö/é/ü");
    assert_eq!(expanduser("~/x", ""), "/x");
}

#[test]
fn settings_path_lies_below_home() {
    assert_eq!(Settings::path("/home/u"), "/home/u/.kube/kubie.yaml");
}

#[test]
fn default_paths() {
    assert_eq!(
        default_include_path("/home/u"),
        vec![
            "/home/u/.kube/config",
            "/home/u/.kube/*.yml",
            "/home/u/.kube/*.yaml",
            "/home/u/.kube/configs/*.yml",
            "/home/u/.kube/configs/*.yaml",
            "/home/u/.kube/kubie/*.yml",
            "/home/u/.kube/kubie/*.yaml",
        ]
    );
    assert!(default_exclude_path().is_empty());
}

#[test]
fn defaults_of_prompt_and_behavior() {
    let prompt = Prompt::default();
    assert!(!prompt.disable);
    assert!(prompt.show_depth);
    assert!(!prompt.zsh_use_rps1);
    assert!(!prompt.fish_use_rprompt);
    let behavior = Behavior::default();
    assert!(behavior.validate_namespaces == ValidateNamespacesBehavior::True);
    assert!(behavior.print_context_in_exec);
    assert!(!behavior.track_last_used);
}

#[test]
fn loading_without_a_file_gives_the_defaults_and_excludes_the_settings_file() {
    let settings = Settings::load(None, "/home/u");
    assert_eq!(settings.shell, None);
    assert_eq!(settings.configs.included, default_include_path("/home/u"));
    assert_eq!(settings.configs.exclude, vec!["/home/u/.kube/kubie.yaml"]);
    assert!(settings.prompt.show_depth);
}

#[test]
fn loading_a_file_keeps_it_and_excludes_the_settings_file() {
    let mut stored = Settings::new("/home/u");
    stored.shell = Some(String::from("fish"));
    stored.configs.included = vec![String::from("~/k/*.yaml")];
    stored.configs.exclude = vec![String::from("~/k/skip.yaml")];
    stored.behavior.validate_namespaces = ValidateNamespacesBehavior::Partial;
    let settings = Settings::load(Some(stored), "/home/u");
    assert_eq!(settings.shell.as_deref(), Some("fish"));
    assert_eq!(settings.configs.included, vec!["~/k/*.yaml"]);
    assert_eq!(settings.configs.exclude, vec!["~/k/skip.yaml", "/home/u/.kube/kubie.yaml"]);
    assert!(settings.behavior.validate_namespaces == ValidateNamespacesBehavior::Partial);
    assert_eq!(settings.include_patterns("/home/u"), vec!["/home/u/k/*.yaml"]);
    assert_eq!(
        settings.exclude_patterns("/home/u"),
        vec!["/home/u/k/skip.yaml", "/home/u/.kube/kubie.yaml"]
    );
}

#[test]
fn paths_to_load_are_the_included_ones_that_are_not_excluded() {
    let included = vec![
        String::from("/k/a.yaml"),
        String::from("/k/b.yaml"),
        String::from("/k/a.yaml"),
        String::from("/k/kubie.yaml"),
        String::from("/k/c.yaml"),
    ];
    let excluded = vec![String::from("/k/kubie.yaml"), String::from("/k/none.yaml")];
    assert_eq!(
        Settings::get_kube_configs_paths(&included, &excluded),
        vec!["/k/a.yaml", "/k/b.yaml", "/k/c.yaml"]
    );
    assert!(Settings::get_kube_configs_paths(&Vec::new(), &excluded).is_empty());
    assert_eq!(Settings::get_kube_configs_paths(&excluded, &Vec::new()), excluded);
}
