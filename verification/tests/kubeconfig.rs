use std::rc::Rc;

use kubie::error::KubieError;
use kubie::kubeconfig::{
    get_installed_contexts, get_kubeconfigs_contexts, load_kubeconfigs, Context, FileChange,
    FileOutcome, Installed, KubeConfig, LoadedFile, NamedCluster, NamedContext, NamedUser, Sourced,
};
use serde_yaml::{Mapping, Value};

fn mapping(entries: &[(&str, &str)]) -> Mapping {
    let mut m = Mapping::new();
    for (key, value) in entries {
        m.insert(Value::from(*key), Value::from(*value));
    }
    m
}

fn cluster(name: &str, entries: &[(&str, &str)]) -> NamedCluster {
    NamedCluster { name: String::from(name), cluster: mapping(entries) }
}

fn user(name: &str, entries: &[(&str, &str)]) -> NamedUser {
    NamedUser { name: String::from(name), user: mapping(entries) }
}

fn context(name: &str, cluster: &str, user: &str, namespace: Option<&str>) -> NamedContext {
    NamedContext {
        name: String::from(name),
        context: Context {
            cluster: String::from(cluster),
            namespace: namespace.map(String::from),
            user: String::from(user),
        },
    }
}

fn file_a() -> KubeConfig {
    KubeConfig {
        clusters: vec![cluster(
            "c1",
            &[("server", "https://c1"), ("certificate-authority", "ca.crt")],
        )],
        users: vec![user(
            "u1",
            &[("client-certificate", "certs/u1.crt"), ("client-key", "/abs/u1.key"), ("token", "t")],
        )],
        contexts: vec![context("ctx1", "c1", "u1", Some("ns1"))],
        current_context: Some(String::from("ctx1")),
        others: mapping(&[("kind", "Config"), ("note", "kept")]),
    }
}

fn file_b() -> KubeConfig {
    KubeConfig {
        clusters: vec![cluster("c1", &[("server", "https://other")])],
        users: vec![user("u2", &[("token", "t2")])],
        contexts: vec![
            context("ctx2", "c1", "u1", None),
            context("lost-cluster", "nowhere", "u2", None),
            context("lost-user", "c1", "nobody", Some("x")),
        ],
        current_context: None,
        others: Mapping::new(),
    }
}

fn loaded(path: &str, config: KubeConfig) -> LoadedFile {
    LoadedFile { path: String::from(path), outcome: FileOutcome::Parsed(config) }
}

fn catalog() -> Installed {
    let files = vec![loaded("/home/u/.kube/a.yaml", file_a()), loaded("/etc/kube/b.yaml", file_b())];
    load_kubeconfigs(&files).installed
}

fn text<'a>(m: &'a Mapping, key: &str) -> Option<&'a str> {
    m.get(key).and_then(|v| v.as_str())
}

#[test]
fn sourced_items_share_their_path() {
    let path = Rc::new(String::from("/k/a.yaml"));
    let one = Sourced::new(&path, 1u8);
    let two = Sourced::new(&path, 2u8);
    assert_eq!(one.item, 1);
    assert_eq!(two.item, 2);
    assert!(Rc::ptr_eq(&one.source, &path));
    assert!(Rc::ptr_eq(&one.source, &two.source));
    assert_eq!(Rc::strong_count(&path), 3);
}

#[test]
fn loading_tags_every_item_with_its_file() {
    let installed = catalog();
    assert_eq!(installed.clusters.len(), 2);
    assert_eq!(installed.users.len(), 2);
    assert_eq!(installed.contexts.len(), 4);
    assert_eq!(installed.contexts[0].item.name, "ctx1");
    assert_eq!(installed.contexts[0].source.as_str(), "/home/u/.kube/a.yaml");
    assert_eq!(installed.contexts[1].item.name, "ctx2");
    assert_eq!(installed.contexts[1].source.as_str(), "/etc/kube/b.yaml");
    assert_eq!(installed.clusters[1].source.as_str(), "/etc/kube/b.yaml");
    assert!(Rc::ptr_eq(&installed.contexts[1].source, &installed.contexts[2].source));
    assert!(Rc::ptr_eq(&installed.contexts[1].source, &installed.clusters[1].source));
}

#[test]
fn lookups_prefer_the_same_file_and_fall_back_to_any_file() {
    let installed = catalog();
    let found = installed.find_context_by_name("ctx2").expect("ctx2 is installed");
    assert_eq!(found.item.context.user, "u1");
    assert!(installed.find_context_by_name("ctx3").is_none());

    let same_file = installed.find_cluster_by_name("c1", "/etc/kube/b.yaml").unwrap();
    assert_eq!(text(&same_file.item.cluster, "server"), Some("https://other"));
    let first_file = installed.find_cluster_by_name("c1", "/home/u/.kube/a.yaml").unwrap();
    assert_eq!(text(&first_file.item.cluster, "server"), Some("https://c1"));
    let fallback = installed.find_cluster_by_name("c1", "/somewhere/else.yaml").unwrap();
    assert_eq!(text(&fallback.item.cluster, "server"), Some("https://c1"));
    assert!(installed.find_cluster_by_name("c9", "/etc/kube/b.yaml").is_none());

    let user = installed.find_user_by_name("u1", "/etc/kube/b.yaml").unwrap();
    assert_eq!(user.source.as_str(), "/home/u/.kube/a.yaml");
    let user = installed.find_user_by_name("u2", "/home/u/.kube/a.yaml").unwrap();
    assert_eq!(user.source.as_str(), "/etc/kube/b.yaml");
    assert!(installed.find_user_by_name("nobody", "/etc/kube/b.yaml").is_none());
}

#[test]
fn contexts_by_reference_are_those_of_the_same_file() {
    let installed = catalog();
    let by_cluster = installed.find_contexts_by_cluster("c1", "/etc/kube/b.yaml");
    let names: Vec<&str> = by_cluster.iter().map(|c| c.item.name.as_str()).collect();
    assert_eq!(names, vec!["ctx2", "lost-user"]);
    let by_cluster = installed.find_contexts_by_cluster("c1", "/home/u/.kube/a.yaml");
    assert_eq!(by_cluster.len(), 1);
    assert_eq!(by_cluster[0].item.name, "ctx1");
    assert!(installed.find_contexts_by_cluster("c1", "/nowhere").is_empty());

    let by_user = installed.find_contexts_by_user("u1", "/etc/kube/b.yaml");
    assert_eq!(by_user.len(), 1);
    assert_eq!(by_user[0].item.name, "ctx2");
    let by_user = installed.find_contexts_by_user("u2", "/etc/kube/b.yaml");
    assert_eq!(by_user.len(), 1);
    assert_eq!(by_user[0].item.name, "lost-cluster");
    assert!(installed.find_contexts_by_user("u2", "/home/u/.kube/a.yaml").is_empty());
}

#[test]
fn contexts_matching_a_wildcard() {
    let installed = catalog();
    let names = |pattern: &str| -> Vec<String> {
        installed.get_contexts_matching(pattern).iter().map(|c| c.item.name.clone()).collect()
    };
    assert_eq!(names("ctx*"), vec!["ctx1", "ctx2"]);
    assert_eq!(names("ctx?"), vec!["ctx1", "ctx2"]);
    assert_eq!(names("*"), vec!["ctx1", "ctx2", "lost-cluster", "lost-user"]);
    assert_eq!(names("lost-*r"), vec!["lost-cluster", "lost-user"]);
    assert_eq!(names("*2"), vec!["ctx2"]);
    assert_eq!(names("ctx1"), vec!["ctx1"]);
    assert!(names("ctx").is_empty());
    assert!(names("").is_empty());
    assert!(names("?").is_empty());
    assert!(names("CTX1").is_empty());
}

#[test]
fn composing_without_override_keeps_the_stored_namespace() {
    let installed = catalog();
    let config = installed.make_kubeconfig_for_context("ctx1", None).ok().unwrap();
    assert_eq!(config.contexts.len(), 1);
    assert_eq!(config.contexts[0].context.namespace.as_deref(), Some("ns1"));
    let config = installed.make_kubeconfig_for_context("ctx2", None).ok().unwrap();
    assert_eq!(config.contexts[0].context.namespace, None);
}

#[test]
fn composing_with_override_takes_the_override() {
    let installed = catalog();
    let config = installed.make_kubeconfig_for_context("ctx1", Some(Some("m"))).ok().unwrap();
    assert_eq!(config.contexts[0].context.namespace.as_deref(), Some("m"));
    let config = installed.make_kubeconfig_for_context("ctx2", Some(Some("m"))).ok().unwrap();
    assert_eq!(config.contexts[0].context.namespace.as_deref(), Some("m"));
    let config = installed.make_kubeconfig_for_context("ctx1", Some(None)).ok().unwrap();
    assert_eq!(config.contexts[0].context.namespace, None);
}

#[test]
fn a_composed_configuration_holds_one_of_each() {
    let installed = catalog();
    let config = installed.make_kubeconfig_for_context("ctx1", None).ok().unwrap();
    assert_eq!(config.contexts.len(), 1);
    assert_eq!(config.clusters.len(), 1);
    assert_eq!(config.users.len(), 1);
    assert_eq!(config.current_context.as_deref(), Some("ctx1"));
    assert_eq!(config.contexts[0].name, "ctx1");
    assert_eq!(config.contexts[0].context.cluster, "c1");
    assert_eq!(config.contexts[0].context.user, "u1");
    assert_eq!(config.clusters[0].name, "c1");
    assert_eq!(config.users[0].name, "u1");
    assert_eq!(config.others.len(), 2);
    assert_eq!(text(&config.others, "apiVersion"), Some("v1"));
    assert_eq!(text(&config.others, "kind"), Some("Config"));
}

#[test]
fn composing_anchors_relative_paths_at_the_directory_of_the_context() {
    let installed = catalog();
    let config = installed.make_kubeconfig_for_context("ctx1", None).ok().unwrap();
    let cluster = &config.clusters[0].cluster;
    assert_eq!(text(cluster, "certificate-authority"), Some("/home/u/.kube/ca.crt"));
    assert_eq!(text(cluster, "server"), Some("https://c1"));
    assert_eq!(cluster.len(), 2);
    let user = &config.users[0].user;
    assert_eq!(text(user, "client-certificate"), Some("/home/u/.kube/certs/u1.crt"));
    assert_eq!(text(user, "client-key"), Some("/abs/u1.key"));
    assert_eq!(text(user, "token"), Some("t"));
    assert_eq!(user.len(), 3);

    // The catalog itself is not touched.
    let stored = installed.find_cluster_by_name("c1", "/home/u/.kube/a.yaml").unwrap();
    assert_eq!(text(&stored.item.cluster, "certificate-authority"), Some("ca.crt"));
}

#[test]
fn composing_resolves_in_the_file_of_the_context_first() {
    let installed = catalog();
    let config = installed.make_kubeconfig_for_context("ctx2", None).ok().unwrap();
    // The cluster of the same file is taken, not the first of that name.
    assert_eq!(text(&config.clusters[0].cluster, "server"), Some("https://other"));
    assert_eq!(config.clusters[0].cluster.len(), 1);
    // The user comes from the other file; its paths are anchored at the
    // directory of the file of the context.
    assert_eq!(config.users[0].name, "u1");
    assert_eq!(
        text(&config.users[0].user, "client-certificate"),
        Some("/etc/kube/certs/u1.crt")
    );
    assert_eq!(text(&config.users[0].user, "client-key"), Some("/abs/u1.key"));
}

#[test]
fn composing_keeps_what_is_no_path() {
    let mut nested = Mapping::new();
    nested.insert(Value::from("command"), Value::from("aws"));
    nested.insert(
        Value::from("args"),
        Value::Sequence(vec![Value::from("eks"), Value::from("get-token")]),
    );
    let mut credentials = mapping(&[("client-key", "key.pem")]);
    credentials.insert(Value::from("exec"), Value::Mapping(nested.clone()));
    credentials.insert(Value::from(7), Value::from(true));
    let config = KubeConfig {
        clusters: vec![cluster("c", &[("server", "https://c")])],
        users: vec![NamedUser { name: String::from("u"), user: credentials }],
        contexts: vec![context("x", "c", "u", None)],
        current_context: None,
        others: Mapping::new(),
    };
    let installed = load_kubeconfigs(&vec![loaded("/k/x.yaml", config)]).installed;
    let composed = installed.make_kubeconfig_for_context("x", None).ok().unwrap();
    let user = &composed.users[0].user;
    assert_eq!(user.len(), 3);
    assert_eq!(text(user, "client-key"), Some("/k/key.pem"));
    assert_eq!(user.get("exec"), Some(&Value::Mapping(nested)));
    assert_eq!(user.get(&Value::from(7)), Some(&Value::from(true)));
    assert_eq!(composed.clusters[0].cluster, mapping(&[("server", "https://c")]));
}

#[test]
fn composing_fails_where_something_is_not_found() {
    let installed = catalog();
    match installed.make_kubeconfig_for_context("missing", None) {
        Err(KubieError::ContextNotFound(name)) => assert_eq!(name, "missing"),
        _ => panic!("a context that is not installed was composed"),
    }
    match installed.make_kubeconfig_for_context("lost-cluster", Some(Some("n"))) {
        Err(KubieError::ClusterNotFound { cluster, context }) => {
            assert_eq!(cluster, "nowhere");
            assert_eq!(context, "lost-cluster");
        }
        _ => panic!("a cluster was substituted"),
    }
    match installed.make_kubeconfig_for_context("lost-user", None) {
        Err(KubieError::UserNotFound { user, context }) => {
            assert_eq!(user, "nobody");
            assert_eq!(context, "lost-user");
        }
        _ => panic!("a user was substituted"),
    }
}

#[test]
fn composability_is_checked() {
    let installed = catalog();
    assert!(installed.is_composable("ctx1"));
    assert!(installed.is_composable("ctx2"));
    assert!(installed.is_composable("missing"));
    assert!(installed.is_composable("lost-cluster"));
    assert!(installed.try_make_kubeconfig_for_context("ctx1", None).unwrap().is_ok());
    assert!(installed.try_make_kubeconfig_for_context("missing", None).unwrap().is_err());

    // A file that lies in no directory.
    let rootless = load_kubeconfigs(&vec![loaded("/", file_a())]).installed;
    assert!(!rootless.is_composable("ctx1"));
    assert!(rootless.try_make_kubeconfig_for_context("ctx1", None).is_none());
    assert!(rootless.is_composable("missing"));

    // A certificate entry that is no text.
    let mut odd = file_a();
    odd.clusters[0].cluster.insert(Value::from("certificate-authority"), Value::from(12));
    let odd = load_kubeconfigs(&vec![loaded("/k/a.yaml", odd)]).installed;
    assert!(!odd.is_composable("ctx1"));
    assert!(odd.try_make_kubeconfig_for_context("ctx1", None).is_none());

    let mut odd = file_a();
    odd.users[0].user.insert(Value::from("client-key"), Value::Null);
    let odd = load_kubeconfigs(&vec![loaded("/k/a.yaml", odd)]).installed;
    assert!(!odd.is_composable("ctx1"));
}

#[test]
fn a_path_in_the_working_directory_has_an_empty_parent() {
    let installed = load_kubeconfigs(&vec![loaded("config", file_a())]).installed;
    assert!(installed.is_composable("ctx1"));
    let config = installed.make_kubeconfig_for_context("ctx1", None).ok().unwrap();
    assert_eq!(text(&config.clusters[0].cluster, "certificate-authority"), Some("ca.crt"));
}

#[test]
fn deleting_the_only_context_removes_the_file() {
    let installed = catalog();
    match installed.delete_context("ctx1", &file_a()) {
        Ok(FileChange::Remove) => {}
        _ => panic!("the file was not removed"),
    }
}

#[test]
fn deleting_a_context_takes_its_cluster_and_user_along() {
    let installed = catalog();
    let change = installed.delete_context("ctx2", &file_b());
    let reduced = match change {
        Ok(FileChange::Rewrite(reduced)) => reduced,
        _ => panic!("the file was not rewritten"),
    };
    let names: Vec<&str> = reduced.contexts.iter().map(|c| c.name.as_str()).collect();
    assert_eq!(names, vec!["lost-cluster", "lost-user"]);
    // The cluster c1 of this file is gone although another context of the
    // file refers to it; the user u1 was not in this file.
    assert!(reduced.clusters.is_empty());
    assert_eq!(reduced.users.len(), 1);
    assert_eq!(reduced.users[0].name, "u2");
    assert_eq!(reduced.users[0].user, mapping(&[("token", "t2")]));
    assert_eq!(reduced.current_context, None);
}

#[test]
fn deleting_keeps_the_rest_of_the_file() {
    let mut config = file_a();
    config.clusters.push(cluster("c2", &[("server", "https://c2")]));
    config.contexts.push(context("other", "c2", "u1", None));
    config.contexts.push(context("ctx1", "c2", "u9", None));
    let installed = load_kubeconfigs(&vec![loaded("/k/a.yaml", config)]).installed;
    let mut on_disk = file_a();
    on_disk.clusters.push(cluster("c2", &[("server", "https://c2")]));
    on_disk.contexts.push(context("other", "c2", "u1", None));
    on_disk.contexts.push(context("ctx1", "c2", "u9", None));
    let reduced = match installed.delete_context("ctx1", &on_disk) {
        Ok(FileChange::Rewrite(reduced)) => reduced,
        _ => panic!("the file was not rewritten"),
    };
    assert_eq!(reduced.contexts.len(), 1);
    assert_eq!(reduced.contexts[0].name, "other");
    assert_eq!(reduced.clusters.len(), 1);
    assert_eq!(reduced.clusters[0].name, "c2");
    assert!(reduced.users.is_empty());
    assert_eq!(reduced.current_context.as_deref(), Some("ctx1"));
    assert_eq!(reduced.others, mapping(&[("kind", "Config"), ("note", "kept")]));
}

#[test]
fn deleting_twice_fails_the_second_time() {
    let files = vec![loaded("/home/u/.kube/a.yaml", file_a()), loaded("/etc/kube/b.yaml", file_b())];
    let installed = load_kubeconfigs(&files).installed;
    assert!(matches!(installed.delete_context("ctx1", &file_a()), Ok(FileChange::Remove)));

    // The file is gone; the catalog is loaded anew.
    let files = vec![
        LoadedFile { path: String::from("/home/u/.kube/a.yaml"), outcome: FileOutcome::NotAFile },
        loaded("/etc/kube/b.yaml", file_b()),
    ];
    let installed = load_kubeconfigs(&files).installed;
    match installed.delete_context("ctx1", &file_a()) {
        Err(KubieError::ContextNotFound(name)) => assert_eq!(name, "ctx1"),
        _ => panic!("a context was deleted twice"),
    }
}

#[test]
fn deleting_an_unknown_context_fails() {
    let installed = catalog();
    match installed.delete_context("nope", &file_a()) {
        Err(e) => assert_eq!(e.message(), "Could not find context nope"),
        Ok(_) => panic!("deleted a context that is not installed"),
    }
}

#[test]
fn emptiness_of_a_file() {
    let empty = KubeConfig {
        clusters: Vec::new(),
        users: Vec::new(),
        contexts: Vec::new(),
        current_context: Some(String::from("x")),
        others: mapping(&[("kind", "Config")]),
    };
    assert!(empty.is_empty());
    assert!(!file_a().is_empty());
    let reduced = file_a().without_context(&context("ctx1", "c1", "u1", None));
    assert!(reduced.is_empty());
    let reduced = file_a().without_context(&context("ctx1", "other", "u1", None));
    assert!(!reduced.is_empty());
    assert_eq!(reduced.clusters.len(), 1);
}

#[test]
fn a_malformed_file_does_not_stop_the_load() {
    let files = vec![
        loaded("/home/u/.kube/a.yaml", file_a()),
        LoadedFile {
            path: String::from("/home/u/.kube/bad.yaml"),
            outcome: FileOutcome::Malformed(String::from("did not find expected key")),
        },
        LoadedFile { path: String::from("/home/u/.kube/dir"), outcome: FileOutcome::NotAFile },
        loaded("/etc/kube/b.yaml", file_b()),
    ];
    let with_bad = load_kubeconfigs(&files);
    assert_eq!(with_bad.failures.len(), 1);
    assert_eq!(with_bad.failures[0].path, "/home/u/.kube/bad.yaml");
    assert_eq!(with_bad.failures[0].message, "did not find expected key");

    let without_bad = catalog();
    let names = |installed: &Installed| -> Vec<(String, String)> {
        installed
            .contexts
            .iter()
            .map(|c| (c.source.as_str().to_string(), c.item.name.clone()))
            .collect()
    };
    assert_eq!(names(&with_bad.installed), names(&without_bad));
    assert_eq!(with_bad.installed.clusters.len(), without_bad.clusters.len());
    assert_eq!(with_bad.installed.users.len(), without_bad.users.len());
}

#[test]
fn a_load_without_contexts_fails() {
    let only_bad = vec![LoadedFile {
        path: String::from("/k/bad.yaml"),
        outcome: FileOutcome::Malformed(String::from("oops")),
    }];
    let (result, failures) = get_installed_contexts(&only_bad);
    assert_eq!(failures.len(), 1);
    match result {
        Err(e) => {
            assert!(matches!(e, KubieError::NoContextsFound { in_given_files: false }));
            assert_eq!(
                e.message(),
                "Could not find any contexts in the Kubie kubeconfig directories!"
            );
        }
        Ok(_) => panic!("a catalog without contexts was accepted"),
    }
    let (result, failures) = get_kubeconfigs_contexts(&Vec::new());
    assert!(failures.is_empty());
    match result {
        Err(e) => {
            assert!(matches!(e, KubieError::NoContextsFound { in_given_files: true }));
            assert_eq!(e.message(), "Could not find any contexts in the given set of files!");
        }
        Ok(_) => panic!("a catalog without contexts was accepted"),
    }
    let clusters_only = KubeConfig {
        clusters: vec![cluster("c", &[])],
        users: Vec::new(),
        contexts: Vec::new(),
        current_context: None,
        others: Mapping::new(),
    };
    let (result, _) = get_installed_contexts(&vec![loaded("/k/c.yaml", clusters_only)]);
    assert!(result.is_err());

    let (result, failures) = get_installed_contexts(&vec![loaded("/k/a.yaml", file_a())]);
    assert!(failures.is_empty());
    assert_eq!(result.ok().unwrap().contexts.len(), 1);
    let (result, _) = get_kubeconfigs_contexts(&vec![loaded("/k/a.yaml", file_a())]);
    assert_eq!(result.ok().unwrap().contexts.len(), 1);
}
