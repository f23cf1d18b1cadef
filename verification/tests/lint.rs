use kubie::cmd::lint::{lint, lint_clusters, lint_contexts, lint_users, Finding};
use kubie::kubeconfig::{
    load_kubeconfigs, Context, FileOutcome, Installed, KubeConfig, LoadedFile, NamedCluster,
    NamedContext, NamedUser,
};
use serde_yaml::Mapping;

fn cluster(name: &str) -> NamedCluster {
    NamedCluster { name: String::from(name), cluster: Mapping::new() }
}

fn user(name: &str) -> NamedUser {
    NamedUser { name: String::from(name), user: Mapping::new() }
}

fn context(name: &str, cluster: &str, user: &str) -> NamedContext {
    NamedContext {
        name: String::from(name),
        context: Context { cluster: String::from(cluster), namespace: None, user: String::from(user) },
    }
}

fn file(
    path: &str,
    clusters: Vec<NamedCluster>,
    users: Vec<NamedUser>,
    contexts: Vec<NamedContext>,
) -> LoadedFile {
    LoadedFile {
        path: String::from(path),
        outcome: FileOutcome::Parsed(KubeConfig {
            clusters,
            users,
            contexts,
            current_context: None,
            others: Mapping::new(),
        }),
    }
}

fn messages(findings: &Vec<Finding>) -> Vec<String> {
    findings.iter().map(|f| f.message()).collect()
}

fn clean() -> Installed {
    load_kubeconfigs(&vec![
        file("/k/a.yaml", vec![cluster("c1")], vec![user("u1")], vec![context("x", "c1", "u1")]),
        file("/k/b.yaml", vec![cluster("c1")], vec![user("u1")], vec![context("y", "c1", "u1")]),
    ])
    .installed
}

#[test]
fn a_sound_catalog_has_no_findings() {
    assert!(lint(&clean()).is_empty());
    assert!(lint(&Installed::new()).is_empty());
}

#[test]
fn dangling_and_duplicate_clusters_are_found() {
    let installed = load_kubeconfigs(&vec![
        file(
            "/k/a.yaml",
            vec![cluster("c1"), cluster("c2"), cluster("c1"), cluster("c2"), cluster("c2")],
            vec![user("u1")],
            vec![context("x", "c1", "u1")],
        ),
        // Referred to from the other file only: dangling in its own file.
        file("/k/b.yaml", vec![cluster("c3"), cluster("c1")], vec![], vec![context("y", "c3", "u1")]),
    ])
    .installed;
    assert_eq!(
        messages(&lint_clusters(&installed)),
        vec![
            "Cluster 'c2' has no context referencing it in file /k/a.yaml",
            "A cluster named 'c1' appears more than once in file /k/a.yaml",
            "Cluster 'c2' has no context referencing it in file /k/a.yaml",
            "A cluster named 'c2' appears more than once in file /k/a.yaml",
            "Cluster 'c2' has no context referencing it in file /k/a.yaml",
            "A cluster named 'c2' appears more than once in file /k/a.yaml",
            "Cluster 'c1' has no context referencing it in file /k/b.yaml",
        ]
    );
}

#[test]
fn dangling_and_duplicate_users_are_found() {
    let installed = load_kubeconfigs(&vec![file(
        "/k/a.yaml",
        vec![cluster("c1")],
        vec![user("u1"), user("u2"), user("u1")],
        vec![context("x", "c1", "u1")],
    )])
    .installed;
    let findings = lint_users(&installed);
    assert_eq!(
        messages(&findings),
        vec![
            "User 'u2' has no context referencing it in file /k/a.yaml",
            "A user named 'u1' appears more than once in file /k/a.yaml",
        ]
    );
    assert!(matches!(&findings[0], Finding::UnreferencedUser { name, source }
        if name == "u2" && source == "/k/a.yaml"));
    assert!(matches!(&findings[1], Finding::DuplicateUser { name, .. } if name == "u1"));
}

#[test]
fn contexts_with_broken_references_and_duplicates_are_found() {
    let installed = load_kubeconfigs(&vec![
        file(
            "/k/a.yaml",
            vec![cluster("c1")],
            vec![user("u1")],
            vec![
                context("x", "c1", "u1"),
                context("broken", "c9", "u9"),
                context("x", "c1", "u1"),
                // Its cluster and user stand in the other file only.
                context("elsewhere", "c2", "u2"),
            ],
        ),
        // A context of the same name in another file is no duplicate.
        file("/k/b.yaml", vec![cluster("c2")], vec![user("u2")], vec![context("x", "c2", "u2")]),
    ])
    .installed;
    assert_eq!(
        messages(&lint_contexts(&installed)),
        vec![
            "Context 'broken' references unknown cluster 'c9' in file /k/a.yaml",
            "Context 'broken' references unknown users 'u9' in file /k/a.yaml",
            "A context name 'x' appears more than once in file /k/a.yaml",
            "Context 'elsewhere' references unknown cluster 'c2' in file /k/a.yaml",
            "Context 'elsewhere' references unknown users 'u2' in file /k/a.yaml",
        ]
    );
}

#[test]
fn every_problem_is_reported_in_one_pass() {
    let installed = load_kubeconfigs(&vec![file(
        "/k/a.yaml",
        vec![cluster("c1")],
        vec![user("u1")],
        vec![context("x", "c9", "u9")],
    )])
    .installed;
    let findings = lint(&installed);
    assert_eq!(
        messages(&findings),
        vec![
            "Cluster 'c1' has no context referencing it in file /k/a.yaml",
            "User 'u1' has no context referencing it in file /k/a.yaml",
            "Context 'x' references unknown cluster 'c9' in file /k/a.yaml",
            "Context 'x' references unknown users 'u9' in file /k/a.yaml",
        ]
    );
    // Nothing was changed.
    assert_eq!(installed.clusters.len(), 1);
    assert_eq!(installed.contexts.len(), 1);
}
