use frpc_supervisor::discovery::discover;

fn listing(names: &[&str]) -> Vec<String> {
    names.iter().map(|n| n.to_string()).collect()
}

#[test]
fn default_and_named_with_stray_exe() {
    let files = listing(&["frpc.exe", "frpc.toml", "frpc@alpha.exe", "alpha.toml", "frpc@beta.exe"]);
    let out = discover(&files);
    assert_eq!(out.specs.len(), 2);
    assert_eq!(out.specs[0].identity, "default");
    assert_eq!(out.specs[0].exe_file, "frpc.exe");
    assert_eq!(out.specs[0].config_file, "frpc.toml");
    assert_eq!(out.specs[1].identity, "alpha");
    assert_eq!(out.specs[1].exe_file, "frpc@alpha.exe");
    assert_eq!(out.specs[1].config_file, "alpha.toml");
    assert_eq!(out.skipped.len(), 1);
    assert_eq!(out.skipped[0], "frpc@beta.exe");
}

#[test]
fn empty_root_yields_nothing() {
    let files: Vec<String> = Vec::new();
    let out = discover(&files);
    assert!(out.specs.is_empty());
    assert!(out.skipped.is_empty());
}

#[test]
fn default_needs_both_files() {
    let out = discover(&listing(&["frpc.exe"]));
    assert!(out.specs.is_empty());
    let out = discover(&listing(&["frpc.toml"]));
    assert!(out.specs.is_empty());
}

#[test]
fn named_worker_without_default_pair() {
    let out = discover(&listing(&["frpc@alpha.exe", "alpha.toml"]));
    assert_eq!(out.specs.len(), 1);
    assert_eq!(out.specs[0].identity, "alpha");
    assert!(out.skipped.is_empty());
}

#[test]
fn empty_name_part_is_ignored_silently() {
    let out = discover(&listing(&["frpc@.exe", "frpc@.toml", ".toml"]));
    assert!(out.specs.is_empty());
    assert!(out.skipped.is_empty());
}

#[test]
fn near_miss_names_are_not_workers() {
    let out = discover(&listing(&["frpcX.exe", "X.toml", "frpc@alpha.ex", "alpha.toml"]));
    assert!(out.specs.is_empty());
    assert!(out.skipped.is_empty());
}

#[test]
fn config_alone_emits_nothing() {
    let out = discover(&listing(&["alpha.toml", "beta.toml"]));
    assert!(out.specs.is_empty());
    assert!(out.skipped.is_empty());
}

#[test]
fn identities_are_unique_across_a_pass() {
    let files = listing(&[
        "frpc.exe",
        "frpc.toml",
        "frpc@alpha.exe",
        "alpha.toml",
        "frpc@beta.exe",
        "beta.toml",
        "frpc@gamma.exe",
        "gamma.toml",
    ]);
    let out = discover(&files);
    assert_eq!(out.specs.len(), 4);
    for i in 0..out.specs.len() {
        for j in 0..out.specs.len() {
            if i != j {
                assert_ne!(out.specs[i].identity, out.specs[j].identity);
            }
        }
    }
}

#[test]
fn order_is_stable_within_a_pass() {
    let files = listing(&["frpc@b.exe", "b.toml", "frpc@a.exe", "a.toml", "frpc.exe", "frpc.toml"]);
    let first = discover(&files);
    let second = discover(&files);
    let first_ids: Vec<String> = first.specs.iter().map(|s| s.identity.clone()).collect();
    let second_ids: Vec<String> = second.specs.iter().map(|s| s.identity.clone()).collect();
    assert_eq!(first_ids, vec!["default".to_string(), "b".to_string(), "a".to_string()]);
    assert_eq!(first_ids, second_ids);
}

#[test]
fn multibyte_names_are_matched_by_character() {
    let out = discover(&listing(&["frpc@тест.exe", "тест.toml"]));
    assert_eq!(out.specs.len(), 1);
    assert_eq!(out.specs[0].identity, "тест");
    assert_eq!(out.specs[0].config_file, "тест.toml");
}
