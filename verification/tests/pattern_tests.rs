use batch_auditor::pattern::has_file;

fn listing(names: &[&str]) -> Vec<String> {
    names.iter().map(|n| n.to_string()).collect()
}

#[test]
fn exact_pattern_hits_exact_name() {
    let entries = listing(&["LICENSE", "src", "Cargo.toml"]);
    assert!(has_file(&entries, "LICENSE"));
    assert!(has_file(&entries, "Cargo.toml"));
}

#[test]
fn exact_pattern_misses_absent_name() {
    let entries = listing(&["LICENSE", "src"]);
    assert!(!has_file(&entries, "CONTRIBUTING.md"));
}

#[test]
fn exact_pattern_is_case_sensitive() {
    let entries = listing(&["license"]);
    assert!(!has_file(&entries, "LICENSE"));
    assert!(has_file(&entries, "license"));
}

#[test]
fn exact_pattern_unaffected_by_unrelated_files() {
    let with_noise = listing(&["a.py", "notes.txt", "LICENSE", "Makefile"]);
    let bare = listing(&["LICENSE"]);
    assert_eq!(has_file(&with_noise, "LICENSE"), has_file(&bare, "LICENSE"));
    assert!(!has_file(&listing(&["a.py", "notes.txt", "Makefile"]), "LICENSE"));
}

#[test]
fn ext_pattern_hits_matching_extension() {
    let entries = listing(&["main.py", "LICENSE"]);
    assert!(has_file(&entries, "*.py"));
}

#[test]
fn ext_pattern_misses_other_extensions() {
    let entries = listing(&["main.rs", "doc.adoc", "LICENSE"]);
    assert!(!has_file(&entries, "*.py"));
    assert!(has_file(&entries, "*.adoc"));
    assert!(has_file(&entries, "*.rs"));
}

#[test]
fn ext_pattern_is_case_sensitive() {
    let entries = listing(&["config.YAML"]);
    assert!(!has_file(&entries, "*.yaml"));
}

#[test]
fn ext_pattern_empty_listing() {
    let entries = listing(&[]);
    assert!(!has_file(&entries, "*.py"));
    assert!(!has_file(&entries, "LICENSE"));
}

#[test]
fn ext_pattern_needs_a_dot() {
    // A bare "py" is not a Python extension.
    let entries = listing(&["py"]);
    assert!(!has_file(&entries, "*.py"));
}

#[test]
fn ext_pattern_leading_dot_names_have_no_extension() {
    // A hidden file like ".py" has no extension at all.
    let entries = listing(&[".py"]);
    assert!(!has_file(&entries, "*.py"));
}

#[test]
fn ext_pattern_takes_the_last_dot() {
    let entries = listing(&["archive.tar.py"]);
    assert!(has_file(&entries, "*.py"));
    assert!(!has_file(&entries, "*.tar"));
}

#[test]
fn ext_pattern_only_sees_immediate_children() {
    // The listing holds only top-level names; a match deeper down is a
    // different directory's business.
    let entries = listing(&["subdir"]);
    assert!(!has_file(&entries, "*.py"));
}
