use batch_auditor::audit::{audit_repo, Badges};

fn listing(names: &[&str]) -> Vec<String> {
    names.iter().map(|n| n.to_string()).collect()
}

#[test]
fn scenario_governed_only() {
    // A directory with only a license and a contribution guide earns the
    // governance badge alone: score 25, four missing entries, nothing
    // forbidden.
    let entries = listing(&["LICENSE", "CONTRIBUTING.md"]);
    let r = audit_repo("/repos/tidy", &entries);
    assert!(!r.badges.dependable);
    assert!(!r.badges.secure);
    assert!(!r.badges.interoperable);
    assert!(r.badges.governed);
    assert_eq!(r.score, 25);
    assert_eq!(r.missing, vec!["Justfile", "void.ttl", "README.adoc", "config.ncl"]);
    assert!(r.forbidden.is_empty());
}

#[test]
fn scenario_perfect() {
    let entries = listing(&[
        "Cargo.toml",
        "config.ncl",
        "Justfile",
        "README.adoc",
        "void.ttl",
        "LICENSE",
        "CONTRIBUTING.md",
    ]);
    let r = audit_repo("/repos/flagship", &entries);
    assert!(r.badges.dependable);
    assert!(r.badges.secure);
    assert!(r.badges.interoperable);
    assert!(r.badges.governed);
    assert_eq!(r.score, 100);
    assert!(r.missing.is_empty());
    assert!(r.forbidden.is_empty());
    assert!(r.badges.is_rhodium());
}

#[test]
fn scenario_python_spoils_rust() {
    // The Rust marker is there, but one Python file forfeits `dependable`
    // and lands in the forbidden list.
    let entries = listing(&["Cargo.toml", "helper.py"]);
    let r = audit_repo("/repos/mixed", &entries);
    assert!(!r.badges.dependable);
    assert_eq!(r.forbidden, vec!["*.py (use Rust instead)"]);
    assert_eq!(r.score, 0);
}

#[test]
fn yaml_spoils_secure() {
    let entries = listing(&["config.ncl", "Justfile", "ci.yml"]);
    let r = audit_repo("/repos/pipelines", &entries);
    assert!(!r.badges.secure);
    assert_eq!(r.forbidden, vec!["*.yaml/*.yml (use Nickel)"]);
}

#[test]
fn ada_or_elixir_also_count_as_dependable() {
    let ada = audit_repo("/r/a", &listing(&["main.adb"]));
    assert!(ada.badges.dependable);
    let ada_spec = audit_repo("/r/b", &listing(&["main.ads"]));
    assert!(ada_spec.badges.dependable);
    let elixir = audit_repo("/r/c", &listing(&["mix.exs"]));
    assert!(elixir.badges.dependable);
}

#[test]
fn justfile_either_case_counts() {
    let upper = audit_repo("/r/u", &listing(&["config.ncl", "Justfile"]));
    assert!(upper.badges.secure);
    let lower = audit_repo("/r/l", &listing(&["config.ncl", "justfile"]));
    assert!(lower.badges.secure);
}

#[test]
fn interoperable_needs_both_docs_and_metadata() {
    let only_docs = audit_repo("/r/d", &listing(&["guide.adoc"]));
    assert!(!only_docs.badges.interoperable);
    let both = audit_repo("/r/e", &listing(&["guide.adoc", "void.ttl"]));
    assert!(both.badges.interoperable);
}

#[test]
fn score_is_25_per_badge() {
    let zero = audit_repo("/r/zero", &listing(&[]));
    assert_eq!(zero.score, 0);
    let one = audit_repo("/r/one", &listing(&["LICENSE", "CONTRIBUTING.md"]));
    assert_eq!(one.score, 25);
    let two = audit_repo(
        "/r/two",
        &listing(&["LICENSE", "CONTRIBUTING.md", "Cargo.toml"]),
    );
    assert_eq!(two.score, 50);
    let three = audit_repo(
        "/r/three",
        &listing(&["LICENSE", "CONTRIBUTING.md", "Cargo.toml", "doc.adoc", "void.ttl"]),
    );
    assert_eq!(three.score, 75);
    let four = audit_repo(
        "/r/four",
        &listing(&[
            "LICENSE",
            "CONTRIBUTING.md",
            "Cargo.toml",
            "doc.adoc",
            "void.ttl",
            "config.ncl",
            "Justfile",
        ]),
    );
    assert_eq!(four.score, 100);
}

#[test]
fn missing_license_entry_tracks_exact_file() {
    let without = audit_repo("/r/w", &listing(&["notes.txt"]));
    assert!(without.missing.iter().any(|m| m == "LICENSE"));
    let with = audit_repo("/r/x", &listing(&["LICENSE"]));
    assert!(!with.missing.iter().any(|m| m == "LICENSE"));
}

#[test]
fn missing_readme_entry_tracks_both_checks() {
    // Any AsciiDoc file satisfies the README check ...
    let with_adoc = audit_repo("/r/a", &listing(&["notes.adoc"]));
    assert!(!with_adoc.missing.iter().any(|m| m == "README.adoc"));
    // ... and so does the exact file name, while its absence is reported.
    let with_exact = audit_repo("/r/b", &listing(&["README.adoc"]));
    assert!(!with_exact.missing.iter().any(|m| m == "README.adoc"));
    let with_neither = audit_repo("/r/c", &listing(&["README.md"]));
    assert!(with_neither.missing.iter().any(|m| m == "README.adoc"));
}

#[test]
fn full_missing_list_in_fixed_order() {
    let r = audit_repo("/r/empty", &listing(&[]));
    assert_eq!(
        r.missing,
        vec!["LICENSE", "CONTRIBUTING.md", "Justfile", "void.ttl", "README.adoc", "config.ncl"]
    );
}

#[test]
fn full_forbidden_list_in_fixed_order() {
    let entries = listing(&["tool.py", "ci.yaml", "Makefile"]);
    let r = audit_repo("/r/legacy", &entries);
    assert_eq!(
        r.forbidden,
        vec![
            "*.py (use Rust instead)",
            "*.yaml/*.yml (use Nickel)",
            "Makefile (use Justfile)"
        ]
    );
}

#[test]
fn name_and_path_are_recorded() {
    let r = audit_repo("/var/home/u/projects/echomesh", &listing(&[]));
    assert_eq!(r.name, "echomesh");
    assert_eq!(r.path, "/var/home/u/projects/echomesh");
}

#[test]
fn is_rhodium_needs_all_four() {
    let all = Badges { dependable: true, secure: true, interoperable: true, governed: true };
    assert!(all.is_rhodium());
    let one_short = Badges { dependable: true, secure: true, interoperable: true, governed: false };
    assert!(!one_short.is_rhodium());
}

#[test]
fn badge_glyph_string() {
    let all = Badges { dependable: true, secure: true, interoperable: true, governed: true };
    assert_eq!(all.to_string(), "🛡️ 🔒🔗📋 💎");
    let none = Badges {
        dependable: false,
        secure: false,
        interoperable: false,
        governed: false,
    };
    assert_eq!(none.to_string(), "");
    let some = Badges { dependable: true, secure: false, interoperable: false, governed: true };
    assert_eq!(some.to_string(), "🛡️ 📋");
}
