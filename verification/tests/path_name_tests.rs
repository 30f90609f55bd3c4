use batch_auditor::path_name::repo_name;

#[test]
fn repo_name_takes_last_segment() {
    assert_eq!(repo_name("/var/home/u/projects/gitloom"), "gitloom");
    assert_eq!(repo_name("relative/path/repo"), "repo");
    assert_eq!(repo_name("single"), "single");
}

#[test]
fn repo_name_ignores_trailing_separators() {
    assert_eq!(repo_name("/a/b/"), "b");
    assert_eq!(repo_name("/a/b///"), "b");
}

#[test]
fn repo_name_empty_when_nothing_remains() {
    assert_eq!(repo_name("/"), "");
    assert_eq!(repo_name(""), "");
    assert_eq!(repo_name("///"), "");
}
