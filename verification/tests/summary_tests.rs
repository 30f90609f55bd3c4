use batch_auditor::summary::summarize;

#[test]
fn buckets_are_counted() {
    let scores: Vec<u8> = vec![100, 75, 50, 25, 0, 100, 70, 69];
    let s = summarize(&scores);
    assert_eq!(s.perfect, 2);
    assert_eq!(s.good, 2);
    assert_eq!(s.needs_work, 2);
    assert_eq!(s.critical, 2);
}

#[test]
fn average_truncates() {
    let scores: Vec<u8> = vec![25, 50];
    let s = summarize(&scores);
    assert_eq!(s.average, Some(37));
}

#[test]
fn average_of_single_score() {
    let s = summarize(&vec![100u8]);
    assert_eq!(s.average, Some(100));
    assert_eq!(s.perfect, 1);
}

#[test]
fn no_scores_no_average() {
    // Nothing audited: no buckets filled and no mean to report.
    let s = summarize(&Vec::new());
    assert_eq!(s.average, None);
    assert_eq!(s.perfect, 0);
    assert_eq!(s.good, 0);
    assert_eq!(s.needs_work, 0);
    assert_eq!(s.critical, 0);
}
