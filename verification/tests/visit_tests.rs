use formulatrix_uploader::visit::{
    candidate_paths, proposal_of, select_visit_dir, ResolveError, VisitCandidates, VisitInfo,
};

#[test]
fn proposal_split_at_first_separator() {
    assert_eq!(proposal_of("ab12345-3"), "ab12345".to_string());
}

#[test]
fn proposal_without_separator_is_whole_visit() {
    assert_eq!(proposal_of("cm5000"), "cm5000".to_string());
}

#[test]
fn proposal_of_multi_separator_visit() {
    assert_eq!(proposal_of("ab-1-2"), "ab".to_string());
}

#[test]
fn candidates_with_year() {
    let info = VisitInfo {
        visit: Some("ab12345-3".to_string()),
        year: Some("2023".to_string()),
    };
    let c = candidate_paths(&info, "/upload").unwrap();
    assert_eq!(c.current, "/upload/ab12345/ab12345-3".to_string());
    assert_eq!(c.legacy, Some("/upload/2023/ab12345-3".to_string()));
}

#[test]
fn candidates_without_year_have_no_legacy() {
    let info = VisitInfo { visit: Some("ab1-1".to_string()), year: None };
    let c = candidate_paths(&info, "/upload").unwrap();
    assert_eq!(c.current, "/upload/ab1/ab1-1".to_string());
    assert_eq!(c.legacy, None);
}

#[test]
fn missing_visit_is_refused() {
    let info = VisitInfo { visit: None, year: Some("2023".to_string()) };
    let r = candidate_paths(&info, "/upload");
    assert!(matches!(r, Err(ResolveError::MissingVisit)));
}

#[test]
fn legacy_wins_when_both_resolve() {
    let cands = VisitCandidates {
        legacy: Some("/upload/2023/ab1-1".to_string()),
        current: "/upload/ab1/ab1-1".to_string(),
    };
    let r = select_visit_dir(
        cands,
        Some("/upload/2023/ab1-1".to_string()),
        Some("/upload/ab1/ab1-1".to_string()),
    );
    assert_eq!(r.unwrap(), "/upload/2023/ab1-1".to_string());
}

#[test]
fn current_is_taken_when_legacy_does_not_resolve() {
    let cands = VisitCandidates {
        legacy: Some("/upload/2023/ab1-1".to_string()),
        current: "/upload/ab1/ab1-1".to_string(),
    };
    let r = select_visit_dir(cands, None, Some("/upload/ab1/ab1-1".to_string()));
    assert_eq!(r.unwrap(), "/upload/ab1/ab1-1".to_string());
}

#[test]
fn failure_names_both_attempted_paths() {
    let cands = VisitCandidates {
        legacy: Some("/upload/2023/ab1-1".to_string()),
        current: "/upload/ab1/ab1-1".to_string(),
    };
    let r = select_visit_dir(cands, None, None);
    match r {
        Err(ResolveError::VisitDirectoryNotFound { tried_legacy, tried_current }) => {
            assert_eq!(tried_legacy, Some("/upload/2023/ab1-1".to_string()));
            assert_eq!(tried_current, "/upload/ab1/ab1-1".to_string());
        },
        _ => panic!("expected VisitDirectoryNotFound"),
    }
}
