use formulatrix_uploader::discovery::discover_containers;

#[test]
fn barcode_maps_to_its_date_directory() {
    let paths = vec![
        "holding/2024-01-01/BC1".to_string(),
        "holding/2024-01-02/BC2".to_string(),
    ];
    let entries = discover_containers(&paths);
    assert_eq!(entries.len(), 2);
    assert_eq!(entries[0].barcode, "BC1".to_string());
    assert_eq!(entries[0].source_subdir, "2024-01-01".to_string());
    assert_eq!(entries[1].barcode, "BC2".to_string());
    assert_eq!(entries[1].source_subdir, "2024-01-02".to_string());
}

#[test]
fn duplicate_barcode_takes_the_last_seen_date() {
    let paths = vec![
        "holding/2024-01-01/BC1".to_string(),
        "holding/2024-01-02/BC1".to_string(),
    ];
    let entries = discover_containers(&paths);
    assert_eq!(entries.len(), 1);
    assert_eq!(entries[0].barcode, "BC1".to_string());
    assert_eq!(entries[0].source_subdir, "2024-01-02".to_string());
}

#[test]
fn trailing_slashes_from_globbing_are_handled() {
    let paths = vec!["holding/2024-01-01/BC1/".to_string()];
    let entries = discover_containers(&paths);
    assert_eq!(entries.len(), 1);
    assert_eq!(entries[0].barcode, "BC1".to_string());
    assert_eq!(entries[0].source_subdir, "2024-01-01".to_string());
}

#[test]
fn unreadable_entries_are_skipped_not_fatal() {
    let paths = vec!["".to_string(), "lonely".to_string()];
    let entries = discover_containers(&paths);
    assert_eq!(entries.len(), 0);
}

#[test]
fn empty_input_gives_an_empty_mapping() {
    let entries = discover_containers(&Vec::new());
    assert_eq!(entries.len(), 0);
}
