use formulatrix_uploader::config::{Config, Logging, LoggingConfig, PlateTypes};
use formulatrix_uploader::inspection::{
    inspection_id_from_text, EFWorker, InspectionInfo, XmlError,
};

fn test_config() -> Config {
    Config {
        upload_dir: "/upload".to_string(),
        holding_dir: "/holding".to_string(),
        task: "EF".to_string(),
        web_user: "svc_account".to_string(),
        max_files: 100,
        max_files_in_batch: 0,
        thumb_width: 0,
        thumb_height: 0,
        types: PlateTypes::default(),
        logging: Logging {
            rotating_file: LoggingConfig {
                filename: "job.log".to_string(),
                max_bytes: 1024,
                no_files: 3,
                format: "plain".to_string(),
                level: "info".to_string(),
            },
        },
    }
}

fn worker_with(files: Vec<&str>) -> EFWorker {
    EFWorker::new(test_config(), files.into_iter().map(|s| s.to_string()).collect())
}

const GOOD_XML: &[u8] = b"<?xml version=\"1.0\"?>\
<Doc xmlns=\"http://ns.example/inspection\">\
<ImagingId>INSP-42-7</ImagingId>\
</Doc>";

#[test]
fn only_xml_with_a_matching_image_is_paired() {
    let worker = worker_with(vec!["a.jpg", "a.xml", "b.xml"]);
    let paired = worker.check_pairs_collect_xml();
    assert_eq!(paired, vec!["a.xml".to_string()]);
}

#[test]
fn pairing_matches_on_stems_across_directories() {
    let worker = worker_with(vec!["d/x.jpg", "d/x.xml", "d/y.xml", "d/z.jpg"]);
    let paired = worker.check_pairs_collect_xml();
    assert_eq!(paired, vec!["d/x.xml".to_string()]);
}

#[test]
fn no_files_no_pairs() {
    let worker = worker_with(vec![]);
    assert_eq!(worker.check_pairs_collect_xml().len(), 0);
}

#[test]
fn inspection_id_is_the_first_segment() {
    assert_eq!(inspection_id_from_text("INSP-42-7").unwrap(), "INSP".to_string());
    assert_eq!(inspection_id_from_text("PLAIN").unwrap(), "PLAIN".to_string());
}

#[test]
fn empty_first_segment_is_refused() {
    assert!(matches!(inspection_id_from_text("-42"), Err(XmlError::EmptyIdentifier)));
    assert!(matches!(inspection_id_from_text(""), Err(XmlError::EmptyIdentifier)));
}

#[test]
fn identifier_is_extracted_from_namespaced_xml() {
    let worker = worker_with(vec![]);
    let (id, nss, _root) = worker.get_inspection_id(&GOOD_XML.to_vec()).unwrap();
    assert_eq!(id, "INSP".to_string());
    assert_eq!(nss, "{http://ns.example/inspection}ImagingId".to_string());
}

#[test]
fn xml_without_namespace_is_refused() {
    let worker = worker_with(vec![]);
    let content = b"<Doc><ImagingId>INSP-1</ImagingId></Doc>".to_vec();
    assert!(matches!(worker.get_inspection_id(&content), Err(XmlError::NoNamespace)));
}

#[test]
fn xml_without_the_identifier_is_refused() {
    let worker = worker_with(vec![]);
    let content =
        b"<Doc xmlns=\"http://ns.example/inspection\"><Other>x</Other></Doc>".to_vec();
    assert!(matches!(worker.get_inspection_id(&content), Err(XmlError::MissingIdentifier)));
}

#[test]
fn unparsable_xml_is_refused() {
    let worker = worker_with(vec![]);
    let content = b"<Doc".to_vec();
    assert!(matches!(worker.get_inspection_id(&content), Err(XmlError::ParseFailed { .. })));
}

#[test]
fn one_bad_document_stops_no_sibling() {
    let worker = worker_with(vec![]);
    let contents = vec![
        ("a.xml".to_string(), GOOD_XML.to_vec()),
        ("b.xml".to_string(), b"broken".to_vec()),
    ];
    let results = worker.process_job(&contents);
    assert_eq!(results.len(), 2);
    let datum = results[0].as_ref().unwrap();
    assert_eq!(datum.xml, "a.xml".to_string());
    assert_eq!(datum.inspection_id, "INSP".to_string());
    assert!(datum.container.is_none());
    assert!(results[1].is_err());
}

#[test]
fn each_slot_reports_its_own_error_kind() {
    let worker = worker_with(vec![]);
    let contents = vec![
        ("a.xml".to_string(), GOOD_XML.to_vec()),
        ("b.xml".to_string(), b"<Doc><ImagingId>I-1</ImagingId></Doc>".to_vec()),
        (
            "c.xml".to_string(),
            b"<Doc xmlns=\"http://ns.example/inspection\"><Other>x</Other></Doc>".to_vec(),
        ),
        (
            "d.xml".to_string(),
            b"<Doc xmlns=\"http://ns.example/inspection\"><ImagingId>-1</ImagingId></Doc>"
                .to_vec(),
        ),
    ];
    let results = worker.process_job(&contents);
    assert_eq!(results.len(), 4);
    assert!(results[0].is_ok());
    assert!(matches!(results[1], Err(XmlError::NoNamespace)));
    assert!(matches!(results[2], Err(XmlError::MissingIdentifier)));
    assert!(matches!(results[3], Err(XmlError::EmptyIdentifier)));
}

#[test]
fn lookup_finds_the_first_matching_record() {
    let worker = worker_with(vec![]);
    let contents = vec![("a.xml".to_string(), GOOD_XML.to_vec())];
    let results = worker.process_job(&contents);
    let datum = results[0].as_ref().unwrap();
    let records = vec![
        (
            "OTHER".to_string(),
            InspectionInfo {
                container_type: None,
                container_id: None,
                session_id: None,
                visit: None,
                year: None,
            },
        ),
        (
            "INSP".to_string(),
            InspectionInfo {
                container_type: Some("TypeA".to_string()),
                container_id: Some(1),
                session_id: Some(2),
                visit: Some("ab1-1".to_string()),
                year: Some("2023".to_string()),
            },
        ),
    ];
    assert_eq!(worker.handle_ef(datum, &records), Some(1));
    let empty: Vec<(String, InspectionInfo)> = Vec::new();
    assert_eq!(worker.handle_ef(datum, &empty), None);
}
