use formulatrix_uploader::config::{Config, Logging, LoggingConfig, PlateTypes};
use formulatrix_uploader::relocation::{BarcodeInput, JobError, ZWorker};
use formulatrix_uploader::transfer::FileEntry;
use formulatrix_uploader::visit::VisitInfo;
use image::{Rgba, RgbaImage};
use std::io::Cursor;

fn test_config(upload_dir: &str) -> Config {
    Config {
        upload_dir: upload_dir.to_string(),
        holding_dir: "/holding".to_string(),
        task: "Z".to_string(),
        web_user: "svc_account".to_string(),
        max_files: 100,
        max_files_in_batch: 0,
        thumb_width: 0,
        thumb_height: 0,
        types: PlateTypes::default(),
        logging: Logging {
            rotating_file: LoggingConfig {
                filename: "job.log".to_string(),
                max_bytes: 1024,
                no_files: 3,
                format: "plain".to_string(),
                level: "info".to_string(),
            },
        },
    }
}

fn tiff_with_two_rows() -> Vec<u8> {
    let mut img = RgbaImage::new(1, 2);
    img.put_pixel(0, 0, Rgba([255, 0, 0, 255]));
    img.put_pixel(0, 1, Rgba([0, 255, 0, 255]));
    let mut cursor = Cursor::new(Vec::new());
    img.write_to(&mut cursor, image::ImageFormat::Tiff).unwrap();
    cursor.into_inner()
}

#[test]
fn missing_metadata_aborts_only_that_barcode() {
    let worker = ZWorker::new(test_config("/upload"), vec!["2024-01-01".to_string()]);
    let input = BarcodeInput {
        barcode: "BC9".to_string(),
        metadata: None,
        legacy_canon: None,
        current_canon: None,
        files: Vec::new(),
    };
    let r = worker.get_target_and_move(&input);
    match r {
        Err(JobError::MetadataNotFound { barcode }) => assert_eq!(barcode, "BC9".to_string()),
        _ => panic!("expected MetadataNotFound"),
    }
}

#[test]
fn missing_visit_field_aborts_only_that_barcode() {
    let worker = ZWorker::new(test_config("/upload"), Vec::new());
    let input = BarcodeInput {
        barcode: "BC9".to_string(),
        metadata: Some(VisitInfo { visit: None, year: Some("2023".to_string()) }),
        legacy_canon: None,
        current_canon: None,
        files: Vec::new(),
    };
    let r = worker.get_target_and_move(&input);
    assert!(matches!(r, Err(JobError::MissingVisit { .. })));
}

#[test]
fn unresolved_visit_directory_names_both_paths() {
    let worker = ZWorker::new(test_config("/upload"), Vec::new());
    let input = BarcodeInput {
        barcode: "BC1".to_string(),
        metadata: Some(
            VisitInfo { visit: Some("ab1-1".to_string()), year: Some("2023".to_string()) },
        ),
        legacy_canon: None,
        current_canon: None,
        files: Vec::new(),
    };
    let r = worker.get_target_and_move(&input);
    match r {
        Err(JobError::VisitDirectoryNotFound { tried_legacy, tried_current }) => {
            assert_eq!(tried_legacy, Some("/upload/2023/ab1-1".to_string()));
            assert_eq!(tried_current, "/upload/ab1/ab1-1".to_string());
        },
        _ => panic!("expected VisitDirectoryNotFound"),
    }
}

#[test]
fn two_files_reach_the_barcode_target() {
    let worker = ZWorker::new(test_config("/upload"), vec!["2024-01-01".to_string()]);
    let tiff = tiff_with_two_rows();
    let input = BarcodeInput {
        barcode: "BC1".to_string(),
        metadata: Some(
            VisitInfo { visit: Some("ab1-1".to_string()), year: Some("2023".to_string()) },
        ),
        legacy_canon: Some("/upload/2023/ab1-1".to_string()),
        current_canon: None,
        files: vec![
            FileEntry {
                path: "/holding/2024-01-01/BC1/data.txt".to_string(),
                content: b"hello".to_vec(),
            },
            FileEntry {
                path: "/holding/2024-01-01/BC1/img.tiff".to_string(),
                content: tiff,
            },
        ],
    };
    let plans = worker.get_target_and_move(&input).unwrap();
    assert_eq!(plans.len(), 2);
    assert_eq!(
        plans[0].outcome.destination_path,
        "/upload/2023/ab1-1/tmp/BC1/data.txt".to_string()
    );
    assert_eq!(plans[0].content, Some(b"hello".to_vec()));
    assert_eq!(
        plans[1].outcome.destination_path,
        "/upload/2023/ab1-1/tmp/BC1/img.tiff".to_string()
    );
    let flipped_bytes = plans[1].content.as_ref().expect("image transfer succeeded");
    let flipped = image::load_from_memory(flipped_bytes).unwrap().to_rgba8();
    assert_eq!(*flipped.get_pixel(0, 0), Rgba([0, 255, 0, 255]));
    assert_eq!(*flipped.get_pixel(0, 1), Rgba([255, 0, 0, 255]));
}

#[test]
fn a_failing_barcode_reaches_no_sibling() {
    let worker = ZWorker::new(test_config("/upload"), Vec::new());
    let failing = BarcodeInput {
        barcode: "BC1".to_string(),
        metadata: None,
        legacy_canon: None,
        current_canon: None,
        files: Vec::new(),
    };
    let succeeding = BarcodeInput {
        barcode: "BC2".to_string(),
        metadata: Some(VisitInfo { visit: Some("ab1-1".to_string()), year: None }),
        legacy_canon: None,
        current_canon: Some("/upload/ab1/ab1-1".to_string()),
        files: vec![
            FileEntry {
                path: "/holding/2024-01-01/BC2/notes.txt".to_string(),
                content: b"n".to_vec(),
            },
        ],
    };
    let results = worker.process_job(&vec![failing, succeeding]);
    assert_eq!(results.len(), 2);
    assert_eq!(results[0].barcode, "BC1".to_string());
    assert!(results[0].outcome.is_err());
    assert_eq!(results[1].barcode, "BC2".to_string());
    let plans = results[1].outcome.as_ref().unwrap();
    assert_eq!(plans.len(), 1);
    assert_eq!(
        plans[0].outcome.destination_path,
        "/upload/ab1/ab1-1/tmp/BC2/notes.txt".to_string()
    );
}
