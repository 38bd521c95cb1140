use std::io::Cursor;

use media_share::asset::StoredAsset;
use media_share::error::IngestError;
use media_share::ingest::{
    is_upload_field, prepare_with_dimensions, Action, Ingestion, Stage, UploadConfig, UploadPart,
};
use media_share::media_type::Category;
use media_share::naming::CaptureInstant;
use media_share::provision::DirectoryError;
use media_share::retrieval::resolve;

fn encoded(width: u32, height: u32, format: image::ImageFormat) -> Vec<u8> {
    let img = image::RgbImage::new(width, height);
    let mut out = Cursor::new(Vec::new());
    img.write_to(&mut out, format).unwrap();
    out.into_inner()
}

fn config() -> UploadConfig {
    UploadConfig { upload_root: "/srv/uploads".to_string(), owner_id: 42, accept_video: true }
}

fn march_fifth() -> CaptureInstant {
    CaptureInstant::from_parts(1709640000000, 2024, 3, 5).unwrap()
}

fn file_part(file_name: &str, content_type: &str, bytes: Vec<u8>) -> UploadPart {
    UploadPart {
        name: Some("file".to_string()),
        file_name: Some(file_name.to_string()),
        content_type: Some(content_type.to_string()),
        bytes,
    }
}

const TOKEN: [u8; 16] = [
    0x00, 0x11, 0x22, 0x33, 0x44, 0x55, 0x66, 0x77, 0x88, 0x99, 0xaa, 0xbb, 0xcc, 0xdd, 0xee, 0xff,
];

/// Runs an accepted part through provisioning and writing; returns the
/// written path and the record handed to the database.
fn drive_to_insert(ing: &mut Ingestion, part: &UploadPart) -> (String, media_share::asset::NewAsset) {
    match ing.on_part(part, &march_fifth(), &TOKEN) {
        Action::EnsureDirectory(dir) => assert_eq!(dir, "/srv/uploads/2024/03/05"),
        other => panic!("unexpected {:?}", other),
    }
    let path = match ing.on_directory(Ok(())) {
        Action::WriteFile(p) => p,
        other => panic!("unexpected {:?}", other),
    };
    let record = match ing.on_written(true) {
        Action::InsertRecord(r) => r,
        other => panic!("unexpected {:?}", other),
    };
    (path, record)
}

#[test]
fn png_upload_end_to_end() {
    let bytes = encoded(100, 50, image::ImageFormat::Png);
    let part = file_part("pic.png", "image/png", bytes.clone());
    let mut ing = Ingestion::new(config());
    let (path, record) = drive_to_insert(&mut ing, &part);
    assert_eq!(path, "/srv/uploads/2024/03/05/00112233445566778899aabbccddeeff.png");
    assert_eq!(record.width_pixels, Some(100));
    assert_eq!(record.height_pixels, Some(50));
    assert_eq!(record.original_file_name, "pic.png");
    assert_eq!(record.mime_type, "image/png");
    assert_eq!(record.size_bytes, bytes.len() as u64);
    assert_eq!(record.owner_id, 42);
    assert_eq!(record.upload_timestamp, 1709640000000);
    let shape = regex::Regex::new(r"^2024/03/05/[a-f0-9]{32}\.png$").unwrap();
    assert!(shape.is_match(&record.relative_path));
    let asset: StoredAsset = match ing.on_inserted(Ok(9)) {
        Action::Commit { asset, thumbnail_source } => {
            assert_eq!(thumbnail_source, None);
            asset
        }
        other => panic!("unexpected {:?}", other),
    };
    assert_eq!(ing.stage, Stage::Committed);
    assert_eq!(asset.id, 9);
    assert_eq!(asset.post_id, None);
    assert_eq!(asset.relative_path, record.relative_path);
    let served = resolve("/srv/uploads", &asset.relative_path, Some(&asset)).unwrap();
    assert_eq!(served.file_path, path);
    assert_eq!(served.content_type, "image/png");
    assert!(served.content_disposition.contains("pic.png"));
}

#[test]
fn jpeg_dimensions_whatever_the_file_name() {
    let bytes = encoded(30, 20, image::ImageFormat::Jpeg);
    for name in ["photo.jpeg", "photo", "photo.JPG", "archive.tar"] {
        let part = file_part(name, "image/jpeg", bytes.clone());
        let mut ing = Ingestion::new(config());
        let (_, record) = drive_to_insert(&mut ing, &part);
        assert_eq!(record.width_pixels, Some(30));
        assert_eq!(record.height_pixels, Some(20));
        let expected_ext = if name == "photo.jpeg" { ".jpeg" } else { ".jpg" };
        assert!(record.relative_path.ends_with(expected_ext), "{}", record.relative_path);
    }
}

#[test]
fn spoofed_image_is_rejected_before_writing() {
    let part = file_part("evil.png", "image/png", b"#!/bin/sh\necho not an image\n".to_vec());
    let mut ing = Ingestion::new(config());
    let action = ing.on_part(&part, &march_fifth(), &TOKEN);
    assert!(matches!(action, Action::Fail(IngestError::UnsupportedFileType)));
    assert_eq!(ing.stage, Stage::Rejected);
    assert!(ing.prepared.is_none());
}

#[test]
fn unknown_image_subtype_is_rejected() {
    let part = file_part("x.heic", "image/heic", encoded(4, 4, image::ImageFormat::Png));
    let mut ing = Ingestion::new(config());
    let action = ing.on_part(&part, &march_fifth(), &TOKEN);
    assert!(matches!(action, Action::Fail(IngestError::UnsupportedFileType)));
}

#[test]
fn failed_insert_deletes_the_written_file() {
    let part = file_part("pic.png", "image/png", encoded(8, 8, image::ImageFormat::Png));
    let mut ing = Ingestion::new(config());
    let (path, _) = drive_to_insert(&mut ing, &part);
    match ing.on_inserted(Err("Duplicate entry".to_string())) {
        Action::RollBack { delete, error } => {
            assert_eq!(delete, path);
            assert_eq!(error, IngestError::PersistenceFailure("Duplicate entry".to_string()));
        }
        other => panic!("unexpected {:?}", other),
    }
    assert_eq!(ing.stage, Stage::RolledBack);
    assert!(ing.prepared.is_none());
}

#[test]
fn parts_not_named_file_are_skipped() {
    let mut ing = Ingestion::new(config());
    let other = UploadPart {
        name: Some("caption".to_string()),
        file_name: None,
        content_type: None,
        bytes: b"hello".to_vec(),
    };
    assert!(matches!(ing.on_part(&other, &march_fifth(), &TOKEN), Action::NextPart));
    let unnamed = UploadPart { name: None, file_name: None, content_type: None, bytes: vec![] };
    assert!(matches!(ing.on_part(&unnamed, &march_fifth(), &TOKEN), Action::NextPart));
    assert_eq!(ing.stage, Stage::AwaitingPart);
    assert!(matches!(ing.on_end_of_parts(), Action::Fail(IngestError::NoFileProvided)));
    assert_eq!(ing.stage, Stage::Rejected);
}

#[test]
fn missing_file_name_or_type() {
    let mut no_name = file_part("a.png", "image/png", vec![1, 2, 3]);
    no_name.file_name = None;
    let mut ing = Ingestion::new(config());
    assert!(matches!(
        ing.on_part(&no_name, &march_fifth(), &TOKEN),
        Action::Fail(IngestError::MissingField)
    ));
    let mut no_type = file_part("a.png", "image/png", vec![1, 2, 3]);
    no_type.content_type = None;
    let mut ing = Ingestion::new(config());
    assert!(matches!(
        ing.on_part(&no_type, &march_fifth(), &TOKEN),
        Action::Fail(IngestError::MissingField)
    ));
}

#[test]
fn unsupported_type_is_rejected() {
    let part = file_part("notes.txt", "text/plain", b"hello".to_vec());
    let mut ing = Ingestion::new(config());
    assert!(matches!(
        ing.on_part(&part, &march_fifth(), &TOKEN),
        Action::Fail(IngestError::UnsupportedFileType)
    ));
}

#[test]
fn video_commit_schedules_thumbnail() {
    let part = file_part("clip.mp4", "video/mp4", vec![0u8; 64]);
    let mut ing = Ingestion::new(config());
    let (path, record) = drive_to_insert(&mut ing, &part);
    assert_eq!(record.width_pixels, None);
    assert_eq!(record.height_pixels, None);
    assert_eq!(record.mime_type, "video/mp4");
    match ing.on_inserted(Ok(3)) {
        Action::Commit { asset, thumbnail_source } => {
            assert_eq!(thumbnail_source, Some(path));
            assert_eq!(asset.id, 3);
        }
        other => panic!("unexpected {:?}", other),
    }
}

#[test]
fn directory_failures_stop_before_writing() {
    let part = file_part("clip.mp4", "video/mp4", vec![0u8; 8]);
    let mut ing = Ingestion::new(config());
    ing.on_part(&part, &march_fifth(), &TOKEN);
    assert!(matches!(
        ing.on_directory(Err(DirectoryError::Conflict)),
        Action::Fail(IngestError::DirectoryConflict)
    ));
    assert_eq!(ing.stage, Stage::Rejected);
    let mut ing = Ingestion::new(config());
    ing.on_part(&part, &march_fifth(), &TOKEN);
    assert!(matches!(
        ing.on_directory(Err(DirectoryError::CreateFailed)),
        Action::Fail(IngestError::IoFailure)
    ));
}

#[test]
fn failed_write_creates_no_record() {
    let part = file_part("clip.mp4", "video/mp4", vec![0u8; 8]);
    let mut ing = Ingestion::new(config());
    ing.on_part(&part, &march_fifth(), &TOKEN);
    ing.on_directory(Ok(()));
    assert!(matches!(ing.on_written(false), Action::Fail(IngestError::IoFailure)));
    assert_eq!(ing.stage, Stage::Rejected);
}

#[test]
fn identical_uploads_get_distinct_paths() {
    let bytes = encoded(10, 10, image::ImageFormat::Png);
    let part = file_part("same.png", "image/png", bytes);
    let mut first = Ingestion::new(config());
    let mut second = Ingestion::new(config());
    let a = first.accept_part(&part, &march_fifth());
    let b = second.accept_part(&part, &march_fifth());
    let (pa, pb) = match (a, b) {
        (Action::EnsureDirectory(_), Action::EnsureDirectory(_)) => (
            first.prepared.unwrap().record.relative_path,
            second.prepared.unwrap().record.relative_path,
        ),
        other => panic!("unexpected {:?}", other),
    };
    assert_ne!(pa, pb);
    assert!(pa.starts_with("2024/03/05/") && pa.ends_with(".png"));
}

#[test]
fn prepare_takes_supplied_dimensions() {
    let part = file_part("pic.gif", "image/gif", vec![]);
    let p = prepare_with_dimensions(&part, &config(), &march_fifth(), &TOKEN, Some((7, 9))).unwrap();
    assert_eq!(p.category, Category::Image);
    assert_eq!(p.record.width_pixels, Some(7));
    assert_eq!(p.record.height_pixels, Some(9));
    assert_eq!(p.name.extension, "gif");
    assert_eq!(p.directory, "/srv/uploads/2024/03/05");
    let refused = prepare_with_dimensions(&part, &config(), &march_fifth(), &TOKEN, None);
    assert!(matches!(refused, Err(IngestError::UnsupportedFileType)));
}

#[test]
fn error_kinds_are_stable() {
    assert_eq!(IngestError::NotFound.kind(), "not_found");
    assert_eq!(IngestError::PersistenceFailure("x".to_string()).kind(), "persistence_failure");
    assert_eq!(IngestError::NoFileProvided.kind(), "no_file_provided");
}

#[test]
fn image_endpoint_refuses_video() {
    let mut images_only = config();
    images_only.accept_video = false;
    let part = file_part("clip.mp4", "video/mp4", vec![0u8; 8]);
    let mut ing = Ingestion::new(images_only);
    assert!(matches!(
        ing.on_part(&part, &march_fifth(), &TOKEN),
        Action::Fail(IngestError::UnsupportedFileType)
    ));
}

#[test]
fn upload_field_name() {
    assert!(is_upload_field(Some("file")));
    assert!(!is_upload_field(Some("File")));
    assert!(!is_upload_field(Some("files")));
    assert!(!is_upload_field(None));
}
