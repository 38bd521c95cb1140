use media_share::asset::StoredAsset;
use media_share::error::IngestError;
use media_share::retrieval::{content_disposition, request_path, resolve};
use media_share::thumbnail::{thumbnail_path, thumbnail_source, ThumbnailSource};

fn asset(path: &str, name: &str, mime: &str) -> StoredAsset {
    StoredAsset {
        id: 1,
        owner_id: 2,
        relative_path: path.to_string(),
        original_file_name: name.to_string(),
        mime_type: mime.to_string(),
        size_bytes: 10,
        width_pixels: None,
        height_pixels: None,
        upload_timestamp: 0,
        post_id: None,
        sort_index: None,
    }
}

#[test]
fn unknown_path_is_not_found() {
    assert_eq!(resolve("/srv", "2024/01/01/x.png", None), Err(IngestError::NotFound));
}

#[test]
fn record_for_another_path_is_not_served() {
    let a = asset("2024/01/01/y.png", "y.png", "image/png");
    assert_eq!(resolve("/srv", "2024/01/01/x.png", Some(&a)), Err(IngestError::NotFound));
}

#[test]
fn resolution_uses_the_record() {
    let a = asset("2024/01/01/x.bin", "holiday.png", "image/png");
    let r = resolve("/srv", "2024/01/01/x.bin", Some(&a)).unwrap();
    assert_eq!(r.file_path, "/srv/2024/01/01/x.bin");
    assert_eq!(r.content_type, "image/png");
    assert_eq!(r.content_disposition, "inline; filename=\"holiday.png\"");
}

#[test]
fn disposition_quotes_any_name() {
    assert_eq!(content_disposition("a\"b\\c.png"), "inline; filename=\"a\\\"b\\\\c.png\"");
    assert_eq!(content_disposition("新年.jpg"), "inline; filename=\"__.jpg\"");
    assert_eq!(content_disposition("x\ny"), "inline; filename=\"x_y\"");
    assert_eq!(content_disposition(""), "inline; filename=\"\"");
}

#[test]
fn request_path_joins_segments() {
    assert_eq!(request_path("2024", "03", "05", "a.png"), "2024/03/05/a.png");
}

#[test]
fn thumbnails() {
    assert_eq!(thumbnail_path("/srv/a.mp4"), "/srv/a.mp4.thumbnail.jpg");
    let img = asset("2024/01/01/a.png", "a.png", "image/png");
    assert_eq!(thumbnail_source("/srv", &img), Ok(ThumbnailSource::Proxy("2024/01/01/a.png".to_string())));
    let vid = asset("2024/01/01/b.mp4", "b.mp4", "video/mp4");
    assert_eq!(
        thumbnail_source("/srv", &vid),
        Ok(ThumbnailSource::File("/srv/2024/01/01/b.mp4.thumbnail.jpg".to_string()))
    );
    let doc = asset("2024/01/01/c.txt", "c.txt", "text/plain");
    assert_eq!(thumbnail_source("/srv", &doc), Err(IngestError::UnsupportedFileType));
}
