use media_share::media_type::{
    classify, content_type_for_extension, extension_for_content_type, file_extension,
    get_content_type, is_image, is_media, is_video, Category,
};

#[test]
fn image_allowlist() {
    for ct in [
        "image/jpeg", "image/png", "image/gif", "image/bmp", "image/webp", "image/tiff",
        "image/x-icon", "image/svg+xml",
    ] {
        assert!(is_image(ct), "{}", ct);
        assert!(!is_video(ct), "{}", ct);
        assert_eq!(classify(ct), Category::Image);
    }
    assert!(!is_image("image/heic"));
    assert!(!is_image("IMAGE/PNG"));
    assert!(!is_image(""));
}

#[test]
fn video_allowlist() {
    for ct in [
        "video/mp4", "video/ogg", "video/webm", "video/3gpp", "video/3gpp2", "video/avi",
        "video/mpeg", "video/quicktime", "video/x-flv", "video/x-matroska", "video/x-ms-wmv",
        "video/x-msvideo",
    ] {
        assert!(is_video(ct), "{}", ct);
        assert!(is_media(ct), "{}", ct);
        assert_eq!(classify(ct), Category::Video);
    }
    assert!(!is_video("video/mp5"));
}

#[test]
fn unsupported_types() {
    assert!(!is_media("text/plain"));
    assert!(!is_media("application/octet-stream"));
    assert_eq!(classify("audio/mpeg"), Category::Unsupported);
    assert!(is_media("image/gif"));
}

#[test]
fn extension_rule() {
    assert_eq!(file_extension("pic.png").as_deref(), Some("png"));
    assert_eq!(file_extension("archive.tar.gz").as_deref(), Some("gz"));
    assert_eq!(file_extension("dir.d/file").as_deref(), None);
    assert_eq!(file_extension("a/b/c.JPG").as_deref(), Some("JPG"));
    assert_eq!(file_extension(".bashrc").as_deref(), None);
    assert_eq!(file_extension("noext").as_deref(), None);
    assert_eq!(file_extension("trailing.").as_deref(), Some(""));
    assert_eq!(file_extension("").as_deref(), None);
}

#[test]
fn content_type_by_extension() {
    assert_eq!(content_type_for_extension("jpg").as_deref(), Some("image/jpeg"));
    assert_eq!(content_type_for_extension("jpeg").as_deref(), Some("image/jpeg"));
    assert_eq!(content_type_for_extension("ico").as_deref(), Some("image/x-icon"));
    assert_eq!(content_type_for_extension("avi").as_deref(), Some("video/avi"));
    assert_eq!(content_type_for_extension("mov").as_deref(), Some("video/quicktime"));
    assert_eq!(content_type_for_extension("exe"), None);
    assert_eq!(get_content_type("2024/03/05/abc.png").as_deref(), Some("image/png"));
    assert_eq!(get_content_type("clip.mkv").as_deref(), Some("video/x-matroska"));
    assert_eq!(get_content_type("noext"), None);
    assert_eq!(get_content_type("x.PNG"), None);
}

#[test]
fn extension_by_content_type() {
    assert_eq!(extension_for_content_type("image/jpeg").as_deref(), Some("jpg"));
    assert_eq!(extension_for_content_type("image/svg+xml").as_deref(), Some("svg"));
    assert_eq!(extension_for_content_type("video/x-msvideo").as_deref(), Some("avi"));
    assert_eq!(extension_for_content_type("video/3gpp2").as_deref(), Some("3g2"));
    assert_eq!(extension_for_content_type("text/html"), None);
}
