//! Classification of declared MIME types and file extensions.
use vstd::prelude::*;

verus! {

/// The coarse judgement that drives validation: images are decoded, videos
/// are trusted, everything else is refused before any byte is written.
#[derive(Clone, Copy, Debug, PartialEq, Eq, Structural)]
pub enum Category {
    Image,
    Video,
    Unsupported,
}

/// The MIME types accepted as images.
pub open spec fn is_image_type(ct: Seq<char>) -> bool {
    ||| ct == "image/jpeg"@
    ||| ct == "image/png"@
    ||| ct == "image/gif"@
    ||| ct == "image/bmp"@
    ||| ct == "image/webp"@
    ||| ct == "image/tiff"@
    ||| ct == "image/x-icon"@
    ||| ct == "image/svg+xml"@
}

/// The MIME types accepted as videos.
pub open spec fn is_video_type(ct: Seq<char>) -> bool {
    ||| ct == "video/mp4"@
    ||| ct == "video/ogg"@
    ||| ct == "video/webm"@
    ||| ct == "video/3gpp"@
    ||| ct == "video/3gpp2"@
    ||| ct == "video/avi"@
    ||| ct == "video/mpeg"@
    ||| ct == "video/quicktime"@
    ||| ct == "video/x-flv"@
    ||| ct == "video/x-matroska"@
    ||| ct == "video/x-ms-wmv"@
    ||| ct == "video/x-msvideo"@
}

pub open spec fn category_of(ct: Seq<char>) -> Category {
    if is_image_type(ct) {
        Category::Image
    } else if is_video_type(ct) {
        Category::Video
    } else {
        Category::Unsupported
    }
}

/// Exact textual equality of two strings.
pub fn same_text(a: &str, b: &str) -> (r: bool)
    ensures
        r == (a@ == b@),
{
    a.to_owned() == b.to_owned()
}

pub fn is_image(content_type: &str) -> (r: bool)
    ensures
        r == is_image_type(content_type@),
{
    same_text(content_type, "image/jpeg") || same_text(content_type, "image/png")
        || same_text(content_type, "image/gif") || same_text(content_type, "image/bmp")
        || same_text(content_type, "image/webp") || same_text(content_type, "image/tiff")
        || same_text(content_type, "image/x-icon") || same_text(content_type, "image/svg+xml")
}


pub fn is_video(content_type: &str) -> (r: bool)
    ensures
        r == is_video_type(content_type@),
{
    same_text(content_type, "video/mp4") || same_text(content_type, "video/ogg")
        || same_text(content_type, "video/webm") || same_text(content_type, "video/3gpp")
        || same_text(content_type, "video/3gpp2") || same_text(content_type, "video/avi")
        || same_text(content_type, "video/mpeg") || same_text(content_type, "video/quicktime")
        || same_text(content_type, "video/x-flv") || same_text(content_type, "video/x-matroska")
        || same_text(content_type, "video/x-ms-wmv") || same_text(content_type, "video/x-msvideo")
}

/// Whether the declared type is accepted at all, as an image or as a video.
pub fn is_media(content_type: &str) -> (r: bool)
    ensures
        r == (is_image_type(content_type@) || is_video_type(content_type@)),
{
    is_image(content_type) || is_video(content_type)
}

pub fn classify(content_type: &str) -> (r: Category)
    ensures
        r == category_of(content_type@),
{
    if is_image(content_type) {
        Category::Image
    } else if is_video(content_type) {
        Category::Video
    } else {
        Category::Unsupported
    }
}

/// The canonical content type served for a file extension.
pub open spec fn mime_of_extension(ext: Seq<char>) -> Option<Seq<char>> {
    if ext == "jpg"@ || ext == "jpeg"@ {
        Some("image/jpeg"@)
    } else if ext == "png"@ {
        Some("image/png"@)
    } else if ext == "gif"@ {
        Some("image/gif"@)
    } else if ext == "bmp"@ {
        Some("image/bmp"@)
    } else if ext == "webp"@ {
        Some("image/webp"@)
    } else if ext == "tiff"@ {
        Some("image/tiff"@)
    } else if ext == "ico"@ {
        Some("image/x-icon"@)
    } else if ext == "svg"@ {
        Some("image/svg+xml"@)
    } else if ext == "mp4"@ {
        Some("video/mp4"@)
    } else if ext == "ogg"@ {
        Some("video/ogg"@)
    } else if ext == "webm"@ {
        Some("video/webm"@)
    } else if ext == "3gp"@ {
        Some("video/3gpp"@)
    } else if ext == "3g2"@ {
        Some("video/3gpp2"@)
    } else if ext == "avi"@ {
        Some("video/avi"@)
    } else if ext == "mpeg"@ {
        Some("video/mpeg"@)
    } else if ext == "mov"@ {
        Some("video/quicktime"@)
    } else if ext == "flv"@ {
        Some("video/x-flv"@)
    } else if ext == "mkv"@ {
        Some("video/x-matroska"@)
    } else if ext == "wmv"@ {
        Some("video/x-ms-wmv"@)
    } else {
        None
    }
}

/// The storage extension used for a declared content type when the client's
/// file name offers none that is known.
pub open spec fn extension_of_mime(ct: Seq<char>) -> Option<Seq<char>> {
    if ct == "image/jpeg"@ {
        Some("jpg"@)
    } else if ct == "image/png"@ {
        Some("png"@)
    } else if ct == "image/gif"@ {
        Some("gif"@)
    } else if ct == "image/bmp"@ {
        Some("bmp"@)
    } else if ct == "image/webp"@ {
        Some("webp"@)
    } else if ct == "image/tiff"@ {
        Some("tiff"@)
    } else if ct == "image/x-icon"@ {
        Some("ico"@)
    } else if ct == "image/svg+xml"@ {
        Some("svg"@)
    } else if ct == "video/mp4"@ {
        Some("mp4"@)
    } else if ct == "video/ogg"@ {
        Some("ogg"@)
    } else if ct == "video/webm"@ {
        Some("webm"@)
    } else if ct == "video/3gpp"@ {
        Some("3gp"@)
    } else if ct == "video/3gpp2"@ {
        Some("3g2"@)
    } else if ct == "video/avi"@ || ct == "video/x-msvideo"@ {
        Some("avi"@)
    } else if ct == "video/mpeg"@ {
        Some("mpeg"@)
    } else if ct == "video/quicktime"@ {
        Some("mov"@)
    } else if ct == "video/x-flv"@ {
        Some("flv"@)
    } else if ct == "video/x-matroska"@ {
        Some("mkv"@)
    } else if ct == "video/x-ms-wmv"@ {
        Some("wmv"@)
    } else {
        None
    }
}

pub open spec fn view_opt(o: Option<String>) -> Option<Seq<char>> {
    match o {
        Some(s) => Some(s@),
        None => None,
    }
}

fn some_text(s: &str) -> (r: Option<String>)
    ensures
        view_opt(r) == Some(s@),
{
    Some(s.to_owned())
}

/// Looks up the canonical content type of a file extension.
pub fn content_type_for_extension(ext: &str) -> (r: Option<String>)
    ensures
        view_opt(r) == mime_of_extension(ext@),
{
    if same_text(ext, "jpg") || same_text(ext, "jpeg") {
        some_text("image/jpeg")
    } else if same_text(ext, "png") {
        some_text("image/png")
    } else if same_text(ext, "gif") {
        some_text("image/gif")
    } else if same_text(ext, "bmp") {
        some_text("image/bmp")
    } else if same_text(ext, "webp") {
        some_text("image/webp")
    } else if same_text(ext, "tiff") {
        some_text("image/tiff")
    } else if same_text(ext, "ico") {
        some_text("image/x-icon")
    } else if same_text(ext, "svg") {
        some_text("image/svg+xml")
    } else if same_text(ext, "mp4") {
        some_text("video/mp4")
    } else if same_text(ext, "ogg") {
        some_text("video/ogg")
    } else if same_text(ext, "webm") {
        some_text("video/webm")
    } else if same_text(ext, "3gp") {
        some_text("video/3gpp")
    } else if same_text(ext, "3g2") {
        some_text("video/3gpp2")
    } else if same_text(ext, "avi") {
        some_text("video/avi")
    } else if same_text(ext, "mpeg") {
        some_text("video/mpeg")
    } else if same_text(ext, "mov") {
        some_text("video/quicktime")
    } else if same_text(ext, "flv") {
        some_text("video/x-flv")
    } else if same_text(ext, "mkv") {
        some_text("video/x-matroska")
    } else if same_text(ext, "wmv") {
        some_text("video/x-ms-wmv")
    } else {
        None
    }
}

/// Looks up the storage extension of a declared content type.
pub fn extension_for_content_type(content_type: &str) -> (r: Option<String>)
    ensures
        view_opt(r) == extension_of_mime(content_type@),
{
    let ct = content_type;
    if same_text(ct, "image/jpeg") {
        some_text("jpg")
    } else if same_text(ct, "image/png") {
        some_text("png")
    } else if same_text(ct, "image/gif") {
        some_text("gif")
    } else if same_text(ct, "image/bmp") {
        some_text("bmp")
    } else if same_text(ct, "image/webp") {
        some_text("webp")
    } else if same_text(ct, "image/tiff") {
        some_text("tiff")
    } else if same_text(ct, "image/x-icon") {
        some_text("ico")
    } else if same_text(ct, "image/svg+xml") {
        some_text("svg")
    } else if same_text(ct, "video/mp4") {
        some_text("mp4")
    } else if same_text(ct, "video/ogg") {
        some_text("ogg")
    } else if same_text(ct, "video/webm") {
        some_text("webm")
    } else if same_text(ct, "video/3gpp") {
        some_text("3gp")
    } else if same_text(ct, "video/3gpp2") {
        some_text("3g2")
    } else if same_text(ct, "video/avi") || same_text(ct, "video/x-msvideo") {
        some_text("avi")
    } else if same_text(ct, "video/mpeg") {
        some_text("mpeg")
    } else if same_text(ct, "video/quicktime") {
        some_text("mov")
    } else if same_text(ct, "video/x-flv") {
        some_text("flv")
    } else if same_text(ct, "video/x-matroska") {
        some_text("mkv")
    } else if same_text(ct, "video/x-ms-wmv") {
        some_text("wmv")
    } else {
        None
    }
}

/// Index of the last occurrence of `c` in `s`, or -1.
pub open spec fn last_index_of(s: Seq<char>, c: char) -> int
    decreases s.len(),
{
    if s.len() == 0 {
        -1
    } else if s.last() == c {
        s.len() - 1
    } else {
        last_index_of(s.drop_last(), c)
    }
}

/// The final `/`-separated component of a path.
pub open spec fn final_component(path: Seq<char>) -> Seq<char> {
    path.subrange(last_index_of(path, '/') + 1, path.len() as int)
}

/// The extension of a path: what follows the last `.` of its final
/// component, unless that `.` opens the component (a hidden file).
pub open spec fn extension_of(path: Seq<char>) -> Option<Seq<char>> {
    let name = final_component(path);
    let dot = last_index_of(name, '.');
    if dot <= 0 {
        None
    } else {
        Some(name.subrange(dot + 1, name.len() as int))
    }
}

proof fn lemma_last_index_bounds(s: Seq<char>, c: char)
    ensures
        -1 <= last_index_of(s, c) < s.len(),
        last_index_of(s, c) >= 0 ==> s[last_index_of(s, c)] == c,
    decreases s.len(),
{
    if s.len() > 0 && s.last() != c {
        lemma_last_index_bounds(s.drop_last(), c);
    }
}

/// Finds the last occurrence of `c` in `s`.
fn find_last(s: &str, c: char) -> (r: Option<usize>)
    ensures
        match r {
            Some(i) => i as int == last_index_of(s@, c),
            None => last_index_of(s@, c) == -1,
        },
{
    let n = s.unicode_len();
    let mut i: usize = n;
    assert(s@.subrange(0, n as int) =~= s@);
    while i > 0
        invariant
            i <= n == s@.len(),
            last_index_of(s@, c) == last_index_of(s@.subrange(0, i as int), c),
        decreases i,
    {
        let ch = s.get_char(i - 1);
        if ch == c {
            return Some(i - 1);
        }
        assert(s@.subrange(0, i as int).drop_last() =~= s@.subrange(0, i - 1));
        i = i - 1;
    }
    None
}

/// The extension of a file name, by the rule of `extension_of`.
pub fn file_extension(path: &str) -> (r: Option<String>)
    ensures
        view_opt(r) == extension_of(path@),
{
    proof {
        lemma_last_index_bounds(path@, '/');
    }
    let n = path.unicode_len();
    let start: usize = match find_last(path, '/') {
        Some(i) => i + 1,
        None => 0,
    };
    let name = path.substring_char(start, n);
    assert(name@ =~= final_component(path@));
    proof {
        lemma_last_index_bounds(name@, '.');
    }
    match find_last(name, '.') {
        Some(dot) => {
            if dot == 0 {
                None
            } else {
                let m = name.unicode_len();
                Some(name.substring_char(dot + 1, m).to_owned())
            }
        },
        None => None,
    }
}

/// The content type of a stored file, judged by the extension of its name.
pub fn get_content_type(file_path: &str) -> (r: Option<String>)
    ensures
        view_opt(r) == match extension_of(file_path@) {
            Some(ext) => mime_of_extension(ext),
            None => None,
        },
{
    match file_extension(file_path) {
        Some(ext) => content_type_for_extension(ext.as_str()),
        None => None,
    }
}

} // verus!
