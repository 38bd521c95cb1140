//! Thumbnails: where a video's extracted frame is kept, and which source
//! serves the thumbnail of a stored asset.
use vstd::prelude::*;

use crate::asset::StoredAsset;
use crate::error::IngestError;
use crate::ingest::{join, join_text};
use crate::media_type::{is_image, is_image_type, is_video, is_video_type};

verus! {

pub open spec fn thumbnail_path_of(file_path: Seq<char>) -> Seq<char> {
    file_path + ".thumbnail.jpg"@
}

/// Where the frame extracted from a stored video is written: beside it.
pub fn thumbnail_path(file_path: &str) -> (r: String)
    ensures
        r@ == thumbnail_path_of(file_path@),
{
    let mut s = file_path.to_owned();
    s.append(".thumbnail.jpg");
    s
}

/// Where the thumbnail of a stored asset comes from.
#[derive(Clone, Debug, PartialEq, Eq)]
pub enum ThumbnailSource {
    /// Ask the resizing proxy for a scaled copy of the image at this
    /// relative path.
    Proxy(String),
    /// Serve this file, a frame extracted from the video, as JPEG.
    File(String),
}

/// Images are scaled by the proxy; videos are served their extracted frame;
/// nothing else has a thumbnail.
pub fn thumbnail_source(upload_root: &str, asset: &StoredAsset) -> (r: Result<ThumbnailSource, IngestError>)
    ensures
        is_image_type(asset.mime_type@) ==> r is Ok && r->Ok_0 is Proxy && r->Ok_0->Proxy_0@ == asset.relative_path@,
        !is_image_type(asset.mime_type@) && is_video_type(asset.mime_type@) ==> r is Ok && r->Ok_0 is File
            && r->Ok_0->File_0@ == thumbnail_path_of(join(upload_root@, asset.relative_path@)),
        !is_image_type(asset.mime_type@) && !is_video_type(asset.mime_type@) ==> r == Err::<ThumbnailSource, IngestError>(IngestError::UnsupportedFileType),
{
    if is_image(asset.mime_type.as_str()) {
        Ok(ThumbnailSource::Proxy(asset.relative_path.clone()))
    } else if is_video(asset.mime_type.as_str()) {
        let stored = join_text(upload_root, asset.relative_path.as_str());
        Ok(ThumbnailSource::File(thumbnail_path(stored.as_str())))
    } else {
        Err(IngestError::UnsupportedFileType)
    }
}

} // verus!
