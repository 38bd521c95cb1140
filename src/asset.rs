//! The persisted record of an ingested file.
use vstd::prelude::*;

verus! {

/// A record ready to be inserted: everything but the database-assigned id
/// and the post it may later be attached to.
#[derive(Clone, Debug, PartialEq, Eq)]
pub struct NewAsset {
    pub owner_id: i64,
    /// `YYYY/MM/DD/<stem>.<ext>`, unique: the lookup key for retrieval.
    pub relative_path: String,
    /// The client-supplied name, used for `Content-Disposition` only.
    pub original_file_name: String,
    pub mime_type: String,
    pub size_bytes: u64,
    /// Present for images only.
    pub width_pixels: Option<u32>,
    pub height_pixels: Option<u32>,
    /// Capture time, milliseconds since the epoch.
    pub upload_timestamp: i64,
}

/// A stored asset as the database holds it.
#[derive(Clone, Debug, PartialEq, Eq)]
pub struct StoredAsset {
    pub id: i32,
    pub owner_id: i64,
    pub relative_path: String,
    pub original_file_name: String,
    pub mime_type: String,
    pub size_bytes: u64,
    pub width_pixels: Option<u32>,
    pub height_pixels: Option<u32>,
    pub upload_timestamp: i64,
    /// The post the asset is attached to; once set it never changes.
    pub post_id: Option<i32>,
    /// The asset's place in its post's media list.
    pub sort_index: Option<u32>,
}

impl NewAsset {
    pub open spec fn spec_stored(self, id: i32) -> StoredAsset {
        StoredAsset {
            id,
            owner_id: self.owner_id,
            relative_path: self.relative_path,
            original_file_name: self.original_file_name,
            mime_type: self.mime_type,
            size_bytes: self.size_bytes,
            width_pixels: self.width_pixels,
            height_pixels: self.height_pixels,
            upload_timestamp: self.upload_timestamp,
            post_id: None,
            sort_index: None,
        }
    }

    /// A field-by-field copy.
    pub fn duplicate(&self) -> (r: NewAsset)
        ensures
            r == *self,
    {
        NewAsset {
            owner_id: self.owner_id,
            relative_path: self.relative_path.clone(),
            original_file_name: self.original_file_name.clone(),
            mime_type: self.mime_type.clone(),
            size_bytes: self.size_bytes,
            width_pixels: self.width_pixels,
            height_pixels: self.height_pixels,
            upload_timestamp: self.upload_timestamp,
        }
    }

    /// The record as stored under the id the database assigned, not yet
    /// attached to any post.
    pub fn into_stored(self, id: i32) -> (r: StoredAsset)
        ensures
            r == self.spec_stored(id),
    {
        StoredAsset {
            id,
            owner_id: self.owner_id,
            relative_path: self.relative_path,
            original_file_name: self.original_file_name,
            mime_type: self.mime_type,
            size_bytes: self.size_bytes,
            width_pixels: self.width_pixels,
            height_pixels: self.height_pixels,
            upload_timestamp: self.upload_timestamp,
            post_id: None,
            sort_index: None,
        }
    }
}

} // verus!
