//! The ingestion of one upload request: choose the part, validate it, name
//! it, then provision, write, and persist, deleting the written file when the
//! record cannot be persisted.
use vstd::prelude::*;

use crate::asset::{NewAsset, StoredAsset};
use crate::error::IngestError;
use crate::media_type::{
    category_of, classify, extension_of_mime, is_image_type, is_video_type, same_text, Category,
};
use crate::naming::{
    date_dir_of, hex_of, name_for, random_token, storage_extension_of, CaptureInstant,
    StorageName,
};
use crate::provision::DirectoryError;

verus! {

/// One part of a multipart request, as the transport delivered it.
#[derive(Clone, Debug)]
pub struct UploadPart {
    pub name: Option<String>,
    pub file_name: Option<String>,
    pub content_type: Option<String>,
    pub bytes: Vec<u8>,
}

/// What an ingestion is set up with: where files go, whose they are, and
/// whether videos are accepted besides images.
#[derive(Clone, Debug)]
pub struct UploadConfig {
    pub upload_root: String,
    pub owner_id: i64,
    pub accept_video: bool,
}

pub open spec fn opt_view(o: Option<String>) -> Option<Seq<char>> {
    match o {
        Some(s) => Some(s@),
        None => None,
    }
}

/// Only the part named `file` is significant.
pub open spec fn is_upload_part(part: UploadPart) -> bool {
    opt_view(part.name) == Some("file"@)
}

/// Whether a part of this name is the one an upload is about.
pub fn is_upload_field(name: Option<&str>) -> (r: bool)
    ensures
        r == (name is Some && name->Some_0@ == "file"@),
{
    match name {
        Some(n) => same_text(n, "file"),
        None => false,
    }
}

pub open spec fn join(a: Seq<char>, b: Seq<char>) -> Seq<char> {
    a + seq!['/'] + b
}

/// Name for what `image::load_from_memory` reports of a payload: the width
/// and height of the decoded image, or `None` where the bytes do not decode.
pub uninterp spec fn decoded_dimensions(bytes: Seq<u8>) -> Option<(u32, u32)>;

/// Relies on image::load_from_memory: the whole payload is decoded in the
/// raster format that its leading bytes announce, and the outcome depends on
/// the bytes alone.
#[verifier::external_body]
fn decode_dimensions(bytes: &[u8]) -> (r: Option<(u32, u32)>)
    ensures
        r == decoded_dimensions(bytes@),
{
    match image::load_from_memory(bytes) {
        Ok(img) => Some((img.width(), img.height())),
        Err(_) => None,
    }
}

/// Why a chosen part is refused, given the decoded dimensions of its bytes;
/// `None` where it is accepted.
pub open spec fn rejection_of(
    file_name: Option<Seq<char>>,
    content_type: Option<Seq<char>>,
    dims: Option<(u32, u32)>,
    accept_video: bool,
) -> Option<IngestError> {
    match (file_name, content_type) {
        (Some(f), Some(ct)) => if category_of(ct) == Category::Unsupported || (category_of(ct)
            == Category::Video && !accept_video) {
            Some(IngestError::UnsupportedFileType)
        } else if category_of(ct) == Category::Image && dims.is_none() {
            Some(IngestError::UnsupportedFileType)
        } else if storage_extension_of(f, ct).is_none() {
            Some(IngestError::InvalidExtension)
        } else {
            None
        },
        _ => Some(IngestError::MissingField),
    }
}

/// A payload that decodes, declared with an accepted image type and carrying
/// a file name, is accepted whatever that name's extension, and its record
/// carries the decoded width and height.
pub proof fn lemma_decodable_image_accepted(
    file_name: Seq<char>,
    content_type: Seq<char>,
    dims: (u32, u32),
    accept_video: bool,
)
    requires
        is_image_type(content_type),
    ensures
        rejection_of(Some(file_name), Some(content_type), Some(dims), accept_video) == None::<
            IngestError,
        >,
        category_of(content_type) == Category::Image,
{
    assert(extension_of_mime(content_type).is_some());
}

/// A payload declared as `image/...` whose bytes do not decode is refused as
/// an unsupported file type, before anything is written.
pub proof fn lemma_undecodable_image_rejected(
    file_name: Seq<char>,
    content_type: Seq<char>,
    accept_video: bool,
)
    requires
        content_type.len() >= 6,
        content_type.subrange(0, 6) == "image/"@,
    ensures
        rejection_of(Some(file_name), Some(content_type), None, accept_video) == Some(
            IngestError::UnsupportedFileType,
        ),
{
    reveal_strlit("image/");
    reveal_strlit("video/mp4");
    reveal_strlit("video/ogg");
    reveal_strlit("video/webm");
    reveal_strlit("video/3gpp");
    reveal_strlit("video/3gpp2");
    reveal_strlit("video/avi");
    reveal_strlit("video/mpeg");
    reveal_strlit("video/quicktime");
    reveal_strlit("video/x-flv");
    reveal_strlit("video/x-matroska");
    reveal_strlit("video/x-ms-wmv");
    reveal_strlit("video/x-msvideo");
    assert(content_type[0] == 'i') by {
        assert(content_type.subrange(0, 6)[0] == content_type[0]);
    }
    assert(!is_video_type(content_type));
}

/// A validated and named upload, not yet written.
#[derive(Clone, Debug)]
pub struct PreparedUpload {
    pub name: StorageName,
    pub category: Category,
    /// The target directory, under the upload root.
    pub directory: String,
    /// The target file, in `directory`.
    pub file_path: String,
    /// The record to insert once the bytes are written.
    pub record: NewAsset,
}

/// `p` is what preparing `part` gives for the instant, token and decoded
/// dimensions, on a part that `rejection_of` accepts.
pub open spec fn prepared_from(
    p: PreparedUpload,
    part: UploadPart,
    config: UploadConfig,
    instant: CaptureInstant,
    token: Seq<u8>,
    dims: Option<(u32, u32)>,
) -> bool {
    let f = part.file_name.unwrap()@;
    let ct = part.content_type.unwrap()@;
    let image = category_of(ct) == Category::Image;
    &&& p.name.relative_dir@ == date_dir_of(instant)
    &&& p.name.file_stem@ == hex_of(token)
    &&& p.name.extension@ == storage_extension_of(f, ct).unwrap()
    &&& p.category == category_of(ct)
    &&& p.directory@ == join(config.upload_root@, date_dir_of(instant))
    &&& p.file_path@ == join(p.directory@, p.name.spec_file_name())
    &&& p.record.owner_id == config.owner_id
    &&& p.record.relative_path@ == p.name.spec_relative_path()
    &&& p.record.original_file_name@ == f
    &&& p.record.mime_type@ == ct
    &&& p.record.size_bytes == part.bytes@.len()
    &&& p.record.width_pixels == (if image { Some(dims.unwrap().0) } else { None::<u32> })
    &&& p.record.height_pixels == (if image { Some(dims.unwrap().1) } else { None::<u32> })
    &&& p.record.upload_timestamp == instant.millis
}

/// `a/b`
pub(crate) fn join_text(a: &str, b: &str) -> (r: String)
    ensures
        r@ == join(a@, b@),
{
    proof {
        reveal_strlit("/");
    }
    let mut s = a.to_owned();
    s.append("/");
    s.append(b);
    s
}

/// Validates and names a chosen part, with the dimensions its bytes decode
/// to supplied by the caller.
pub fn prepare_with_dimensions(
    part: &UploadPart,
    config: &UploadConfig,
    instant: &CaptureInstant,
    token: &[u8; 16],
    dims: Option<(u32, u32)>,
) -> (r: Result<PreparedUpload, IngestError>)
    ensures
        match rejection_of(
            opt_view(part.file_name),
            opt_view(part.content_type),
            dims,
            config.accept_video,
        ) {
            Some(e) => r == Err::<PreparedUpload, IngestError>(e),
            None => r.is_ok() && prepared_from(r.unwrap(), *part, *config, *instant, token@, dims),
        },
{
    let (file_name, content_type) = match (&part.file_name, &part.content_type) {
        (Some(f), Some(ct)) => (f, ct),
        _ => {
            return Err(IngestError::MissingField);
        },
    };
    let category = classify(content_type.as_str());
    let (width, height) = match category {
        Category::Unsupported => {
            return Err(IngestError::UnsupportedFileType);
        },
        Category::Image => match dims {
            Some((w, h)) => (Some(w), Some(h)),
            None => {
                return Err(IngestError::UnsupportedFileType);
            },
        },
        Category::Video => {
            if !config.accept_video {
                return Err(IngestError::UnsupportedFileType);
            }
            (None, None)
        },
    };
    let name = name_for(file_name.as_str(), content_type.as_str(), instant, token)?;
    let directory = join_text(config.upload_root.as_str(), name.relative_dir.as_str());
    let leaf = name.file_name();
    let file_path = join_text(directory.as_str(), leaf.as_str());
    let relative_path = name.relative_path();
    let record = NewAsset {
        owner_id: config.owner_id,
        relative_path,
        original_file_name: file_name.clone(),
        mime_type: content_type.clone(),
        size_bytes: part.bytes.len() as u64,
        width_pixels: width,
        height_pixels: height,
        upload_timestamp: instant.millis,
    };
    Ok(PreparedUpload { name, category, directory, file_path, record })
}

/// What the bytes of a part decode to; validation looks at it for declared
/// images only.
pub open spec fn dims_for(part: UploadPart) -> Option<(u32, u32)> {
    decoded_dimensions(part.bytes@)
}

/// Validates and names a chosen part; the bytes of a declared image are
/// decoded, and must decode.
pub fn prepare(part: &UploadPart, config: &UploadConfig, instant: &CaptureInstant, token: &[u8; 16]) -> (r:
    Result<PreparedUpload, IngestError>)
    ensures
        match rejection_of(
            opt_view(part.file_name),
            opt_view(part.content_type),
            dims_for(*part),
            config.accept_video,
        ) {
            Some(e) => r == Err::<PreparedUpload, IngestError>(e),
            None => r.is_ok() && prepared_from(
                r.unwrap(),
                *part,
                *config,
                *instant,
                token@,
                dims_for(*part),
            ),
        },
{
    let image = match &part.content_type {
        Some(ct) => part.file_name.is_some() && classify(ct.as_str()) == Category::Image,
        None => false,
    };
    if image {
        let dims = decode_dimensions(part.bytes.as_slice());
        prepare_with_dimensions(part, config, instant, token, dims)
    } else {
        prepare_with_dimensions(part, config, instant, token, None)
    }
}


/// Where an ingestion stands. `Committed`, `RolledBack` and `Rejected` are
/// terminal.
#[derive(Clone, Copy, Debug, PartialEq, Eq, Structural)]
pub enum Stage {
    AwaitingPart,
    Provisioning,
    Writing,
    Persisting,
    Committed,
    RolledBack,
    Rejected,
}

/// The order in which stages are passed; terminal stages come last. Every
/// transition but skipping a part moves strictly forward, and each action
/// that writes, inserts or deletes belongs to one transition, so a request
/// writes at most one file, inserts at most one record and deletes at most
/// one file.
pub open spec fn stage_order(s: Stage) -> int {
    match s {
        Stage::AwaitingPart => 0,
        Stage::Provisioning => 1,
        Stage::Writing => 2,
        Stage::Persisting => 3,
        _ => 4,
    }
}

/// What the driver of an ingestion is to do next.
#[derive(Clone, Debug)]
pub enum Action {
    /// Pull the next part of the request.
    NextPart,
    /// Make sure this directory exists, then report the outcome.
    EnsureDirectory(String),
    /// Write the chosen part's bytes to this new file, then report.
    WriteFile(String),
    /// Insert this record, then report the id or the database's message.
    InsertRecord(NewAsset),
    /// Done: respond with the asset; for a video, schedule a best-effort
    /// thumbnail of the stored file, whose failure changes nothing.
    Commit { asset: StoredAsset, thumbnail_source: Option<String> },
    /// Delete the written file, best effort, and respond with the error.
    RollBack { delete: String, error: IngestError },
    /// Respond with the error; nothing was written.
    Fail(IngestError),
}

/// One upload request's ingestion.
#[derive(Clone, Debug)]
pub struct Ingestion {
    pub config: UploadConfig,
    pub stage: Stage,
    /// The validated upload, from provisioning until persisting.
    pub prepared: Option<PreparedUpload>,
}

impl Ingestion {
    pub open spec fn wf(&self) -> bool {
        match self.stage {
            Stage::AwaitingPart => self.prepared.is_none(),
            Stage::Provisioning | Stage::Writing | Stage::Persisting => self.prepared.is_some(),
            _ => true,
        }
    }

    pub fn new(config: UploadConfig) -> (r: Ingestion)
        ensures
            r.wf(),
            r.config == config,
            r.stage == Stage::AwaitingPart,
    {
        Ingestion { config, stage: Stage::AwaitingPart, prepared: None }
    }

    /// Hands over the next part, with the capture instant and the random
    /// token that name it. Parts not named `file` are skipped; the first one
    /// named `file` is validated and settles the request.
    pub fn on_part(&mut self, part: &UploadPart, instant: &CaptureInstant, token: &[u8; 16]) -> (r:
        Action)
        requires
            old(self).wf(),
            old(self).stage == Stage::AwaitingPart,
        ensures
            final(self).wf(),
            final(self).config == old(self).config,
            is_upload_part(*part) ==> stage_order(final(self).stage) > stage_order(old(self).stage),
            !is_upload_part(*part) ==> r == Action::NextPart && *final(self) == *old(self),
            is_upload_part(*part) ==> match rejection_of(
                opt_view(part.file_name),
                opt_view(part.content_type),
                dims_for(*part),
                old(self).config.accept_video,
            ) {
                Some(e) => r == Action::Fail(e) && final(self).stage == Stage::Rejected,
                None => final(self).stage == Stage::Provisioning && prepared_from(
                    final(self).prepared.unwrap(),
                    *part,
                    old(self).config,
                    *instant,
                    token@,
                    dims_for(*part),
                ) && r == Action::EnsureDirectory(final(self).prepared.unwrap().directory),
            },
    {
        let wanted = match &part.name {
            Some(n) => is_upload_field(Some(n.as_str())),
            None => is_upload_field(None),
        };
        if !wanted {
            return Action::NextPart;
        }
        match prepare(part, &self.config, instant, token) {
            Ok(p) => {
                let dir = p.directory.clone();
                self.prepared = Some(p);
                self.stage = Stage::Provisioning;
                Action::EnsureDirectory(dir)
            },
            Err(e) => {
                self.stage = Stage::Rejected;
                Action::Fail(e)
            },
        }
    }

    /// `on_part` under a freshly drawn random token.
    pub fn accept_part(&mut self, part: &UploadPart, instant: &CaptureInstant) -> (r: Action)
        requires
            old(self).wf(),
            old(self).stage == Stage::AwaitingPart,
        ensures
            final(self).wf(),
            final(self).config == old(self).config,
            is_upload_part(*part) ==> stage_order(final(self).stage) > stage_order(old(self).stage),
            !is_upload_part(*part) ==> r == Action::NextPart && *final(self) == *old(self),
            is_upload_part(*part) ==> match rejection_of(
                opt_view(part.file_name),
                opt_view(part.content_type),
                dims_for(*part),
                old(self).config.accept_video,
            ) {
                Some(e) => r == Action::Fail(e) && final(self).stage == Stage::Rejected,
                None => final(self).stage == Stage::Provisioning && (exists|t: Seq<u8>|
                    t.len() == 16 && prepared_from(
                        #[trigger] final(self).prepared.unwrap(),
                        *part,
                        old(self).config,
                        *instant,
                        t,
                        dims_for(*part),
                    )) && r == Action::EnsureDirectory(final(self).prepared.unwrap().directory),
            },
    {
        let token = random_token();
        self.on_part(part, instant, &token)
    }

    /// The request ended; where no part named `file` came, that is final.
    pub fn on_end_of_parts(&mut self) -> (r: Action)
        requires
            old(self).wf(),
            old(self).stage == Stage::AwaitingPart,
        ensures
            final(self).wf(),
            final(self).stage == Stage::Rejected,
            stage_order(final(self).stage) > stage_order(old(self).stage),
            r == Action::Fail(IngestError::NoFileProvided),
    {
        self.stage = Stage::Rejected;
        Action::Fail(IngestError::NoFileProvided)
    }

    /// Reports whether the target directory is ready.
    pub fn on_directory(&mut self, outcome: Result<(), DirectoryError>) -> (r: Action)
        requires
            old(self).wf(),
            old(self).stage == Stage::Provisioning,
        ensures
            final(self).wf(),
            final(self).config == old(self).config,
            final(self).prepared == old(self).prepared,
            stage_order(final(self).stage) > stage_order(old(self).stage),
            match outcome {
                Ok(()) => final(self).stage == Stage::Writing && r == Action::WriteFile(
                    old(self).prepared.unwrap().file_path,
                ),
                Err(DirectoryError::Conflict) => final(self).stage == Stage::Rejected && r
                    == Action::Fail(IngestError::DirectoryConflict),
                Err(DirectoryError::CreateFailed) => final(self).stage == Stage::Rejected && r
                    == Action::Fail(IngestError::IoFailure),
            },
    {
        match outcome {
            Ok(()) => {
                let path = match &self.prepared {
                    Some(p) => p.file_path.clone(),
                    None => String::new(),
                };
                self.stage = Stage::Writing;
                Action::WriteFile(path)
            },
            Err(DirectoryError::Conflict) => {
                self.stage = Stage::Rejected;
                Action::Fail(IngestError::DirectoryConflict)
            },
            Err(DirectoryError::CreateFailed) => {
                self.stage = Stage::Rejected;
                Action::Fail(IngestError::IoFailure)
            },
        }
    }

    /// Reports whether the bytes were written. A failed write creates no
    /// record.
    pub fn on_written(&mut self, ok: bool) -> (r: Action)
        requires
            old(self).wf(),
            old(self).stage == Stage::Writing,
        ensures
            final(self).wf(),
            final(self).config == old(self).config,
            final(self).prepared == old(self).prepared,
            stage_order(final(self).stage) > stage_order(old(self).stage),
            ok ==> final(self).stage == Stage::Persisting && r == Action::InsertRecord(
                old(self).prepared.unwrap().record,
            ),
            !ok ==> final(self).stage == Stage::Rejected && r == Action::Fail(IngestError::IoFailure),
    {
        if ok {
            let record = match &self.prepared {
                Some(p) => p.record.duplicate(),
                None => NewAsset {
                    owner_id: 0,
                    relative_path: String::new(),
                    original_file_name: String::new(),
                    mime_type: String::new(),
                    size_bytes: 0,
                    width_pixels: None,
                    height_pixels: None,
                    upload_timestamp: 0,
                },
            };
            self.stage = Stage::Persisting;
            Action::InsertRecord(record)
        } else {
            self.stage = Stage::Rejected;
            Action::Fail(IngestError::IoFailure)
        }
    }

    /// Reports the insert. On success the asset is committed; on failure the
    /// file written for it is deleted and the database's error surfaces, so
    /// that neither a record nor a file is left of the attempt.
    pub fn on_inserted(&mut self, outcome: Result<i32, String>) -> (r: Action)
        requires
            old(self).wf(),
            old(self).stage == Stage::Persisting,
        ensures
            final(self).wf(),
            final(self).config == old(self).config,
            final(self).prepared.is_none(),
            stage_order(final(self).stage) > stage_order(old(self).stage),
            match outcome {
                Ok(id) => final(self).stage == Stage::Committed && r == (Action::Commit {
                    asset: old(self).prepared.unwrap().record.spec_stored(id),
                    thumbnail_source: if old(self).prepared.unwrap().category == Category::Video {
                        Some(old(self).prepared.unwrap().file_path)
                    } else {
                        None
                    },
                }),
                Err(msg) => final(self).stage == Stage::RolledBack && r == (Action::RollBack {
                    delete: old(self).prepared.unwrap().file_path,
                    error: IngestError::PersistenceFailure(msg),
                }),
            },
    {
        let p = self.prepared.take();
        match p {
            Some(p) => match outcome {
                Ok(id) => {
                    self.stage = Stage::Committed;
                    let thumbnail_source = if p.category == Category::Video {
                        Some(p.file_path)
                    } else {
                        None
                    };
                    Action::Commit { asset: p.record.into_stored(id), thumbnail_source }
                },
                Err(msg) => {
                    self.stage = Stage::RolledBack;
                    Action::RollBack { delete: p.file_path, error: IngestError::PersistenceFailure(msg) }
                },
            },
            None => {
                self.stage = Stage::Rejected;
                Action::Fail(IngestError::IoFailure)
            },
        }
    }
}

} // verus!
