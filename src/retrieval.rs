//! Resolution of a logical path to a stored file and the headers it is
//! served with. The database is consulted first: a path that no record
//! answers is never looked up on disk.
use vstd::prelude::*;

use crate::asset::StoredAsset;
use crate::error::IngestError;
use crate::ingest::{join, join_text};

verus! {

/// `<year>/<month>/<day>/<file_name>`, the key a retrieval request names.
pub fn request_path(year: &str, month: &str, day: &str, file_name: &str) -> (r: String)
    ensures
        r@ == join(join(join(year@, month@), day@), file_name@),
{
    proof {
        reveal_strlit("/");
    }
    let mut s = year.to_owned();
    s.append("/");
    s.append(month);
    s.append("/");
    s.append(day);
    s.append("/");
    s.append(file_name);
    assert(s@ =~= join(join(join(year@, month@), day@), file_name@));
    s
}

pub open spec fn is_plain(c: char) -> bool {
    0x20 <= (c as u32) <= 0x7e && c != '"' && c != '\\'
}

/// How one character stands inside a quoted header parameter: quotes and
/// backslashes are escaped, characters outside printable ASCII become `_`.
pub open spec fn escape_char(c: char) -> Seq<char> {
    if c == '"' || c == '\\' {
        seq!['\\', c]
    } else if is_plain(c) {
        seq![c]
    } else {
        seq!['_']
    }
}

pub open spec fn escape_text(s: Seq<char>) -> Seq<char>
    decreases s.len(),
{
    if s.len() == 0 {
        Seq::empty()
    } else {
        escape_text(s.drop_last()) + escape_char(s.last())
    }
}

pub open spec fn disposition_of(name: Seq<char>) -> Seq<char> {
    "inline; filename=\""@ + escape_text(name) + seq!['"']
}

/// The `Content-Disposition` value that names the original file, quoted so
/// that any name survives.
pub fn content_disposition(name: &str) -> (r: String)
    ensures
        r@ == disposition_of(name@),
{
    proof {
        reveal_strlit("\\");
        reveal_strlit("_");
        reveal_strlit("\"");
    }
    let mut s = "inline; filename=\"".to_owned();
    let n = name.unicode_len();
    let mut i: usize = 0;
    while i < n
        invariant
            i <= n == name@.len(),
            s@ == "inline; filename=\""@ + escape_text(name@.subrange(0, i as int)),
        decreases n - i,
    {
        let c = name.get_char(i);
        let ghost before = s@;
        proof {
            reveal_strlit("\\");
            reveal_strlit("_");
            reveal_strlit("\"");
        }
        if c == '"' {
            s.append("\\");
            s.append("\"");
        } else if c == '\\' {
            s.append("\\");
            s.append("\\");
        } else if 0x20 <= (c as u32) && (c as u32) <= 0x7e {
            s.append(name.substring_char(i, i + 1));
            assert(name@.subrange(i as int, i + 1) =~= escape_char(c));
        } else {
            s.append("_");
            assert(escape_char(c) == seq!['_']);
        }
        assert(s@ =~= before + escape_char(c));
        assert(name@.subrange(0, i + 1).drop_last() =~= name@.subrange(0, i as int));
        assert(name@.subrange(0, i + 1).last() == c);
        i = i + 1;
    }
    s.append("\"");
    assert(name@.subrange(0, n as int) =~= name@);
    assert(s@ =~= disposition_of(name@));
    s
}

/// What is needed to stream a stored file back.
#[derive(Clone, Debug, PartialEq, Eq)]
pub struct Resolution {
    /// The file to open, under the upload root.
    pub file_path: String,
    /// The record's stored MIME type.
    pub content_type: String,
    pub content_disposition: String,
}

/// Resolves a requested path against the record the database returned for
/// it. Without a record whose path is exactly the one requested the answer
/// is `NotFound`, and no file path is produced.
pub fn resolve(upload_root: &str, relative_path: &str, found: Option<&StoredAsset>) -> (r: Result<
    Resolution,
    IngestError,
>)
    ensures
        match found {
            Some(a) if a.relative_path@ == relative_path@ => r.is_ok() && r.unwrap().file_path@
                == join(upload_root@, relative_path@) && r.unwrap().content_type@ == a.mime_type@
                && r.unwrap().content_disposition@ == disposition_of(a.original_file_name@),
            _ => r == Err::<Resolution, IngestError>(IngestError::NotFound),
        },
{
    match found {
        Some(a) => {
            if a.relative_path.as_str().to_owned() == relative_path.to_owned() {
                let file_path = join_text(upload_root, relative_path);
                Ok(Resolution {
                    file_path,
                    content_type: a.mime_type.clone(),
                    content_disposition: content_disposition(a.original_file_name.as_str()),
                })
            } else {
                Err(IngestError::NotFound)
            }
        },
        None => Err(IngestError::NotFound),
    }
}

} // verus!
