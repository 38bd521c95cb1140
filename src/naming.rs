//! Storage naming: a date-sharded directory, a random stem, and a known
//! extension, independent of the name the client supplied.
use chrono::Datelike;
use vstd::prelude::*;

use crate::error::IngestError;
use crate::media_type::{
    content_type_for_extension, extension_for_content_type, extension_of, extension_of_mime,
    file_extension, mime_of_extension,
};

verus! {

pub open spec fn is_leap_year(y: int) -> bool {
    (y % 4 == 0 && y % 100 != 0) || y % 400 == 0
}

pub open spec fn days_in_month(y: int, m: int) -> int {
    if m == 2 {
        if is_leap_year(y) { 29 } else { 28 }
    } else if m == 4 || m == 6 || m == 9 || m == 11 {
        30
    } else {
        31
    }
}

/// The capture time of an upload: milliseconds since the epoch, and the
/// calendar date under the deployment's time zone policy (UTC).
#[derive(Clone, Copy, Debug, PartialEq, Eq, Structural)]
pub struct CaptureInstant {
    pub millis: i64,
    pub year: u32,
    pub month: u32,
    pub day: u32,
}

impl CaptureInstant {
    /// A real calendar date whose year has four digits.
    pub open spec fn wf(&self) -> bool {
        &&& self.year <= 9999
        &&& 1 <= self.month <= 12
        &&& 1 <= self.day <= days_in_month(self.year as int, self.month as int)
    }

    /// Builds an instant from its parts, or `None` where they name no
    /// four-digit calendar date.
    pub fn from_parts(millis: i64, year: i32, month: u32, day: u32) -> (r: Option<CaptureInstant>)
        ensures
            r.is_some() <==> (0 <= year <= 9999 && 1 <= month <= 12 && 1 <= day
                <= days_in_month(year as int, month as int)),
            r.is_some() ==> r.unwrap() == (CaptureInstant {
                millis,
                year: year as u32,
                month,
                day,
            }),
            r.is_some() ==> r.unwrap().wf(),
    {
        if year < 0 || year > 9999 || month < 1 || month > 12 || day < 1 {
            return None;
        }
        let leap = (year % 4 == 0 && year % 100 != 0) || year % 400 == 0;
        let limit: u32 = if month == 2 {
            if leap { 29 } else { 28 }
        } else if month == 4 || month == 6 || month == 9 || month == 11 {
            30
        } else {
            31
        };
        if day > limit {
            return None;
        }
        Some(CaptureInstant { millis, year: year as u32, month, day })
    }

    /// The current instant in UTC, or `None` where the clock reports a date
    /// outside the four-digit years.
    pub fn now() -> (r: Option<CaptureInstant>)
        ensures
            r.is_some() ==> r.unwrap().wf(),
    {
        let (millis, year, month, day) = utc_now();
        CaptureInstant::from_parts(millis, year, month, day)
    }
}

/// Relies on chrono::Utc::now for the current time, read through
/// `timestamp_millis` and the `Datelike` accessors, whose month runs from 1
/// to 12 and whose day runs from 1 to 31.
#[verifier::external_body]
fn utc_now() -> (r: (i64, i32, u32, u32))
    ensures
        1 <= r.2 <= 12,
        1 <= r.3 <= 31,
{
    let now = chrono::Utc::now();
    (now.timestamp_millis(), now.year(), now.month(), now.day())
}

/// Relies on uuid::Uuid::new_v4 for sixteen bytes drawn from the operating
/// system's random source.
#[verifier::external_body]
pub(crate) fn random_token() -> (r: [u8; 16]) {
    uuid::Uuid::new_v4().into_bytes()
}

/// The lower-case hexadecimal digit of `d` (decimal for `d < 10`).
pub open spec fn digit_char(d: int) -> char {
    if d == 0 { '0' }
    else if d == 1 { '1' }
    else if d == 2 { '2' }
    else if d == 3 { '3' }
    else if d == 4 { '4' }
    else if d == 5 { '5' }
    else if d == 6 { '6' }
    else if d == 7 { '7' }
    else if d == 8 { '8' }
    else if d == 9 { '9' }
    else if d == 10 { 'a' }
    else if d == 11 { 'b' }
    else if d == 12 { 'c' }
    else if d == 13 { 'd' }
    else if d == 14 { 'e' }
    else { 'f' }
}

fn digit_text(d: u32) -> (r: &'static str)
    requires
        d < 16,
    ensures
        r@ == seq![digit_char(d as int)],
{
    proof {
        reveal_strlit("0");
        reveal_strlit("1");
        reveal_strlit("2");
        reveal_strlit("3");
        reveal_strlit("4");
        reveal_strlit("5");
        reveal_strlit("6");
        reveal_strlit("7");
        reveal_strlit("8");
        reveal_strlit("9");
        reveal_strlit("a");
        reveal_strlit("b");
        reveal_strlit("c");
        reveal_strlit("d");
        reveal_strlit("e");
        reveal_strlit("f");
    }
    if d == 0 { "0" }
    else if d == 1 { "1" }
    else if d == 2 { "2" }
    else if d == 3 { "3" }
    else if d == 4 { "4" }
    else if d == 5 { "5" }
    else if d == 6 { "6" }
    else if d == 7 { "7" }
    else if d == 8 { "8" }
    else if d == 9 { "9" }
    else if d == 10 { "a" }
    else if d == 11 { "b" }
    else if d == 12 { "c" }
    else if d == 13 { "d" }
    else if d == 14 { "e" }
    else { "f" }
}

pub open spec fn two_digits(n: int) -> Seq<char> {
    seq![digit_char((n / 10) % 10), digit_char(n % 10)]
}

pub open spec fn four_digits(n: int) -> Seq<char> {
    seq![digit_char((n / 1000) % 10), digit_char((n / 100) % 10), digit_char((n / 10) % 10), digit_char(n % 10)]
}

/// `YYYY/MM/DD`, zero-padded.
pub open spec fn date_dir_of(i: CaptureInstant) -> Seq<char> {
    four_digits(i.year as int) + seq!['/'] + two_digits(i.month as int) + seq!['/'] + two_digits(i.day as int)
}

/// The date-sharded directory of an instant, `YYYY/MM/DD`.
pub fn date_dir(instant: &CaptureInstant) -> (r: String)
    ensures
        r@ == date_dir_of(*instant),
        r@.len() == 10,
{
    proof {
        reveal_strlit("/");
    }
    let y = instant.year;
    let m = instant.month;
    let d = instant.day;
    let mut s = String::new();
    s.append(digit_text((y / 1000) % 10));
    s.append(digit_text((y / 100) % 10));
    s.append(digit_text((y / 10) % 10));
    s.append(digit_text(y % 10));
    s.append("/");
    s.append(digit_text((m / 10) % 10));
    s.append(digit_text(m % 10));
    s.append("/");
    s.append(digit_text((d / 10) % 10));
    s.append(digit_text(d % 10));
    assert(s@ =~= date_dir_of(*instant));
    s
}

/// Lower-case hexadecimal, two digits per byte, high nibble first.
pub open spec fn hex_of(bytes: Seq<u8>) -> Seq<char>
    decreases bytes.len(),
{
    if bytes.len() == 0 {
        Seq::empty()
    } else {
        let b = bytes.last();
        hex_of(bytes.drop_last()) + seq![digit_char(b as int / 16), digit_char(b as int % 16)]
    }
}

pub proof fn lemma_hex_len(bytes: Seq<u8>)
    ensures
        hex_of(bytes).len() == 2 * bytes.len(),
    decreases bytes.len(),
{
    if bytes.len() > 0 {
        lemma_hex_len(bytes.drop_last());
    }
}

proof fn lemma_digit_char_injective(x: int, y: int)
    requires
        0 <= x < 16,
        0 <= y < 16,
        digit_char(x) == digit_char(y),
    ensures
        x == y,
{
}

/// Hexadecimal encoding loses nothing: equal encodings come from equal bytes.
pub proof fn lemma_hex_injective(a: Seq<u8>, b: Seq<u8>)
    requires
        a.len() == b.len(),
        hex_of(a) == hex_of(b),
    ensures
        a == b,
    decreases a.len(),
{
    if a.len() > 0 {
        let (x, y) = (a.last() as int, b.last() as int);
        lemma_hex_len(a.drop_last());
        lemma_hex_len(b.drop_last());
        let n = 2 * (a.len() - 1);
        assert(hex_of(a)[n] == digit_char(x / 16));
        assert(hex_of(b)[n] == digit_char(y / 16));
        assert(hex_of(a)[n + 1] == digit_char(x % 16));
        assert(hex_of(b)[n + 1] == digit_char(y % 16));
        lemma_digit_char_injective(x / 16, y / 16);
        lemma_digit_char_injective(x % 16, y % 16);
        assert(hex_of(a.drop_last()) =~= hex_of(a).subrange(0, n));
        assert(hex_of(b.drop_last()) =~= hex_of(b).subrange(0, n));
        lemma_hex_injective(a.drop_last(), b.drop_last());
        assert(a =~= a.drop_last().push(a.last()));
        assert(b =~= b.drop_last().push(b.last()));
    }
}

/// The file stem of a token: its 32 lower-case hexadecimal digits.
pub fn stem_of_token(token: &[u8; 16]) -> (r: String)
    ensures
        r@ == hex_of(token@),
        r@.len() == 32,
{
    let mut s = String::new();
    let mut i: usize = 0;
    while i < 16
        invariant
            i <= 16,
            token@.len() == 16,
            s@ == hex_of(token@.subrange(0, i as int)),
        decreases 16 - i,
    {
        let b = token[i];
        s.append(digit_text((b / 16) as u32));
        s.append(digit_text((b % 16) as u32));
        assert(token@.subrange(0, i + 1).drop_last() =~= token@.subrange(0, i as int));
        i = i + 1;
    }
    assert(token@.subrange(0, 16) =~= token@);
    proof {
        lemma_hex_len(token@);
    }
    s
}

/// The storage extension: the file name's own extension where the table
/// knows it, else the one of the declared content type.
pub open spec fn storage_extension_of(file_name: Seq<char>, content_type: Seq<char>) -> Option<
    Seq<char>,
> {
    match extension_of(file_name) {
        Some(ext) => if mime_of_extension(ext).is_some() {
            Some(ext)
        } else {
            extension_of_mime(content_type)
        },
        None => extension_of_mime(content_type),
    }
}

pub fn storage_extension(file_name: &str, content_type: &str) -> (r: Result<String, IngestError>)
    ensures
        match storage_extension_of(file_name@, content_type@) {
            Some(ext) => r.is_ok() && r.unwrap()@ == ext,
            None => r == Err::<String, IngestError>(IngestError::InvalidExtension),
        },
{
    if let Some(ext) = file_extension(file_name) {
        if content_type_for_extension(ext.as_str()).is_some() {
            return Ok(ext);
        }
    }
    match extension_for_content_type(content_type) {
        Some(ext) => Ok(ext),
        None => Err(IngestError::InvalidExtension),
    }
}

/// Where an upload is stored, relative to the upload root.
#[derive(Clone, Debug, PartialEq, Eq)]
pub struct StorageName {
    pub relative_dir: String,
    pub file_stem: String,
    pub extension: String,
}

pub open spec fn file_name_of(stem: Seq<char>, ext: Seq<char>) -> Seq<char> {
    stem + seq!['.'] + ext
}

pub open spec fn relative_path_of(dir: Seq<char>, stem: Seq<char>, ext: Seq<char>) -> Seq<char> {
    dir + seq!['/'] + file_name_of(stem, ext)
}

impl StorageName {
    pub open spec fn spec_file_name(&self) -> Seq<char> {
        file_name_of(self.file_stem@, self.extension@)
    }

    pub open spec fn spec_relative_path(&self) -> Seq<char> {
        relative_path_of(self.relative_dir@, self.file_stem@, self.extension@)
    }

    /// `<stem>.<ext>`
    pub fn file_name(&self) -> (r: String)
        ensures
            r@ == self.spec_file_name(),
    {
        proof {
            reveal_strlit(".");
        }
        let mut s = self.file_stem.clone();
        s.append(".");
        s.append(self.extension.as_str());
        s
    }

    /// `YYYY/MM/DD/<stem>.<ext>`, the lookup key of the stored asset.
    pub fn relative_path(&self) -> (r: String)
        ensures
            r@ == self.spec_relative_path(),
    {
        proof {
            reveal_strlit("/");
        }
        let mut s = self.relative_dir.clone();
        s.append("/");
        let f = self.file_name();
        s.append(f.as_str());
        assert(s@ =~= self.spec_relative_path());
        s
    }
}

/// Uploads named under two different random tokens never share a relative
/// path, whatever their dates and extensions: byte-identical content
/// uploaded twice is stored twice.
pub proof fn lemma_distinct_tokens_distinct_paths(
    i1: CaptureInstant,
    i2: CaptureInstant,
    t1: Seq<u8>,
    t2: Seq<u8>,
    e1: Seq<char>,
    e2: Seq<char>,
)
    requires
        t1.len() == 16,
        t2.len() == 16,
        t1 != t2,
    ensures
        relative_path_of(date_dir_of(i1), hex_of(t1), e1) != relative_path_of(
            date_dir_of(i2),
            hex_of(t2),
            e2,
        ),
{
    let path_a = relative_path_of(date_dir_of(i1), hex_of(t1), e1);
    let path_b = relative_path_of(date_dir_of(i2), hex_of(t2), e2);
    lemma_hex_len(t1);
    lemma_hex_len(t2);
    if path_a == path_b {
        assert(path_a.subrange(11, 43) =~= hex_of(t1));
        assert(path_b.subrange(11, 43) =~= hex_of(t2));
        lemma_hex_injective(t1, t2);
    }
}

/// The name of an upload for a given random token: deterministic in all its
/// inputs.
pub fn name_for(file_name: &str, content_type: &str, instant: &CaptureInstant, token: &[u8; 16]) -> (r:
    Result<StorageName, IngestError>)
    ensures
        match storage_extension_of(file_name@, content_type@) {
            Some(ext) => r.is_ok() && r.unwrap().relative_dir@ == date_dir_of(*instant)
                && r.unwrap().file_stem@ == hex_of(token@) && r.unwrap().extension@ == ext,
            None => r == Err::<StorageName, IngestError>(IngestError::InvalidExtension),
        },
{
    let extension = storage_extension(file_name, content_type)?;
    Ok(StorageName { relative_dir: date_dir(instant), file_stem: stem_of_token(token), extension })
}

/// The name of an upload under a freshly drawn random token.
pub fn name_for_upload(file_name: &str, content_type: &str, instant: &CaptureInstant) -> (r: Result<
    StorageName,
    IngestError,
>)
    ensures
        match storage_extension_of(file_name@, content_type@) {
            Some(ext) => r.is_ok() && r.unwrap().relative_dir@ == date_dir_of(*instant) && (exists|
                t: Seq<u8>,
            | t.len() == 16 && #[trigger] hex_of(t) == r.unwrap().file_stem@)
                && r.unwrap().file_stem@.len() == 32 && r.unwrap().extension@ == ext,
            None => r == Err::<StorageName, IngestError>(IngestError::InvalidExtension),
        },
{
    let token = random_token();
    let r = name_for(file_name, content_type, instant, &token);
    proof {
        lemma_hex_len(token@);
    }
    r
}

} // verus!
