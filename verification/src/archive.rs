//! Extraction of the one image the upscale endpoint returns inside a ZIP
//! archive, done by the `zip` crate over in-memory bytes.

use vstd::prelude::*;

use crate::codec::base64_encode;
use crate::codec::base64_of;

verus! {

/// The number of entries of the archive the bytes hold, or `None` where
/// they hold no well-formed archive; it depends on the bytes alone.
pub uninterp spec fn zip_entry_count_of(b: Seq<u8>) -> Option<nat>;

/// The decompressed contents of the archive's first entry, or `None` where
/// there is no readable first entry; it depends on the bytes alone.
pub uninterp spec fn zip_first_entry_of(b: Seq<u8>) -> Option<Seq<u8>>;

/// Why no image came out of an archive.
#[derive(Clone, Copy, Debug, PartialEq, Eq, Structural)]
pub enum ArchiveError {
    /// The bytes hold no well-formed ZIP archive.
    NotAnArchive,
    /// The archive holds no entry at all.
    EmptyArchive,
    /// The first entry exists but could not be read out.
    UnreadableEntry,
}

pub open spec fn spec_archive_message(e: ArchiveError) -> Seq<char> {
    match e {
        ArchiveError::NotAnArchive => "잘못된 ZIP 파일"@,
        ArchiveError::EmptyArchive => "ZIP 파일이 비어있습니다"@,
        ArchiveError::UnreadableEntry => "ZIP 항목을 읽을 수 없습니다"@,
    }
}

/// A short description of the failure, fit for the error field of a
/// result record.
pub fn archive_message(e: ArchiveError) -> (r: String)
    ensures
        r@ == spec_archive_message(e),
{
    match e {
        ArchiveError::NotAnArchive => "잘못된 ZIP 파일".to_owned(),
        ArchiveError::EmptyArchive => "ZIP 파일이 비어있습니다".to_owned(),
        ArchiveError::UnreadableEntry => "ZIP 항목을 읽을 수 없습니다".to_owned(),
    }
}

/// Relies on zip::ZipArchive::new over an in-memory cursor and
/// zip::ZipArchive::len: how many entries the archive parsed from the
/// bytes has.
#[verifier::external_body]
fn archive_entry_count(bytes: &Vec<u8>) -> (r: Option<usize>)
    ensures
        r matches Some(n) ==> zip_entry_count_of(bytes@) == Some(n as nat),
        r is None ==> zip_entry_count_of(bytes@) is None,
{
    zip::ZipArchive::new(std::io::Cursor::new(bytes.as_slice())).ok().map(|a| a.len())
}

/// Relies on zip::ZipArchive::new, zip::ZipArchive::by_index and
/// std::io::Read::read_to_end: the decompressed contents of the archive's
/// first entry.
#[verifier::external_body]
fn archive_first_entry(bytes: &Vec<u8>) -> (r: Option<Vec<u8>>)
    ensures
        r matches Some(v) ==> zip_first_entry_of(bytes@) == Some(v@),
        r is None ==> zip_first_entry_of(bytes@) is None,
{
    let mut archive = zip::ZipArchive::new(std::io::Cursor::new(bytes.as_slice())).ok()?;
    let mut entry = archive.by_index(0).ok()?;
    let mut contents = Vec::new();
    std::io::Read::read_to_end(&mut entry, &mut contents).ok()?;
    Some(contents)
}

/// What extracting the first entry of the archive held by these bytes
/// yields: the entry's standard base64 rendering, or why there is none.
pub open spec fn spec_extract_image(b: Seq<u8>) -> Result<Seq<char>, ArchiveError> {
    match zip_entry_count_of(b) {
        None => Err(ArchiveError::NotAnArchive),
        Some(count) => if count == 0 {
            Err(ArchiveError::EmptyArchive)
        } else {
            match zip_first_entry_of(b) {
                Some(contents) => Ok(base64_of(contents)),
                None => Err(ArchiveError::UnreadableEntry),
            }
        },
    }
}

/// Pulls the first entry out of the ZIP archive the bytes hold and renders
/// it as standard base64: malformed bytes are `NotAnArchive`, an archive
/// without entries is `EmptyArchive`, and a first entry that cannot be
/// read out is `UnreadableEntry`.
pub fn extract_image_from_zip(zip_bytes: &Vec<u8>) -> (r: Result<String, ArchiveError>)
    ensures
        match r {
            Ok(text) => spec_extract_image(zip_bytes@) == Ok::<_, ArchiveError>(text@),
            Err(e) => spec_extract_image(zip_bytes@) == Err::<Seq<char>, _>(e),
        },
{
    match archive_entry_count(zip_bytes) {
        None => Err(ArchiveError::NotAnArchive),
        Some(count) => {
            if count == 0 {
                Err(ArchiveError::EmptyArchive)
            } else {
                match archive_first_entry(zip_bytes) {
                    Some(contents) => Ok(base64_encode(&contents)),
                    None => Err(ArchiveError::UnreadableEntry),
                }
            }
        },
    }
}

} // verus!
