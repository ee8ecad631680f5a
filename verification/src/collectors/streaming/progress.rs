//! The decisions of a streaming upload: when progress is reported and how
//! each file is compressed into the archive.
use vstd::prelude::*;
use crate::text::{chars_of, str_eq, string_of};
use crate::collectors::regex::helpers::{match_text, path_below, strip_base};

verus! {

/// Tracks the progress of a streaming upload and decides when it is reported.
#[derive(Debug, Clone, Copy)]
pub struct ProgressTracker {
    total_size: u64,
    last_percentage: u8,
}

impl ProgressTracker {
    /// The total number of bytes to upload.
    pub closed spec fn total(&self) -> nat {
        self.total_size as nat
    }

    /// The percentage last reported.
    pub closed spec fn last_reported(&self) -> nat {
        self.last_percentage as nat
    }

    /// A tracker for an upload of `total_size` bytes; nothing reported yet.
    pub fn new(total_size: u64) -> (t: Self)
        ensures
            t.total() == total_size,
            t.last_reported() == 0,
    {
        ProgressTracker { total_size, last_percentage: 0 }
    }

    /// Whether there is anything to track: an empty upload reports nothing.
    pub fn has_work(&self) -> (r: bool)
        ensures
            r == (self.total() > 0),
    {
        self.total_size > 0
    }

    /// Whether progress at `percentage` is reported: once it has grown by at
    /// least 5 points since the last report, or on first reaching 99.  A
    /// report is remembered.
    pub fn report(&mut self, percentage: u8) -> (r: bool)
        requires
            old(self).last_reported() <= 250,
        ensures
            r == (percentage >= old(self).last_reported() + 5 || (percentage == 99 && old(self).last_reported()
                < 99)),
            r ==> final(self).last_reported() == percentage,
            !r ==> final(self).last_reported() == old(self).last_reported(),
            final(self).total() == old(self).total(),
    {
        if percentage >= self.last_percentage + 5 || (percentage == 99 && self.last_percentage < 99) {
            self.last_percentage = percentage;
            true
        } else {
            false
        }
    }

    /// Whether the upload is done once `bytes_uploaded` bytes are uploaded.
    pub fn is_done(&self, bytes_uploaded: u64) -> (r: bool)
        ensures
            r == (bytes_uploaded >= self.total()),
    {
        bytes_uploaded >= self.total_size
    }
}

/// How a file is stored in the archive.
#[derive(Debug, Clone, Copy, PartialEq, Eq, Structural)]
pub enum CompressionChoice {
    /// Stored as it is.
    Stored,
    /// Compressed with deflate.
    Deflated,
}

/// File extensions of data that is already compressed.
pub open spec fn compressed_extensions() -> Seq<Seq<char>> {
    seq![
        "zip"@, "gz"@, "xz"@, "bz2"@, "7z"@, "rar"@, "jpg"@, "jpeg"@, "png"@, "gif"@, "mp3"@, "mp4"@,
        "avi"@, "mov"@, "mpg"@, "mpeg"@,
    ]
}

/// Files above this many bytes are stored without compression: 100 MiB.
pub const LARGE_ARCHIVE_FILE: u64 = 104857600;

/// How a file with extension `extension` and, where known, `size` bytes is
/// stored: already compressed data and files above 100 MiB as they are,
/// anything else deflated.
pub open spec fn compression_of(extension: Option<Seq<char>>, size: Option<u64>) -> CompressionChoice {
    let already = match extension {
        Some(e) => compressed_extensions().contains(e),
        None => false,
    };
    let large = match size {
        Some(n) => n > LARGE_ARCHIVE_FILE,
        None => false,
    };
    if already || large {
        CompressionChoice::Stored
    } else {
        CompressionChoice::Deflated
    }
}

/// Chooses how a file is stored, as `compression_of` says.
pub fn compression_for(extension: Option<&str>, size: Option<u64>) -> (r: CompressionChoice)
    ensures
        r == compression_of(
            match extension {
                Some(e) => Some(e@),
                None => None,
            },
            size,
        ),
{
    let already = match extension {
        Some(e) => is_compressed_extension(e),
        None => false,
    };
    let large = match size {
        Some(n) => n > LARGE_ARCHIVE_FILE,
        None => false,
    };
    if already || large {
        CompressionChoice::Stored
    } else {
        CompressionChoice::Deflated
    }
}

/// Whether `e` is the extension of already compressed data.
fn is_compressed_extension(e: &str) -> (r: bool)
    ensures
        r == compressed_extensions().contains(e@),
{
    let names = ["zip", "gz", "xz", "bz2", "7z", "rar", "jpg", "jpeg", "png", "gif", "mp3", "mp4", "avi", "mov", "mpg", "mpeg"];
    let mut i: usize = 0;
    while i < 16
        invariant
            i <= 16,
            forall|j: int| 0 <= j < 16 ==> (#[trigger] names@[j])@ == compressed_extensions()[j],
            forall|j: int| 0 <= j < i ==> compressed_extensions()[j] != e@,
        decreases 16 - i,
    {
        if str_eq(names[i], e) {
            assert(compressed_extensions()[i as int] == e@);
            return true;
        }
        i += 1;
    }
    false
}

/// What an entry found while walking the source directory becomes in the
/// archive: nothing (the directory itself), a directory entry, or a file.
#[derive(Debug, Clone, PartialEq, Eq)]
pub enum ArchiveEntry {
    Skip,
    Directory(String),
    File(String),
}

/// The archive name of the entry at `path` when `source_dir` is archived:
/// its path below the source directory (its whole path where it is not
/// below it); a directory's name ends in `/`; the empty name is skipped.
pub open spec fn archive_entry_of(path: Seq<char>, source_dir: Seq<char>, is_dir: bool) -> Option<
    (bool, Seq<char>),
> {
    let rel = match_text(path, path_below(path, source_dir));
    if rel.len() == 0 {
        None
    } else if is_dir {
        Some((true, rel.push('/')))
    } else {
        Some((false, rel))
    }
}

/// The archive entry for `path`, as `archive_entry_of` says.
pub fn archive_entry(path: &str, source_dir: &str, is_dir: bool) -> (r: ArchiveEntry)
    ensures
        match archive_entry_of(path@, source_dir@, is_dir) {
            None => r == ArchiveEntry::Skip,
            Some((true, name)) => r matches ArchiveEntry::Directory(n) && n@ == name,
            Some((false, name)) => r matches ArchiveEntry::File(n) && n@ == name,
        },
{
    let rel = match strip_base(path, source_dir) {
        Some(rest) => rest,
        None => String::from_str(path),
    };
    let mut v = chars_of(rel.as_str());
    if v.len() == 0 {
        return ArchiveEntry::Skip;
    }
    if is_dir {
        v.push('/');
        ArchiveEntry::Directory(string_of(&v))
    } else {
        ArchiveEntry::File(rel)
    }
}

} // verus!
