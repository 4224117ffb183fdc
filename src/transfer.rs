use vstd::prelude::*;
use vstd::string::*;
use crate::package::PkgError;
use crate::text::{is_suffix, ends_with_text};

verus! {

/// What bringing one archive into the scratch directory takes.
#[derive(Clone, Copy, Debug, PartialEq, Eq, Structural)]
pub enum FetchStep {
    /// The unpacked directory is already there: nothing to do.
    AlreadyInstalled,
    /// The archive was downloaded before: unpack it.
    UnpackOnly,
    /// Download the archive, then unpack it.
    DownloadAndUnpack,
}

/// The step for a destination directory and an archive that do or do not exist.
pub open spec fn fetch_step_of(dest_exists: bool, archive_exists: bool) -> FetchStep {
    if dest_exists {
        FetchStep::AlreadyInstalled
    } else if archive_exists {
        FetchStep::UnpackOnly
    } else {
        FetchStep::DownloadAndUnpack
    }
}

/// Decides how to bring an archive in: an existing destination is success
/// with nothing to do, an archive already present is reused.
pub fn fetch_step(dest_exists: bool, archive_exists: bool) -> (r: FetchStep)
    ensures
        r == fetch_step_of(dest_exists, archive_exists),
{
    if dest_exists {
        FetchStep::AlreadyInstalled
    } else if archive_exists {
        FetchStep::UnpackOnly
    } else {
        FetchStep::DownloadAndUnpack
    }
}

/// A download succeeds on a 2xx status and fails with that status otherwise.
pub fn download_outcome(status: u16) -> (r: Result<(), PkgError>)
    ensures
        r is Ok <==> 200 <= status <= 299,
        r is Err ==> r == Err::<(), PkgError>(PkgError::Download(status)),
{
    if 200 <= status && status <= 299 {
        Ok(())
    } else {
        Err(PkgError::Download(status))
    }
}

/// The two archive formats.
#[derive(Clone, Copy, Debug, PartialEq, Eq, Structural)]
pub enum ArchiveKind {
    /// Random-access, directory-preserving: prebuilt archives.
    Zip,
    /// Streamed, gzip-compressed: source archives.
    TarGz,
}

/// The format of an archive file, by its extension.
pub open spec fn archive_kind_of(file: Seq<char>) -> Option<ArchiveKind> {
    if is_suffix(".zip"@, file) {
        Some(ArchiveKind::Zip)
    } else if is_suffix(".tar.gz"@, file) {
        Some(ArchiveKind::TarGz)
    } else {
        None
    }
}

/// The format of an archive file, by its extension.
pub fn archive_kind(file: &str) -> (r: Option<ArchiveKind>)
    ensures
        r == archive_kind_of(file@),
{
    if ends_with_text(file, ".zip") {
        Some(ArchiveKind::Zip)
    } else if ends_with_text(file, ".tar.gz") {
        Some(ArchiveKind::TarGz)
    } else {
        None
    }
}

/// The number of failed outcomes.
pub open spec fn failures(outcomes: Seq<bool>) -> nat
    decreases outcomes.len(),
{
    if outcomes.len() == 0 {
        0
    } else {
        failures(outcomes.drop_last()) + if outcomes.last() {
            0nat
        } else {
            1nat
        }
    }
}

/// Counts the libraries whose pipeline failed (`false` entries).
pub fn count_failures(outcomes: &Vec<bool>) -> (r: usize)
    ensures
        r == failures(outcomes@),
{
    let n = outcomes.len();
    let mut c: usize = 0;
    let mut i: usize = 0;
    while i < n
        invariant
            n == outcomes@.len(),
            i <= n,
            c == failures(outcomes@.subrange(0, i as int)),
            c <= i,
        decreases n - i,
    {
        assert(outcomes@.subrange(0, i + 1).drop_last() =~= outcomes@.subrange(0, i as int));
        if !outcomes[i] {
            c = c + 1;
        }
        i = i + 1;
    }
    assert(outcomes@.subrange(0, n as int) =~= outcomes@);
    c
}

} // verus!
