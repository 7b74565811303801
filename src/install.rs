use crate::archive::{extract_from_zip, zip_payload, ExtractError};
use crate::release::{is_archive, select_asset, target_triple, zip_suffix, Platform, Release};
use crate::text::{chars_of, ends_with_chars, has_prefix, has_suffix, starts_with_chars};
use vstd::prelude::*;

verus! {

/// Why an install stopped before completion.
#[derive(Clone, Copy, PartialEq, Eq, Structural, Debug)]
pub enum InstallError {
    /// No asset of the release is built for this platform.
    NoMatchingAsset,
    /// The downloaded archive is not a readable zip archive.
    NotAnArchive,
    /// The archive holds no entry that names the sidecar.
    NoExecutable,
    /// The archive entry that names the sidecar could not be read.
    Unreadable,
    /// The installed binary could be neither moved aside nor removed.
    Locked,
    /// Writing the new binary, or marking it executable, failed.
    WriteFailed,
}

/// The index of the release's asset built for `platform`.
pub fn asset_for_platform(release: &Release, platform: Platform) -> (r: Result<usize, InstallError>)
    ensures
        r matches Ok(i) ==> i < release.assets@.len() && crate::release::asset_matches(
            release.assets@[i as int],
            crate::release::triple_of(platform),
        ) && forall|k: int|
            0 <= k < i ==> !crate::release::asset_matches(
                #[trigger] release.assets@[k],
                crate::release::triple_of(platform),
            ),
        r is Err <==> forall|k: int|
            0 <= k < release.assets@.len() ==> !crate::release::asset_matches(
                #[trigger] release.assets@[k],
                crate::release::triple_of(platform),
            ),
        r matches Err(e) ==> e == InstallError::NoMatchingAsset,
{
    let target = target_triple(platform);
    match select_asset(&release.assets, target.as_str()) {
        Some(i) => Ok(i),
        None => Err(InstallError::NoMatchingAsset),
    }
}

/// The install error that stands for an extraction error.
pub open spec fn install_error_of(e: ExtractError) -> InstallError {
    match e {
        ExtractError::NotAnArchive => InstallError::NotAnArchive,
        ExtractError::NoExecutable => InstallError::NoExecutable,
        ExtractError::Unreadable => InstallError::Unreadable,
    }
}

/// The executable to install from a downloaded asset: a bare executable as
/// it was downloaded; for a `.zip` asset, the data of the archive's first
/// entry that holds the sidecar, read from the downloaded bytes, and the
/// matching error where the bytes are no archive, no entry holds the sidecar,
/// or that entry cannot be read.
pub fn prepare_payload(asset_name: &str, downloaded: Vec<u8>) -> (r: Result<Vec<u8>, InstallError>)
    ensures
        !has_suffix(asset_name@, zip_suffix()) ==> (r matches Ok(v) && v@ == downloaded@),
        has_suffix(asset_name@, zip_suffix()) ==> match zip_payload(downloaded@) {
            Ok(p) => r matches Ok(v) && v@ == p,
            Err(e) => r == Err::<Vec<u8>, InstallError>(install_error_of(e)),
        },
{
    if is_archive(asset_name) {
        match extract_from_zip(downloaded) {
            Ok(v) => Ok(v),
            Err(ExtractError::NotAnArchive) => Err(InstallError::NotAnArchive),
            Err(ExtractError::NoExecutable) => Err(InstallError::NoExecutable),
            Err(ExtractError::Unreadable) => Err(InstallError::Unreadable),
        }
    } else {
        Ok(downloaded)
    }
}

/// The next file operation of an install, once the new executable is in
/// memory and the running sidecar has been stopped.
#[derive(Clone, Copy, PartialEq, Eq, Structural, Debug)]
pub enum FileAction {
    /// Rename the installed binary to its `.old` backup, replacing any
    /// earlier backup.
    BackupToOld,
    /// Remove the installed binary.
    RemoveExisting,
    /// Write the new executable to a staging file beside the installation
    /// path and rename it into place.
    WriteNew,
    /// Mark the installed file executable.
    MarkExecutable,
    Finish,
    Abort(InstallError),
}

/// The first file operation: the installed binary, where there is one, is
/// first moved aside.
pub open spec fn first_action(binary_exists: bool) -> FileAction {
    if binary_exists {
        FileAction::BackupToOld
    } else {
        FileAction::WriteNew
    }
}

/// The file operation that follows `a`, given whether `a` succeeded.
pub open spec fn next_action(a: FileAction, ok: bool) -> FileAction {
    match a {
        FileAction::BackupToOld => if ok {
            FileAction::WriteNew
        } else {
            FileAction::RemoveExisting
        },
        FileAction::RemoveExisting => if ok {
            FileAction::WriteNew
        } else {
            FileAction::Abort(InstallError::Locked)
        },
        FileAction::WriteNew => if ok {
            FileAction::MarkExecutable
        } else {
            FileAction::Abort(InstallError::WriteFailed)
        },
        FileAction::MarkExecutable => if ok {
            FileAction::Finish
        } else {
            FileAction::Abort(InstallError::WriteFailed)
        },
        FileAction::Finish => FileAction::Finish,
        FileAction::Abort(e) => FileAction::Abort(e),
    }
}

/// The file operations of an install, one at a time.
pub struct Replacement {
    action: FileAction,
}

impl Replacement {
    pub closed spec fn current(&self) -> FileAction {
        self.action
    }

    pub fn new(binary_exists: bool) -> (r: Replacement)
        ensures
            r.current() == first_action(binary_exists),
    {
        if binary_exists {
            Replacement { action: FileAction::BackupToOld }
        } else {
            Replacement { action: FileAction::WriteNew }
        }
    }

    /// The operation to perform now.
    pub fn action(&self) -> (r: FileAction)
        ensures
            r == self.current(),
    {
        self.action
    }

    /// Reports whether the current operation succeeded, and moves on.
    pub fn advance(&mut self, ok: bool) -> (r: FileAction)
        ensures
            r == next_action(old(self).current(), ok),
            final(self).current() == r,
    {
        let next = match self.action {
            FileAction::BackupToOld => if ok {
                FileAction::WriteNew
            } else {
                FileAction::RemoveExisting
            },
            FileAction::RemoveExisting => if ok {
                FileAction::WriteNew
            } else {
                FileAction::Abort(InstallError::Locked)
            },
            FileAction::WriteNew => if ok {
                FileAction::MarkExecutable
            } else {
                FileAction::Abort(InstallError::WriteFailed)
            },
            FileAction::MarkExecutable => if ok {
                FileAction::Finish
            } else {
                FileAction::Abort(InstallError::WriteFailed)
            },
            FileAction::Finish => FileAction::Finish,
            FileAction::Abort(e) => FileAction::Abort(e),
        };
        self.action = next;
        next
    }
}

/// The installation path is written only once it is clear: either no binary
/// was installed, or the installed one was moved aside or removed.
pub proof fn lemma_write_only_when_clear(binary_exists: bool, a: FileAction, ok: bool)
    ensures
        first_action(binary_exists) == FileAction::WriteNew ==> !binary_exists,
        next_action(a, ok) == FileAction::WriteNew ==> ok && (a == FileAction::BackupToOld || a
            == FileAction::RemoveExisting),
{
}

/// Where the installed binary can be neither moved aside nor removed, the
/// install aborts as locked and never writes the installation path: no run
/// of operations from there reaches a write.
pub proof fn lemma_locked_binary_aborts(oks: Seq<bool>)
    ensures
        next_action(next_action(first_action(true), false), false) == FileAction::Abort(
            InstallError::Locked,
        ),
        run_from(FileAction::Abort(InstallError::Locked), oks) == FileAction::Abort(
            InstallError::Locked,
        ),
    decreases oks.len(),
{
    if oks.len() > 0 {
        lemma_locked_binary_aborts(oks.drop_first());
    }
}

/// The operation reached from `a` after the outcomes `oks`, in turn.
pub open spec fn run_from(a: FileAction, oks: Seq<bool>) -> FileAction
    decreases oks.len(),
{
    if oks.len() == 0 {
        a
    } else {
        run_from(next_action(a, oks[0]), oks.drop_first())
    }
}

/// A file that the host ships as the sidecar: named `opencode-cli`, possibly
/// with a target suffix, and not an `.old` backup.
pub open spec fn bundled_binary_name(name: Seq<char>) -> bool {
    has_prefix(name, "opencode-cli"@) && !has_suffix(name, ".old"@)
}

/// Whether a file name in the host's resources is the bundled sidecar.
pub fn is_bundled_binary_name(name: &str) -> (r: bool)
    ensures
        r == bundled_binary_name(name@),
{
    let cs = chars_of(name);
    let prefix = chars_of("opencode-cli");
    let backup = chars_of(".old");
    starts_with_chars(&cs, &prefix) && !ends_with_chars(&cs, &backup)
}

} // verus!
