//! Private directories: what makes one, and why one is refused.
//!
//! A private directory is one that its owner alone can read, write and
//! enter. The filesystem itself is out of this crate's reach: whoever wants
//! such a directory does what [`private_directory_step`] asks for, reports
//! what came of it, and goes on until the step is `Done`.

use crate::outside::{error_of, error_of_mode, in_context};
use vstd::prelude::*;
use vstd::std_specs::convert::FromSpecImpl;

verus! {

/// The permission bits of a private directory: everything for the owner,
/// nothing for anyone else.
pub const PRIVATE_MODE: u32 = 0o700;

/// The bits of a mode that are permissions; the others tell the kind of the
/// file.
pub const PERMISSION_BITS: u32 = 0o777;

/// Why a private directory could not be had.
#[derive(Debug)]
pub enum PlatformError {
    /// The directory could not be created.
    DirectoryCreationError(std::path::PathBuf, anyhow::Error),
    /// The directory is there, and its permissions are not those of a
    /// private one, or cannot be read.
    DirectoryPermissionError(std::path::PathBuf, anyhow::Error),
    /// Something else went wrong.
    UnexpectedError(anyhow::Error),
}

impl From<anyhow::Error> for PlatformError {
    fn from(err: anyhow::Error) -> (e: PlatformError) {
        PlatformError::UnexpectedError(err)
    }
}

impl FromSpecImpl<anyhow::Error> for PlatformError {
    open spec fn obeys_from_spec() -> bool {
        true
    }

    open spec fn from_spec(err: anyhow::Error) -> PlatformError {
        PlatformError::UnexpectedError(err)
    }
}

/// What was found out about the directory since the last step.
#[derive(Debug)]
pub enum Finding {
    /// Nothing was tried yet.
    Nothing,
    /// The directory was created.
    Created,
    /// The directory could not be created; `already_exists` where that is
    /// because something is there under its name.
    CreateFailed { already_exists: bool, cause: anyhow::Error },
    /// Whether what is there under the name is a directory.
    IsDirectory(bool),
    /// The mode of the directory that is there, or why it cannot be read.
    Mode(Result<u32, anyhow::Error>),
}

/// What to do about the directory next.
#[derive(Debug)]
pub enum DirectoryStep {
    /// Create the directory with these permission bits.
    Create(u32),
    /// Find out whether what is there is a directory.
    AskIsDirectory,
    /// Read the mode of the directory.
    AskMode,
    /// Nothing more: the directory is private, or it cannot be had.
    Done(Result<(), PlatformError>),
}

/// What a step comes to, without the path and the cause that an error
/// carries.
pub enum StepKind {
    Create(u32),
    AskIsDirectory,
    AskMode,
    Private,
    CreationError,
    PermissionError,
}

impl DirectoryStep {
    /// What the step comes to.
    pub open spec fn kind(self) -> StepKind {
        match self {
            DirectoryStep::Create(mode) => StepKind::Create(mode),
            DirectoryStep::AskIsDirectory => StepKind::AskIsDirectory,
            DirectoryStep::AskMode => StepKind::AskMode,
            DirectoryStep::Done(Ok(())) => StepKind::Private,
            DirectoryStep::Done(Err(PlatformError::DirectoryPermissionError(_, _))) =>
                StepKind::PermissionError,
            DirectoryStep::Done(Err(_)) => StepKind::CreationError,
        }
    }
}

/// Whether a mode's permission bits are those of a private directory.
pub open spec fn mode_is_private(mode: u32) -> bool {
    mode & PERMISSION_BITS == PRIVATE_MODE
}

/// What follows from a finding: a new directory is private; one that was
/// there is private if it is a directory and its permission bits say so;
/// any other failure to create it is final.
pub open spec fn step_after(finding: Finding) -> StepKind {
    match finding {
        Finding::Nothing => StepKind::Create(PRIVATE_MODE),
        Finding::Created => StepKind::Private,
        Finding::CreateFailed { already_exists: true, .. } => StepKind::AskIsDirectory,
        Finding::CreateFailed { already_exists: false, .. } => StepKind::CreationError,
        Finding::IsDirectory(true) => StepKind::AskMode,
        Finding::IsDirectory(false) => StepKind::CreationError,
        Finding::Mode(Ok(mode)) => if mode_is_private(mode) {
            StepKind::Private
        } else {
            StepKind::PermissionError
        },
        Finding::Mode(Err(_)) => StepKind::PermissionError,
    }
}

/// Whether a mode's permission bits are those of a private directory.
pub fn is_private_mode(mode: u32) -> (private: bool)
    ensures
        private == mode_is_private(mode),
{
    mode & PERMISSION_BITS == PRIVATE_MODE
}

/// The path that an error names, where it names one.
pub open spec fn named_path(error: PlatformError) -> Option<std::path::PathBuf> {
    match error {
        PlatformError::DirectoryCreationError(path, _) => Some(path),
        PlatformError::DirectoryPermissionError(path, _) => Some(path),
        PlatformError::UnexpectedError(_) => None,
    }
}

/// Says what to do next to have `root` as a private directory, given what
/// was found out last. An error names `root`; where the finding brought a
/// cause and the directory could not be created, the error carries it.
pub fn private_directory_step(root: std::path::PathBuf, finding: Finding) -> (step: DirectoryStep)
    ensures
        step.kind() == step_after(finding),
        step matches DirectoryStep::Done(Err(e)) ==> named_path(e) == Some(root),
        finding matches Finding::CreateFailed { already_exists: false, cause } ==> (
        step matches DirectoryStep::Done(Err(PlatformError::DirectoryCreationError(_, carried)))
            && carried == cause),
{
    match finding {
        Finding::Nothing => DirectoryStep::Create(PRIVATE_MODE),
        Finding::Created => DirectoryStep::Done(Ok(())),
        Finding::CreateFailed { already_exists, cause } => {
            if already_exists {
                DirectoryStep::AskIsDirectory
            } else {
                DirectoryStep::Done(
                    Err(PlatformError::DirectoryCreationError(root, cause)),
                )
            }
        },
        Finding::IsDirectory(is_directory) => {
            if is_directory {
                DirectoryStep::AskMode
            } else {
                DirectoryStep::Done(
                    Err(
                        PlatformError::DirectoryCreationError(
                            root,
                            error_of("target exists but is not a directory"),
                        ),
                    ),
                )
            }
        },
        Finding::Mode(Err(cause)) => DirectoryStep::Done(
            Err(
                PlatformError::DirectoryPermissionError(
                    root,
                    in_context(cause, "failed to get metadata"),
                ),
            ),
        ),
        Finding::Mode(Ok(mode)) => {
            if is_private_mode(mode) {
                DirectoryStep::Done(Ok(()))
            } else {
                DirectoryStep::Done(
                    Err(
                        PlatformError::DirectoryPermissionError(
                            root,
                            error_of_mode("unexpected mode", mode & PERMISSION_BITS),
                        ),
                    ),
                )
            }
        },
    }
}

/// A directory is private whatever the bits of its mode that are not
/// permissions, and is not once any permission is given to others or taken
/// from the owner.
pub proof fn law_only_permission_bits_count(mode: u32, other: u32)
    requires
        mode & PERMISSION_BITS == other & PERMISSION_BITS,
    ensures
        mode_is_private(mode) == mode_is_private(other),
        mode_is_private(PRIVATE_MODE),
        mode_is_private(mode) ==> mode & 0o077 == 0 && mode & 0o700 == 0o700,
{
    assert(0o700u32 & 0o777u32 == 0o700u32) by (bit_vector);
    assert(mode & 0o777u32 == 0o700u32 ==> mode & 0o077u32 == 0 && mode & 0o700u32 == 0o700u32)
        by (bit_vector);
}

} // verus!
