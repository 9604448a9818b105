//! Records of message and media backups, in the number types that apps can take.
//!
//! The server counts in unsigned numbers and apps in signed ones of the same size. Every number
//! here is small enough to be the same in both.

use vstd::prelude::*;

verus! {

/// The length of the name of a media object.
pub const MEDIA_ID_LEN: usize = 15;

/// The length of the key that a media object is encrypted with.
pub const MEDIA_ENCRYPTION_KEY_LEN: usize = 64;

/// Whether a number of the server can be one of an app.
pub open spec fn fits_i32(number: u32) -> bool {
    number <= i32::MAX
}

/// Whether a number of the server can be one of an app.
pub open spec fn fits_i64(number: u64) -> bool {
    number <= i64::MAX
}

/// Where a message backup is, as the server says it.
pub struct MessageBackupInfo {
    pub backup_dir: String,
    pub cdn: u32,
    pub backup_name: String,
}

/// Where media backups are, as the server says it.
pub struct MediaBackupInfo {
    pub backup_dir: String,
    pub media_dir: String,
    pub used_space: u64,
}

/// An attachment to copy to the backup, as the server takes it.
pub struct CopyBackupMediaItem {
    pub source_attachment_cdn: u32,
    pub source_key: String,
    pub object_length: u64,
    pub media_id: [u8; MEDIA_ID_LEN],
    pub encryption_key: [u8; MEDIA_ENCRYPTION_KEY_LEN],
}

/// Why an attachment was not copied.
#[derive(Clone, Copy, PartialEq, Eq, Debug, Structural)]
pub enum CopyBackupMediaFailure {
    SourceNotFound,
    WrongSourceLength,
    OutOfSpace,
}

/// What became of an attachment to copy, as the server says it.
pub struct CopyBackupMediaOutcome {
    pub media_id: [u8; MEDIA_ID_LEN],
    pub cdn_or_failure: Result<u32, CopyBackupMediaFailure>,
}

/// A media object to delete, as the server takes it.
pub struct DeleteBackupMediaItem {
    pub media_id: [u8; MEDIA_ID_LEN],
    pub cdn: u32,
}

/// An attachment to copy to the backup.
pub struct BridgeCopyBackupMediaItem {
    pub source_attachment_cdn: i32,
    pub source_key: String,
    pub object_length: i64,
    pub media_id: [u8; MEDIA_ID_LEN],
    pub encryption_key: [u8; MEDIA_ENCRYPTION_KEY_LEN],
}

/// Where a message backup is.
pub struct BridgeMessageBackupInfo {
    pub backup_dir: String,
    pub cdn: i32,
    pub backup_name: String,
}

/// Where media backups are.
pub struct BridgeMediaBackupInfo {
    pub backup_dir: String,
    pub media_dir: String,
    pub used_space: i64,
}

/// What became of an attachment to copy.
pub struct BridgeCopyBackupMediaOutcome {
    pub media_id: [u8; MEDIA_ID_LEN],
    pub result: BridgeCopyBackupMediaResult,
}

/// Whether an attachment was copied, and where to.
#[derive(Clone, Copy, PartialEq, Eq, Debug, Structural)]
pub enum BridgeCopyBackupMediaResult {
    Success { cdn: i32 },
    SourceNotFound,
    WrongSourceLength,
    OutOfSpace,
}

/// A media object to delete.
pub struct BridgeDeleteBackupMediaItem {
    pub media_id: [u8; MEDIA_ID_LEN],
    pub cdn: i32,
}

/// A chunk of what became of attachments to copy, and how the stream ended if it did.
pub struct CopyBackupMediaNextChunk<T> {
    pub chunk: Vec<BridgeCopyBackupMediaOutcome>,
    pub termination: Option<T>,
}

/// A chunk of the media objects that were deleted, and how the stream ended if it did.
pub struct DeleteBackupMediaNextChunk<T> {
    pub chunk: Vec<BridgeDeleteBackupMediaItem>,
    pub termination: Option<T>,
}

impl BridgeMessageBackupInfo {
    pub fn from(value: MessageBackupInfo) -> (info: BridgeMessageBackupInfo)
        requires
            fits_i32(value.cdn),
        ensures
            info.backup_dir == value.backup_dir,
            info.cdn == value.cdn,
            info.backup_name == value.backup_name,
    {
        BridgeMessageBackupInfo {
            backup_dir: value.backup_dir,
            cdn: value.cdn as i32,
            backup_name: value.backup_name,
        }
    }
}

impl BridgeMediaBackupInfo {
    pub fn from(value: MediaBackupInfo) -> (info: BridgeMediaBackupInfo)
        requires
            fits_i64(value.used_space),
        ensures
            info.backup_dir == value.backup_dir,
            info.media_dir == value.media_dir,
            info.used_space == value.used_space,
    {
        BridgeMediaBackupInfo {
            backup_dir: value.backup_dir,
            media_dir: value.media_dir,
            used_space: value.used_space as i64,
        }
    }
}

impl BridgeCopyBackupMediaItem {
    pub fn from(value: CopyBackupMediaItem) -> (item: BridgeCopyBackupMediaItem)
        requires
            fits_i32(value.source_attachment_cdn),
            fits_i64(value.object_length),
        ensures
            item.source_attachment_cdn == value.source_attachment_cdn,
            item.source_key == value.source_key,
            item.object_length == value.object_length,
            item.media_id == value.media_id,
            item.encryption_key == value.encryption_key,
    {
        BridgeCopyBackupMediaItem {
            source_attachment_cdn: value.source_attachment_cdn as i32,
            source_key: value.source_key,
            object_length: value.object_length as i64,
            media_id: value.media_id,
            encryption_key: value.encryption_key,
        }
    }
}

impl CopyBackupMediaOutcome {
    /// An outcome that apps can take: one without a number, or with one that fits.
    pub open spec fn fits(self) -> bool {
        self.cdn_or_failure matches Ok(cdn) ==> fits_i32(cdn)
    }
}

impl BridgeCopyBackupMediaOutcome {
    /// `self` is the outcome that `value` is.
    pub open spec fn is_from(self, value: CopyBackupMediaOutcome) -> bool {
        &&& self.media_id == value.media_id
        &&& match value.cdn_or_failure {
            Ok(number) => self.result matches BridgeCopyBackupMediaResult::Success { cdn } && cdn
                == number,
            Err(CopyBackupMediaFailure::OutOfSpace) => self.result is OutOfSpace,
            Err(CopyBackupMediaFailure::SourceNotFound) => self.result is SourceNotFound,
            Err(CopyBackupMediaFailure::WrongSourceLength) => self.result is WrongSourceLength,
        }
    }

    pub fn from(value: CopyBackupMediaOutcome) -> (outcome: BridgeCopyBackupMediaOutcome)
        requires
            value.fits(),
        ensures
            outcome.is_from(value),
            outcome.media_id == value.media_id,
            value.cdn_or_failure matches Ok(number) ==> outcome.result
                == (BridgeCopyBackupMediaResult::Success { cdn: number as i32 }),
            value.cdn_or_failure == Err::<u32, _>(CopyBackupMediaFailure::SourceNotFound)
                ==> outcome.result == BridgeCopyBackupMediaResult::SourceNotFound,
            value.cdn_or_failure == Err::<u32, _>(CopyBackupMediaFailure::WrongSourceLength)
                ==> outcome.result == BridgeCopyBackupMediaResult::WrongSourceLength,
            value.cdn_or_failure == Err::<u32, _>(CopyBackupMediaFailure::OutOfSpace)
                ==> outcome.result == BridgeCopyBackupMediaResult::OutOfSpace,
    {
        BridgeCopyBackupMediaOutcome {
            media_id: value.media_id,
            result: match value.cdn_or_failure {
                Ok(cdn) => BridgeCopyBackupMediaResult::Success { cdn: cdn as i32 },
                Err(CopyBackupMediaFailure::OutOfSpace) => BridgeCopyBackupMediaResult::OutOfSpace,
                Err(CopyBackupMediaFailure::SourceNotFound) => {
                    BridgeCopyBackupMediaResult::SourceNotFound
                },
                Err(CopyBackupMediaFailure::WrongSourceLength) => {
                    BridgeCopyBackupMediaResult::WrongSourceLength
                },
            },
        }
    }
}

impl BridgeDeleteBackupMediaItem {
    pub fn from(value: DeleteBackupMediaItem) -> (item: BridgeDeleteBackupMediaItem)
        requires
            fits_i32(value.cdn),
        ensures
            item.media_id == value.media_id,
            item.cdn == value.cdn,
    {
        BridgeDeleteBackupMediaItem { media_id: value.media_id, cdn: value.cdn as i32 }
    }
}

/// Nothing of what became of an attachment is lost: no two outcomes of the server are the same to
/// an app.
pub proof fn law_outcomes_stay_apart(
    outcome: BridgeCopyBackupMediaOutcome,
    one: CopyBackupMediaOutcome,
    other: CopyBackupMediaOutcome,
)
    requires
        outcome.is_from(one),
        outcome.is_from(other),
    ensures
        one == other,
{
}

/// An outcome says of its object what the server said: the place that it was copied to, or the very
/// reason why it was not.
pub proof fn law_outcome_is_the_servers(
    outcome: BridgeCopyBackupMediaOutcome,
    value: CopyBackupMediaOutcome,
)
    requires
        outcome.is_from(value),
    ensures
        outcome.media_id@ == value.media_id@,
        outcome.result is Success <==> value.cdn_or_failure is Ok,
        outcome.result is Success ==> outcome.result->cdn == value.cdn_or_failure->Ok_0,
        outcome.result is SourceNotFound <==> value.cdn_or_failure == Err::<u32, _>(
            CopyBackupMediaFailure::SourceNotFound,
        ),
        outcome.result is WrongSourceLength <==> value.cdn_or_failure == Err::<u32, _>(
            CopyBackupMediaFailure::WrongSourceLength,
        ),
        outcome.result is OutOfSpace <==> value.cdn_or_failure == Err::<u32, _>(
            CopyBackupMediaFailure::OutOfSpace,
        ),
{
}

/// A number of the server is one that apps take exactly if the signed type of the same size has it.
pub proof fn law_numbers_that_fit(small: u32, large: u64)
    ensures
        fits_i32(small) <==> small < 0x8000_0000,
        fits_i64(large) <==> large < 0x8000_0000_0000_0000,
{
}

/// Only an outcome that has a number can have one that does not fit.
pub proof fn law_outcomes_that_fit(outcome: CopyBackupMediaOutcome)
    ensures
        outcome.fits() <==> !(outcome.cdn_or_failure is Ok && outcome.cdn_or_failure->Ok_0
            > i32::MAX),
{
}

} // verus!
