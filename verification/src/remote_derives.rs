//! Answers of the server, in the number types that apps can take.

use vstd::prelude::*;

use crate::account::DeviceId;
use crate::backup;
use crate::backup::MEDIA_ID_LEN;
use crate::time::Timestamp;

verus! {

/// A device of an account.
pub struct LinkedDeviceInternal {
    pub id: DeviceId,
    pub encrypted_name: Vec<u8>,
    pub last_seen: Timestamp,
    pub registration_id: u16,
    pub created_at_ciphertext: Vec<u8>,
}

/// A media object of a backup, as the server says it.
#[derive(Clone, Copy)]
pub struct StoredMediaItem {
    pub cdn: u32,
    pub media_id: [u8; MEDIA_ID_LEN],
    pub object_length: u64,
}

/// A page of media objects of a backup, as the server says it.
pub struct StoredMediaPage {
    pub items: Vec<StoredMediaItem>,
    pub backup_dir: String,
    pub media_dir: String,
    pub cursor: Option<String>,
}

/// A media object of a backup.
pub struct ListMediaItem {
    pub cdn: i32,
    pub media_id: [u8; MEDIA_ID_LEN],
    pub object_length: i64,
}

/// A page of media objects of a backup.
pub struct ListMediaResponse {
    /// The page that was asked for.
    pub items: Vec<ListMediaItem>,
    /// The directory of the backup.
    pub backup_dir: String,
    /// The directory of media objects in it. An object is at `/backup_dir/media_dir/media_id`,
    /// with its name in base64 for URLs, without padding.
    pub media_dir: String,
    /// What to ask for the next page with. Without it, this page is the last.
    pub cursor: Option<String>,
}

impl StoredMediaItem {
    /// An object that apps can take.
    pub open spec fn fits(self) -> bool {
        backup::fits_i32(self.cdn) && backup::fits_i64(self.object_length)
    }
}

impl ListMediaItem {
    /// `self` is the object that `value` is.
    pub open spec fn is_from(self, value: StoredMediaItem) -> bool {
        &&& self.cdn == value.cdn
        &&& self.media_id == value.media_id
        &&& self.object_length == value.object_length
    }

    pub fn from(value: StoredMediaItem) -> (item: ListMediaItem)
        requires
            value.fits(),
        ensures
            item.is_from(value),
            item.cdn == value.cdn,
            item.media_id == value.media_id,
            item.object_length == value.object_length,
    {
        let StoredMediaItem { cdn, media_id, object_length } = value;
        ListMediaItem { cdn: cdn as i32, media_id, object_length: object_length as i64 }
    }
}

impl ListMediaResponse {
    pub fn from(value: StoredMediaPage) -> (response: ListMediaResponse)
        requires
            forall|i: int| 0 <= i < value.items@.len() ==> (#[trigger] value.items@[i]).fits(),
        ensures
            response.items@.len() == value.items@.len(),
            forall|i: int|
                0 <= i < value.items@.len() ==> (#[trigger] response.items@[i]).is_from(
                    value.items@[i],
                ),
            forall|i: int|
                #![trigger response.items@[i]]
                0 <= i < value.items@.len() ==> response.items@[i].cdn == value.items@[i].cdn
                    && response.items@[i].media_id == value.items@[i].media_id
                    && response.items@[i].object_length == value.items@[i].object_length,
            response.backup_dir == value.backup_dir,
            response.media_dir == value.media_dir,
            response.cursor == value.cursor,
    {
        let n: usize = value.items.len();
        let mut items: Vec<ListMediaItem> = Vec::new();
        let mut i: usize = 0;
        while i < n
            invariant
                i <= n == value.items@.len(),
                items@.len() == i,
                forall|j: int| 0 <= j < value.items@.len() ==> (#[trigger] value.items@[j]).fits(),
                forall|j: int| 0 <= j < i ==> (#[trigger] items@[j]).is_from(value.items@[j]),
            decreases n - i,
        {
            assert(value.items@[i as int].fits());
            items.push(ListMediaItem::from(value.items[i]));
            i += 1;
        }
        ListMediaResponse {
            items,
            backup_dir: value.backup_dir,
            media_dir: value.media_dir,
            cursor: value.cursor,
        }
    }
}

/// An object of a page keeps its name byte for byte, its place and its length.
pub proof fn law_listed_objects_are_the_stored_ones(item: ListMediaItem, value: StoredMediaItem)
    requires
        item.is_from(value),
    ensures
        item.cdn == value.cdn,
        item.object_length == value.object_length,
        forall|i: int|
            0 <= i < MEDIA_ID_LEN ==> #[trigger] item.media_id@[i] == value.media_id@[i],
{
}

/// No two objects of the server are the same to an app.
pub proof fn law_listed_objects_stay_apart(
    item: ListMediaItem,
    one: StoredMediaItem,
    other: StoredMediaItem,
)
    requires
        item.is_from(one),
        item.is_from(other),
    ensures
        one == other,
{
}

/// An object is one that apps take exactly if both of its numbers fit.
pub proof fn law_objects_that_fit(value: StoredMediaItem)
    ensures
        value.fits() <==> value.cdn <= i32::MAX && value.object_length <= i64::MAX,
{
}

} // verus!
