//! Streams in chunks, and the records of backups.

use std::time::Duration;

use chat_bridge::account::DeviceId;
use chat_bridge::backup::BridgeCopyBackupMediaItem;
use chat_bridge::backup::BridgeCopyBackupMediaOutcome;
use chat_bridge::backup::BridgeCopyBackupMediaResult;
use chat_bridge::backup::BridgeDeleteBackupMediaItem;
use chat_bridge::backup::BridgeMediaBackupInfo;
use chat_bridge::backup::BridgeMessageBackupInfo;
use chat_bridge::backup::CopyBackupMediaFailure;
use chat_bridge::backup::CopyBackupMediaItem;
use chat_bridge::backup::CopyBackupMediaNextChunk;
use chat_bridge::backup::CopyBackupMediaOutcome;
use chat_bridge::backup::DeleteBackupMediaItem;
use chat_bridge::backup::DeleteBackupMediaNextChunk;
use chat_bridge::backup::MediaBackupInfo;
use chat_bridge::backup::MessageBackupInfo;
use chat_bridge::remote_derives::LinkedDeviceInternal;
use chat_bridge::remote_derives::ListMediaItem;
use chat_bridge::remote_derives::ListMediaResponse;
use chat_bridge::remote_derives::StoredMediaItem;
use chat_bridge::remote_derives::StoredMediaPage;
use chat_bridge::services::PreKeysResponse;
use chat_bridge::services::UnknownAuthorizationKind;
use chat_bridge::services::UserBasedSendAuthorizationKind;
use chat_bridge::stream::bulk_polled_stream_default_debounce_time;
use chat_bridge::stream::BridgeBulkPolledStream;
use chat_bridge::stream::CopyBackupMediaStream;
use chat_bridge::stream::DeleteBackupMediaStream;
use chat_bridge::stream::StreamCancelled;
use chat_bridge::stream::BULK_POLLED_STREAM_DEFAULT_CHUNK_SIZE;
use chat_bridge::time::Timestamp;

#[test]
fn bulk_polled_stream_cancel_with_next_chunk_in_flight() {
    let mut stream = BridgeBulkPolledStream::new("pending", 5, Duration::ZERO);
    let polled = stream.next_chunk().expect("should not have been cancelled");
    assert_eq!(polled.max_chunk_size, 5);
    assert_eq!(polled.debounce_time, Duration::ZERO);
    stream.signal();
    // What was waited for is lost, and then the stream is destroyed.
    assert!(matches!(stream.finish_chunk("chunk"), Err(StreamCancelled)));
    assert!(stream.cancel().is_some());
    assert!(matches!(stream.finish_chunk("chunk"), Err(StreamCancelled)));
}

#[test]
fn bulk_polled_stream_cancel_in_advance() {
    let mut stream = BridgeBulkPolledStream::new("pending", 5, Duration::ZERO);
    assert!(stream.cancel().is_some());
    assert!(matches!(stream.next_chunk(), Err(StreamCancelled)));
    assert!(stream.cancel().is_none());
    assert!(matches!(stream.next_chunk(), Err(StreamCancelled)));
}

#[test]
fn a_stream_that_is_signalled_gives_no_chunk() {
    let mut stream = BridgeBulkPolledStream::new(1, 5, Duration::ZERO);
    stream.signal();
    assert!(matches!(stream.next_chunk(), Err(StreamCancelled)));
}

#[test]
fn chunks_come_from_the_stream_itself() {
    let mut stream = CopyBackupMediaStream::from(BridgeBulkPolledStream::new(
        vec![1, 2],
        BULK_POLLED_STREAM_DEFAULT_CHUNK_SIZE,
        bulk_polled_stream_default_debounce_time(),
    ));
    let polled = stream.inner_mut().next_chunk().expect("running");
    assert_eq!(polled.max_chunk_size, 64);
    assert_eq!(polled.debounce_time, Duration::from_millis(100));
    let chunk = polled.stream.pop();
    assert_eq!(stream.inner().finish_chunk(chunk), Ok(Some(2)));
    let polled = stream.inner_mut().next_chunk().expect("running");
    assert_eq!(polled.stream, [1]);
    let mut stream =
        DeleteBackupMediaStream::from(BridgeBulkPolledStream::new(0u8, 1, Duration::ZERO));
    assert_eq!(stream.inner().finish_chunk(3), Ok(3));
    assert!(stream.inner_mut().cancel().is_some());
}

#[test]
fn backup_records_keep_their_numbers() {
    let info = BridgeMessageBackupInfo::from(MessageBackupInfo {
        backup_dir: "dir".to_owned(),
        cdn: 3,
        backup_name: "name".to_owned(),
    });
    assert_eq!(
        (info.backup_dir.as_str(), info.cdn, info.backup_name.as_str()),
        ("dir", 3, "name")
    );
    let info = BridgeMediaBackupInfo::from(MediaBackupInfo {
        backup_dir: "dir".to_owned(),
        media_dir: "media".to_owned(),
        used_space: i64::MAX as u64,
    });
    assert_eq!(
        (info.backup_dir.as_str(), info.media_dir.as_str(), info.used_space),
        ("dir", "media", i64::MAX)
    );
    let item = BridgeCopyBackupMediaItem::from(CopyBackupMediaItem {
        source_attachment_cdn: i32::MAX as u32,
        source_key: "key".to_owned(),
        object_length: 17,
        media_id: [1; 15],
        encryption_key: [2; 64],
    });
    assert_eq!(item.source_attachment_cdn, i32::MAX);
    assert_eq!(item.source_key, "key");
    assert_eq!(item.object_length, 17);
    assert_eq!(item.media_id, [1; 15]);
    assert_eq!(item.encryption_key, [2; 64]);
    let item = BridgeDeleteBackupMediaItem::from(DeleteBackupMediaItem {
        media_id: [4; 15],
        cdn: 0,
    });
    assert_eq!((item.media_id, item.cdn), ([4; 15], 0));
    let chunk = DeleteBackupMediaNextChunk {
        chunk: vec![item],
        termination: Some("done"),
    };
    assert_eq!(chunk.chunk.len(), 1);
    assert_eq!(chunk.termination, Some("done"));
}

#[test]
fn copy_outcomes_stay_apart() {
    let outcomes: Vec<BridgeCopyBackupMediaOutcome> = [
        Ok(6),
        Err(CopyBackupMediaFailure::SourceNotFound),
        Err(CopyBackupMediaFailure::WrongSourceLength),
        Err(CopyBackupMediaFailure::OutOfSpace),
    ]
    .into_iter()
    .map(|cdn_or_failure| {
        BridgeCopyBackupMediaOutcome::from(CopyBackupMediaOutcome {
            media_id: [8; 15],
            cdn_or_failure,
        })
    })
    .collect();
    assert!(outcomes.iter().all(|outcome| outcome.media_id == [8; 15]));
    let results: Vec<BridgeCopyBackupMediaResult> =
        outcomes.iter().map(|outcome| outcome.result).collect();
    assert_eq!(
        results,
        [
            BridgeCopyBackupMediaResult::Success { cdn: 6 },
            BridgeCopyBackupMediaResult::SourceNotFound,
            BridgeCopyBackupMediaResult::WrongSourceLength,
            BridgeCopyBackupMediaResult::OutOfSpace,
        ]
    );
    let chunk: CopyBackupMediaNextChunk<()> = CopyBackupMediaNextChunk {
        chunk: outcomes,
        termination: None,
    };
    assert_eq!(chunk.chunk.len(), 4);
    assert!(chunk.termination.is_none());
}

#[test]
fn a_page_of_media_objects_keeps_its_order() {
    let stored = |cdn: u32, byte: u8, object_length: u64| StoredMediaItem {
        cdn,
        media_id: [byte; 15],
        object_length,
    };
    let page = ListMediaResponse::from(StoredMediaPage {
        items: vec![stored(1, 10, 100), stored(2, 20, 200), stored(3, 30, 0)],
        backup_dir: "b".to_owned(),
        media_dir: "m".to_owned(),
        cursor: Some("next".to_owned()),
    });
    let items: Vec<(i32, u8, i64)> = page
        .items
        .iter()
        .map(|item| (item.cdn, item.media_id[14], item.object_length))
        .collect();
    assert_eq!(items, [(1, 10, 100), (2, 20, 200), (3, 30, 0)]);
    assert_eq!(page.backup_dir, "b");
    assert_eq!(page.media_dir, "m");
    assert_eq!(page.cursor.as_deref(), Some("next"));
    let item = ListMediaItem::from(stored(5, 6, 7));
    assert_eq!((item.cdn, item.media_id, item.object_length), (5, [6; 15], 7));
}

#[test]
fn authorization_kinds_have_numbers() {
    assert_eq!(
        UserBasedSendAuthorizationKind::try_from(0),
        Ok(UserBasedSendAuthorizationKind::Story)
    );
    assert_eq!(
        UserBasedSendAuthorizationKind::try_from(1),
        Ok(UserBasedSendAuthorizationKind::AccessKey)
    );
    assert_eq!(
        UserBasedSendAuthorizationKind::try_from(2),
        Ok(UserBasedSendAuthorizationKind::Group)
    );
    assert_eq!(
        UserBasedSendAuthorizationKind::try_from(3),
        Ok(UserBasedSendAuthorizationKind::UnrestrictedUnauthenticatedAccess)
    );
    for input in 4..=u8::MAX {
        assert_eq!(
            UserBasedSendAuthorizationKind::try_from(input),
            Err(UnknownAuthorizationKind { input })
        );
    }
}

#[test]
fn records_hold_what_services_say() {
    let device = LinkedDeviceInternal {
        id: DeviceId::new(2).expect("valid"),
        encrypted_name: vec![1],
        last_seen: Timestamp { millis: 5 },
        registration_id: 9,
        created_at_ciphertext: vec![],
    };
    assert_eq!(device.id.get(), 2);
    let keys = PreKeysResponse {
        identity_key: "key",
        pre_key_bundles: vec!["bundle"],
    };
    assert_eq!(keys.pre_key_bundles, ["bundle"]);
}
