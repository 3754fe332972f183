//! Save and restore: the round trip over a fresh engine and the
//! rejection of bad snapshots.

use vmbus_client::client::Action;
use vmbus_client::client::ChannelRequest;
use vmbus_client::client::ClientRequest;
use vmbus_client::client::ClientTask;
use vmbus_client::client::GpadlRequest;
use vmbus_client::client::InitiateContactRequest;
use vmbus_client::client::Rpc;
use vmbus_client::codec::Message;
use vmbus_client::protocol::ChannelId;
use vmbus_client::protocol::ConnectionState;
use vmbus_client::protocol::FeatureFlags;
use vmbus_client::protocol::GpadlCreated;
use vmbus_client::protocol::GpadlId;
use vmbus_client::protocol::Guid;
use vmbus_client::protocol::OfferChannel;
use vmbus_client::protocol::OfferFlags;
use vmbus_client::protocol::UserDefinedData;
use vmbus_client::protocol::Version;
use vmbus_client::protocol::VersionInfo;
use vmbus_client::protocol::VersionResponse;
use vmbus_client::protocol::VersionResponse2;
use vmbus_client::protocol::CONNECTION_STATE_SUCCESSFUL;
use vmbus_client::protocol::STATUS_SUCCESS;
use vmbus_client::saved_state::RestoreError;
use vmbus_client::saved_state::SavedChannel;
use vmbus_client::saved_state::SavedConnection;
use vmbus_client::saved_state::SavedGpadl;
use vmbus_client::saved_state::SavedState;

fn connect(task: &mut ClientTask) {
    let _ = task
        .handle_client_request(ClientRequest::InitiateContact(InitiateContactRequest {
            target_message_vp: 0,
            monitor_page: None,
            client_id: Guid { data1: 0, data2: 0, data3: 0, data4: 0 },
        }))
        .unwrap();
    let actions = task
        .handle_synic_message(Message::VersionResponse2(VersionResponse2 {
            version_response: VersionResponse {
                version_supported: 1,
                connection_state: ConnectionState(CONNECTION_STATE_SUCCESSFUL),
                padding: 0,
                selected_version_or_connection_id: 0,
            },
            supported_features: 15,
        }))
        .unwrap();
    assert_eq!(
        actions,
        vec![Action::CompleteConnect(Some(VersionInfo {
            version: Version::Copper,
            feature_flags: FeatureFlags::all(),
        }))]
    );
}

fn offer(id: u32) -> OfferChannel {
    OfferChannel {
        interface_id: Guid { data1: 1, data2: 2, data3: 3, data4: 4 },
        instance_id: Guid { data1: 5, data2: 6, data3: 7, data4: 8 },
        rsvd: [0u8; 16],
        flags: OfferFlags(0),
        mmio_megabytes: 0,
        user_defined: UserDefinedData::new_zeroed(),
        subchannel_index: 0,
        mmio_megabytes_optional: 0,
        channel_id: ChannelId(id),
        monitor_id: 0,
        monitor_allocated: 0,
        is_dedicated: 0,
        connection_id: 0,
    }
}

#[test]
fn test_save_restore_connected() {
    let mut task = ClientTask::new();
    connect(&mut task);
    let s0 = task.handle_save();
    let mut fresh = ClientTask::new();
    fresh.handle_restore(&s0).unwrap();
    let s1 = fresh.handle_save();
    assert_eq!(s0, s1);
}

#[test]
fn test_save_restore_connected_with_channel() {
    let mut task = ClientTask::new();
    connect(&mut task);
    let _ = task.handle_synic_message(Message::OfferChannel(offer(3))).unwrap();
    let _ = task
        .handle_channel_request(
            ChannelId(3),
            ChannelRequest::Gpadl(Rpc {
                request: GpadlRequest { id: GpadlId(1), count: 1, buf: vec![5] },
                reply: 9,
            }),
        )
        .unwrap();
    let _ = task
        .handle_synic_message(Message::GpadlCreated(GpadlCreated {
            channel_id: ChannelId(3),
            gpadl_id: GpadlId(1),
            status: STATUS_SUCCESS,
        }))
        .unwrap();
    let s0 = task.handle_save();
    let mut fresh = ClientTask::new();
    let (version, channels) = fresh.handle_restore(&s0).unwrap();
    assert_eq!(
        version,
        Some(VersionInfo { version: Version::Copper, feature_flags: FeatureFlags::all() })
    );
    assert_eq!(channels.len(), 1);
    assert_eq!(channels[0].offer.offer, offer(3));
    assert!(!channels[0].open);
    let s1 = fresh.handle_save();
    assert_eq!(s0, s1);
}

#[test]
fn test_restore_unsupported_version() {
    let mut fresh = ClientTask::new();
    let s = SavedState {
        connection: Some(SavedConnection {
            version: 0x12345,
            feature_flags: 0,
            target_message_vp: 0,
            monitor_page: None,
            client_id: Guid { data1: 0, data2: 0, data3: 0, data4: 0 },
        }),
        channels: Vec::new(),
        gpadls: Vec::new(),
    };
    assert_eq!(fresh.handle_restore(&s), Err(RestoreError::UnsupportedVersion(0x12345)));
}

#[test]
fn test_restore_unsupported_feature_flags() {
    // Iron admits no feature flags
    let mut fresh = ClientTask::new();
    let s = SavedState {
        connection: Some(SavedConnection {
            version: 0x40004,
            feature_flags: 1,
            target_message_vp: 0,
            monitor_page: None,
            client_id: Guid { data1: 0, data2: 0, data3: 0, data4: 0 },
        }),
        channels: Vec::new(),
        gpadls: Vec::new(),
    };
    assert_eq!(fresh.handle_restore(&s), Err(RestoreError::UnsupportedFeatureFlags(1)));
}

#[test]
fn test_restore_duplicate_channel_id() {
    let mut fresh = ClientTask::new();
    let s = SavedState {
        connection: None,
        channels: vec![
            SavedChannel { offer: offer(4), open: false },
            SavedChannel { offer: offer(4), open: true },
        ],
        gpadls: Vec::new(),
    };
    assert_eq!(fresh.handle_restore(&s), Err(RestoreError::DuplicateChannelId(4)));
}

#[test]
fn test_restore_duplicate_gpadl_id() {
    let mut fresh = ClientTask::new();
    let s = SavedState {
        connection: None,
        channels: vec![SavedChannel { offer: offer(4), open: false }],
        gpadls: vec![
            SavedGpadl { channel_id: 4, gpadl_id: 9, tearing_down: false },
            SavedGpadl { channel_id: 4, gpadl_id: 9, tearing_down: true },
        ],
    };
    assert_eq!(fresh.handle_restore(&s), Err(RestoreError::DuplicateGpadlId(9)));
}

#[test]
fn test_restore_open_channel_bit() {
    let mut fresh = ClientTask::new();
    let s = SavedState {
        connection: Some(SavedConnection {
            version: 0x50000,
            feature_flags: 15,
            target_message_vp: 2,
            monitor_page: None,
            client_id: Guid { data1: 0, data2: 0, data3: 0, data4: 0 },
        }),
        channels: vec![SavedChannel { offer: offer(4), open: true }],
        gpadls: vec![SavedGpadl { channel_id: 4, gpadl_id: 9, tearing_down: true }],
    };
    let (version, channels) = fresh.handle_restore(&s).unwrap();
    assert_eq!(
        version,
        Some(VersionInfo { version: Version::Copper, feature_flags: FeatureFlags(15) })
    );
    assert_eq!(channels.len(), 1);
    assert!(channels[0].open);
    // the snapshot round-trips bit for bit
    let s1 = fresh.handle_save();
    assert_eq!(s, s1);
}
