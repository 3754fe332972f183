//! End-to-end scenarios driving the protocol engine with caller
//! requests and host messages, checking the actions it answers with.

use vmbus_client::client::Action;
use vmbus_client::client::ChannelRequest;
use vmbus_client::client::ChannelResponse;
use vmbus_client::client::ClientNotification;
use vmbus_client::client::ClientRequest;
use vmbus_client::client::ClientTask;
use vmbus_client::client::FatalError;
use vmbus_client::client::GpadlRequest;
use vmbus_client::client::HvsockConnectRequest;
use vmbus_client::client::HvsockConnectResult;
use vmbus_client::client::InitiateContactRequest;
use vmbus_client::client::ModifyConnectionRequest;
use vmbus_client::client::ModifyRequest;
use vmbus_client::client::MonitorPageGpas;
use vmbus_client::protocol::ModifyChannel;
use vmbus_client::protocol::ModifyChannelResponse;
use vmbus_client::protocol::ModifyConnection;
use vmbus_client::protocol::ModifyConnectionResponse;
use vmbus_client::protocol::CONNECTION_STATE_FAILED_LOW_RESOURCES;
use vmbus_client::client::OpenData;
use vmbus_client::client::OpenRequest;
use vmbus_client::client::Rpc;
use vmbus_client::codec::Message;
use vmbus_client::codec::OutgoingMessage;
use vmbus_client::codec::parse_message;
use vmbus_client::protocol::make_target_info;
use vmbus_client::protocol::version_number;
use vmbus_client::protocol::ChannelId;
use vmbus_client::protocol::ConnectionState;
use vmbus_client::protocol::FeatureFlags;
use vmbus_client::protocol::GpadlCreated;
use vmbus_client::protocol::GpadlHeader;
use vmbus_client::protocol::GpadlId;
use vmbus_client::protocol::GpadlTeardown;
use vmbus_client::protocol::GpadlTorndown;
use vmbus_client::protocol::Guid;
use vmbus_client::protocol::InitiateContact;
use vmbus_client::protocol::InitiateContact2;
use vmbus_client::protocol::OfferChannel;
use vmbus_client::protocol::OfferFlags;
use vmbus_client::protocol::OpenChannel;
use vmbus_client::protocol::OpenChannel2;
use vmbus_client::protocol::OpenChannelFlags;
use vmbus_client::protocol::OpenResult;
use vmbus_client::protocol::RelIdReleased;
use vmbus_client::protocol::RescindChannelOffer;
use vmbus_client::protocol::TlConnectRequest;
use vmbus_client::protocol::TlConnectRequest2;
use vmbus_client::protocol::TlConnectResult;
use vmbus_client::protocol::UserDefinedData;
use vmbus_client::protocol::Version;
use vmbus_client::protocol::VersionInfo;
use vmbus_client::protocol::VersionResponse;
use vmbus_client::protocol::VersionResponse2;
use vmbus_client::protocol::CONNECTION_STATE_FAILED_UNKNOWN_FAILURE;
use vmbus_client::protocol::CONNECTION_STATE_SUCCESSFUL;
use vmbus_client::protocol::MSG_VERSION_RESPONSE;
use vmbus_client::protocol::STATUS_SUCCESS;
use vmbus_client::protocol::STATUS_UNSUCCESSFUL;

const VMBUS_TEST_CLIENT_ID: Guid = Guid {
    data1: 0xe6e6e6e6,
    data2: 0xe6e6,
    data3: 0xe6e6,
    data4: 0xe6e6e6e6e6e6e6e6,
};

fn zero_guid() -> Guid {
    Guid { data1: 0, data2: 0, data3: 0, data4: 0 }
}

fn default_contact() -> InitiateContactRequest {
    InitiateContactRequest {
        target_message_vp: 0,
        monitor_page: None,
        client_id: zero_guid(),
    }
}

fn expected_contact2(client_id: Guid) -> OutgoingMessage {
    OutgoingMessage::InitiateContact2(InitiateContact2 {
        initiate_contact: InitiateContact {
            version_requested: version_number(Version::Copper),
            target_message_vp: 0,
            interrupt_page_or_target_info: make_target_info(2, 0, FeatureFlags::all()),
            parent_to_child_monitor_page_gpa: 0,
            child_to_parent_monitor_page_gpa: 0,
        },
        client_id,
    })
}

fn version_response2(supported: u8, state: u8, features: u32) -> Message {
    Message::VersionResponse2(VersionResponse2 {
        version_response: VersionResponse {
            version_supported: supported,
            connection_state: ConnectionState(state),
            padding: 0,
            selected_version_or_connection_id: 0,
        },
        supported_features: features,
    })
}

fn version_response(supported: u8, state: u8) -> Message {
    Message::VersionResponse(VersionResponse {
        version_supported: supported,
        connection_state: ConnectionState(state),
        padding: 0,
        selected_version_or_connection_id: 0,
    })
}

fn test_offer(id: u32) -> OfferChannel {
    OfferChannel {
        interface_id: Guid { data1: 0xf8615163, data2: 0xdf3e, data3: 0x46c5, data4: 0x913f_f2d2 },
        instance_id: Guid { data1: 7, data2: 8, data3: 9, data4: 10 },
        rsvd: [0u8; 16],
        flags: OfferFlags(0),
        mmio_megabytes: 0,
        user_defined: UserDefinedData::new_zeroed(),
        subchannel_index: 0,
        mmio_megabytes_optional: 0,
        channel_id: ChannelId(id),
        monitor_id: 0,
        monitor_allocated: 0,
        is_dedicated: 0,
        connection_id: 0,
    }
}

/// Connects at Copper with every feature granted.
fn connect(task: &mut ClientTask) {
    let actions = task
        .handle_client_request(ClientRequest::InitiateContact(default_contact()))
        .unwrap();
    assert_eq!(actions, vec![Action::Send(expected_contact2(zero_guid()))]);
    let actions = task
        .handle_synic_message(version_response2(1, CONNECTION_STATE_SUCCESSFUL, 15))
        .unwrap();
    assert_eq!(
        actions,
        vec![Action::CompleteConnect(Some(VersionInfo {
            version: Version::Copper,
            feature_flags: FeatureFlags::all(),
        }))]
    );
}

/// Connects, requests offers, and records channel 0.
fn get_channel(task: &mut ClientTask) {
    connect(task);
    let actions = task.handle_client_request(ClientRequest::RequestOffers).unwrap();
    assert_eq!(actions, vec![Action::Send(OutgoingMessage::RequestOffers)]);
    let actions = task.handle_synic_message(Message::OfferChannel(test_offer(0))).unwrap();
    assert_eq!(actions.len(), 1);
    assert!(matches!(actions[0], Action::OfferReceived(_)));
    let actions = task.handle_synic_message(Message::AllOffersDelivered).unwrap();
    assert_eq!(actions, vec![Action::AllOffersDelivered]);
}

#[test]
fn test_initiate_contact_success() {
    let mut task = ClientTask::new();
    let actions = task
        .handle_client_request(ClientRequest::InitiateContact(default_contact()))
        .unwrap();
    assert_eq!(actions, vec![Action::Send(expected_contact2(zero_guid()))]);
}

#[test]
fn test_client_id() {
    let mut task = ClientTask::new();
    let initiate_contact = InitiateContactRequest {
        client_id: VMBUS_TEST_CLIENT_ID,
        ..default_contact()
    };
    let actions = task
        .handle_client_request(ClientRequest::InitiateContact(initiate_contact))
        .unwrap();
    assert_eq!(actions, vec![Action::Send(expected_contact2(VMBUS_TEST_CLIENT_ID))]);
}

#[test]
fn test_connect_success() {
    let mut task = ClientTask::new();
    connect(&mut task);
}

#[test]
fn test_connect_parses_wire_response() {
    // the same connect, but with the version response arriving as bytes
    let mut task = ClientTask::new();
    let actions = task
        .handle_client_request(ClientRequest::InitiateContact(default_contact()))
        .unwrap();
    assert_eq!(actions.len(), 1);
    let mut frame = Vec::new();
    frame.extend_from_slice(&MSG_VERSION_RESPONSE.to_le_bytes());
    frame.extend_from_slice(&0u32.to_le_bytes());
    frame.push(1); // version_supported
    frame.push(CONNECTION_STATE_SUCCESSFUL);
    frame.extend_from_slice(&0u16.to_le_bytes());
    frame.extend_from_slice(&0u32.to_le_bytes());
    frame.extend_from_slice(&15u32.to_le_bytes()); // supported_features
    let msg = parse_message(&frame, None).unwrap();
    assert_eq!(msg, version_response2(1, CONNECTION_STATE_SUCCESSFUL, 15));
    let actions = task.handle_synic_message(msg).unwrap();
    assert_eq!(
        actions,
        vec![Action::CompleteConnect(Some(VersionInfo {
            version: Version::Copper,
            feature_flags: FeatureFlags::all(),
        }))]
    );
}

#[test]
fn test_feature_flags() {
    // the host grants a subset of the requested features
    let mut task = ClientTask::new();
    let _ = task
        .handle_client_request(ClientRequest::InitiateContact(default_contact()))
        .unwrap();
    let actions = task
        .handle_synic_message(version_response2(1, CONNECTION_STATE_SUCCESSFUL, 2))
        .unwrap();
    assert_eq!(
        actions,
        vec![Action::CompleteConnect(Some(VersionInfo {
            version: Version::Copper,
            feature_flags: FeatureFlags(2),
        }))]
    );
}

#[test]
fn test_version_negotiation() {
    // the host rejects Copper; the client walks down to Iron
    let mut task = ClientTask::new();
    let actions = task
        .handle_client_request(ClientRequest::InitiateContact(default_contact()))
        .unwrap();
    assert_eq!(actions, vec![Action::Send(expected_contact2(zero_guid()))]);
    let actions = task
        .handle_synic_message(version_response(0, CONNECTION_STATE_SUCCESSFUL))
        .unwrap();
    assert_eq!(
        actions,
        vec![Action::Send(OutgoingMessage::InitiateContact(InitiateContact {
            version_requested: version_number(Version::Iron),
            target_message_vp: 0,
            interrupt_page_or_target_info: make_target_info(2, 0, FeatureFlags::none()),
            parent_to_child_monitor_page_gpa: 0,
            child_to_parent_monitor_page_gpa: 0,
        }))]
    );
    let actions = task
        .handle_synic_message(version_response(1, CONNECTION_STATE_SUCCESSFUL))
        .unwrap();
    assert_eq!(
        actions,
        vec![Action::CompleteConnect(Some(VersionInfo {
            version: Version::Iron,
            feature_flags: FeatureFlags::none(),
        }))]
    );
}

#[test]
fn test_no_version_left_is_fatal() {
    let mut task = ClientTask::new();
    let _ = task
        .handle_client_request(ClientRequest::InitiateContact(default_contact()))
        .unwrap();
    let _ = task
        .handle_synic_message(version_response(0, CONNECTION_STATE_SUCCESSFUL))
        .unwrap();
    let r = task.handle_synic_message(version_response(0, CONNECTION_STATE_SUCCESSFUL));
    assert_eq!(r, Err(FatalError::NoSupportedVersion));
}

#[test]
fn test_connect_fails_on_incorrect_state() {
    let mut task = ClientTask::new();
    connect(&mut task);
    let actions = task
        .handle_client_request(ClientRequest::InitiateContact(default_contact()))
        .unwrap();
    assert_eq!(actions, vec![Action::CompleteConnect(None)]);
}

#[test]
fn test_request_offers_success() {
    let mut task = ClientTask::new();
    connect(&mut task);
    let actions = task.handle_client_request(ClientRequest::RequestOffers).unwrap();
    assert_eq!(actions, vec![Action::Send(OutgoingMessage::RequestOffers)]);
    let offer = test_offer(0);
    let actions = task.handle_synic_message(Message::OfferChannel(offer)).unwrap();
    assert_eq!(actions.len(), 1);
    match &actions[0] {
        Action::OfferReceived(info) => assert_eq!(info.offer, offer),
        other => panic!("unexpected action {:?}", other),
    }
    let actions = task.handle_synic_message(Message::AllOffersDelivered).unwrap();
    assert_eq!(actions, vec![Action::AllOffersDelivered]);
}

#[test]
fn test_hot_add_remove() {
    // an offer outside RequestingOffers goes to the notification sink;
    // the rescind posts one release notice and publishes a revocation
    let mut task = ClientTask::new();
    connect(&mut task);
    let offer = test_offer(5);
    let actions = task.handle_synic_message(Message::OfferChannel(offer)).unwrap();
    assert_eq!(actions.len(), 1);
    match &actions[0] {
        Action::Notify(ClientNotification::Offer(info)) => assert_eq!(info.offer, offer),
        other => panic!("unexpected action {:?}", other),
    }
    let actions = task
        .handle_synic_message(Message::RescindChannelOffer(RescindChannelOffer {
            channel_id: ChannelId(5),
        }))
        .unwrap();
    assert_eq!(
        actions,
        vec![
            Action::Send(OutgoingMessage::RelIdReleased(RelIdReleased {
                channel_id: ChannelId(5)
            })),
            Action::Notify(ClientNotification::Revoke(ChannelId(5))),
        ]
    );
}

#[test]
fn test_open_channel_success() {
    let mut task = ClientTask::new();
    get_channel(&mut task);
    let open = OpenRequest {
        open_data: OpenData {
            target_vp: 0,
            ring_offset: 0,
            ring_gpadl_id: GpadlId(0),
            event_flag: 0,
            connection_id: 0,
            user_data: UserDefinedData::new_zeroed(),
        },
        flags: OpenChannelFlags(0),
    };
    let actions = task
        .handle_channel_request(ChannelId(0), ChannelRequest::Open(Rpc { request: open, reply: 7 }))
        .unwrap();
    assert_eq!(
        actions,
        vec![Action::Send(OutgoingMessage::OpenChannel2(OpenChannel2 {
            open_channel: OpenChannel {
                channel_id: ChannelId(0),
                open_id: 0,
                ring_buffer_gpadl_id: GpadlId(0),
                target_vp: 0,
                downstream_ring_buffer_page_offset: 0,
                user_data: UserDefinedData::new_zeroed(),
            },
            connection_id: 0,
            event_flag: 0,
            flags: 0,
        }))]
    );
    let actions = task
        .handle_synic_message(Message::OpenResult(OpenResult {
            channel_id: ChannelId(0),
            open_id: 0,
            status: STATUS_SUCCESS as u32,
        }))
        .unwrap();
    assert_eq!(actions, vec![Action::CompleteOpen(7, true)]);
}

#[test]
fn test_open_channel_fail() {
    let mut task = ClientTask::new();
    get_channel(&mut task);
    let open = OpenRequest {
        open_data: OpenData {
            target_vp: 0,
            ring_offset: 0,
            ring_gpadl_id: GpadlId(0),
            event_flag: 0,
            connection_id: 0,
            user_data: UserDefinedData::new_zeroed(),
        },
        flags: OpenChannelFlags(0),
    };
    let actions = task
        .handle_channel_request(ChannelId(0), ChannelRequest::Open(Rpc { request: open, reply: 7 }))
        .unwrap();
    assert_eq!(actions.len(), 1);
    let actions = task
        .handle_synic_message(Message::OpenResult(OpenResult {
            channel_id: ChannelId(0),
            open_id: 0,
            status: STATUS_UNSUCCESSFUL as u32,
        }))
        .unwrap();
    assert_eq!(actions, vec![Action::CompleteOpen(7, false)]);
}

#[test]
fn test_modify_channel() {
    let mut task = ClientTask::new();
    get_channel(&mut task);
    let actions = task
        .handle_channel_request(
            ChannelId(0),
            ChannelRequest::Modify(Rpc {
                request: ModifyRequest::TargetVp { target_vp: 1 },
                reply: 11,
            }),
        )
        .unwrap();
    assert_eq!(
        actions,
        vec![Action::Send(OutgoingMessage::ModifyChannel(ModifyChannel {
            channel_id: ChannelId(0),
            target_vp: 1,
        }))]
    );
    let actions = task
        .handle_synic_message(Message::ModifyChannelResponse(ModifyChannelResponse {
            channel_id: ChannelId(0),
            status: STATUS_SUCCESS,
        }))
        .unwrap();
    assert_eq!(actions, vec![Action::CompleteModifyChannel(11, STATUS_SUCCESS)]);
}

#[test]
fn test_gpadl_success() {
    let mut task = ClientTask::new();
    get_channel(&mut task);
    let actions = task
        .handle_channel_request(
            ChannelId(0),
            ChannelRequest::Gpadl(Rpc {
                request: GpadlRequest { id: GpadlId(1), count: 1, buf: vec![5] },
                reply: 9,
            }),
        )
        .unwrap();
    assert_eq!(actions.len(), 1);
    match &actions[0] {
        Action::Send(OutgoingMessage::GpadlHeader(header, data)) => {
            assert_eq!(
                *header,
                GpadlHeader { channel_id: ChannelId(0), gpadl_id: GpadlId(1), len: 8, count: 1 }
            );
            assert_eq!(data.as_slice(), &0x5u64.to_le_bytes());
        }
        other => panic!("unexpected action {:?}", other),
    }
    let actions = task
        .handle_synic_message(Message::GpadlCreated(GpadlCreated {
            channel_id: ChannelId(0),
            gpadl_id: GpadlId(1),
            status: STATUS_SUCCESS,
        }))
        .unwrap();
    assert_eq!(actions, vec![Action::CompleteGpadl(9, true)]);
    let actions = task
        .handle_channel_request(ChannelId(0), ChannelRequest::TeardownGpadl(GpadlId(1)))
        .unwrap();
    assert_eq!(
        actions,
        vec![Action::Send(OutgoingMessage::GpadlTeardown(GpadlTeardown {
            channel_id: ChannelId(0),
            gpadl_id: GpadlId(1),
        }))]
    );
    let actions = task
        .handle_synic_message(Message::GpadlTorndown(GpadlTorndown { gpadl_id: GpadlId(1) }))
        .unwrap();
    assert_eq!(
        actions,
        vec![Action::Respond(ChannelId(0), ChannelResponse::TeardownGpadl(GpadlId(1)))]
    );
}

#[test]
fn test_gpadl_fail() {
    let mut task = ClientTask::new();
    get_channel(&mut task);
    let actions = task
        .handle_channel_request(
            ChannelId(0),
            ChannelRequest::Gpadl(Rpc {
                request: GpadlRequest { id: GpadlId(1), count: 1, buf: vec![7] },
                reply: 9,
            }),
        )
        .unwrap();
    assert_eq!(actions.len(), 1);
    let actions = task
        .handle_synic_message(Message::GpadlCreated(GpadlCreated {
            channel_id: ChannelId(0),
            gpadl_id: GpadlId(1),
            status: STATUS_UNSUCCESSFUL,
        }))
        .unwrap();
    assert_eq!(actions, vec![Action::CompleteGpadl(9, false)]);
}

#[test]
fn test_gpadl_with_revoke() {
    // a rescind while the teardown is in flight answers the caller at
    // once and swallows the later confirmation
    let mut task = ClientTask::new();
    get_channel(&mut task);
    let _ = task
        .handle_channel_request(
            ChannelId(0),
            ChannelRequest::Gpadl(Rpc {
                request: GpadlRequest { id: GpadlId(1), count: 1, buf: vec![3] },
                reply: 9,
            }),
        )
        .unwrap();
    let _ = task
        .handle_synic_message(Message::GpadlCreated(GpadlCreated {
            channel_id: ChannelId(0),
            gpadl_id: GpadlId(1),
            status: STATUS_SUCCESS,
        }))
        .unwrap();
    let _ = task
        .handle_channel_request(ChannelId(0), ChannelRequest::TeardownGpadl(GpadlId(1)))
        .unwrap();
    let actions = task
        .handle_synic_message(Message::RescindChannelOffer(RescindChannelOffer {
            channel_id: ChannelId(0),
        }))
        .unwrap();
    assert_eq!(
        actions,
        vec![
            Action::Respond(ChannelId(0), ChannelResponse::TeardownGpadl(GpadlId(1))),
            Action::Send(OutgoingMessage::RelIdReleased(RelIdReleased {
                channel_id: ChannelId(0)
            })),
            Action::Notify(ClientNotification::Revoke(ChannelId(0))),
        ]
    );
    // the confirmation of the implicit teardown is swallowed
    let actions = task
        .handle_synic_message(Message::GpadlTorndown(GpadlTorndown { gpadl_id: GpadlId(1) }))
        .unwrap();
    assert_eq!(actions, Vec::new());
}

#[test]
fn test_modify_connection() {
    let mut task = ClientTask::new();
    connect(&mut task);
    let actions = task
        .handle_client_request(ClientRequest::Modify(Rpc {
            request: ModifyConnectionRequest {
                monitor_page: Some(MonitorPageGpas { child_to_parent: 5, parent_to_child: 6 }),
            },
            reply: 3,
        }))
        .unwrap();
    assert_eq!(
        actions,
        vec![Action::Send(OutgoingMessage::ModifyConnection(ModifyConnection {
            parent_to_child_monitor_page_gpa: 6,
            child_to_parent_monitor_page_gpa: 5,
        }))]
    );
    let actions = task
        .handle_synic_message(Message::ModifyConnectionResponse(ModifyConnectionResponse {
            connection_state: ConnectionState(CONNECTION_STATE_FAILED_LOW_RESOURCES),
        }))
        .unwrap();
    assert_eq!(
        actions,
        vec![Action::CompleteModify(3, ConnectionState(CONNECTION_STATE_FAILED_LOW_RESOURCES))]
    );
}

#[test]
fn test_modify_rejected_without_feature() {
    // post-connect at Iron the modify-connection feature is absent
    let mut task = ClientTask::new();
    let _ = task
        .handle_client_request(ClientRequest::InitiateContact(default_contact()))
        .unwrap();
    let _ = task
        .handle_synic_message(version_response(0, CONNECTION_STATE_SUCCESSFUL))
        .unwrap();
    let _ = task
        .handle_synic_message(version_response(1, CONNECTION_STATE_SUCCESSFUL))
        .unwrap();
    let actions = task
        .handle_client_request(ClientRequest::Modify(Rpc {
            request: ModifyConnectionRequest { monitor_page: None },
            reply: 3,
        }))
        .unwrap();
    assert_eq!(
        actions,
        vec![Action::CompleteModify(3, ConnectionState(CONNECTION_STATE_FAILED_UNKNOWN_FAILURE))]
    );
}

#[test]
fn test_hvsock() {
    let mut task = ClientTask::new();
    connect(&mut task);
    let request = HvsockConnectRequest {
        service_id: Guid { data1: 1, data2: 2, data3: 3, data4: 4 },
        endpoint_id: Guid { data1: 5, data2: 6, data3: 7, data4: 8 },
        silo_id: Guid { data1: 9, data2: 10, data3: 11, data4: 12 },
    };
    let actions = task
        .handle_client_request(ClientRequest::HvsockConnect(request))
        .unwrap();
    assert_eq!(
        actions,
        vec![Action::Send(OutgoingMessage::TlConnectRequest2(TlConnectRequest2 {
            base: TlConnectRequest {
                service_id: request.service_id,
                endpoint_id: request.endpoint_id,
            },
            silo_id: request.silo_id,
        }))]
    );
    let actions = task
        .handle_synic_message(Message::TlConnectResult(TlConnectResult {
            service_id: request.service_id,
            endpoint_id: request.endpoint_id,
            status: 0,
        }))
        .unwrap();
    assert_eq!(
        actions,
        vec![Action::Notify(ClientNotification::HvsockConnectResult(HvsockConnectResult {
            service_id: request.service_id,
            endpoint_id: request.endpoint_id,
            success: true,
        }))]
    );
    let actions = task
        .handle_synic_message(Message::TlConnectResult(TlConnectResult {
            service_id: request.service_id,
            endpoint_id: request.endpoint_id,
            status: vmbus_client::protocol::STATUS_CONNECTION_REFUSED,
        }))
        .unwrap();
    assert_eq!(
        actions,
        vec![Action::Notify(ClientNotification::HvsockConnectResult(HvsockConnectResult {
            service_id: request.service_id,
            endpoint_id: request.endpoint_id,
            success: false,
        }))]
    );
}

#[test]
fn test_unload() {
    let mut task = ClientTask::new();
    connect(&mut task);
    let actions = task.handle_client_request(ClientRequest::Unload).unwrap();
    assert_eq!(actions, vec![Action::Send(OutgoingMessage::Unload)]);
    let actions = task.handle_synic_message(Message::UnloadComplete).unwrap();
    assert_eq!(actions, vec![Action::CompleteUnload]);
}

#[test]
fn test_unload_without_version_is_fatal() {
    let mut task = ClientTask::new();
    let r = task.handle_client_request(ClientRequest::Unload);
    assert_eq!(r, Err(FatalError::InvalidStateForUnload));
}

#[test]
fn test_server_message_is_fatal() {
    let mut task = ClientTask::new();
    connect(&mut task);
    let r = task.handle_synic_message(Message::RequestOffers);
    assert_eq!(r, Err(FatalError::ServerMessage(Message::RequestOffers)));
    let r = task.handle_synic_message(Message::CloseReservedChannelResponse);
    assert_eq!(
        r,
        Err(FatalError::UnsupportedMessage(Message::CloseReservedChannelResponse))
    );
}

#[test]
fn test_event_flag_mismatch_is_fatal() {
    // connected at Iron the host picks signal parameters, so a
    // guest-specified event flag must equal the channel id
    let mut task = ClientTask::new();
    let _ = task
        .handle_client_request(ClientRequest::InitiateContact(default_contact()))
        .unwrap();
    let _ = task
        .handle_synic_message(version_response(0, CONNECTION_STATE_SUCCESSFUL))
        .unwrap();
    let _ = task
        .handle_synic_message(version_response(1, CONNECTION_STATE_SUCCESSFUL))
        .unwrap();
    let _ = task.handle_synic_message(Message::OfferChannel(test_offer(3))).unwrap();
    let open = OpenRequest {
        open_data: OpenData {
            target_vp: 0,
            ring_offset: 0,
            ring_gpadl_id: GpadlId(0),
            event_flag: 7,
            connection_id: 0,
            user_data: UserDefinedData::new_zeroed(),
        },
        flags: OpenChannelFlags(0),
    };
    let r = task.handle_channel_request(
        ChannelId(3),
        ChannelRequest::Open(Rpc { request: open, reply: 1 }),
    );
    assert_eq!(r, Err(FatalError::EventFlagMismatch(ChannelId(3))));
}

#[test]
fn test_duplicate_gpadl_is_fatal() {
    let mut task = ClientTask::new();
    get_channel(&mut task);
    let _ = task
        .handle_channel_request(
            ChannelId(0),
            ChannelRequest::Gpadl(Rpc {
                request: GpadlRequest { id: GpadlId(1), count: 1, buf: vec![5] },
                reply: 9,
            }),
        )
        .unwrap();
    let r = task.handle_channel_request(
        ChannelId(0),
        ChannelRequest::Gpadl(Rpc {
            request: GpadlRequest { id: GpadlId(1), count: 1, buf: vec![6] },
            reply: 10,
        }),
    );
    assert_eq!(r, Err(FatalError::DuplicateGpadlId(ChannelId(0), GpadlId(1))));
}

#[test]
fn test_gpadl_chunked_bodies() {
    // 60 values: 27 in the header, then bodies of 28 and 5
    let mut task = ClientTask::new();
    get_channel(&mut task);
    let buf: Vec<u64> = (0..60u64).collect();
    let actions = task
        .handle_channel_request(
            ChannelId(0),
            ChannelRequest::Gpadl(Rpc {
                request: GpadlRequest { id: GpadlId(2), count: 1, buf },
                reply: 9,
            }),
        )
        .unwrap();
    assert_eq!(actions.len(), 3);
    match &actions[0] {
        Action::Send(OutgoingMessage::GpadlHeader(header, data)) => {
            assert_eq!(header.len, 480);
            assert_eq!(data.len(), 27 * 8);
        }
        other => panic!("unexpected action {:?}", other),
    }
    match &actions[1] {
        Action::Send(OutgoingMessage::GpadlBody(body, data)) => {
            assert_eq!(body.gpadl_id, GpadlId(2));
            assert_eq!(data.len(), 28 * 8);
            assert_eq!(&data[0..8], &27u64.to_le_bytes());
        }
        other => panic!("unexpected action {:?}", other),
    }
    match &actions[2] {
        Action::Send(OutgoingMessage::GpadlBody(_, data)) => {
            assert_eq!(data.len(), 5 * 8);
            assert_eq!(&data[0..8], &55u64.to_le_bytes());
        }
        other => panic!("unexpected action {:?}", other),
    }
}

#[test]
fn test_close_channel() {
    let mut task = ClientTask::new();
    get_channel(&mut task);
    let open = OpenRequest {
        open_data: OpenData {
            target_vp: 0,
            ring_offset: 0,
            ring_gpadl_id: GpadlId(0),
            event_flag: 0,
            connection_id: 0,
            user_data: UserDefinedData::new_zeroed(),
        },
        flags: OpenChannelFlags(0),
    };
    let _ = task
        .handle_channel_request(ChannelId(0), ChannelRequest::Open(Rpc { request: open, reply: 7 }))
        .unwrap();
    let _ = task
        .handle_synic_message(Message::OpenResult(OpenResult {
            channel_id: ChannelId(0),
            open_id: 0,
            status: 0,
        }))
        .unwrap();
    let actions = task
        .handle_channel_request(ChannelId(0), ChannelRequest::Close)
        .unwrap();
    assert_eq!(
        actions,
        vec![Action::Send(OutgoingMessage::CloseChannel(
            vmbus_client::protocol::CloseChannel { channel_id: ChannelId(0) }
        ))]
    );
    // a close while not open does nothing
    let actions = task
        .handle_channel_request(ChannelId(0), ChannelRequest::Close)
        .unwrap();
    assert_eq!(actions, Vec::new());
}
