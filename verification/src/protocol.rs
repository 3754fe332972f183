//! Wire-level definitions of the VMBus message family used by the client:
//! protocol versions, feature flags, message bodies and their byte layout.
//!
//! Every message travels as a little-endian frame: a 32-bit message type,
//! 32 reserved bits, the fixed-size body, then any trailing data. The
//! `spec_bytes` function of each body type is the authoritative statement
//! of its layout; encoding and parsing are proved against it.

use vstd::prelude::*;

verus! {

use vstd::bytes::spec_u16_to_le_bytes;
use vstd::bytes::spec_u32_to_le_bytes;
use vstd::bytes::spec_u64_to_le_bytes;
use vstd::bytes::spec_u16_from_le_bytes;
use vstd::bytes::spec_u32_from_le_bytes;
use vstd::bytes::spec_u64_from_le_bytes;
use vstd::bytes::u16_to_le_bytes;
use vstd::bytes::u32_to_le_bytes;
use vstd::bytes::u64_to_le_bytes;
use vstd::bytes::u16_from_le_bytes;
use vstd::bytes::u32_from_le_bytes;
use vstd::bytes::u64_from_le_bytes;
use vstd::slice::slice_subrange;

/// Synic connection id on which every client message is posted.
pub const VMBUS_MESSAGE_REDIRECT_CONNECTION_ID: u32 = 4;

/// Largest frame a synic message can carry.
pub const MAX_MESSAGE_SIZE: usize = 240;

/// 64-bit values that fit a frame beside the 8-byte header and the
/// 12-byte `GpadlHeader` body: (240 - 8 - 12) / 8.
pub const GPADL_HEADER_MAX_DATA_VALUES: usize = 27;

/// 64-bit values that fit a frame beside the 8-byte header and the
/// 8-byte `GpadlBody` body: (240 - 8 - 8) / 8.
pub const GPADL_BODY_MAX_DATA_VALUES: usize = 28;

/// NT success status.
pub const STATUS_SUCCESS: i32 = 0;

/// Generic NT failure status.
pub const STATUS_UNSUCCESSFUL: i32 = -1073741823;

/// NT status for a refused connection.
pub const STATUS_CONNECTION_REFUSED: i32 = -1073741258;

// Wire numbers of the message kinds, as carried in the frame header.
pub const MSG_OFFER_CHANNEL: u32 = 1;
pub const MSG_RESCIND_CHANNEL_OFFER: u32 = 2;
pub const MSG_REQUEST_OFFERS: u32 = 3;
pub const MSG_ALL_OFFERS_DELIVERED: u32 = 4;
pub const MSG_OPEN_CHANNEL: u32 = 5;
pub const MSG_OPEN_CHANNEL_RESULT: u32 = 6;
pub const MSG_CLOSE_CHANNEL: u32 = 7;
pub const MSG_GPADL_HEADER: u32 = 8;
pub const MSG_GPADL_BODY: u32 = 9;
pub const MSG_GPADL_CREATED: u32 = 10;
pub const MSG_GPADL_TEARDOWN: u32 = 11;
pub const MSG_GPADL_TORNDOWN: u32 = 12;
pub const MSG_REL_ID_RELEASED: u32 = 13;
pub const MSG_INITIATE_CONTACT: u32 = 14;
pub const MSG_VERSION_RESPONSE: u32 = 15;
pub const MSG_UNLOAD: u32 = 16;
pub const MSG_UNLOAD_COMPLETE: u32 = 17;
pub const MSG_OPEN_RESERVED_CHANNEL: u32 = 18;
pub const MSG_CLOSE_RESERVED_CHANNEL: u32 = 19;
pub const MSG_CLOSE_RESERVED_CHANNEL_RESPONSE: u32 = 20;
pub const MSG_TL_CONNECT_REQUEST: u32 = 21;
pub const MSG_MODIFY_CHANNEL: u32 = 22;
pub const MSG_TL_CONNECT_RESULT: u32 = 23;
pub const MSG_MODIFY_CHANNEL_RESPONSE: u32 = 24;
pub const MSG_MODIFY_CONNECTION: u32 = 25;
pub const MSG_MODIFY_CONNECTION_RESPONSE: u32 = 26;

// Feature flag bits negotiated at Copper and above.
pub const FEATURE_GUEST_SPECIFIED_SIGNAL_PARAMETERS: u32 = 1;
pub const FEATURE_CHANNEL_INTERRUPT_REDIRECTION: u32 = 2;
pub const FEATURE_MODIFY_CONNECTION: u32 = 4;
pub const FEATURE_CLIENT_ID: u32 = 8;

/// Every feature flag this client implements.
pub const SUPPORTED_FEATURE_MASK: u32 = 15;

/// Negotiable protocol versions, oldest first.
#[derive(Clone, Copy, Debug, PartialEq, Eq, Structural)]
pub enum Version {
    Iron,
    Copper,
}

/// The wire number of a protocol version.
pub open spec fn spec_version_number(v: Version) -> u32 {
    match v {
        Version::Iron => 0x40004,
        Version::Copper => 0x50000,
    }
}

/// Returns the wire number a version is announced under.
#[verifier::when_used_as_spec(spec_version_number)]
pub fn version_number(v: Version) -> (n: u32)
    ensures
        n == spec_version_number(v),
{
    match v {
        Version::Iron => 0x40004,
        Version::Copper => 0x50000,
    }
}

/// A mask of negotiated optional protocol behaviors.
#[derive(Clone, Copy, Debug, PartialEq, Eq, Structural)]
pub struct FeatureFlags(pub u32);

impl FeatureFlags {
    /// The empty feature mask.
    pub fn none() -> (r: FeatureFlags)
        ensures
            r.0 == 0,
    {
        FeatureFlags(0)
    }

    /// Every feature this client implements.
    pub fn all() -> (r: FeatureFlags)
        ensures
            r.0 == SUPPORTED_FEATURE_MASK,
    {
        FeatureFlags(SUPPORTED_FEATURE_MASK)
    }

    /// Whether the guest may pick its own signal parameters on open.
    pub fn guest_specified_signal_parameters(&self) -> (b: bool)
        ensures
            b == (self.0 & FEATURE_GUEST_SPECIFIED_SIGNAL_PARAMETERS != 0),
    {
        self.0 & FEATURE_GUEST_SPECIFIED_SIGNAL_PARAMETERS != 0
    }

    /// Whether channel interrupts can be redirected on open.
    pub fn channel_interrupt_redirection(&self) -> (b: bool)
        ensures
            b == (self.0 & FEATURE_CHANNEL_INTERRUPT_REDIRECTION != 0),
    {
        self.0 & FEATURE_CHANNEL_INTERRUPT_REDIRECTION != 0
    }

    /// Whether the connection's monitor pages can be changed after connect.
    pub fn modify_connection(&self) -> (b: bool)
        ensures
            b == (self.0 & FEATURE_MODIFY_CONNECTION != 0),
    {
        self.0 & FEATURE_MODIFY_CONNECTION != 0
    }

    /// The flags both masks contain.
    pub fn intersect(&self, other: FeatureFlags) -> (r: FeatureFlags)
        ensures
            r.0 == self.0 & other.0,
    {
        FeatureFlags(self.0 & other.0)
    }
}

/// A negotiated protocol version together with its feature mask.
#[derive(Clone, Copy, Debug, PartialEq, Eq, Structural)]
pub struct VersionInfo {
    pub version: Version,
    pub feature_flags: FeatureFlags,
}

/// Runtime identifier of a channel.
#[derive(Clone, Copy, Debug, PartialEq, Eq, Structural)]
pub struct ChannelId(pub u32);

/// Identifier of a guest physical address descriptor list.
#[derive(Clone, Copy, Debug, PartialEq, Eq, Structural)]
pub struct GpadlId(pub u32);

/// A globally unique identifier, stored as its four little-endian groups.
#[derive(Clone, Copy, Debug, PartialEq, Eq, Structural)]
pub struct Guid {
    pub data1: u32,
    pub data2: u16,
    pub data3: u16,
    pub data4: u64,
}

impl Guid {
    /// The all-zero identifier.
    pub fn zero() -> (g: Guid)
        ensures
            g == (Guid { data1: 0, data2: 0, data3: 0, data4: 0 }),
    {
        Guid { data1: 0, data2: 0, data3: 0, data4: 0 }
    }
}

/// The 16 bytes of a GUID on the wire.
pub open spec fn spec_guid_bytes(g: Guid) -> Seq<u8> {
    spec_u32_to_le_bytes(g.data1) + spec_u16_to_le_bytes(g.data2) + spec_u16_to_le_bytes(g.data3)
        + spec_u64_to_le_bytes(g.data4)
}

/// The GUID whose wire form is the 16 bytes at `off` in `b`.
pub open spec fn spec_guid_from_bytes(b: Seq<u8>, off: int) -> Guid {
    Guid {
        data1: spec_u32_from_le_bytes(b.subrange(off, off + 4)),
        data2: spec_u16_from_le_bytes(b.subrange(off + 4, off + 6)),
        data3: spec_u16_from_le_bytes(b.subrange(off + 6, off + 8)),
        data4: spec_u64_from_le_bytes(b.subrange(off + 8, off + 16)),
    }
}

/// 120 bytes of opaque, device-specific data carried by an offer and an open.
#[derive(Clone, Copy, Debug, PartialEq, Eq)]
pub struct UserDefinedData(pub [u8; 120]);

impl UserDefinedData {
    /// Data of all zero bytes.
    pub fn new_zeroed() -> (r: UserDefinedData)
        ensures
            r.0@ =~= Seq::new(120, |i: int| 0u8),
    {
        UserDefinedData([0u8; 120])
    }
}

/// Result state reported by the host for connection-level requests.
#[derive(Clone, Copy, Debug, PartialEq, Eq, Structural)]
pub struct ConnectionState(pub u8);

pub const CONNECTION_STATE_SUCCESSFUL: u8 = 0;
pub const CONNECTION_STATE_FAILED_LOW_RESOURCES: u8 = 1;
pub const CONNECTION_STATE_FAILED_UNKNOWN_FAILURE: u8 = 2;

impl ConnectionState {
    /// The success state.
    pub fn successful() -> (r: ConnectionState)
        ensures
            r.0 == CONNECTION_STATE_SUCCESSFUL,
    {
        ConnectionState(CONNECTION_STATE_SUCCESSFUL)
    }
}

/// Packed routing information sent with the initial contact: the synic
/// interrupt source, the target VTL, and the requested feature flags.
pub open spec fn spec_target_info(sint: u8, vtl: u8, flags: FeatureFlags) -> u64 {
    (sint as u64) | ((vtl as u64) << 8) | ((flags.0 as u64) << 32)
}

/// Packs the synic sint, VTL and requested features into the contact field.
pub fn make_target_info(sint: u8, vtl: u8, flags: FeatureFlags) -> (r: u64)
    ensures
        r == spec_target_info(sint, vtl, flags),
{
    (sint as u64) | ((vtl as u64) << 8) | ((flags.0 as u64) << 32)
}

/// Flags carried by a channel offer.
#[derive(Clone, Copy, Debug, PartialEq, Eq, Structural)]
pub struct OfferFlags(pub u16);

impl OfferFlags {
    /// The empty flag set.
    pub fn none() -> (r: OfferFlags)
        ensures
            r.0 == 0,
    {
        OfferFlags(0)
    }
}

/// Flags a caller may request on an open at Copper and above.
#[derive(Clone, Copy, Debug, PartialEq, Eq, Structural)]
pub struct OpenChannelFlags(pub u16);

impl OpenChannelFlags {
    /// The empty flag set.
    pub fn none() -> (r: OpenChannelFlags)
        ensures
            r.0 == 0,
    {
        OpenChannelFlags(0)
    }
}

/// First contact request, in the form used below Copper.
#[derive(Clone, Copy, Debug, PartialEq, Eq, Structural)]
pub struct InitiateContact {
    pub version_requested: u32,
    pub target_message_vp: u32,
    pub interrupt_page_or_target_info: u64,
    pub parent_to_child_monitor_page_gpa: u64,
    pub child_to_parent_monitor_page_gpa: u64,
}

impl InitiateContact {
    /// Byte layout of the body.
    pub open spec fn spec_bytes(self) -> Seq<u8> {
        spec_u32_to_le_bytes(self.version_requested) + spec_u32_to_le_bytes(
            self.target_message_vp,
        ) + spec_u64_to_le_bytes(self.interrupt_page_or_target_info) + spec_u64_to_le_bytes(
            self.parent_to_child_monitor_page_gpa,
        ) + spec_u64_to_le_bytes(self.child_to_parent_monitor_page_gpa)
    }
}

/// First contact request at Copper and above; adds the client id.
#[derive(Clone, Copy, Debug, PartialEq, Eq, Structural)]
pub struct InitiateContact2 {
    pub initiate_contact: InitiateContact,
    pub client_id: Guid,
}

impl InitiateContact2 {
    /// Byte layout of the body.
    pub open spec fn spec_bytes(self) -> Seq<u8> {
        self.initiate_contact.spec_bytes() + spec_guid_bytes(self.client_id)
    }
}

/// The host's answer to an initial contact, in the form used below Copper.
#[derive(Clone, Copy, Debug, PartialEq, Eq, Structural)]
pub struct VersionResponse {
    pub version_supported: u8,
    pub connection_state: ConnectionState,
    pub padding: u16,
    pub selected_version_or_connection_id: u32,
}

impl VersionResponse {
    /// Byte layout of the body.
    pub open spec fn spec_bytes(self) -> Seq<u8> {
        seq![self.version_supported, self.connection_state.0] + spec_u16_to_le_bytes(self.padding)
            + spec_u32_to_le_bytes(self.selected_version_or_connection_id)
    }
}

/// The host's answer at Copper and above; adds the granted feature mask.
#[derive(Clone, Copy, Debug, PartialEq, Eq, Structural)]
pub struct VersionResponse2 {
    pub version_response: VersionResponse,
    pub supported_features: u32,
}

impl VersionResponse2 {
    /// Byte layout of the body.
    pub open spec fn spec_bytes(self) -> Seq<u8> {
        self.version_response.spec_bytes() + spec_u32_to_le_bytes(self.supported_features)
    }
}

/// A channel the host makes available to this client.
#[derive(Clone, Copy, Debug, PartialEq, Eq)]
pub struct OfferChannel {
    pub interface_id: Guid,
    pub instance_id: Guid,
    pub rsvd: [u8; 16],
    pub flags: OfferFlags,
    pub mmio_megabytes: u16,
    pub user_defined: UserDefinedData,
    pub subchannel_index: u16,
    pub mmio_megabytes_optional: u16,
    pub channel_id: ChannelId,
    pub monitor_id: u8,
    pub monitor_allocated: u8,
    pub is_dedicated: u16,
    pub connection_id: u32,
}

impl OfferChannel {
    /// Byte layout of the body.
    pub open spec fn spec_bytes(self) -> Seq<u8> {
        spec_guid_bytes(self.interface_id) + spec_guid_bytes(self.instance_id) + self.rsvd@
            + spec_u16_to_le_bytes(self.flags.0) + spec_u16_to_le_bytes(self.mmio_megabytes)
            + self.user_defined.0@ + spec_u16_to_le_bytes(self.subchannel_index)
            + spec_u16_to_le_bytes(self.mmio_megabytes_optional) + spec_u32_to_le_bytes(
            self.channel_id.0,
        ) + seq![self.monitor_id, self.monitor_allocated] + spec_u16_to_le_bytes(self.is_dedicated)
            + spec_u32_to_le_bytes(self.connection_id)
    }
}

/// Host revocation of a previously offered channel.
#[derive(Clone, Copy, Debug, PartialEq, Eq, Structural)]
pub struct RescindChannelOffer {
    pub channel_id: ChannelId,
}

impl RescindChannelOffer {
    /// Byte layout of the body.
    pub open spec fn spec_bytes(self) -> Seq<u8> {
        spec_u32_to_le_bytes(self.channel_id.0)
    }
}

/// Request to open an offered channel, in the form used when the host
/// picks the signal parameters.
#[derive(Clone, Copy, Debug, PartialEq, Eq)]
pub struct OpenChannel {
    pub channel_id: ChannelId,
    pub open_id: u32,
    pub ring_buffer_gpadl_id: GpadlId,
    pub target_vp: u32,
    pub downstream_ring_buffer_page_offset: u32,
    pub user_data: UserDefinedData,
}

impl OpenChannel {
    /// Byte layout of the body.
    pub open spec fn spec_bytes(self) -> Seq<u8> {
        spec_u32_to_le_bytes(self.channel_id.0) + spec_u32_to_le_bytes(self.open_id)
            + spec_u32_to_le_bytes(self.ring_buffer_gpadl_id.0) + spec_u32_to_le_bytes(
            self.target_vp,
        ) + spec_u32_to_le_bytes(self.downstream_ring_buffer_page_offset) + self.user_data.0@
    }
}

/// Open request carrying guest-specified signal parameters.
#[derive(Clone, Copy, Debug, PartialEq, Eq)]
pub struct OpenChannel2 {
    pub open_channel: OpenChannel,
    pub connection_id: u32,
    pub event_flag: u16,
    pub flags: u16,
}

impl OpenChannel2 {
    /// Byte layout of the body.
    pub open spec fn spec_bytes(self) -> Seq<u8> {
        self.open_channel.spec_bytes() + spec_u32_to_le_bytes(self.connection_id)
            + spec_u16_to_le_bytes(self.event_flag) + spec_u16_to_le_bytes(self.flags)
    }
}

/// The host's answer to an open request.
#[derive(Clone, Copy, Debug, PartialEq, Eq, Structural)]
pub struct OpenResult {
    pub channel_id: ChannelId,
    pub open_id: u32,
    pub status: u32,
}

impl OpenResult {
    /// Byte layout of the body.
    pub open spec fn spec_bytes(self) -> Seq<u8> {
        spec_u32_to_le_bytes(self.channel_id.0) + spec_u32_to_le_bytes(self.open_id)
            + spec_u32_to_le_bytes(self.status)
    }
}

/// Request to close an open channel; the host does not answer it.
#[derive(Clone, Copy, Debug, PartialEq, Eq, Structural)]
pub struct CloseChannel {
    pub channel_id: ChannelId,
}

impl CloseChannel {
    /// Byte layout of the body.
    pub open spec fn spec_bytes(self) -> Seq<u8> {
        spec_u32_to_le_bytes(self.channel_id.0)
    }
}

/// First chunk of a GPADL registration; trailing data carries the first
/// page values.
#[derive(Clone, Copy, Debug, PartialEq, Eq, Structural)]
pub struct GpadlHeader {
    pub channel_id: ChannelId,
    pub gpadl_id: GpadlId,
    pub len: u16,
    pub count: u16,
}

impl GpadlHeader {
    /// Byte layout of the body.
    pub open spec fn spec_bytes(self) -> Seq<u8> {
        spec_u32_to_le_bytes(self.channel_id.0) + spec_u32_to_le_bytes(self.gpadl_id.0)
            + spec_u16_to_le_bytes(self.len) + spec_u16_to_le_bytes(self.count)
    }
}

/// Continuation chunk of a GPADL registration; trailing data carries
/// further page values.
#[derive(Clone, Copy, Debug, PartialEq, Eq, Structural)]
pub struct GpadlBody {
    pub rsvd: u32,
    pub gpadl_id: GpadlId,
}

impl GpadlBody {
    /// Byte layout of the body.
    pub open spec fn spec_bytes(self) -> Seq<u8> {
        spec_u32_to_le_bytes(self.rsvd) + spec_u32_to_le_bytes(self.gpadl_id.0)
    }
}

/// The host's answer to a GPADL registration.
#[derive(Clone, Copy, Debug, PartialEq, Eq, Structural)]
pub struct GpadlCreated {
    pub channel_id: ChannelId,
    pub gpadl_id: GpadlId,
    pub status: i32,
}

impl GpadlCreated {
    /// Byte layout of the body.
    pub open spec fn spec_bytes(self) -> Seq<u8> {
        spec_u32_to_le_bytes(self.channel_id.0) + spec_u32_to_le_bytes(self.gpadl_id.0)
            + spec_u32_to_le_bytes(self.status as u32)
    }
}

/// Request to tear a registered GPADL down.
#[derive(Clone, Copy, Debug, PartialEq, Eq, Structural)]
pub struct GpadlTeardown {
    pub channel_id: ChannelId,
    pub gpadl_id: GpadlId,
}

impl GpadlTeardown {
    /// Byte layout of the body.
    pub open spec fn spec_bytes(self) -> Seq<u8> {
        spec_u32_to_le_bytes(self.channel_id.0) + spec_u32_to_le_bytes(self.gpadl_id.0)
    }
}

/// The host's confirmation that a GPADL is gone.
#[derive(Clone, Copy, Debug, PartialEq, Eq, Structural)]
pub struct GpadlTorndown {
    pub gpadl_id: GpadlId,
}

impl GpadlTorndown {
    /// Byte layout of the body.
    pub open spec fn spec_bytes(self) -> Seq<u8> {
        spec_u32_to_le_bytes(self.gpadl_id.0)
    }
}

/// Notice that the client no longer references a rescinded channel id.
#[derive(Clone, Copy, Debug, PartialEq, Eq, Structural)]
pub struct RelIdReleased {
    pub channel_id: ChannelId,
}

impl RelIdReleased {
    /// Byte layout of the body.
    pub open spec fn spec_bytes(self) -> Seq<u8> {
        spec_u32_to_le_bytes(self.channel_id.0)
    }
}

/// Request to move a channel's interrupts to another virtual processor.
#[derive(Clone, Copy, Debug, PartialEq, Eq, Structural)]
pub struct ModifyChannel {
    pub channel_id: ChannelId,
    pub target_vp: u32,
}

impl ModifyChannel {
    /// Byte layout of the body.
    pub open spec fn spec_bytes(self) -> Seq<u8> {
        spec_u32_to_le_bytes(self.channel_id.0) + spec_u32_to_le_bytes(self.target_vp)
    }
}

/// The host's answer to a channel modification.
#[derive(Clone, Copy, Debug, PartialEq, Eq, Structural)]
pub struct ModifyChannelResponse {
    pub channel_id: ChannelId,
    pub status: i32,
}

impl ModifyChannelResponse {
    /// Byte layout of the body.
    pub open spec fn spec_bytes(self) -> Seq<u8> {
        spec_u32_to_le_bytes(self.channel_id.0) + spec_u32_to_le_bytes(self.status as u32)
    }
}

/// Request to change the connection's monitor pages.
#[derive(Clone, Copy, Debug, PartialEq, Eq, Structural)]
pub struct ModifyConnection {
    pub parent_to_child_monitor_page_gpa: u64,
    pub child_to_parent_monitor_page_gpa: u64,
}

impl ModifyConnection {
    /// Byte layout of the body.
    pub open spec fn spec_bytes(self) -> Seq<u8> {
        spec_u64_to_le_bytes(self.parent_to_child_monitor_page_gpa) + spec_u64_to_le_bytes(
            self.child_to_parent_monitor_page_gpa,
        )
    }
}

/// The host's answer to a connection modification.
#[derive(Clone, Copy, Debug, PartialEq, Eq, Structural)]
pub struct ModifyConnectionResponse {
    pub connection_state: ConnectionState,
}

impl ModifyConnectionResponse {
    /// Byte layout of the body.
    pub open spec fn spec_bytes(self) -> Seq<u8> {
        seq![self.connection_state.0]
    }
}

/// Forwarded hypervisor-socket connection attempt, in its older form.
#[derive(Clone, Copy, Debug, PartialEq, Eq, Structural)]
pub struct TlConnectRequest {
    pub service_id: Guid,
    pub endpoint_id: Guid,
}

impl TlConnectRequest {
    /// Byte layout of the body.
    pub open spec fn spec_bytes(self) -> Seq<u8> {
        spec_guid_bytes(self.service_id) + spec_guid_bytes(self.endpoint_id)
    }
}

/// Forwarded hypervisor-socket connection attempt; adds the silo id.
#[derive(Clone, Copy, Debug, PartialEq, Eq, Structural)]
pub struct TlConnectRequest2 {
    pub base: TlConnectRequest,
    pub silo_id: Guid,
}

impl TlConnectRequest2 {
    /// Byte layout of the body.
    pub open spec fn spec_bytes(self) -> Seq<u8> {
        self.base.spec_bytes() + spec_guid_bytes(self.silo_id)
    }
}

/// The host's answer to a failed hypervisor-socket connection attempt.
#[derive(Clone, Copy, Debug, PartialEq, Eq, Structural)]
pub struct TlConnectResult {
    pub service_id: Guid,
    pub endpoint_id: Guid,
    pub status: i32,
}

impl TlConnectResult {
    /// Byte layout of the body.
    pub open spec fn spec_bytes(self) -> Seq<u8> {
        spec_guid_bytes(self.service_id) + spec_guid_bytes(self.endpoint_id)
            + spec_u32_to_le_bytes(self.status as u32)
    }
}

} // verus!

