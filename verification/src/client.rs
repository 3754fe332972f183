//! The protocol engine: the top-level connection state machine and the
//! per-channel and per-GPADL sub-state machines.
//!
//! The engine is a plain value. Every inbound event — a caller request,
//! a channel request, or a parsed host message — is handled by one
//! synchronous method that mutates the engine and returns the list of
//! [`Action`]s the surrounding event loop must carry out, in order.
//! Reply sinks are carried as opaque tokens chosen by the caller: a
//! request stores its token, and the action that answers it names the
//! token again.

use vstd::prelude::*;

verus! {

use crate::codec::Message;
use crate::codec::OutgoingMessage;
use crate::protocol::ChannelId;
use crate::protocol::CloseChannel;
use crate::protocol::ConnectionState;
use crate::protocol::FeatureFlags;
use crate::protocol::GpadlId;
use crate::protocol::GpadlCreated;
use crate::protocol::GpadlTorndown;
use crate::protocol::Guid;
use crate::protocol::InitiateContact;
use crate::protocol::InitiateContact2;
use crate::protocol::ModifyChannelResponse;
use crate::protocol::ModifyConnection;
use crate::protocol::ModifyConnectionResponse;
use crate::protocol::OfferChannel;
use crate::protocol::OpenChannelFlags;
use crate::protocol::OpenResult;
use crate::protocol::RescindChannelOffer;
use crate::protocol::TlConnectRequest;
use crate::protocol::TlConnectRequest2;
use crate::protocol::TlConnectResult;
use crate::protocol::UserDefinedData;
use crate::protocol::Version;
use crate::protocol::VersionInfo;
use crate::protocol::VersionResponse2;
use crate::protocol::spec_target_info;
use crate::protocol::spec_version_number;
use crate::protocol::make_target_info;
use crate::protocol::version_number;
use crate::protocol::CONNECTION_STATE_SUCCESSFUL;
use crate::protocol::FEATURE_GUEST_SPECIFIED_SIGNAL_PARAMETERS;
use crate::protocol::FEATURE_CHANNEL_INTERRUPT_REDIRECTION;
use crate::protocol::OpenChannel;
use crate::protocol::OpenChannel2;
use crate::protocol::ModifyChannel;
use crate::protocol::GpadlHeader;
use crate::protocol::GpadlBody;
use crate::protocol::GpadlTeardown;
use crate::protocol::RelIdReleased;
use crate::protocol::CONNECTION_STATE_FAILED_UNKNOWN_FAILURE;
use crate::protocol::SUPPORTED_FEATURE_MASK;
use crate::protocol::STATUS_SUCCESS;
use crate::protocol::GPADL_HEADER_MAX_DATA_VALUES;
use crate::protocol::GPADL_BODY_MAX_DATA_VALUES;
use vstd::bytes::spec_u64_to_le_bytes;
use vstd::bytes::u64_to_le_bytes;

/// The client interface to the synic: the boundary through which the
/// embedding event loop posts each encoded frame the engine asks to
/// send. The engine itself never performs the post; it only names the
/// bytes, so everything up to this boundary is checked.
pub trait SynicClient: Send + Sync {
    fn post_message(&self, connection_id: u32, typ: u32, msg: &[u8]);
}

/// Synic interrupt source the client listens on.
pub const SINT: u8 = 2;

/// Virtual trust level the client runs at.
pub const VTL: u8 = 0;

/// A request paired with the opaque token of the one-shot reply sink its
/// answer must be delivered to.
#[derive(Clone, Debug, PartialEq, Eq)]
pub struct Rpc<T> {
    pub request: T,
    pub reply: u64,
}

/// Guest physical addresses of the shared monitor page pair.
#[derive(Clone, Copy, Debug, PartialEq, Eq, Structural)]
pub struct MonitorPageGpas {
    pub child_to_parent: u64,
    pub parent_to_child: u64,
}

/// Parameters of a connection attempt.
#[derive(Clone, Copy, Debug, PartialEq, Eq, Structural)]
pub struct InitiateContactRequest {
    pub target_message_vp: u32,
    pub monitor_page: Option<MonitorPageGpas>,
    pub client_id: Guid,
}

/// Request to change the connection's monitor pages.
#[derive(Clone, Copy, Debug, PartialEq, Eq, Structural)]
pub struct ModifyConnectionRequest {
    pub monitor_page: Option<MonitorPageGpas>,
}

/// Ring buffer placement and signalling parameters for an open.
#[derive(Clone, Copy, Debug, PartialEq, Eq)]
pub struct OpenData {
    pub target_vp: u32,
    pub ring_offset: u32,
    pub ring_gpadl_id: GpadlId,
    pub event_flag: u16,
    pub connection_id: u32,
    pub user_data: UserDefinedData,
}

/// A caller's request to open a channel.
#[derive(Clone, Copy, Debug, PartialEq, Eq)]
pub struct OpenRequest {
    pub open_data: OpenData,
    pub flags: OpenChannelFlags,
}

/// A caller's request to register a GPADL: its id, its PFN-range count,
/// and the 64-bit values describing the ranges.
#[derive(Clone, Debug, PartialEq, Eq)]
pub struct GpadlRequest {
    pub id: GpadlId,
    pub count: u16,
    pub buf: Vec<u64>,
}

/// A caller's request to change a channel's parameters.
#[derive(Clone, Copy, Debug, PartialEq, Eq, Structural)]
pub enum ModifyRequest {
    TargetVp { target_vp: u32 },
}

/// A hypervisor-socket connection attempt to forward to the host.
#[derive(Clone, Copy, Debug, PartialEq, Eq, Structural)]
pub struct HvsockConnectRequest {
    pub service_id: Guid,
    pub endpoint_id: Guid,
    pub silo_id: Guid,
}

/// The outcome the host reported for a hypervisor-socket attempt.
#[derive(Clone, Copy, Debug, PartialEq, Eq, Structural)]
pub struct HvsockConnectResult {
    pub service_id: Guid,
    pub endpoint_id: Guid,
    pub success: bool,
}

/// An operation requested of the client for one channel.
#[derive(Clone, Debug, PartialEq, Eq)]
pub enum ChannelRequest {
    Open(Rpc<OpenRequest>),
    Close,
    Gpadl(Rpc<GpadlRequest>),
    TeardownGpadl(GpadlId),
    Modify(Rpc<ModifyRequest>),
}

/// A server response forwarded to one channel's owner.
#[derive(Clone, Copy, Debug, PartialEq, Eq, Structural)]
pub enum ChannelResponse {
    TeardownGpadl(GpadlId),
}

/// An operation requested of the client as a whole.
#[derive(Clone, Debug, PartialEq, Eq)]
pub enum ClientRequest {
    InitiateContact(InitiateContactRequest),
    RequestOffers,
    Unload,
    Modify(Rpc<ModifyConnectionRequest>),
    HvsockConnect(HvsockConnectRequest),
}

/// A channel offer exposed to a caller. The embedding loop attaches the
/// request and response endpoints when it delivers the offer.
#[derive(Clone, Copy, Debug, PartialEq, Eq)]
pub struct OfferInfo {
    pub offer: OfferChannel,
}

/// An unsolicited event published to the notification sink.
#[derive(Clone, Copy, Debug, PartialEq, Eq)]
pub enum ClientNotification {
    Offer(OfferInfo),
    Revoke(ChannelId),
    HvsockConnectResult(HvsockConnectResult),
}

/// One step the embedding event loop must carry out, in list order.
#[derive(Clone, Debug, PartialEq, Eq)]
pub enum Action {
    /// Post this message to the host over the synic.
    Send(OutgoingMessage),
    /// Answer the pending connect request.
    CompleteConnect(Option<VersionInfo>),
    /// Deliver one offer to the pending offer-collection request.
    OfferReceived(OfferInfo),
    /// Tell the pending offer-collection request that no more offers come.
    AllOffersDelivered,
    /// Tell the offer-collection request that the client is not connected.
    OffersUnavailable,
    /// Answer the pending unload request.
    CompleteUnload,
    /// Answer the modify-connection request held under this token.
    CompleteModify(u64, ConnectionState),
    /// Answer the open request held under this token.
    CompleteOpen(u64, bool),
    /// Answer the GPADL request held under this token.
    CompleteGpadl(u64, bool),
    /// Answer the modify-channel request held under this token.
    CompleteModifyChannel(u64, i32),
    /// Forward a response to the named channel's owner.
    Respond(ChannelId, ChannelResponse),
    /// Publish an unsolicited notification.
    Notify(ClientNotification),
}

/// A host-contract violation from which the client cannot recover; the
/// embedding process must abort.
#[derive(Clone, Copy, Debug, PartialEq, Eq)]
pub enum FatalError {
    /// The host granted a version yet reported a failed connection.
    HostConnectionFailure,
    /// The host rejected every version the client supports.
    NoSupportedVersion,
    /// An unload was requested before a version existed.
    InvalidStateForUnload,
    /// A kind only a vmbus server accepts arrived inbound.
    ServerMessage(Message),
    /// A kind the client recognizes but does not implement arrived.
    UnsupportedMessage(Message),
    /// The host spoke of a channel the client does not hold.
    UnknownChannelId(ChannelId),
    /// A caller registered a GPADL id twice for one channel.
    DuplicateGpadlId(ChannelId, GpadlId),
    /// A caller tore down a GPADL id that is already being torn down.
    GpadlIdInTeardown(GpadlId),
    /// A GPADL request carries more 64-bit values than a header can state.
    TooManyGpaValues(GpadlId),
    /// A guest-specified event flag was used without host support.
    EventFlagMismatch(ChannelId),
    /// A channel modification was requested while not connected.
    NotConnected,
    /// A caller sent a second modify for a channel whose first is pending.
    DuplicateModifyChannel(ChannelId),
}

/// The top-level connection state machine.
#[derive(Clone, Copy, Debug, PartialEq, Eq)]
pub enum ClientState {
    /// The client has yet to connect to the server.
    Disconnected,
    /// The client has initiated contact with the server.
    Connecting(Version, InitiateContactRequest),
    /// The client has negotiated the protocol version with the server.
    Connected(VersionInfo),
    /// The client has requested offers from the server.
    RequestingOffers(VersionInfo),
    /// The client has initiated an unload from the server.
    Disconnecting(VersionInfo),
}

impl ClientState {
    /// The negotiated version, in the states that have one.
    pub open spec fn spec_version(&self) -> Option<VersionInfo> {
        match *self {
            ClientState::Connected(v) => Some(v),
            ClientState::RequestingOffers(v) => Some(v),
            ClientState::Disconnecting(v) => Some(v),
            ClientState::Disconnected => None,
            ClientState::Connecting(_, _) => None,
        }
    }

    /// Returns the negotiated version, in the states that have one.
    #[verifier::when_used_as_spec(spec_version)]
    pub fn get_version(&self) -> (r: Option<VersionInfo>)
        ensures
            r == self.spec_version(),
    {
        match self {
            ClientState::Connected(v) => Some(*v),
            ClientState::RequestingOffers(v) => Some(*v),
            ClientState::Disconnecting(v) => Some(*v),
            ClientState::Disconnected => None,
            ClientState::Connecting(_, _) => None,
        }
    }
}

/// Per-channel sub-state: what the channel may legally do next.
#[derive(Clone, Copy, Debug, PartialEq, Eq)]
pub enum ChannelState {
    /// The channel has been offered to the client.
    Offered,
    /// An open was sent; the token names the waiting reply sink.
    Opening(u64),
    /// The host confirmed the open.
    Opened,
}

/// One channel the host has offered.
#[derive(Clone, Copy, Debug, PartialEq, Eq)]
pub struct Channel {
    pub offer: OfferChannel,
    pub state: ChannelState,
    /// Reply token of the in-flight modify-channel request, if any.
    pub modify_response: Option<u64>,
}

/// A channel record keyed by its id.
#[derive(Clone, Copy, Debug, PartialEq, Eq)]
pub struct ChannelEntry {
    pub id: ChannelId,
    pub channel: Channel,
}

/// Per-GPADL sub-state.
#[derive(Clone, Copy, Debug, PartialEq, Eq)]
pub enum GpadlState {
    /// The registration was sent; the token names the waiting reply sink.
    Offered(u64),
    /// The host confirmed the registration.
    Created,
    /// A teardown was sent; the confirmation is awaited.
    TearingDown,
}

/// A GPADL record keyed by its channel and GPADL ids.
#[derive(Clone, Copy, Debug, PartialEq, Eq)]
pub struct GpadlEntry {
    pub channel_id: ChannelId,
    pub gpadl_id: GpadlId,
    pub state: GpadlState,
}

/// One teardown in flight: the confirmation for this GPADL id is
/// expected. `None` means the teardown was implicit in a channel rescind
/// and the confirmation must be swallowed.
#[derive(Clone, Copy, Debug, PartialEq, Eq)]
pub struct TeardownEntry {
    pub gpadl_id: GpadlId,
    pub channel_id: Option<ChannelId>,
}

/// The protocol engine's whole state.
#[derive(Clone, Debug, PartialEq, Eq)]
pub struct ClientTask {
    /// Top-level connection state.
    pub state: ClientState,
    /// Parameters of the contact the current connection came from.
    pub connect_request: Option<InitiateContactRequest>,
    /// Reply token of the in-flight modify-connection request, if any.
    pub modify_request: Option<u64>,
    /// Channel registry, keyed by channel id.
    pub channels: Vec<ChannelEntry>,
    /// GPADL registry, keyed by channel id and GPADL id.
    pub gpadls: Vec<GpadlEntry>,
    /// Teardowns whose confirmation is in flight, keyed by GPADL id.
    pub teardown_gpadls: Vec<TeardownEntry>,
}

/// Whether a channel with this id is recorded.
pub open spec fn spec_has_channel(channels: Seq<ChannelEntry>, id: ChannelId) -> bool {
    exists|i: int| 0 <= i < channels.len() && channels[i].id == id
}

/// The index of the channel with this id.
pub open spec fn spec_channel_index(channels: Seq<ChannelEntry>, id: ChannelId) -> int {
    choose|i: int| 0 <= i < channels.len() && channels[i].id == id
}

/// The recorded channel with this id.
pub open spec fn spec_channel(channels: Seq<ChannelEntry>, id: ChannelId) -> Channel {
    channels[spec_channel_index(channels, id)].channel
}

/// Whether a GPADL with this key is recorded.
pub open spec fn spec_has_gpadl(gpadls: Seq<GpadlEntry>, cid: ChannelId, gid: GpadlId) -> bool {
    exists|i: int| 0 <= i < gpadls.len() && gpadls[i].channel_id == cid && gpadls[i].gpadl_id == gid
}

/// Whether any channel's GPADL carries this id.
pub open spec fn spec_has_gpadl_id(gpadls: Seq<GpadlEntry>, gid: GpadlId) -> bool {
    exists|i: int| 0 <= i < gpadls.len() && gpadls[i].gpadl_id == gid
}

/// The index of the GPADL carrying this id.
pub open spec fn spec_gpadl_id_index(gpadls: Seq<GpadlEntry>, gid: GpadlId) -> int {
    choose|i: int| 0 <= i < gpadls.len() && gpadls[i].gpadl_id == gid
}

/// The index of the GPADL with this key.
pub open spec fn spec_gpadl_index(gpadls: Seq<GpadlEntry>, cid: ChannelId, gid: GpadlId) -> int {
    choose|i: int| 0 <= i < gpadls.len() && gpadls[i].channel_id == cid && gpadls[i].gpadl_id == gid
}

/// The sub-state of the GPADL with this key.
pub open spec fn spec_gpadl_state(gpadls: Seq<GpadlEntry>, cid: ChannelId, gid: GpadlId) -> GpadlState {
    gpadls[spec_gpadl_index(gpadls, cid, gid)].state
}

/// Whether a teardown of this GPADL id is in flight.
pub open spec fn spec_has_teardown(td: Seq<TeardownEntry>, gid: GpadlId) -> bool {
    exists|i: int| 0 <= i < td.len() && td[i].gpadl_id == gid
}

/// The index of the teardown record for this GPADL id.
pub open spec fn spec_teardown_index(td: Seq<TeardownEntry>, gid: GpadlId) -> int {
    choose|i: int| 0 <= i < td.len() && td[i].gpadl_id == gid
}

/// The channel recorded for a teardown in flight.
pub open spec fn spec_teardown_channel(td: Seq<TeardownEntry>, gid: GpadlId) -> Option<ChannelId> {
    td[spec_teardown_index(td, gid)].channel_id
}

/// Whether a version could have been negotiated by this client: its
/// feature mask holds only implemented flags, and below Copper it is
/// empty.
pub open spec fn spec_version_ok(v: VersionInfo) -> bool {
    &&& v.feature_flags.0 & SUPPORTED_FEATURE_MASK == v.feature_flags.0
    &&& v.version != Version::Copper ==> v.feature_flags.0 == 0
}

impl ClientTask {
    /// Well-formedness: registries are maps (keys occur once), every
    /// GPADL belongs to a recorded channel, a GPADL is `TearingDown`
    /// exactly when a teardown naming its channel is in flight for its
    /// id, a negotiated version is one this client could have agreed
    /// to, and the states that have a version also kept the contact
    /// parameters the connection came from.
    pub open spec fn wf(self) -> bool {
        &&& forall|i: int, j: int|
            0 <= i < j < self.channels@.len() ==> self.channels@[i].id != self.channels@[j].id
        &&& forall|i: int|
            0 <= i < self.channels@.len() ==> (#[trigger] self.channels@[i]).id
                == self.channels@[i].channel.offer.channel_id
        &&& forall|i: int, j: int|
            0 <= i < j < self.gpadls@.len() ==> self.gpadls@[i].gpadl_id
                != self.gpadls@[j].gpadl_id
        &&& forall|i: int, j: int|
            0 <= i < j < self.teardown_gpadls@.len() ==> self.teardown_gpadls@[i].gpadl_id
                != self.teardown_gpadls@[j].gpadl_id
        &&& forall|i: int|
            0 <= i < self.gpadls@.len() ==> spec_has_channel(
                self.channels@,
                #[trigger] self.gpadls@[i].channel_id,
            )
        &&& forall|i: int|
            0 <= i < self.gpadls@.len() && (#[trigger] self.gpadls@[i]).state
                is TearingDown ==> exists|j: int|
                0 <= j < self.teardown_gpadls@.len() && (#[trigger] self.teardown_gpadls@[j]).gpadl_id
                    == self.gpadls@[i].gpadl_id && self.teardown_gpadls@[j].channel_id == Some(
                    self.gpadls@[i].channel_id,
                )
        &&& forall|j: int|
            0 <= j < self.teardown_gpadls@.len() ==> match (#[trigger] self.teardown_gpadls@[j]).channel_id {
                Some(cid) => exists|i: int|
                    0 <= i < self.gpadls@.len() && (#[trigger] self.gpadls@[i]).channel_id == cid
                        && self.gpadls@[i].gpadl_id == self.teardown_gpadls@[j].gpadl_id
                        && self.gpadls@[i].state is TearingDown,
                None => true,
            }
        &&& match self.state.spec_version() {
            Some(v) => spec_version_ok(v) && self.connect_request is Some,
            None => true,
        }
    }

    /// A client that has never spoken to a host.
    pub fn new() -> (r: ClientTask)
        ensures
            r.state is Disconnected,
            r.connect_request is None,
            r.modify_request is None,
            r.channels@ == Seq::<ChannelEntry>::empty(),
            r.gpadls@ == Seq::<GpadlEntry>::empty(),
            r.teardown_gpadls@ == Seq::<TeardownEntry>::empty(),
            r.wf(),
    {
        ClientTask {
            state: ClientState::Disconnected,
            connect_request: None,
            modify_request: None,
            channels: Vec::new(),
            gpadls: Vec::new(),
            teardown_gpadls: Vec::new(),
        }
    }
}

/// Changing only the connection state, the contact parameters, or the
/// pending modify token cannot break well-formedness, as long as the
/// new state's version (if any) is one the client could have agreed to
/// and the contact parameters were kept.
pub proof fn lemma_wf_same_registries(pre: ClientTask, post: ClientTask)
    requires
        pre.wf(),
        post.channels@ == pre.channels@,
        post.gpadls@ == pre.gpadls@,
        post.teardown_gpadls@ == pre.teardown_gpadls@,
        match post.state.spec_version() {
            Some(v) => spec_version_ok(v) && post.connect_request is Some,
            None => true,
        },
    ensures
        post.wf(),
{
}

/// In a registry whose channel ids are pairwise distinct, the entry at
/// any index is the one its id looks up.
pub proof fn lemma_channel_index(channels: Seq<ChannelEntry>, i: int)
    requires
        forall|p: int, q: int| 0 <= p < q < channels.len() ==> channels[p].id != channels[q].id,
        0 <= i < channels.len(),
    ensures
        spec_has_channel(channels, channels[i].id),
        spec_channel_index(channels, channels[i].id) == i,
{
    assert(spec_has_channel(channels, channels[i].id));
    let k = spec_channel_index(channels, channels[i].id);
    if k < i {
        assert(channels[k].id != channels[i].id);
    } else if i < k {
        assert(channels[i].id != channels[k].id);
    }
}

/// In a registry whose GPADL ids are pairwise distinct, the entry at
/// any index is the one its key looks up.
pub proof fn lemma_gpadl_index(gpadls: Seq<GpadlEntry>, i: int)
    requires
        forall|p: int, q: int|
            0 <= p < q < gpadls.len() ==> gpadls[p].gpadl_id != gpadls[q].gpadl_id,
        0 <= i < gpadls.len(),
    ensures
        spec_has_gpadl(gpadls, gpadls[i].channel_id, gpadls[i].gpadl_id),
        spec_gpadl_index(gpadls, gpadls[i].channel_id, gpadls[i].gpadl_id) == i,
{
    assert(spec_has_gpadl(gpadls, gpadls[i].channel_id, gpadls[i].gpadl_id));
    let k = spec_gpadl_index(gpadls, gpadls[i].channel_id, gpadls[i].gpadl_id);
    if k < i {
        assert(!(gpadls[k].channel_id == gpadls[i].channel_id && gpadls[k].gpadl_id
            == gpadls[i].gpadl_id));
    } else if i < k {
        assert(!(gpadls[i].channel_id == gpadls[k].channel_id && gpadls[i].gpadl_id
            == gpadls[k].gpadl_id));
    }
}

/// In a registry whose GPADL ids are pairwise distinct, the entry at
/// any index is the one its id looks up.
pub proof fn lemma_gpadl_id_index(gpadls: Seq<GpadlEntry>, i: int)
    requires
        forall|p: int, q: int|
            0 <= p < q < gpadls.len() ==> gpadls[p].gpadl_id != gpadls[q].gpadl_id,
        0 <= i < gpadls.len(),
    ensures
        spec_has_gpadl_id(gpadls, gpadls[i].gpadl_id),
        spec_gpadl_id_index(gpadls, gpadls[i].gpadl_id) == i,
{
    assert(spec_has_gpadl_id(gpadls, gpadls[i].gpadl_id));
    let k = spec_gpadl_id_index(gpadls, gpadls[i].gpadl_id);
    if k < i {
        assert(gpadls[k].gpadl_id != gpadls[i].gpadl_id);
    } else if i < k {
        assert(gpadls[i].gpadl_id != gpadls[k].gpadl_id);
    }
}

/// In a teardown list whose GPADL ids are pairwise distinct, the entry
/// at any index is the one its id looks up.
pub proof fn lemma_teardown_index(td: Seq<TeardownEntry>, i: int)
    requires
        forall|p: int, q: int| 0 <= p < q < td.len() ==> td[p].gpadl_id != td[q].gpadl_id,
        0 <= i < td.len(),
    ensures
        spec_has_teardown(td, td[i].gpadl_id),
        spec_teardown_index(td, td[i].gpadl_id) == i,
{
    assert(spec_has_teardown(td, td[i].gpadl_id));
    let k = spec_teardown_index(td, td[i].gpadl_id);
    if k < i {
        assert(td[k].gpadl_id != td[i].gpadl_id);
    } else if i < k {
        assert(td[i].gpadl_id != td[k].gpadl_id);
    }
}

/// A channel registry change that keeps every entry's id in place —
/// changing only sub-states, offers or pending tokens — preserves
/// well-formedness.
pub proof fn lemma_wf_channels_same_ids(pre: ClientTask, post: ClientTask)
    requires
        pre.wf(),
        post.state == pre.state,
        post.connect_request == pre.connect_request,
        post.gpadls@ == pre.gpadls@,
        post.teardown_gpadls@ == pre.teardown_gpadls@,
        post.channels@.len() == pre.channels@.len(),
        forall|k: int|
            0 <= k < pre.channels@.len() ==> (#[trigger] post.channels@[k]).id
                == pre.channels@[k].id && post.channels@[k].channel.offer
                == pre.channels@[k].channel.offer,
    ensures
        post.wf(),
{
    assert forall|i: int|
        0 <= i < post.gpadls@.len() implies spec_has_channel(
        post.channels@,
        #[trigger] post.gpadls@[i].channel_id,
    ) by {
        assert(spec_has_channel(pre.channels@, pre.gpadls@[i].channel_id));
        let w = spec_channel_index(pre.channels@, pre.gpadls@[i].channel_id);
        assert(post.channels@[w].id == pre.gpadls@[i].channel_id);
    }
}

/// Recording a channel under a fresh id preserves well-formedness.
pub proof fn lemma_wf_channel_pushed(pre: ClientTask, post: ClientTask, entry: ChannelEntry)
    requires
        pre.wf(),
        !spec_has_channel(pre.channels@, entry.id),
        entry.id == entry.channel.offer.channel_id,
        post.state == pre.state,
        post.connect_request == pre.connect_request,
        post.gpadls@ == pre.gpadls@,
        post.teardown_gpadls@ == pre.teardown_gpadls@,
        post.channels@ == pre.channels@.push(entry),
    ensures
        post.wf(),
{
    assert forall|i: int|
        0 <= i < post.gpadls@.len() implies spec_has_channel(
        post.channels@,
        #[trigger] post.gpadls@[i].channel_id,
    ) by {
        assert(spec_has_channel(pre.channels@, pre.gpadls@[i].channel_id));
        let w = spec_channel_index(pre.channels@, pre.gpadls@[i].channel_id);
        assert(post.channels@[w].id == pre.gpadls@[i].channel_id);
    }
}

/// The channel registry after the sub-state at one index changes.
pub open spec fn spec_set_channel_state(
    channels: Seq<ChannelEntry>,
    i: int,
    st: ChannelState,
) -> Seq<ChannelEntry> {
    channels.update(
        i,
        ChannelEntry {
            id: channels[i].id,
            channel: Channel {
                offer: channels[i].channel.offer,
                state: st,
                modify_response: channels[i].channel.modify_response,
            },
        },
    )
}

/// The channel registry after the pending modify token at one index
/// changes.
pub open spec fn spec_set_modify_response(
    channels: Seq<ChannelEntry>,
    i: int,
    t: Option<u64>,
) -> Seq<ChannelEntry> {
    channels.update(
        i,
        ChannelEntry {
            id: channels[i].id,
            channel: Channel {
                offer: channels[i].channel.offer,
                state: channels[i].channel.state,
                modify_response: t,
            },
        },
    )
}

/// Everything but the channel registry is kept.
pub open spec fn spec_same_but_channels(pre: ClientTask, post: ClientTask) -> bool {
    &&& post.state == pre.state
    &&& post.connect_request == pre.connect_request
    &&& post.modify_request == pre.modify_request
    &&& post.gpadls@ == pre.gpadls@
    &&& post.teardown_gpadls@ == pre.teardown_gpadls@
}

/// Transition for an inbound offer: a fresh id is recorded `Offered`
/// and exposed — to the pending offer collection while one runs, to
/// the notification sink otherwise; an id already recorded only has
/// its sub-state reset to `Offered`, and is not exposed again.
pub open spec fn spec_offer(
    pre: ClientTask,
    offer: OfferChannel,
    post: ClientTask,
    r: Seq<Action>,
) -> bool {
    &&& spec_same_but_channels(pre, post)
    &&& if spec_has_channel(pre.channels@, offer.channel_id) {
        &&& post.channels@ == spec_set_channel_state(
            pre.channels@,
            spec_channel_index(pre.channels@, offer.channel_id),
            ChannelState::Offered,
        )
        &&& r == Seq::<Action>::empty()
    } else {
        &&& post.channels@ == pre.channels@.push(
            ChannelEntry {
                id: offer.channel_id,
                channel: Channel { offer, state: ChannelState::Offered, modify_response: None },
            },
        )
        &&& r == seq![
            if pre.state is RequestingOffers {
                Action::OfferReceived(OfferInfo { offer })
            } else {
                Action::Notify(ClientNotification::Offer(OfferInfo { offer }))
            },
        ]
    }
}

/// Transition for the host's open result: the channel takes the state
/// the host reports — `Opened` on success, `Offered` on failure — and
/// a waiting open request, if any, learns the outcome. A result for an
/// unrecorded channel is a host fault.
pub open spec fn spec_open_result(
    pre: ClientTask,
    result: OpenResult,
    post: ClientTask,
    r: Result<Vec<Action>, FatalError>,
) -> bool {
    if !spec_has_channel(pre.channels@, result.channel_id) {
        &&& post == pre
        &&& r matches Err(e) && e == FatalError::UnknownChannelId(result.channel_id)
    } else {
        let i = spec_channel_index(pre.channels@, result.channel_id);
        let opened = result.status == 0;
        let st = if opened {
            ChannelState::Opened
        } else {
            ChannelState::Offered
        };
        &&& spec_same_but_channels(pre, post)
        &&& post.channels@ == spec_set_channel_state(pre.channels@, i, st)
        &&& match pre.channels@[i].channel.state {
            ChannelState::Opening(tok) => r matches Ok(a) && a@ == seq![
                Action::CompleteOpen(tok, opened),
            ],
            _ => r matches Ok(a) && a@ == Seq::<Action>::empty(),
        }
    }
}

/// Transition for the host's modify-channel response: the pending
/// request learns the status; a response with none pending is ignored.
/// A response for an unrecorded channel is a host fault.
pub open spec fn spec_modify_channel_response(
    pre: ClientTask,
    response: ModifyChannelResponse,
    post: ClientTask,
    r: Result<Vec<Action>, FatalError>,
) -> bool {
    if !spec_has_channel(pre.channels@, response.channel_id) {
        &&& post == pre
        &&& r matches Err(e) && e == FatalError::UnknownChannelId(response.channel_id)
    } else {
        let i = spec_channel_index(pre.channels@, response.channel_id);
        match pre.channels@[i].channel.modify_response {
            Some(tok) => {
                &&& spec_same_but_channels(pre, post)
                &&& post.channels@ == spec_set_modify_response(pre.channels@, i, None)
                &&& r matches Ok(a) && a@ == seq![
                    Action::CompleteModifyChannel(tok, response.status),
                ]
            },
            None => {
                &&& post == pre
                &&& r matches Ok(a) && a@ == Seq::<Action>::empty()
            },
        }
    }
}

/// The GPADL registry after the sub-state at one index changes.
pub open spec fn spec_set_gpadl_state(
    gpadls: Seq<GpadlEntry>,
    i: int,
    st: GpadlState,
) -> Seq<GpadlEntry> {
    gpadls.update(
        i,
        GpadlEntry { channel_id: gpadls[i].channel_id, gpadl_id: gpadls[i].gpadl_id, state: st },
    )
}

/// Everything but the GPADL registry and the pending teardowns is kept.
pub open spec fn spec_same_but_gpadls(pre: ClientTask, post: ClientTask) -> bool {
    &&& post.state == pre.state
    &&& post.connect_request == pre.connect_request
    &&& post.modify_request == pre.modify_request
    &&& post.channels@ == pre.channels@
}

/// A GPADL sub-state change that neither leaves nor enters
/// `TearingDown` preserves well-formedness.
pub proof fn lemma_wf_gpadl_state_changed(pre: ClientTask, post: ClientTask, i: int, st: GpadlState)
    requires
        pre.wf(),
        0 <= i < pre.gpadls@.len(),
        !(pre.gpadls@[i].state is TearingDown),
        !(st is TearingDown),
        post.gpadls@ == spec_set_gpadl_state(pre.gpadls@, i, st),
        post.teardown_gpadls@ == pre.teardown_gpadls@,
        spec_same_but_gpadls(pre, post),
    ensures
        post.wf(),
{
    assert forall|j: int|
        0 <= j < post.teardown_gpadls@.len() implies match (#[trigger] post.teardown_gpadls@[j]).channel_id {
        Some(cid) => exists|k: int|
            0 <= k < post.gpadls@.len() && (#[trigger] post.gpadls@[k]).channel_id == cid
                && post.gpadls@[k].gpadl_id == post.teardown_gpadls@[j].gpadl_id
                && post.gpadls@[k].state is TearingDown,
        None => true,
    } by {
        match pre.teardown_gpadls@[j].channel_id {
            Some(cid) => {
                let k = choose|k: int|
                    0 <= k < pre.gpadls@.len() && (#[trigger] pre.gpadls@[k]).channel_id == cid
                        && pre.gpadls@[k].gpadl_id == pre.teardown_gpadls@[j].gpadl_id
                        && pre.gpadls@[k].state is TearingDown;
                assert(k != i);
                assert(post.gpadls@[k] == pre.gpadls@[k]);
            },
            None => {},
        }
    }
}

/// Removing a GPADL that is not tearing down preserves
/// well-formedness.
pub proof fn lemma_wf_gpadl_removed(pre: ClientTask, post: ClientTask, i: int)
    requires
        pre.wf(),
        0 <= i < pre.gpadls@.len(),
        !(pre.gpadls@[i].state is TearingDown),
        post.gpadls@ == pre.gpadls@.remove(i),
        post.teardown_gpadls@ == pre.teardown_gpadls@,
        spec_same_but_gpadls(pre, post),
    ensures
        post.wf(),
{
    pre.gpadls@.remove_ensures(i);
    assert forall|j: int|
        0 <= j < post.teardown_gpadls@.len() implies match (#[trigger] post.teardown_gpadls@[j]).channel_id {
        Some(cid) => exists|k: int|
            0 <= k < post.gpadls@.len() && (#[trigger] post.gpadls@[k]).channel_id == cid
                && post.gpadls@[k].gpadl_id == post.teardown_gpadls@[j].gpadl_id
                && post.gpadls@[k].state is TearingDown,
        None => true,
    } by {
        match pre.teardown_gpadls@[j].channel_id {
            Some(cid) => {
                let k = choose|k: int|
                    0 <= k < pre.gpadls@.len() && (#[trigger] pre.gpadls@[k]).channel_id == cid
                        && pre.gpadls@[k].gpadl_id == pre.teardown_gpadls@[j].gpadl_id
                        && pre.gpadls@[k].state is TearingDown;
                assert(k != i);
                if k < i {
                    assert(post.gpadls@[k] == pre.gpadls@[k]);
                } else {
                    assert(post.gpadls@[k - 1] == pre.gpadls@[k]);
                }
            },
            None => {},
        }
    }
}

/// Marking a GPADL `TearingDown` while recording its pending teardown
/// preserves well-formedness, provided no teardown of that id was in
/// flight.
pub proof fn lemma_wf_gpadl_tearing(pre: ClientTask, post: ClientTask, i: int)
    requires
        pre.wf(),
        0 <= i < pre.gpadls@.len(),
        !(pre.gpadls@[i].state is TearingDown),
        !spec_has_teardown(pre.teardown_gpadls@, pre.gpadls@[i].gpadl_id),
        post.gpadls@ == spec_set_gpadl_state(pre.gpadls@, i, GpadlState::TearingDown),
        post.teardown_gpadls@ == pre.teardown_gpadls@.push(
            TeardownEntry {
                gpadl_id: pre.gpadls@[i].gpadl_id,
                channel_id: Some(pre.gpadls@[i].channel_id),
            },
        ),
        spec_same_but_gpadls(pre, post),
    ensures
        post.wf(),
{
    let n = pre.teardown_gpadls@.len() as int;
    assert forall|k: int|
        0 <= k < post.gpadls@.len() && (#[trigger] post.gpadls@[k]).state
            is TearingDown implies exists|j: int|
        0 <= j < post.teardown_gpadls@.len() && (#[trigger] post.teardown_gpadls@[j]).gpadl_id
            == post.gpadls@[k].gpadl_id && post.teardown_gpadls@[j].channel_id == Some(
            post.gpadls@[k].channel_id,
        ) by {
        if k == i {
            assert(post.teardown_gpadls@[n].gpadl_id == post.gpadls@[k].gpadl_id);
        } else {
            let j = choose|j: int|
                0 <= j < pre.teardown_gpadls@.len() && (#[trigger] pre.teardown_gpadls@[j]).gpadl_id
                    == pre.gpadls@[k].gpadl_id && pre.teardown_gpadls@[j].channel_id == Some(
                    pre.gpadls@[k].channel_id,
                );
            assert(post.teardown_gpadls@[j].gpadl_id == post.gpadls@[k].gpadl_id);
        }
    }
    assert forall|j: int|
        0 <= j < post.teardown_gpadls@.len() implies match (#[trigger] post.teardown_gpadls@[j]).channel_id {
        Some(cid) => exists|k: int|
            0 <= k < post.gpadls@.len() && (#[trigger] post.gpadls@[k]).channel_id == cid
                && post.gpadls@[k].gpadl_id == post.teardown_gpadls@[j].gpadl_id
                && post.gpadls@[k].state is TearingDown,
        None => true,
    } by {
        if j == n {
            assert(post.gpadls@[i].channel_id == pre.gpadls@[i].channel_id);
        } else {
            match pre.teardown_gpadls@[j].channel_id {
                Some(cid) => {
                    let k = choose|k: int|
                        0 <= k < pre.gpadls@.len() && (#[trigger] pre.gpadls@[k]).channel_id == cid
                            && pre.gpadls@[k].gpadl_id == pre.teardown_gpadls@[j].gpadl_id
                            && pre.gpadls@[k].state is TearingDown;
                    assert(k != i);
                    assert(post.gpadls@[k] == pre.gpadls@[k]);
                },
                None => {},
            }
        }
    }
}

/// Dropping a torn-down GPADL together with its pending teardown
/// record preserves well-formedness.
pub proof fn lemma_wf_torndown_removed(pre: ClientTask, post: ClientTask, i: int, j: int)
    requires
        pre.wf(),
        0 <= i < pre.gpadls@.len(),
        0 <= j < pre.teardown_gpadls@.len(),
        pre.gpadls@[i].state is TearingDown,
        pre.teardown_gpadls@[j].gpadl_id == pre.gpadls@[i].gpadl_id,
        post.gpadls@ == pre.gpadls@.remove(i),
        post.teardown_gpadls@ == pre.teardown_gpadls@.remove(j),
        spec_same_but_gpadls(pre, post),
    ensures
        post.wf(),
{
    pre.gpadls@.remove_ensures(i);
    pre.teardown_gpadls@.remove_ensures(j);
    assert forall|k: int|
        0 <= k < post.gpadls@.len() && (#[trigger] post.gpadls@[k]).state
            is TearingDown implies exists|m: int|
        0 <= m < post.teardown_gpadls@.len() && (#[trigger] post.teardown_gpadls@[m]).gpadl_id
            == post.gpadls@[k].gpadl_id && post.teardown_gpadls@[m].channel_id == Some(
            post.gpadls@[k].channel_id,
        ) by {
        let kk: int = if k < i {
            k
        } else {
            k + 1
        };
        assert(post.gpadls@[k] == pre.gpadls@[kk]);
        let m = choose|m: int|
            0 <= m < pre.teardown_gpadls@.len() && (#[trigger] pre.teardown_gpadls@[m]).gpadl_id
                == pre.gpadls@[kk].gpadl_id && pre.teardown_gpadls@[m].channel_id == Some(
                pre.gpadls@[kk].channel_id,
            );
        assert(m != j) by {
            if m == j {
                assert(pre.gpadls@[kk].gpadl_id == pre.gpadls@[i].gpadl_id);
                assert(kk != i);
            }
        }
        if m < j {
            assert(post.teardown_gpadls@[m] == pre.teardown_gpadls@[m]);
        } else {
            assert(post.teardown_gpadls@[m - 1] == pre.teardown_gpadls@[m]);
        }
    }
    assert forall|m: int|
        0 <= m < post.teardown_gpadls@.len() implies match (#[trigger] post.teardown_gpadls@[m]).channel_id {
        Some(cid) => exists|k: int|
            0 <= k < post.gpadls@.len() && (#[trigger] post.gpadls@[k]).channel_id == cid
                && post.gpadls@[k].gpadl_id == post.teardown_gpadls@[m].gpadl_id
                && post.gpadls@[k].state is TearingDown,
        None => true,
    } by {
        let mm: int = if m < j {
            m
        } else {
            m + 1
        };
        assert(post.teardown_gpadls@[m] == pre.teardown_gpadls@[mm]);
        match pre.teardown_gpadls@[mm].channel_id {
            Some(cid) => {
                let k = choose|k: int|
                    0 <= k < pre.gpadls@.len() && (#[trigger] pre.gpadls@[k]).channel_id == cid
                        && pre.gpadls@[k].gpadl_id == pre.teardown_gpadls@[mm].gpadl_id
                        && pre.gpadls@[k].state is TearingDown;
                assert(k != i) by {
                    if k == i {
                        assert(pre.teardown_gpadls@[mm].gpadl_id == pre.teardown_gpadls@[j].gpadl_id);
                        assert(mm != j);
                    }
                }
                if k < i {
                    assert(post.gpadls@[k] == pre.gpadls@[k]);
                } else {
                    assert(post.gpadls@[k - 1] == pre.gpadls@[k]);
                }
            },
            None => {},
        }
    }
}

/// Dropping a pending teardown that no GPADL record points to — one
/// left by an implicit teardown on rescind — preserves
/// well-formedness.
pub proof fn lemma_wf_teardown_none_removed(pre: ClientTask, post: ClientTask, j: int)
    requires
        pre.wf(),
        0 <= j < pre.teardown_gpadls@.len(),
        pre.teardown_gpadls@[j].channel_id is None,
        post.gpadls@ == pre.gpadls@,
        post.teardown_gpadls@ == pre.teardown_gpadls@.remove(j),
        spec_same_but_gpadls(pre, post),
    ensures
        post.wf(),
{
    pre.teardown_gpadls@.remove_ensures(j);
    assert forall|k: int|
        0 <= k < post.gpadls@.len() && (#[trigger] post.gpadls@[k]).state
            is TearingDown implies exists|m: int|
        0 <= m < post.teardown_gpadls@.len() && (#[trigger] post.teardown_gpadls@[m]).gpadl_id
            == post.gpadls@[k].gpadl_id && post.teardown_gpadls@[m].channel_id == Some(
            post.gpadls@[k].channel_id,
        ) by {
        let m = choose|m: int|
            0 <= m < pre.teardown_gpadls@.len() && (#[trigger] pre.teardown_gpadls@[m]).gpadl_id
                == pre.gpadls@[k].gpadl_id && pre.teardown_gpadls@[m].channel_id == Some(
                pre.gpadls@[k].channel_id,
            );
        assert(m != j);
        if m < j {
            assert(post.teardown_gpadls@[m] == pre.teardown_gpadls@[m]);
        } else {
            assert(post.teardown_gpadls@[m - 1] == pre.teardown_gpadls@[m]);
        }
    }
    assert forall|m: int|
        0 <= m < post.teardown_gpadls@.len() implies match (#[trigger] post.teardown_gpadls@[m]).channel_id {
        Some(cid) => exists|k: int|
            0 <= k < post.gpadls@.len() && (#[trigger] post.gpadls@[k]).channel_id == cid
                && post.gpadls@[k].gpadl_id == post.teardown_gpadls@[m].gpadl_id
                && post.gpadls@[k].state is TearingDown,
        None => true,
    } by {
        let mm: int = if m < j {
            m
        } else {
            m + 1
        };
        assert(post.teardown_gpadls@[m] == pre.teardown_gpadls@[mm]);
    }
}

/// Recording a fresh GPADL that is not tearing down, for a recorded
/// channel, preserves well-formedness.
pub proof fn lemma_wf_gpadl_pushed(pre: ClientTask, post: ClientTask, e: GpadlEntry)
    requires
        pre.wf(),
        spec_has_channel(pre.channels@, e.channel_id),
        !spec_has_gpadl_id(pre.gpadls@, e.gpadl_id),
        !(e.state is TearingDown),
        post.gpadls@ == pre.gpadls@.push(e),
        post.teardown_gpadls@ == pre.teardown_gpadls@,
        spec_same_but_gpadls(pre, post),
    ensures
        post.wf(),
{
    let n = pre.gpadls@.len() as int;
    assert forall|j: int|
        0 <= j < post.teardown_gpadls@.len() implies match (#[trigger] post.teardown_gpadls@[j]).channel_id {
        Some(cid) => exists|k: int|
            0 <= k < post.gpadls@.len() && (#[trigger] post.gpadls@[k]).channel_id == cid
                && post.gpadls@[k].gpadl_id == post.teardown_gpadls@[j].gpadl_id
                && post.gpadls@[k].state is TearingDown,
        None => true,
    } by {
        match pre.teardown_gpadls@[j].channel_id {
            Some(cid) => {
                let k = choose|k: int|
                    0 <= k < pre.gpadls@.len() && (#[trigger] pre.gpadls@[k]).channel_id == cid
                        && pre.gpadls@[k].gpadl_id == pre.teardown_gpadls@[j].gpadl_id
                        && pre.gpadls@[k].state is TearingDown;
                assert(post.gpadls@[k] == pre.gpadls@[k]);
            },
            None => {},
        }
    }
}

/// Transition for the host's GPADL creation result: an `Offered`
/// record becomes `Created` on success or is dropped on failure, and
/// the waiting caller learns the outcome; anything else — an unknown
/// key or a record past `Offered` — is ignored.
pub open spec fn spec_gpadl_created(
    pre: ClientTask,
    request: GpadlCreated,
    post: ClientTask,
    r: Seq<Action>,
) -> bool {
    if !spec_has_gpadl(pre.gpadls@, request.channel_id, request.gpadl_id) {
        &&& post == pre
        &&& r == Seq::<Action>::empty()
    } else {
        let i = spec_gpadl_index(pre.gpadls@, request.channel_id, request.gpadl_id);
        match pre.gpadls@[i].state {
            GpadlState::Offered(tok) => {
                let created = request.status == STATUS_SUCCESS;
                &&& spec_same_but_gpadls(pre, post)
                &&& post.teardown_gpadls@ == pre.teardown_gpadls@
                &&& if created {
                    post.gpadls@ == spec_set_gpadl_state(pre.gpadls@, i, GpadlState::Created)
                } else {
                    post.gpadls@ == pre.gpadls@.remove(i)
                }
                &&& r == seq![Action::CompleteGpadl(tok, created)]
            },
            _ => {
                &&& post == pre
                &&& r == Seq::<Action>::empty()
            },
        }
    }
}

/// Transition for a caller's teardown request: a recorded GPADL not
/// already tearing down moves to `TearingDown`, its pending teardown
/// is recorded, and one wire message is sent. A second teardown for
/// the same GPADL id — the caller must keep them unique — is a fault;
/// an unknown key or a repeat on the same record is ignored.
pub open spec fn spec_gpadl_teardown(
    pre: ClientTask,
    channel_id: ChannelId,
    gpadl_id: GpadlId,
    post: ClientTask,
    r: Result<Vec<Action>, FatalError>,
) -> bool {
    if !spec_has_gpadl(pre.gpadls@, channel_id, gpadl_id) {
        &&& post == pre
        &&& r matches Ok(a) && a@ == Seq::<Action>::empty()
    } else {
        let i = spec_gpadl_index(pre.gpadls@, channel_id, gpadl_id);
        if pre.gpadls@[i].state is TearingDown {
            &&& post == pre
            &&& r matches Ok(a) && a@ == Seq::<Action>::empty()
        } else if spec_has_teardown(pre.teardown_gpadls@, gpadl_id) {
            &&& post == pre
            &&& r matches Err(e) && e == FatalError::GpadlIdInTeardown(gpadl_id)
        } else {
            &&& spec_same_but_gpadls(pre, post)
            &&& post.gpadls@ == spec_set_gpadl_state(pre.gpadls@, i, GpadlState::TearingDown)
            &&& post.teardown_gpadls@ == pre.teardown_gpadls@.push(
                TeardownEntry { gpadl_id, channel_id: Some(channel_id) },
            )
            &&& r matches Ok(a) && a@ == seq![
                Action::Send(OutgoingMessage::GpadlTeardown(GpadlTeardown { channel_id, gpadl_id })),
            ]
        }
    }
}

/// Transition for the host's teardown confirmation. A pending
/// teardown that names its channel drops both the record and the
/// GPADL and answers the channel's owner; one without a channel was
/// implicit in a rescind and is swallowed; an unknown id is ignored.
pub open spec fn spec_gpadl_torndown(
    pre: ClientTask,
    request: GpadlTorndown,
    post: ClientTask,
    r: Seq<Action>,
) -> bool {
    if !spec_has_teardown(pre.teardown_gpadls@, request.gpadl_id) {
        &&& post == pre
        &&& r == Seq::<Action>::empty()
    } else {
        let j = spec_teardown_index(pre.teardown_gpadls@, request.gpadl_id);
        match pre.teardown_gpadls@[j].channel_id {
            None => {
                &&& spec_same_but_gpadls(pre, post)
                &&& post.gpadls@ == pre.gpadls@
                &&& post.teardown_gpadls@ == pre.teardown_gpadls@.remove(j)
                &&& r == Seq::<Action>::empty()
            },
            Some(cid) => {
                let i = spec_gpadl_index(pre.gpadls@, cid, request.gpadl_id);
                &&& spec_same_but_gpadls(pre, post)
                &&& post.gpadls@ == pre.gpadls@.remove(i)
                &&& post.teardown_gpadls@ == pre.teardown_gpadls@.remove(j)
                &&& r == seq![
                    Action::Respond(cid, ChannelResponse::TeardownGpadl(request.gpadl_id)),
                ]
            },
        }
    }
}

/// The wire form of a run of 64-bit page values: each in little-endian
/// order, in sequence order.
pub open spec fn spec_gpa_bytes(vals: Seq<u64>) -> Seq<u8>
    decreases vals.len(),
{
    if vals.len() == 0 {
        Seq::<u8>::empty()
    } else {
        spec_u64_to_le_bytes(vals[0]) + spec_gpa_bytes(vals.drop_first())
    }
}

/// Appending one value appends its eight bytes.
pub proof fn lemma_gpa_bytes_push(vals: Seq<u64>, x: u64)
    ensures
        spec_gpa_bytes(vals.push(x)) == spec_gpa_bytes(vals) + spec_u64_to_le_bytes(x),
    decreases vals.len(),
{
    if vals.len() == 0 {
        assert(vals.push(x)[0] == x);
        assert(vals.push(x).drop_first() =~= vals);
        assert(spec_gpa_bytes(vals.push(x)) =~= spec_gpa_bytes(vals) + spec_u64_to_le_bytes(x));
    } else {
        assert(vals.push(x)[0] == vals[0]);
        assert(vals.push(x).drop_first() =~= vals.drop_first().push(x));
        lemma_gpa_bytes_push(vals.drop_first(), x);
        assert(spec_gpa_bytes(vals.push(x)) == spec_u64_to_le_bytes(vals[0]) + (spec_gpa_bytes(
            vals.drop_first(),
        ) + spec_u64_to_le_bytes(x)));
        assert(spec_u64_to_le_bytes(vals[0]) + (spec_gpa_bytes(vals.drop_first())
            + spec_u64_to_le_bytes(x)) =~= spec_gpa_bytes(vals) + spec_u64_to_le_bytes(x));
    }
}

/// Serializes the values at `start..end` into their wire bytes.
fn gpa_chunk_bytes(buf: &Vec<u64>, start: usize, end: usize) -> (r: Vec<u8>)
    requires
        start <= end <= buf@.len(),
    ensures
        r@ == spec_gpa_bytes(buf@.subrange(start as int, end as int)),
{
    let mut out: Vec<u8> = Vec::new();
    let mut k: usize = start;
    proof {
        assert(buf@.subrange(start as int, start as int) =~= Seq::<u64>::empty());
    }
    while k < end
        invariant
            start <= k <= end <= buf@.len(),
            out@ == spec_gpa_bytes(buf@.subrange(start as int, k as int)),
        decreases end - k,
    {
        let mut b = u64_to_le_bytes(buf[k]);
        out.append(&mut b);
        proof {
            lemma_gpa_bytes_push(buf@.subrange(start as int, k as int), buf@[k as int]);
            assert(buf@.subrange(start as int, (k + 1) as int) =~= buf@.subrange(
                start as int,
                k as int,
            ).push(buf@[k as int]));
        }
        k = k + 1;
    }
    out
}

/// The actions a GPADL registration sends: one header frame carrying
/// the byte length and range count with the first values as trailing
/// data, then one body frame per further run of values.
pub open spec fn spec_is_gpadl_header_action(
    a: Action,
    channel_id: ChannelId,
    gid: GpadlId,
    len: u16,
    count: u16,
    bytes: Seq<u8>,
) -> bool {
    a matches Action::Send(m) && (m matches OutgoingMessage::GpadlHeader(h, d) && h == (GpadlHeader {
        channel_id,
        gpadl_id: gid,
        len,
        count,
    }) && d@ == bytes)
}

pub open spec fn spec_is_gpadl_body_action(a: Action, gid: GpadlId, bytes: Seq<u8>) -> bool {
    a matches Action::Send(m) && (m matches OutgoingMessage::GpadlBody(b, d) && b == (GpadlBody {
        rsvd: 0,
        gpadl_id: gid,
    }) && d@ == bytes)
}

/// The run of values a body frame at position `k` carries.
pub open spec fn spec_gpadl_body_chunk(buf: Seq<u64>, k: int) -> Seq<u64> {
    let n = buf.len() as int;
    buf.subrange(
        27 + (k - 1) * 28,
        if 27 + k * 28 <= n {
            27 + k * 28
        } else {
            n
        },
    )
}

pub open spec fn spec_gpadl_actions(
    channel_id: ChannelId,
    gid: GpadlId,
    count: u16,
    buf: Seq<u64>,
    r: Seq<Action>,
) -> bool {
    let n = buf.len() as int;
    let first_end = if n <= 27 {
        n
    } else {
        27
    };
    &&& r.len() >= 1
    &&& spec_is_gpadl_header_action(
        r[0],
        channel_id,
        gid,
        (n * 8) as u16,
        count,
        spec_gpa_bytes(buf.subrange(0, first_end)),
    )
    &&& if n <= 27 {
        r.len() == 1
    } else {
        &&& r.len() >= 2
        &&& 27 + (r.len() - 2) * 28 < n <= 27 + (r.len() - 1) * 28
    }
    &&& forall|k: int|
        1 <= k < r.len() ==> spec_is_gpadl_body_action(
            #[trigger] r[k],
            gid,
            spec_gpa_bytes(spec_gpadl_body_chunk(buf, k)),
        )
}

/// Transition for a caller's GPADL registration. The caller keeps
/// GPADL ids unique, so an id already recorded — under any channel —
/// is a fault, as is a value list whose byte length overflows the
/// header's length field. Otherwise the record waits in `Offered` and
/// the values go out in header and body frames.
pub open spec fn spec_gpadl(
    pre: ClientTask,
    channel_id: ChannelId,
    rpc: Rpc<GpadlRequest>,
    post: ClientTask,
    r: Result<Vec<Action>, FatalError>,
) -> bool {
    if spec_has_gpadl_id(pre.gpadls@, rpc.request.id) {
        &&& post == pre
        &&& r matches Err(e) && e == FatalError::DuplicateGpadlId(channel_id, rpc.request.id)
    } else if rpc.request.buf@.len() > 8191 {
        &&& post == pre
        &&& r matches Err(e) && e == FatalError::TooManyGpaValues(rpc.request.id)
    } else {
        &&& spec_same_but_gpadls(pre, post)
        &&& post.teardown_gpadls@ == pre.teardown_gpadls@
        &&& post.gpadls@ == pre.gpadls@.push(
            GpadlEntry {
                channel_id,
                gpadl_id: rpc.request.id,
                state: GpadlState::Offered(rpc.reply),
            },
        )
        &&& r matches Ok(a) && spec_gpadl_actions(
            channel_id,
            rpc.request.id,
            rpc.request.count,
            rpc.request.buf@,
            a@,
        )
    }
}

/// The GPADLs recorded for one channel, in registry order.
pub open spec fn spec_gpadls_of(gpadls: Seq<GpadlEntry>, id: ChannelId) -> Seq<GpadlEntry> {
    gpadls.filter(|g: GpadlEntry| g.channel_id == id)
}

/// The GPADLs recorded for every other channel, in registry order.
pub open spec fn spec_gpadls_not_of(gpadls: Seq<GpadlEntry>, id: ChannelId) -> Seq<GpadlEntry> {
    gpadls.filter(|g: GpadlEntry| g.channel_id != id)
}

/// Appending a GPADL record extends one of the two channel-split views
/// and leaves the other alone.
pub proof fn lemma_gpadls_split_push(s: Seq<GpadlEntry>, g: GpadlEntry, id: ChannelId)
    ensures
        spec_gpadls_of(s.push(g), id) == if g.channel_id == id {
            spec_gpadls_of(s, id).push(g)
        } else {
            spec_gpadls_of(s, id)
        },
        spec_gpadls_not_of(s.push(g), id) == if g.channel_id != id {
            spec_gpadls_not_of(s, id).push(g)
        } else {
            spec_gpadls_not_of(s, id)
        },
{
    s.lemma_filter_push(g, |gg: GpadlEntry| gg.channel_id == id);
    s.lemma_filter_push(g, |gg: GpadlEntry| gg.channel_id != id);
}

/// What one rescinded GPADL asks of the event loop: a teardown already
/// in flight is answered to the caller at once; any other is torn down
/// on the wire.
pub open spec fn spec_rescind_gpadl_action(g: GpadlEntry, id: ChannelId) -> Action {
    if g.state is TearingDown {
        Action::Respond(id, ChannelResponse::TeardownGpadl(g.gpadl_id))
    } else {
        Action::Send(
            OutgoingMessage::GpadlTeardown(GpadlTeardown { channel_id: id, gpadl_id: g.gpadl_id }),
        )
    }
}

/// The per-GPADL actions of a rescind, in registry order.
pub open spec fn spec_rescind_actions(gs: Seq<GpadlEntry>, id: ChannelId) -> Seq<Action> {
    gs.map_values(|g: GpadlEntry| spec_rescind_gpadl_action(g, id))
}

/// Appending a GPADL record appends its action.
pub proof fn lemma_rescind_actions_push(gs: Seq<GpadlEntry>, g: GpadlEntry, id: ChannelId)
    ensures
        spec_rescind_actions(gs.push(g), id) == spec_rescind_actions(gs, id).push(
            spec_rescind_gpadl_action(g, id),
        ),
{
    gs.lemma_push_map_commute(|gg: GpadlEntry| spec_rescind_gpadl_action(gg, id), g);
}

/// Whether one of the first `k` GPADL records belongs to this channel
/// under this id.
pub open spec fn spec_owns_prefix(
    gpadls: Seq<GpadlEntry>,
    k: int,
    id: ChannelId,
    gid: GpadlId,
) -> bool {
    exists|m: int|
        0 <= m < k && (#[trigger] gpadls[m]).channel_id == id && gpadls[m].gpadl_id == gid
}

/// Whether this channel holds a GPADL record under this id.
pub open spec fn spec_channel_owns_gpadl(
    gpadls: Seq<GpadlEntry>,
    id: ChannelId,
    gid: GpadlId,
) -> bool {
    spec_owns_prefix(gpadls, gpadls.len() as int, id, gid)
}

/// Transition for a host rescind. Every GPADL of the channel is
/// released — answered at once if already tearing down, torn down on
/// the wire otherwise — and left pending without a channel so the
/// host's confirmation is swallowed; the channel record goes away, the
/// release notice is posted exactly once, and the revocation is
/// published. A rescind for an unrecorded channel is a host fault.
pub open spec fn spec_rescind(
    pre: ClientTask,
    rescind: RescindChannelOffer,
    post: ClientTask,
    r: Result<Vec<Action>, FatalError>,
) -> bool {
    let id = rescind.channel_id;
    if !spec_has_channel(pre.channels@, id) {
        &&& post == pre
        &&& r matches Err(e) && e == FatalError::UnknownChannelId(id)
    } else {
        let mine = spec_gpadls_of(pre.gpadls@, id);
        &&& post.state == pre.state
        &&& post.connect_request == pre.connect_request
        &&& post.modify_request == pre.modify_request
        &&& post.channels@ == pre.channels@.remove(spec_channel_index(pre.channels@, id))
        &&& post.gpadls@ == spec_gpadls_not_of(pre.gpadls@, id)
        &&& forall|j: int|
            0 <= j < post.teardown_gpadls@.len() ==> {
                let gid = (#[trigger] post.teardown_gpadls@[j]).gpadl_id;
                &&& (spec_has_teardown(pre.teardown_gpadls@, gid) || spec_channel_owns_gpadl(
                    pre.gpadls@,
                    id,
                    gid,
                ))
                &&& post.teardown_gpadls@[j].channel_id == if spec_channel_owns_gpadl(
                    pre.gpadls@,
                    id,
                    gid,
                ) {
                    None::<ChannelId>
                } else {
                    spec_teardown_channel(pre.teardown_gpadls@, gid)
                }
            }
        &&& forall|j: int|
            0 <= j < pre.teardown_gpadls@.len() ==> spec_has_teardown(
                post.teardown_gpadls@,
                (#[trigger] pre.teardown_gpadls@[j]).gpadl_id,
            )
        &&& forall|m: int|
            0 <= m < pre.gpadls@.len() && (#[trigger] pre.gpadls@[m]).channel_id == id
                ==> spec_has_teardown(post.teardown_gpadls@, pre.gpadls@[m].gpadl_id)
        &&& r matches Ok(a) && a@ == spec_rescind_actions(mine, id) + seq![
            Action::Send(OutgoingMessage::RelIdReleased(RelIdReleased { channel_id: id })),
            Action::Notify(ClientNotification::Revoke(id)),
        ]
    }
}

/// Removing one channel keeps the remaining ids pairwise distinct.
proof fn lemma_rescind_channels_unique(channels: Seq<ChannelEntry>, ci: int)
    requires
        forall|p: int, q: int| 0 <= p < q < channels.len() ==> channels[p].id != channels[q].id,
        0 <= ci < channels.len(),
    ensures
        forall|p: int, q: int|
            0 <= p < q < channels.remove(ci).len() ==> channels.remove(ci)[p].id != channels.remove(
                ci,
            )[q].id,
{
    channels.remove_ensures(ci);
    assert forall|p: int, q: int|
        0 <= p < q < channels.remove(ci).len() implies channels.remove(ci)[p].id != channels.remove(
        ci,
    )[q].id by {
        let pp: int = if p < ci {
            p
        } else {
            p + 1
        };
        let qq: int = if q < ci {
            q
        } else {
            q + 1
        };
        assert(channels.remove(ci)[p] == channels[pp]);
        assert(channels.remove(ci)[q] == channels[qq]);
    }
}

/// Every surviving GPADL still names a surviving channel.
proof fn lemma_rescind_gpadl_channels(
    prech: Seq<ChannelEntry>,
    preg: Seq<GpadlEntry>,
    postch: Seq<ChannelEntry>,
    postg: Seq<GpadlEntry>,
    id: ChannelId,
    ci: int,
)
    requires
        forall|p: int, q: int| 0 <= p < q < prech.len() ==> prech[p].id != prech[q].id,
        forall|i: int|
            0 <= i < preg.len() ==> spec_has_channel(prech, #[trigger] preg[i].channel_id),
        0 <= ci < prech.len(),
        prech[ci].id == id,
        postch == prech.remove(ci),
        forall|p: int| 0 <= p < postg.len() ==> (#[trigger] postg[p]).channel_id != id,
        forall|p: int|
            0 <= p < postg.len() ==> spec_has_gpadl_id(preg, (#[trigger] postg[p]).gpadl_id)
                && postg[p] == preg[spec_gpadl_id_index(preg, postg[p].gpadl_id)],
    ensures
        forall|p: int| 0 <= p < postg.len() ==> spec_has_channel(postch, #[trigger] postg[p].channel_id),
{
    prech.remove_ensures(ci);
    assert forall|p: int|
        0 <= p < postg.len() implies spec_has_channel(postch, #[trigger] postg[p].channel_id) by {
        let m = spec_gpadl_id_index(preg, postg[p].gpadl_id);
        assert(postg[p] == preg[m]);
        assert(spec_has_channel(prech, preg[m].channel_id));
        let w = spec_channel_index(prech, preg[m].channel_id);
        assert(prech[w].id == postg[p].channel_id);
        assert(w != ci);
        if w < ci {
            assert(postch[w].id == postg[p].channel_id);
        } else {
            assert(postch[w - 1].id == postg[p].channel_id);
        }
    }
}

/// Every surviving tearing-down GPADL kept its pending teardown.
proof fn lemma_rescind_tearing_tracked(
    preg: Seq<GpadlEntry>,
    pretd: Seq<TeardownEntry>,
    postg: Seq<GpadlEntry>,
    posttd: Seq<TeardownEntry>,
    id: ChannelId,
)
    requires
        forall|p: int, q: int| 0 <= p < q < preg.len() ==> preg[p].gpadl_id != preg[q].gpadl_id,
        forall|p: int, q: int| 0 <= p < q < pretd.len() ==> pretd[p].gpadl_id != pretd[q].gpadl_id,
        forall|i: int|
            0 <= i < preg.len() && (#[trigger] preg[i]).state is TearingDown ==> exists|j: int|
                0 <= j < pretd.len() && (#[trigger] pretd[j]).gpadl_id == preg[i].gpadl_id
                    && pretd[j].channel_id == Some(preg[i].channel_id),
        forall|p: int| 0 <= p < postg.len() ==> (#[trigger] postg[p]).channel_id != id,
        forall|p: int|
            0 <= p < postg.len() ==> spec_has_gpadl_id(preg, (#[trigger] postg[p]).gpadl_id)
                && postg[p] == preg[spec_gpadl_id_index(preg, postg[p].gpadl_id)],
        forall|j: int|
            0 <= j < posttd.len() ==> {
                let gid = (#[trigger] posttd[j]).gpadl_id;
                &&& (spec_has_teardown(pretd, gid) || spec_channel_owns_gpadl(preg, id, gid))
                &&& posttd[j].channel_id == if spec_channel_owns_gpadl(preg, id, gid) {
                    None::<ChannelId>
                } else {
                    spec_teardown_channel(pretd, gid)
                }
            },
        forall|j: int|
            0 <= j < pretd.len() ==> spec_has_teardown(posttd, (#[trigger] pretd[j]).gpadl_id),
    ensures
        forall|p: int|
            0 <= p < postg.len() && (#[trigger] postg[p]).state is TearingDown ==> exists|j: int|
                0 <= j < posttd.len() && (#[trigger] posttd[j]).gpadl_id == postg[p].gpadl_id
                    && posttd[j].channel_id == Some(postg[p].channel_id),
{
    assert forall|p: int|
        0 <= p < postg.len() && (#[trigger] postg[p]).state is TearingDown implies exists|j: int|
        0 <= j < posttd.len() && (#[trigger] posttd[j]).gpadl_id == postg[p].gpadl_id
            && posttd[j].channel_id == Some(postg[p].channel_id) by {
        let m = spec_gpadl_id_index(preg, postg[p].gpadl_id);
        assert(postg[p] == preg[m]);
        let gid = preg[m].gpadl_id;
        let jj = choose|jj: int|
            0 <= jj < pretd.len() && (#[trigger] pretd[jj]).gpadl_id == gid && pretd[jj].channel_id
                == Some(preg[m].channel_id);
        lemma_teardown_index(pretd, jj);
        assert(spec_teardown_channel(pretd, gid) == Some(preg[m].channel_id));
        assert(spec_has_teardown(posttd, gid));
        let j = spec_teardown_index(posttd, gid);
        assert(0 <= j < posttd.len() && posttd[j].gpadl_id == gid);
        assert(!spec_channel_owns_gpadl(preg, id, gid)) by {
            if spec_channel_owns_gpadl(preg, id, gid) {
                let mm = choose|mm: int|
                    0 <= mm < preg.len() && (#[trigger] preg[mm]).channel_id == id
                        && preg[mm].gpadl_id == gid;
                if mm < m {
                    assert(preg[mm].gpadl_id != preg[m].gpadl_id);
                } else if m < mm {
                    assert(preg[m].gpadl_id != preg[mm].gpadl_id);
                }
            }
        }
        assert(posttd[j].channel_id == Some(postg[p].channel_id));
    }
}

/// Every teardown still pointing at a channel still has its GPADL.
proof fn lemma_rescind_teardown_backed(
    preg: Seq<GpadlEntry>,
    pretd: Seq<TeardownEntry>,
    postg: Seq<GpadlEntry>,
    posttd: Seq<TeardownEntry>,
    id: ChannelId,
)
    requires
        forall|p: int, q: int| 0 <= p < q < preg.len() ==> preg[p].gpadl_id != preg[q].gpadl_id,
        forall|p: int, q: int| 0 <= p < q < pretd.len() ==> pretd[p].gpadl_id != pretd[q].gpadl_id,
        forall|j: int|
            0 <= j < pretd.len() ==> match (#[trigger] pretd[j]).channel_id {
                Some(cid) => exists|i: int|
                    0 <= i < preg.len() && (#[trigger] preg[i]).channel_id == cid
                        && preg[i].gpadl_id == pretd[j].gpadl_id && preg[i].state is TearingDown,
                None => true,
            },
        forall|m: int|
            0 <= m < preg.len() && (#[trigger] preg[m]).channel_id != id ==> spec_has_gpadl_id(
                postg,
                preg[m].gpadl_id,
            ) && postg[spec_gpadl_id_index(postg, preg[m].gpadl_id)] == preg[m],
        forall|j: int|
            0 <= j < posttd.len() ==> {
                let gid = (#[trigger] posttd[j]).gpadl_id;
                &&& (spec_has_teardown(pretd, gid) || spec_channel_owns_gpadl(preg, id, gid))
                &&& posttd[j].channel_id == if spec_channel_owns_gpadl(preg, id, gid) {
                    None::<ChannelId>
                } else {
                    spec_teardown_channel(pretd, gid)
                }
            },
    ensures
        forall|j: int|
            0 <= j < posttd.len() ==> match (#[trigger] posttd[j]).channel_id {
                Some(cid) => exists|p: int|
                    0 <= p < postg.len() && (#[trigger] postg[p]).channel_id == cid
                        && postg[p].gpadl_id == posttd[j].gpadl_id && postg[p].state is TearingDown,
                None => true,
            },
{
    assert forall|j: int|
        0 <= j < posttd.len() implies match (#[trigger] posttd[j]).channel_id {
        Some(cid) => exists|p: int|
            0 <= p < postg.len() && (#[trigger] postg[p]).channel_id == cid && postg[p].gpadl_id
                == posttd[j].gpadl_id && postg[p].state is TearingDown,
        None => true,
    } by {
        match posttd[j].channel_id {
            Some(cid) => {
                let gid = posttd[j].gpadl_id;
                assert(!spec_channel_owns_gpadl(preg, id, gid));
                assert(spec_has_teardown(pretd, gid));
                assert(spec_teardown_channel(pretd, gid) == Some(cid));
                let jj = spec_teardown_index(pretd, gid);
                assert(0 <= jj < pretd.len() && pretd[jj].gpadl_id == gid);
                assert(pretd[jj].channel_id == Some(cid));
                let m = choose|m: int|
                    0 <= m < preg.len() && (#[trigger] preg[m]).channel_id == cid
                        && preg[m].gpadl_id == gid && preg[m].state is TearingDown;
                assert(cid != id) by {
                    if cid == id {
                        assert(spec_owns_prefix(preg, preg.len() as int, id, gid));
                    }
                }
                let p = spec_gpadl_id_index(postg, preg[m].gpadl_id);
                assert(postg[p] == preg[m]);
                assert(postg[p].channel_id == cid && postg[p].gpadl_id == gid && postg[p].state
                    is TearingDown);
            },
            None => {},
        }
    }
}

/// The state after a rescind is well-formed: the surviving GPADLs keep
/// their channels and their teardown tracking, and the teardowns left
/// behind without a channel point at nothing.
pub proof fn lemma_wf_rescind(pre: ClientTask, post: ClientTask, id: ChannelId)
    requires
        pre.wf(),
        spec_has_channel(pre.channels@, id),
        post.state == pre.state,
        post.connect_request == pre.connect_request,
        post.channels@ == pre.channels@.remove(spec_channel_index(pre.channels@, id)),
        forall|p: int, q: int|
            0 <= p < q < post.gpadls@.len() ==> post.gpadls@[p].gpadl_id != post.gpadls@[q].gpadl_id,
        forall|p: int| 0 <= p < post.gpadls@.len() ==> (#[trigger] post.gpadls@[p]).channel_id != id,
        forall|p: int|
            0 <= p < post.gpadls@.len() ==> spec_has_gpadl_id(
                pre.gpadls@,
                (#[trigger] post.gpadls@[p]).gpadl_id,
            ) && post.gpadls@[p] == pre.gpadls@[spec_gpadl_id_index(
                pre.gpadls@,
                post.gpadls@[p].gpadl_id,
            )],
        forall|m: int|
            0 <= m < pre.gpadls@.len() && (#[trigger] pre.gpadls@[m]).channel_id != id
                ==> spec_has_gpadl_id(post.gpadls@, pre.gpadls@[m].gpadl_id) && post.gpadls@[spec_gpadl_id_index(
                post.gpadls@,
                pre.gpadls@[m].gpadl_id,
            )] == pre.gpadls@[m],
        forall|p: int, q: int|
            0 <= p < q < post.teardown_gpadls@.len() ==> post.teardown_gpadls@[p].gpadl_id
                != post.teardown_gpadls@[q].gpadl_id,
        forall|j: int|
            0 <= j < post.teardown_gpadls@.len() ==> {
                let gid = (#[trigger] post.teardown_gpadls@[j]).gpadl_id;
                &&& (spec_has_teardown(pre.teardown_gpadls@, gid) || spec_channel_owns_gpadl(
                    pre.gpadls@,
                    id,
                    gid,
                ))
                &&& post.teardown_gpadls@[j].channel_id == if spec_channel_owns_gpadl(
                    pre.gpadls@,
                    id,
                    gid,
                ) {
                    None::<ChannelId>
                } else {
                    spec_teardown_channel(pre.teardown_gpadls@, gid)
                }
            },
        forall|j: int|
            0 <= j < pre.teardown_gpadls@.len() ==> spec_has_teardown(
                post.teardown_gpadls@,
                (#[trigger] pre.teardown_gpadls@[j]).gpadl_id,
            ),
    ensures
        post.wf(),
{
    let ci = spec_channel_index(pre.channels@, id);
    assert(0 <= ci < pre.channels@.len() && pre.channels@[ci].id == id);
    lemma_rescind_channels_unique(pre.channels@, ci);
    lemma_rescind_gpadl_channels(
        pre.channels@,
        pre.gpadls@,
        post.channels@,
        post.gpadls@,
        id,
        ci,
    );
    lemma_rescind_tearing_tracked(
        pre.gpadls@,
        pre.teardown_gpadls@,
        post.gpadls@,
        post.teardown_gpadls@,
        id,
    );
    lemma_rescind_teardown_backed(
        pre.gpadls@,
        pre.teardown_gpadls@,
        post.gpadls@,
        post.teardown_gpadls@,
        id,
    );
}

/// Transition for a caller's open request. Only an `Offered` channel
/// can open; any other sub-state answers `false` at once. With the
/// guest-signal or interrupt-redirection feature negotiated the
/// extended open carries the caller's connection id, event flag and
/// flags; without them the host picks the signal parameters, so a
/// caller-specified event flag that is not the channel id is a fault.
/// The channel then waits in `Opening` for the host's result.
pub open spec fn spec_open_channel(
    pre: ClientTask,
    channel_id: ChannelId,
    rpc: Rpc<OpenRequest>,
    post: ClientTask,
    r: Result<Vec<Action>, FatalError>,
) -> bool {
    if !spec_has_channel(pre.channels@, channel_id) {
        &&& post == pre
        &&& r matches Err(e) && e == FatalError::UnknownChannelId(channel_id)
    } else {
        let i = spec_channel_index(pre.channels@, channel_id);
        if !(pre.channels@[i].channel.state is Offered) {
            &&& post == pre
            &&& r matches Ok(a) && a@ == seq![Action::CompleteOpen(rpc.reply, false)]
        } else {
            let od = rpc.request.open_data;
            let oc = OpenChannel {
                channel_id,
                open_id: 0,
                ring_buffer_gpadl_id: od.ring_gpadl_id,
                target_vp: od.target_vp,
                downstream_ring_buffer_page_offset: od.ring_offset,
                user_data: od.user_data,
            };
            let extended = match pre.state {
                ClientState::Connected(v) => v.feature_flags.0
                    & FEATURE_GUEST_SPECIFIED_SIGNAL_PARAMETERS != 0 || v.feature_flags.0
                    & FEATURE_CHANNEL_INTERRUPT_REDIRECTION != 0,
                _ => false,
            };
            if extended {
                &&& spec_same_but_channels(pre, post)
                &&& post.channels@ == spec_set_channel_state(
                    pre.channels@,
                    i,
                    ChannelState::Opening(rpc.reply),
                )
                &&& r matches Ok(a) && a@ == seq![
                    Action::Send(
                        OutgoingMessage::OpenChannel2(
                            OpenChannel2 {
                                open_channel: oc,
                                connection_id: od.connection_id,
                                event_flag: od.event_flag,
                                flags: rpc.request.flags.0,
                            },
                        ),
                    ),
                ]
            } else if od.event_flag != channel_id.0 as u16 {
                &&& post == pre
                &&& r matches Err(e) && e == FatalError::EventFlagMismatch(channel_id)
            } else {
                &&& spec_same_but_channels(pre, post)
                &&& post.channels@ == spec_set_channel_state(
                    pre.channels@,
                    i,
                    ChannelState::Opening(rpc.reply),
                )
                &&& r matches Ok(a) && a@ == seq![
                    Action::Send(OutgoingMessage::OpenChannel(oc)),
                ]
            }
        }
    }
}

/// Transition for a caller's close request: only an `Opened` channel
/// sends the close — the host does not answer it — and returns to
/// `Offered`; in any other sub-state nothing happens.
pub open spec fn spec_close_channel(
    pre: ClientTask,
    channel_id: ChannelId,
    post: ClientTask,
    r: Result<Vec<Action>, FatalError>,
) -> bool {
    if !spec_has_channel(pre.channels@, channel_id) {
        &&& post == pre
        &&& r matches Err(e) && e == FatalError::UnknownChannelId(channel_id)
    } else {
        let i = spec_channel_index(pre.channels@, channel_id);
        if pre.channels@[i].channel.state is Opened {
            &&& spec_same_but_channels(pre, post)
            &&& post.channels@ == spec_set_channel_state(pre.channels@, i, ChannelState::Offered)
            &&& r matches Ok(a) && a@ == seq![
                Action::Send(OutgoingMessage::CloseChannel(CloseChannel { channel_id })),
            ]
        } else {
            &&& post == pre
            &&& r matches Ok(a) && a@ == Seq::<Action>::empty()
        }
    }
}

/// Transition for a caller's modify-channel request: the client must
/// be connected — every version it speaks obliges the host to answer —
/// and at most one modify may be in flight per channel. The request is
/// recorded and one wire message sent.
pub open spec fn spec_modify_channel(
    pre: ClientTask,
    channel_id: ChannelId,
    rpc: Rpc<ModifyRequest>,
    post: ClientTask,
    r: Result<Vec<Action>, FatalError>,
) -> bool {
    if !(pre.state is Connected) {
        &&& post == pre
        &&& r matches Err(e) && e == FatalError::NotConnected
    } else if !spec_has_channel(pre.channels@, channel_id) {
        &&& post == pre
        &&& r matches Err(e) && e == FatalError::UnknownChannelId(channel_id)
    } else {
        let i = spec_channel_index(pre.channels@, channel_id);
        if pre.channels@[i].channel.modify_response is Some {
            &&& post == pre
            &&& r matches Err(e) && e == FatalError::DuplicateModifyChannel(channel_id)
        } else {
            let target_vp = match rpc.request {
                ModifyRequest::TargetVp { target_vp } => target_vp,
            };
            &&& spec_same_but_channels(pre, post)
            &&& post.channels@ == spec_set_modify_response(pre.channels@, i, Some(rpc.reply))
            &&& r matches Ok(a) && a@ == seq![
                Action::Send(OutgoingMessage::ModifyChannel(ModifyChannel { channel_id, target_vp })),
            ]
        }
    }
}

/// Transition for a caller dropping its channel endpoint: a channel
/// left `Opened` is closed on the caller's behalf; anything else is
/// left alone.
pub open spec fn spec_device_removal(
    pre: ClientTask,
    channel_id: ChannelId,
    post: ClientTask,
    r: Seq<Action>,
) -> bool {
    if spec_has_channel(pre.channels@, channel_id) && spec_channel(
        pre.channels@,
        channel_id,
    ).state is Opened {
        let i = spec_channel_index(pre.channels@, channel_id);
        &&& spec_same_but_channels(pre, post)
        &&& post.channels@ == spec_set_channel_state(pre.channels@, i, ChannelState::Offered)
        &&& r == seq![Action::Send(OutgoingMessage::CloseChannel(CloseChannel { channel_id }))]
    } else {
        &&& post == pre
        &&& r == Seq::<Action>::empty()
    }
}

/// Law: a recorded channel is in exactly one sub-state. A channel
/// waiting in `Opening` holds the token of the reply sink to wake —
/// the variant carries it — and an `Opened` channel holds no pending
/// open reply.
pub proof fn lemma_channel_substate_exclusive(t: ClientTask, id: ChannelId)
    requires
        t.wf(),
        spec_has_channel(t.channels@, id),
    ensures
        ({
            let st = spec_channel(t.channels@, id).state;
            &&& st is Offered || st is Opening || st is Opened
            &&& (st is Offered ==> !(st is Opening) && !(st is Opened))
            &&& (st is Opening ==> !(st is Offered) && !(st is Opened) && st == ChannelState::Opening(
                st->Opening_0,
            ))
            &&& (st is Opened ==> !(st is Offered) && !(st is Opening))
        }),
{
}

/// Law: a GPADL waiting in `Offered` holds the token of the reply sink
/// to wake — the variant carries it — and one that is `TearingDown`
/// has a pending teardown in flight whose recorded channel is exactly
/// the key's channel.
pub proof fn lemma_gpadl_teardown_tracked(t: ClientTask, cid: ChannelId, gid: GpadlId)
    requires
        t.wf(),
        spec_has_gpadl(t.gpadls@, cid, gid),
    ensures
        ({
            let st = spec_gpadl_state(t.gpadls@, cid, gid);
            &&& (st is Offered ==> st == GpadlState::Offered(st->Offered_0))
            &&& (st is TearingDown ==> spec_has_teardown(t.teardown_gpadls@, gid)
                && spec_teardown_channel(t.teardown_gpadls@, gid) == Some(cid))
        }),
{
    let i = spec_gpadl_index(t.gpadls@, cid, gid);
    assert(0 <= i < t.gpadls@.len() && t.gpadls@[i].channel_id == cid && t.gpadls@[i].gpadl_id
        == gid);
    if t.gpadls@[i].state is TearingDown {
        let j = choose|j: int|
            0 <= j < t.teardown_gpadls@.len() && (#[trigger] t.teardown_gpadls@[j]).gpadl_id == gid
                && t.teardown_gpadls@[j].channel_id == Some(cid);
        lemma_teardown_index(t.teardown_gpadls@, j);
    }
}

/// Law: after a rescind is handled, no channel record with that id and
/// no GPADL record of that channel remains, exactly one release notice
/// for that id is posted, and a revocation for it is published.
pub proof fn lemma_rescind_cleans(
    pre: ClientTask,
    rescind: RescindChannelOffer,
    post: ClientTask,
    r: Result<Vec<Action>, FatalError>,
)
    requires
        pre.wf(),
        spec_has_channel(pre.channels@, rescind.channel_id),
        spec_rescind(pre, rescind, post, r),
    ensures
        !spec_has_channel(post.channels@, rescind.channel_id),
        forall|i: int|
            0 <= i < post.gpadls@.len() ==> (#[trigger] post.gpadls@[i]).channel_id
                != rescind.channel_id,
        r matches Ok(a) && exists|k: int|
            0 <= k < a@.len() && a@[k] == Action::Send(
                OutgoingMessage::RelIdReleased(RelIdReleased { channel_id: rescind.channel_id }),
            ) && (forall|k2: int|
                0 <= k2 < a@.len() && k2 != k ==> a@[k2] != Action::Send(
                    OutgoingMessage::RelIdReleased(
                        RelIdReleased { channel_id: rescind.channel_id },
                    ),
                )),
        r matches Ok(a) && exists|k: int|
            0 <= k < a@.len() && a@[k] == Action::Notify(
                ClientNotification::Revoke(rescind.channel_id),
            ),
{
    let id = rescind.channel_id;
    let ci = spec_channel_index(pre.channels@, id);
    assert(0 <= ci < pre.channels@.len() && pre.channels@[ci].id == id);
    pre.channels@.remove_ensures(ci);
    assert forall|p: int|
        0 <= p < post.channels@.len() implies (#[trigger] post.channels@[p]).id != id by {
        let pp: int = if p < ci {
            p
        } else {
            p + 1
        };
        assert(post.channels@[p] == pre.channels@[pp]);
    }
    let mine = spec_gpadls_of(pre.gpadls@, id);
    let acts = spec_rescind_actions(mine, id);
    let a = r->Ok_0;
    assert(a@.len() == acts.len() + 2);
    let relid = Action::Send(OutgoingMessage::RelIdReleased(RelIdReleased { channel_id: id }));
    assert(a@[acts.len() as int] == relid);
    assert(a@[acts.len() as int + 1] == Action::Notify(ClientNotification::Revoke(id)));
    assert forall|k2: int| 0 <= k2 < a@.len() && k2 != acts.len() implies a@[k2] != relid by {
        if k2 < acts.len() {
            assert(acts[k2] == spec_rescind_gpadl_action(mine[k2], id));
            assert(a@[k2] == acts[k2]);
        }
    }
    // the GPADL list dropped everything of the rescinded channel
    assert forall|i: int|
        0 <= i < post.gpadls@.len() implies (#[trigger] post.gpadls@[i]).channel_id != id by {
        pre.gpadls@.lemma_filter_pred(|g: GpadlEntry| g.channel_id != id, i);
    }
}

/// Law: while connecting, a rejection walks to the next older
/// supported version and issues exactly one new contact request whose
/// requested wire number is strictly smaller; when no older version is
/// left the client fails rather than retry. Candidates are therefore
/// tried once each, newest first.
pub proof fn lemma_negotiation_descends(
    pre: ClientTask,
    msg: VersionResponse2,
    post: ClientTask,
    r: Result<Vec<Action>, FatalError>,
    version: Version,
    request: InitiateContactRequest,
)
    requires
        pre.state == ClientState::Connecting(version, request),
        msg.version_response.version_supported == 0,
        spec_version_response(pre, msg, post, r),
    ensures
        match spec_next_older_version(version) {
            Some(next) => {
                &&& post.state == ClientState::Connecting(next, request)
                &&& spec_version_number(next) < spec_version_number(version)
                &&& r matches Ok(a) && a@.len() == 1 && a@[0] == Action::Send(
                    spec_contact_message(request, next),
                )
            },
            None => r matches Err(e) && e == FatalError::NoSupportedVersion,
        },
{
}

/// Whether `a` is `b` or newer.
pub open spec fn spec_version_at_least(a: Version, b: Version) -> bool {
    spec_version_number(a) >= spec_version_number(b)
}

/// Compares two versions by their wire numbers.
#[verifier::when_used_as_spec(spec_version_at_least)]
pub fn version_at_least(a: Version, b: Version) -> (r: bool)
    ensures
        r == spec_version_at_least(a, b),
{
    version_number(a) >= version_number(b)
}

/// The next older version the client supports, if any.
pub open spec fn spec_next_older_version(v: Version) -> Option<Version> {
    match v {
        Version::Copper => Some(Version::Iron),
        Version::Iron => None,
    }
}

/// Walks one step down the supported version list.
#[verifier::when_used_as_spec(spec_next_older_version)]
pub fn next_older_version(v: Version) -> (r: Option<Version>)
    ensures
        r == spec_next_older_version(v),
{
    match v {
        Version::Copper => Some(Version::Iron),
        Version::Iron => None,
    }
}

/// The monitor page pair, or zero addresses when none was given.
pub open spec fn spec_monitor_or_zero(mp: Option<MonitorPageGpas>) -> MonitorPageGpas {
    match mp {
        Some(m) => m,
        None => MonitorPageGpas { child_to_parent: 0, parent_to_child: 0 },
    }
}

/// The feature mask the client requests at a version: everything it
/// implements at Copper and above, nothing below.
pub open spec fn spec_requested_features(version: Version) -> FeatureFlags {
    if spec_version_at_least(version, Version::Copper) {
        FeatureFlags(SUPPORTED_FEATURE_MASK)
    } else {
        FeatureFlags(0)
    }
}

/// The contact message sent for a connection attempt at a version: the
/// extended form carrying the client id at Copper and above, the older
/// form below.
pub open spec fn spec_contact_message(
    request: InitiateContactRequest,
    version: Version,
) -> OutgoingMessage {
    let mp = spec_monitor_or_zero(request.monitor_page);
    let ic = InitiateContact {
        version_requested: spec_version_number(version),
        target_message_vp: request.target_message_vp,
        interrupt_page_or_target_info: spec_target_info(
            SINT,
            VTL,
            spec_requested_features(version),
        ),
        parent_to_child_monitor_page_gpa: mp.parent_to_child,
        child_to_parent_monitor_page_gpa: mp.child_to_parent,
    };
    if spec_version_at_least(version, Version::Copper) {
        OutgoingMessage::InitiateContact2(
            InitiateContact2 { initiate_contact: ic, client_id: request.client_id },
        )
    } else {
        OutgoingMessage::InitiateContact(ic)
    }
}

/// Everything but the connection state is kept.
pub open spec fn spec_same_but_state(pre: ClientTask, post: ClientTask) -> bool {
    &&& post.connect_request == pre.connect_request
    &&& post.modify_request == pre.modify_request
    &&& post.channels@ == pre.channels@
    &&& post.gpadls@ == pre.gpadls@
    &&& post.teardown_gpadls@ == pre.teardown_gpadls@
}

/// Transition for a connection attempt: only a disconnected client
/// starts one, sending exactly one contact message for the requested
/// version; in any other state the caller is answered `None` and
/// nothing changes.
pub open spec fn spec_initiate_contact(
    pre: ClientTask,
    request: InitiateContactRequest,
    version: Version,
    post: ClientTask,
    r: Seq<Action>,
) -> bool {
    if pre.state is Disconnected {
        &&& post.state == ClientState::Connecting(version, request)
        &&& spec_same_but_state(pre, post)
        &&& r == seq![Action::Send(spec_contact_message(request, version))]
    } else {
        &&& post == pre
        &&& r == seq![Action::CompleteConnect(None)]
    }
}

/// Transition for an offer request: only a connected client forwards
/// it to the host; otherwise the caller is told the offers are
/// unavailable and nothing changes.
pub open spec fn spec_request_offers(pre: ClientTask, post: ClientTask, r: Seq<Action>) -> bool {
    match pre.state {
        ClientState::Connected(v) => {
            &&& post.state == ClientState::RequestingOffers(v)
            &&& spec_same_but_state(pre, post)
            &&& r == seq![Action::Send(OutgoingMessage::RequestOffers)]
        },
        _ => {
            &&& post == pre
            &&& r == seq![Action::OffersUnavailable]
        },
    }
}

/// Transition for an unload request: admitted from any state that has
/// a version, sending exactly one unload message.
pub open spec fn spec_unload(
    pre: ClientTask,
    post: ClientTask,
    r: Result<Vec<Action>, FatalError>,
) -> bool {
    match pre.state.spec_version() {
        Some(v) => {
            &&& post.state == ClientState::Disconnecting(v)
            &&& spec_same_but_state(pre, post)
            &&& r matches Ok(a) && a@ == seq![Action::Send(OutgoingMessage::Unload)]
        },
        None => {
            &&& post == pre
            &&& r matches Err(e) && e == FatalError::InvalidStateForUnload
        },
    }
}

/// Transition for a modify-connection request: honoured only when
/// connected with the feature negotiated and no modify in flight;
/// otherwise answered `FAILED_UNKNOWN_FAILURE` with nothing changed.
pub open spec fn spec_modify(
    pre: ClientTask,
    rpc: Rpc<ModifyConnectionRequest>,
    post: ClientTask,
    r: Seq<Action>,
) -> bool {
    let supported = match pre.state {
        ClientState::Connected(v) => v.feature_flags.0 & crate::protocol::FEATURE_MODIFY_CONNECTION
            != 0,
        _ => false,
    };
    if !supported || pre.modify_request is Some {
        &&& post == pre
        &&& r == seq![
            Action::CompleteModify(
                rpc.reply,
                ConnectionState(CONNECTION_STATE_FAILED_UNKNOWN_FAILURE),
            ),
        ]
    } else {
        let mp = spec_monitor_or_zero(rpc.request.monitor_page);
        &&& post.state == pre.state
        &&& post.connect_request == pre.connect_request
        &&& post.modify_request == Some(rpc.reply)
        &&& post.channels@ == pre.channels@
        &&& post.gpadls@ == pre.gpadls@
        &&& post.teardown_gpadls@ == pre.teardown_gpadls@
        &&& r == seq![
            Action::Send(
                OutgoingMessage::ModifyConnection(
                    ModifyConnection {
                        parent_to_child_monitor_page_gpa: mp.parent_to_child,
                        child_to_parent_monitor_page_gpa: mp.child_to_parent,
                    },
                ),
            ),
        ]
    }
}

/// Transition for a hypervisor-socket forward: one extended connect
/// request is sent; the host owes no reply.
pub open spec fn spec_tl_connect(
    pre: ClientTask,
    request: HvsockConnectRequest,
    post: ClientTask,
    r: Seq<Action>,
) -> bool {
    &&& post == pre
    &&& r == seq![
        Action::Send(
            OutgoingMessage::TlConnectRequest2(
                TlConnectRequest2 {
                    base: TlConnectRequest {
                        service_id: request.service_id,
                        endpoint_id: request.endpoint_id,
                    },
                    silo_id: request.silo_id,
                },
            ),
        ),
    ]
}

/// Transition for the host's version response. While connecting, a
/// granted version moves the client to `Connected` — with the feature
/// mask cut to what the client implements, and empty below Copper — and
/// answers the waiting caller; a rejection walks to the next older
/// version and sends exactly one new contact message, or fails fatally
/// when none is left; a granted version with a failed connection state
/// is a host fault. A response in any other state leaves the client
/// disconnected, as the original connection state is no longer
/// trustworthy.
pub open spec fn spec_version_response(
    pre: ClientTask,
    msg: VersionResponse2,
    post: ClientTask,
    r: Result<Vec<Action>, FatalError>,
) -> bool {
    match pre.state {
        ClientState::Connecting(version, request) => {
            if msg.version_response.version_supported > 0 {
                if msg.version_response.connection_state.0 != CONNECTION_STATE_SUCCESSFUL {
                    &&& post == pre
                    &&& r matches Err(e) && e == FatalError::HostConnectionFailure
                } else {
                    let flags = if spec_version_at_least(version, Version::Copper) {
                        FeatureFlags(msg.supported_features & SUPPORTED_FEATURE_MASK)
                    } else {
                        FeatureFlags(0)
                    };
                    let vi = VersionInfo { version, feature_flags: flags };
                    &&& post.state == ClientState::Connected(vi)
                    &&& post.connect_request == Some(request)
                    &&& post.modify_request == pre.modify_request
                    &&& post.channels@ == pre.channels@
                    &&& post.gpadls@ == pre.gpadls@
                    &&& post.teardown_gpadls@ == pre.teardown_gpadls@
                    &&& r matches Ok(a) && a@ == seq![Action::CompleteConnect(Some(vi))]
                }
            } else {
                match spec_next_older_version(version) {
                    Some(next) => {
                        &&& post.state == ClientState::Connecting(next, request)
                        &&& spec_same_but_state(pre, post)
                        &&& r matches Ok(a) && a@ == seq![
                            Action::Send(spec_contact_message(request, next)),
                        ]
                    },
                    None => {
                        &&& post == pre
                        &&& r matches Err(e) && e == FatalError::NoSupportedVersion
                    },
                }
            }
        },
        _ => {
            &&& post.state is Disconnected
            &&& spec_same_but_state(pre, post)
            &&& r matches Ok(a) && a@ == Seq::<Action>::empty()
        },
    }
}

/// Transition for the host's end-of-offers mark: while collecting
/// offers the sentinel is forwarded and the state returns to
/// `Connected`; otherwise it is ignored.
pub open spec fn spec_offers_delivered(pre: ClientTask, post: ClientTask, r: Seq<Action>) -> bool {
    match pre.state {
        ClientState::RequestingOffers(v) => {
            &&& post.state == ClientState::Connected(v)
            &&& spec_same_but_state(pre, post)
            &&& r == seq![Action::AllOffersDelivered]
        },
        _ => {
            &&& post == pre
            &&& r == Seq::<Action>::empty()
        },
    }
}

/// Transition for the host's unload confirmation: the client returns
/// to `Disconnected` and the waiting caller is woken.
pub open spec fn spec_unload_complete(pre: ClientTask, post: ClientTask, r: Seq<Action>) -> bool {
    &&& post.state is Disconnected
    &&& spec_same_but_state(pre, post)
    &&& r == seq![Action::CompleteUnload]
}

/// Transition for the host's modify-connection response: a pending
/// request is answered with the reported state; a response with none
/// pending is ignored.
pub open spec fn spec_modify_complete(
    pre: ClientTask,
    response: ModifyConnectionResponse,
    post: ClientTask,
    r: Seq<Action>,
) -> bool {
    match pre.modify_request {
        Some(token) => {
            &&& post.state == pre.state
            &&& post.connect_request == pre.connect_request
            &&& post.modify_request is None
            &&& post.channels@ == pre.channels@
            &&& post.gpadls@ == pre.gpadls@
            &&& post.teardown_gpadls@ == pre.teardown_gpadls@
            &&& r == seq![Action::CompleteModify(token, response.connection_state)]
        },
        None => {
            &&& post == pre
            &&& r == Seq::<Action>::empty()
        },
    }
}

/// Transition for the host's hypervisor-socket result: converted and
/// published on the notification sink; success is status zero.
pub open spec fn spec_tl_connect_result(
    pre: ClientTask,
    response: TlConnectResult,
    post: ClientTask,
    r: Seq<Action>,
) -> bool {
    &&& post == pre
    &&& r == seq![
        Action::Notify(
            ClientNotification::HvsockConnectResult(
                HvsockConnectResult {
                    service_id: response.service_id,
                    endpoint_id: response.endpoint_id,
                    success: response.status == STATUS_SUCCESS,
                },
            ),
        ),
    ]
}

impl ClientTask {
    /// Starts a connection attempt at the given version.
    pub fn handle_initiate_contact(
        &mut self,
        request: InitiateContactRequest,
        version: Version,
    ) -> (r: Vec<Action>)
        ensures
            spec_initiate_contact(*old(self), request, version, *final(self), r@),
            old(self).wf() ==> final(self).wf(),
    {
        let mut r: Vec<Action> = Vec::new();
        match self.state {
            ClientState::Disconnected => {
                let flags = if version_at_least(version, Version::Copper) {
                    FeatureFlags::all()
                } else {
                    FeatureFlags::none()
                };
                let mp = match request.monitor_page {
                    Some(m) => m,
                    None => MonitorPageGpas { child_to_parent: 0, parent_to_child: 0 },
                };
                let ic = InitiateContact {
                    version_requested: version_number(version),
                    target_message_vp: request.target_message_vp,
                    interrupt_page_or_target_info: make_target_info(SINT, VTL, flags),
                    parent_to_child_monitor_page_gpa: mp.parent_to_child,
                    child_to_parent_monitor_page_gpa: mp.child_to_parent,
                };
                let msg = if version_at_least(version, Version::Copper) {
                    OutgoingMessage::InitiateContact2(
                        InitiateContact2 { initiate_contact: ic, client_id: request.client_id },
                    )
                } else {
                    OutgoingMessage::InitiateContact(ic)
                };
                self.state = ClientState::Connecting(version, request);
                r.push(Action::Send(msg));
            },
            _ => {
                r.push(Action::CompleteConnect(None));
            },
        }
        r
    }

    /// Asks the host to enumerate its channel offers.
    pub fn handle_request_offers(&mut self) -> (r: Vec<Action>)
        ensures
            spec_request_offers(*old(self), *final(self), r@),
            old(self).wf() ==> final(self).wf(),
    {
        let mut r: Vec<Action> = Vec::new();
        match self.state {
            ClientState::Connected(v) => {
                self.state = ClientState::RequestingOffers(v);
                r.push(Action::Send(OutgoingMessage::RequestOffers));
            },
            _ => {
                r.push(Action::OffersUnavailable);
            },
        }
        r
    }

    /// Asks the host to unload the client's connection.
    pub fn handle_unload(&mut self) -> (r: Result<Vec<Action>, FatalError>)
        ensures
            spec_unload(*old(self), *final(self), r),
            old(self).wf() ==> final(self).wf(),
    {
        match self.state.get_version() {
            Some(v) => {
                self.state = ClientState::Disconnecting(v);
                let mut a: Vec<Action> = Vec::new();
                a.push(Action::Send(OutgoingMessage::Unload));
                Ok(a)
            },
            None => Err(FatalError::InvalidStateForUnload),
        }
    }

    /// Asks the host to change the connection's monitor pages.
    pub fn handle_modify(&mut self, rpc: Rpc<ModifyConnectionRequest>) -> (r: Vec<Action>)
        ensures
            spec_modify(*old(self), rpc, *final(self), r@),
            old(self).wf() ==> final(self).wf(),
    {
        let mut r: Vec<Action> = Vec::new();
        let supported = match self.state {
            ClientState::Connected(v) => v.feature_flags.modify_connection(),
            _ => false,
        };
        if !supported || self.modify_request.is_some() {
            r.push(
                Action::CompleteModify(
                    rpc.reply,
                    ConnectionState(CONNECTION_STATE_FAILED_UNKNOWN_FAILURE),
                ),
            );
            return r;
        }
        let mp = match rpc.request.monitor_page {
            Some(m) => m,
            None => MonitorPageGpas { child_to_parent: 0, parent_to_child: 0 },
        };
        self.modify_request = Some(rpc.reply);
        r.push(
            Action::Send(
                OutgoingMessage::ModifyConnection(
                    ModifyConnection {
                        parent_to_child_monitor_page_gpa: mp.parent_to_child,
                        child_to_parent_monitor_page_gpa: mp.child_to_parent,
                    },
                ),
            ),
        );
        r
    }

    /// Forwards a hypervisor-socket connection attempt to the host.
    pub fn handle_tl_connect(&mut self, request: HvsockConnectRequest) -> (r: Vec<Action>)
        ensures
            spec_tl_connect(*old(self), request, *final(self), r@),
            old(self).wf() ==> final(self).wf(),
    {
        let mut r: Vec<Action> = Vec::new();
        r.push(
            Action::Send(
                OutgoingMessage::TlConnectRequest2(
                    TlConnectRequest2 {
                        base: TlConnectRequest {
                            service_id: request.service_id,
                            endpoint_id: request.endpoint_id,
                        },
                        silo_id: request.silo_id,
                    },
                ),
            ),
        );
        r
    }

    /// Dispatches one caller request. A connection attempt starts at
    /// the newest supported version.
    pub fn handle_client_request(&mut self, request: ClientRequest) -> (r: Result<
        Vec<Action>,
        FatalError,
    >)
        ensures
            ({
                let pre = *old(self);
                let post = *final(self);
                match request {
                    ClientRequest::InitiateContact(req) => r matches Ok(a)
                        && spec_initiate_contact(pre, req, Version::Copper, post, a@),
                    ClientRequest::RequestOffers => r matches Ok(a) && spec_request_offers(
                        pre,
                        post,
                        a@,
                    ),
                    ClientRequest::Unload => spec_unload(pre, post, r),
                    ClientRequest::Modify(rpc) => r matches Ok(a) && spec_modify(pre, rpc, post, a@),
                    ClientRequest::HvsockConnect(req) => r matches Ok(a) && spec_tl_connect(
                        pre,
                        req,
                        post,
                        a@,
                    ),
                }
            }),
            old(self).wf() ==> final(self).wf(),
    {
        match request {
            ClientRequest::InitiateContact(req) => Ok(
                self.handle_initiate_contact(req, Version::Copper),
            ),
            ClientRequest::RequestOffers => Ok(self.handle_request_offers()),
            ClientRequest::Unload => self.handle_unload(),
            ClientRequest::Modify(rpc) => Ok(self.handle_modify(rpc)),
            ClientRequest::HvsockConnect(req) => Ok(self.handle_tl_connect(req)),
        }
    }

    /// Handles the host's answer to a contact request.
    #[verifier::rlimit(100)]
    #[verifier::spinoff_prover]
    pub fn handle_version_response(&mut self, msg: VersionResponse2) -> (r: Result<
        Vec<Action>,
        FatalError,
    >)
        ensures
            spec_version_response(*old(self), msg, *final(self), r),
            old(self).wf() ==> final(self).wf(),
    {
        match self.state {
            ClientState::Connecting(version, request) => {
                if msg.version_response.version_supported > 0 {
                    if msg.version_response.connection_state.0 != CONNECTION_STATE_SUCCESSFUL {
                        return Err(FatalError::HostConnectionFailure);
                    }
                    let flags = if version_at_least(version, Version::Copper) {
                        FeatureFlags(msg.supported_features & SUPPORTED_FEATURE_MASK)
                    } else {
                        FeatureFlags(0)
                    };
                    let vi = VersionInfo { version, feature_flags: flags };
                    proof {
                        let sf = msg.supported_features;
                        assert((sf & 15u32) & 15u32 == sf & 15u32) by (bit_vector);
                        assert(0u32 & 15u32 == 0u32) by (bit_vector);
                        assert(SUPPORTED_FEATURE_MASK == 15u32);
                        assert(spec_version_ok(vi));
                    }
                    self.state = ClientState::Connected(vi);
                    self.connect_request = Some(request);
                    proof {
                        if old(self).wf() {
                            lemma_wf_same_registries(*old(self), *self);
                        }
                    }
                    let mut a: Vec<Action> = Vec::new();
                    a.push(Action::CompleteConnect(Some(vi)));
                    Ok(a)
                } else {
                    match next_older_version(version) {
                        Some(next) => {
                            self.state = ClientState::Disconnected;
                            proof {
                                if old(self).wf() {
                                    lemma_wf_same_registries(*old(self), *self);
                                }
                            }
                            Ok(self.handle_initiate_contact(request, next))
                        },
                        None => Err(FatalError::NoSupportedVersion),
                    }
                }
            },
            _ => {
                self.state = ClientState::Disconnected;
                proof {
                    if old(self).wf() {
                        lemma_wf_same_registries(*old(self), *self);
                    }
                }
                Ok(Vec::new())
            },
        }
    }

    /// Handles the host's end-of-offers mark.
    pub fn handle_offers_delivered(&mut self) -> (r: Vec<Action>)
        ensures
            spec_offers_delivered(*old(self), *final(self), r@),
            old(self).wf() ==> final(self).wf(),
    {
        let mut r: Vec<Action> = Vec::new();
        match self.state {
            ClientState::RequestingOffers(v) => {
                self.state = ClientState::Connected(v);
                r.push(Action::AllOffersDelivered);
            },
            _ => {},
        }
        r
    }

    /// Handles the host's unload confirmation.
    pub fn handle_unload_complete(&mut self) -> (r: Vec<Action>)
        ensures
            spec_unload_complete(*old(self), *final(self), r@),
            old(self).wf() ==> final(self).wf(),
    {
        self.state = ClientState::Disconnected;
        let mut r: Vec<Action> = Vec::new();
        r.push(Action::CompleteUnload);
        r
    }

    /// Handles the host's modify-connection response.
    pub fn handle_modify_complete(&mut self, response: ModifyConnectionResponse) -> (r: Vec<Action>)
        ensures
            spec_modify_complete(*old(self), response, *final(self), r@),
            old(self).wf() ==> final(self).wf(),
    {
        let mut r: Vec<Action> = Vec::new();
        match self.modify_request {
            Some(token) => {
                self.modify_request = None;
                r.push(Action::CompleteModify(token, response.connection_state));
            },
            None => {},
        }
        r
    }

    /// Looks a channel up by id: the index found is the key's index,
    /// and a miss means the id is not recorded.
    fn find_channel(&self, id: ChannelId) -> (r: Option<usize>)
        ensures
            match r {
                Some(i) => i < self.channels@.len() && self.channels@[i as int].id == id,
                None => !spec_has_channel(self.channels@, id),
            },
    {
        let n = self.channels.len();
        let mut i: usize = 0;
        while i < n
            invariant
                i <= n,
                n == self.channels@.len(),
                forall|j: int| 0 <= j < i ==> self.channels@[j].id != id,
            decreases n - i,
        {
            if self.channels[i].id.0 == id.0 {
                return Some(i);
            }
            i = i + 1;
        }
        None
    }

    /// Looks a GPADL up by its key.
    fn find_gpadl(&self, cid: ChannelId, gid: GpadlId) -> (r: Option<usize>)
        ensures
            match r {
                Some(i) => i < self.gpadls@.len() && self.gpadls@[i as int].channel_id == cid
                    && self.gpadls@[i as int].gpadl_id == gid,
                None => !spec_has_gpadl(self.gpadls@, cid, gid),
            },
    {
        let n = self.gpadls.len();
        let mut i: usize = 0;
        while i < n
            invariant
                i <= n,
                n == self.gpadls@.len(),
                forall|j: int|
                    0 <= j < i ==> !(self.gpadls@[j].channel_id == cid && self.gpadls@[j].gpadl_id
                        == gid),
            decreases n - i,
        {
            if self.gpadls[i].channel_id.0 == cid.0 && self.gpadls[i].gpadl_id.0 == gid.0 {
                return Some(i);
            }
            i = i + 1;
        }
        None
    }

    /// Looks a pending teardown up by its GPADL id.
    fn find_teardown(&self, gid: GpadlId) -> (r: Option<usize>)
        ensures
            match r {
                Some(i) => i < self.teardown_gpadls@.len() && self.teardown_gpadls@[i as int].gpadl_id
                    == gid,
                None => !spec_has_teardown(self.teardown_gpadls@, gid),
            },
    {
        let n = self.teardown_gpadls.len();
        let mut i: usize = 0;
        while i < n
            invariant
                i <= n,
                n == self.teardown_gpadls@.len(),
                forall|j: int| 0 <= j < i ==> self.teardown_gpadls@[j].gpadl_id != gid,
            decreases n - i,
        {
            if self.teardown_gpadls[i].gpadl_id.0 == gid.0 {
                return Some(i);
            }
            i = i + 1;
        }
        None
    }

    /// Handles the host's hypervisor-socket result.
    pub fn handle_tl_connect_result(&mut self, response: TlConnectResult) -> (r: Vec<Action>)
        ensures
            spec_tl_connect_result(*old(self), response, *final(self), r@),
            old(self).wf() ==> final(self).wf(),
    {
        let mut r: Vec<Action> = Vec::new();
        r.push(
            Action::Notify(
                ClientNotification::HvsockConnectResult(
                    HvsockConnectResult {
                        service_id: response.service_id,
                        endpoint_id: response.endpoint_id,
                        success: response.status == STATUS_SUCCESS,
                    },
                ),
            ),
        );
        r
    }

    /// Records an offered channel under a given initial sub-state, or
    /// resets an already recorded id to `Offered`. Only a fresh id
    /// yields an `OfferInfo` to expose.
    fn create_channel_core(&mut self, offer: OfferChannel, st: ChannelState) -> (r: Option<
        OfferInfo,
    >)
        requires
            old(self).wf(),
        ensures
            final(self).wf(),
            spec_same_but_channels(*old(self), *final(self)),
            if spec_has_channel(old(self).channels@, offer.channel_id) {
                &&& final(self).channels@ == spec_set_channel_state(
                    old(self).channels@,
                    spec_channel_index(old(self).channels@, offer.channel_id),
                    ChannelState::Offered,
                )
                &&& r is None
            } else {
                &&& final(self).channels@ == old(self).channels@.push(
                    ChannelEntry {
                        id: offer.channel_id,
                        channel: Channel { offer, state: st, modify_response: None },
                    },
                )
                &&& r == Some(OfferInfo { offer })
            },
    {
        match self.find_channel(offer.channel_id) {
            Some(i) => {
                proof {
                    lemma_channel_index(self.channels@, i as int);
                }
                self.channels[i].channel.state = ChannelState::Offered;
                proof {
                    lemma_wf_channels_same_ids(*old(self), *self);
                }
                None
            },
            None => {
                let entry = ChannelEntry {
                    id: offer.channel_id,
                    channel: Channel { offer, state: st, modify_response: None },
                };
                self.channels.push(entry);
                proof {
                    lemma_wf_channel_pushed(*old(self), *self, entry);
                }
                Some(OfferInfo { offer })
            },
        }
    }

    /// Handles an inbound channel offer.
    pub fn handle_offer(&mut self, offer: OfferChannel) -> (r: Vec<Action>)
        requires
            old(self).wf(),
        ensures
            final(self).wf(),
            spec_offer(*old(self), offer, *final(self), r@),
    {
        let mut r: Vec<Action> = Vec::new();
        let requesting = matches!(self.state, ClientState::RequestingOffers(_));
        match self.create_channel_core(offer, ChannelState::Offered) {
            Some(info) => {
                if requesting {
                    r.push(Action::OfferReceived(info));
                } else {
                    r.push(Action::Notify(ClientNotification::Offer(info)));
                }
            },
            None => {},
        }
        r
    }

    /// Handles the host's answer to an open request.
    pub fn handle_open_result(&mut self, result: OpenResult) -> (r: Result<Vec<Action>, FatalError>)
        requires
            old(self).wf(),
        ensures
            final(self).wf(),
            spec_open_result(*old(self), result, *final(self), r),
    {
        match self.find_channel(result.channel_id) {
            None => Err(FatalError::UnknownChannelId(result.channel_id)),
            Some(i) => {
                proof {
                    lemma_channel_index(self.channels@, i as int);
                }
                let opened = result.status == 0;
                let prior = self.channels[i].channel.state;
                self.channels[i].channel.state = if opened {
                    ChannelState::Opened
                } else {
                    ChannelState::Offered
                };
                proof {
                    lemma_wf_channels_same_ids(*old(self), *self);
                }
                let mut a: Vec<Action> = Vec::new();
                match prior {
                    ChannelState::Opening(tok) => {
                        a.push(Action::CompleteOpen(tok, opened));
                    },
                    _ => {},
                }
                Ok(a)
            },
        }
    }

    /// Handles the host's answer to a modify-channel request.
    pub fn handle_modify_channel_response(&mut self, response: ModifyChannelResponse) -> (r: Result<
        Vec<Action>,
        FatalError,
    >)
        requires
            old(self).wf(),
        ensures
            final(self).wf(),
            spec_modify_channel_response(*old(self), response, *final(self), r),
    {
        match self.find_channel(response.channel_id) {
            None => Err(FatalError::UnknownChannelId(response.channel_id)),
            Some(i) => {
                proof {
                    lemma_channel_index(self.channels@, i as int);
                }
                match self.channels[i].channel.modify_response {
                    Some(tok) => {
                        self.channels[i].channel.modify_response = None;
                        proof {
                            lemma_wf_channels_same_ids(*old(self), *self);
                        }
                        let mut a: Vec<Action> = Vec::new();
                        a.push(Action::CompleteModifyChannel(tok, response.status));
                        Ok(a)
                    },
                    None => Ok(Vec::new()),
                }
            },
        }
    }

    /// Handles a caller's request to open a channel.
    pub fn handle_open_channel(&mut self, channel_id: ChannelId, rpc: Rpc<OpenRequest>) -> (r:
        Result<Vec<Action>, FatalError>)
        requires
            old(self).wf(),
        ensures
            final(self).wf(),
            spec_open_channel(*old(self), channel_id, rpc, *final(self), r),
    {
        let i = match self.find_channel(channel_id) {
            None => {
                return Err(FatalError::UnknownChannelId(channel_id));
            },
            Some(i) => i,
        };
        proof {
            lemma_channel_index(self.channels@, i as int);
        }
        let mut a: Vec<Action> = Vec::new();
        if !matches!(self.channels[i].channel.state, ChannelState::Offered) {
            a.push(Action::CompleteOpen(rpc.reply, false));
            return Ok(a);
        }
        let od = rpc.request.open_data;
        let oc = OpenChannel {
            channel_id,
            open_id: 0,
            ring_buffer_gpadl_id: od.ring_gpadl_id,
            target_vp: od.target_vp,
            downstream_ring_buffer_page_offset: od.ring_offset,
            user_data: od.user_data,
        };
        let extended = match self.state {
            ClientState::Connected(v) => v.feature_flags.guest_specified_signal_parameters()
                || v.feature_flags.channel_interrupt_redirection(),
            _ => false,
        };
        if extended {
            a.push(
                Action::Send(
                    OutgoingMessage::OpenChannel2(
                        OpenChannel2 {
                            open_channel: oc,
                            connection_id: od.connection_id,
                            event_flag: od.event_flag,
                            flags: rpc.request.flags.0,
                        },
                    ),
                ),
            );
        } else {
            if od.event_flag != channel_id.0 as u16 {
                return Err(FatalError::EventFlagMismatch(channel_id));
            }
            a.push(Action::Send(OutgoingMessage::OpenChannel(oc)));
        }
        self.channels[i].channel.state = ChannelState::Opening(rpc.reply);
        proof {
            lemma_wf_channels_same_ids(*old(self), *self);
        }
        Ok(a)
    }

    /// Handles a caller's request to close a channel.
    pub fn handle_close_channel(&mut self, channel_id: ChannelId) -> (r: Result<
        Vec<Action>,
        FatalError,
    >)
        requires
            old(self).wf(),
        ensures
            final(self).wf(),
            spec_close_channel(*old(self), channel_id, *final(self), r),
    {
        let i = match self.find_channel(channel_id) {
            None => {
                return Err(FatalError::UnknownChannelId(channel_id));
            },
            Some(i) => i,
        };
        proof {
            lemma_channel_index(self.channels@, i as int);
        }
        let mut a: Vec<Action> = Vec::new();
        if matches!(self.channels[i].channel.state, ChannelState::Opened) {
            self.channels[i].channel.state = ChannelState::Offered;
            proof {
                lemma_wf_channels_same_ids(*old(self), *self);
            }
            a.push(Action::Send(OutgoingMessage::CloseChannel(CloseChannel { channel_id })));
        }
        Ok(a)
    }

    /// Handles a caller's request to change a channel's target
    /// processor.
    pub fn handle_modify_channel(&mut self, channel_id: ChannelId, rpc: Rpc<ModifyRequest>) -> (r:
        Result<Vec<Action>, FatalError>)
        requires
            old(self).wf(),
        ensures
            final(self).wf(),
            spec_modify_channel(*old(self), channel_id, rpc, *final(self), r),
    {
        if !matches!(self.state, ClientState::Connected(_)) {
            return Err(FatalError::NotConnected);
        }
        let i = match self.find_channel(channel_id) {
            None => {
                return Err(FatalError::UnknownChannelId(channel_id));
            },
            Some(i) => i,
        };
        proof {
            lemma_channel_index(self.channels@, i as int);
        }
        if self.channels[i].channel.modify_response.is_some() {
            return Err(FatalError::DuplicateModifyChannel(channel_id));
        }
        self.channels[i].channel.modify_response = Some(rpc.reply);
        proof {
            lemma_wf_channels_same_ids(*old(self), *self);
        }
        let target_vp = match rpc.request {
            ModifyRequest::TargetVp { target_vp } => target_vp,
        };
        let mut a: Vec<Action> = Vec::new();
        a.push(
            Action::Send(OutgoingMessage::ModifyChannel(ModifyChannel { channel_id, target_vp })),
        );
        Ok(a)
    }

    /// Closes a channel whose caller dropped its request endpoint while
    /// the channel was still open.
    pub fn handle_device_removal(&mut self, channel_id: ChannelId) -> (r: Vec<Action>)
        requires
            old(self).wf(),
        ensures
            final(self).wf(),
            spec_device_removal(*old(self), channel_id, *final(self), r@),
    {
        let opened = match self.find_channel(channel_id) {
            Some(i) => {
                proof {
                    lemma_channel_index(self.channels@, i as int);
                }
                matches!(self.channels[i].channel.state, ChannelState::Opened)
            },
            None => false,
        };
        if opened {
            match self.handle_close_channel(channel_id) {
                Ok(a) => a,
                Err(_) => Vec::new(),
            }
        } else {
            Vec::new()
        }
    }

    /// Dispatches one channel-level caller request. A request for a
    /// channel that is not recorded — rescinded before the request
    /// arrived — is dropped.
    pub fn handle_channel_request(&mut self, channel_id: ChannelId, request: ChannelRequest) -> (r:
        Result<Vec<Action>, FatalError>)
        requires
            old(self).wf(),
        ensures
            final(self).wf(),
            ({
                let pre = *old(self);
                let post = *final(self);
                if !spec_has_channel(pre.channels@, channel_id) {
                    post == pre && (r matches Ok(a) && a@ == Seq::<Action>::empty())
                } else {
                    match request {
                        ChannelRequest::Open(rpc) => spec_open_channel(
                            pre,
                            channel_id,
                            rpc,
                            post,
                            r,
                        ),
                        ChannelRequest::Close => spec_close_channel(pre, channel_id, post, r),
                        ChannelRequest::Gpadl(rpc) => spec_gpadl(pre, channel_id, rpc, post, r),
                        ChannelRequest::TeardownGpadl(gid) => spec_gpadl_teardown(
                            pre,
                            channel_id,
                            gid,
                            post,
                            r,
                        ),
                        ChannelRequest::Modify(rpc) => spec_modify_channel(
                            pre,
                            channel_id,
                            rpc,
                            post,
                            r,
                        ),
                    }
                }
            }),
    {
        if self.find_channel(channel_id).is_none() {
            return Ok(Vec::new());
        }
        match request {
            ChannelRequest::Open(rpc) => self.handle_open_channel(channel_id, rpc),
            ChannelRequest::Close => self.handle_close_channel(channel_id),
            ChannelRequest::Gpadl(rpc) => self.handle_gpadl(channel_id, rpc),
            ChannelRequest::TeardownGpadl(gid) => self.handle_gpadl_teardown(channel_id, gid),
            ChannelRequest::Modify(rpc) => self.handle_modify_channel(channel_id, rpc),
        }
    }

    /// Dispatches one parsed host message. Kinds only a server accepts,
    /// and the one recognized but unimplemented kind, are host faults.
    pub fn handle_synic_message(&mut self, msg: Message) -> (r: Result<Vec<Action>, FatalError>)
        requires
            old(self).wf(),
        ensures
            final(self).wf(),
            ({
                let pre = *old(self);
                let post = *final(self);
                match msg {
                    Message::VersionResponse2(vr) => spec_version_response(pre, vr, post, r),
                    Message::VersionResponse(vr) => spec_version_response(
                        pre,
                        VersionResponse2 { version_response: vr, supported_features: 0 },
                        post,
                        r,
                    ),
                    Message::OfferChannel(o) => r matches Ok(a) && spec_offer(pre, o, post, a@),
                    Message::AllOffersDelivered => r matches Ok(a) && spec_offers_delivered(
                        pre,
                        post,
                        a@,
                    ),
                    Message::UnloadComplete => r matches Ok(a) && spec_unload_complete(
                        pre,
                        post,
                        a@,
                    ),
                    Message::ModifyConnectionResponse(m) => r matches Ok(a) && spec_modify_complete(
                        pre,
                        m,
                        post,
                        a@,
                    ),
                    Message::GpadlCreated(g) => r matches Ok(a) && spec_gpadl_created(
                        pre,
                        g,
                        post,
                        a@,
                    ),
                    Message::OpenResult(o) => spec_open_result(pre, o, post, r),
                    Message::GpadlTorndown(g) => r matches Ok(a) && spec_gpadl_torndown(
                        pre,
                        g,
                        post,
                        a@,
                    ),
                    Message::RescindChannelOffer(resc) => spec_rescind(pre, resc, post, r),
                    Message::ModifyChannelResponse(m) => spec_modify_channel_response(
                        pre,
                        m,
                        post,
                        r,
                    ),
                    Message::TlConnectResult(t) => r matches Ok(a) && spec_tl_connect_result(
                        pre,
                        t,
                        post,
                        a@,
                    ),
                    Message::CloseReservedChannelResponse => post == pre && (r matches Err(e) && e
                        == FatalError::UnsupportedMessage(msg)),
                    _ => post == pre && (r matches Err(e) && e == FatalError::ServerMessage(msg)),
                }
            }),
    {
        match msg {
            Message::VersionResponse2(vr) => self.handle_version_response(vr),
            Message::VersionResponse(vr) => self.handle_version_response(
                VersionResponse2 { version_response: vr, supported_features: 0 },
            ),
            Message::OfferChannel(o) => Ok(self.handle_offer(o)),
            Message::AllOffersDelivered => Ok(self.handle_offers_delivered()),
            Message::UnloadComplete => Ok(self.handle_unload_complete()),
            Message::ModifyConnectionResponse(m) => Ok(self.handle_modify_complete(m)),
            Message::GpadlCreated(g) => Ok(self.handle_gpadl_created(g)),
            Message::OpenResult(o) => self.handle_open_result(o),
            Message::GpadlTorndown(g) => Ok(self.handle_gpadl_torndown(g)),
            Message::RescindChannelOffer(resc) => self.handle_rescind(resc),
            Message::ModifyChannelResponse(m) => self.handle_modify_channel_response(m),
            Message::TlConnectResult(t) => Ok(self.handle_tl_connect_result(t)),
            Message::CloseReservedChannelResponse => Err(FatalError::UnsupportedMessage(msg)),
            _ => Err(FatalError::ServerMessage(msg)),
        }
    }

    /// Handles a host rescind of a channel offer.
    pub fn handle_rescind(&mut self, rescind: RescindChannelOffer) -> (r: Result<
        Vec<Action>,
        FatalError,
    >)
        requires
            old(self).wf(),
        ensures
            final(self).wf(),
            spec_rescind(*old(self), rescind, *final(self), r),
    {
        let id = rescind.channel_id;
        let ci = match self.find_channel(id) {
            None => {
                return Err(FatalError::UnknownChannelId(id));
            },
            Some(i) => i,
        };
        proof {
            lemma_channel_index(self.channels@, ci as int);
        }
        let n = self.gpadls.len();
        let mut remaining: Vec<GpadlEntry> = Vec::new();
        let mut a: Vec<Action> = Vec::new();
        let mut k: usize = 0;
        proof {
            assert(old(self).gpadls@.subrange(0, 0) =~= Seq::<GpadlEntry>::empty());
            assert(spec_gpadls_of(old(self).gpadls@.subrange(0, 0), id) =~= Seq::<
                GpadlEntry,
            >::empty());
            assert(spec_gpadls_not_of(old(self).gpadls@.subrange(0, 0), id) =~= Seq::<
                GpadlEntry,
            >::empty());
            assert(spec_rescind_actions(Seq::<GpadlEntry>::empty(), id) =~= Seq::<Action>::empty());
        }
        while k < n
            invariant
                old(self).wf(),
                self.state == old(self).state,
                self.connect_request == old(self).connect_request,
                self.modify_request == old(self).modify_request,
                self.channels@ == old(self).channels@,
                self.gpadls@ == old(self).gpadls@,
                n == old(self).gpadls@.len(),
                k <= n,
                ci < self.channels@.len() && self.channels@[ci as int].id == id,
                remaining@ == spec_gpadls_not_of(old(self).gpadls@.subrange(0, k as int), id),
                a@ == spec_rescind_actions(
                    spec_gpadls_of(old(self).gpadls@.subrange(0, k as int), id),
                    id,
                ),
                forall|p: int, q: int|
                    0 <= p < q < remaining@.len() ==> remaining@[p].gpadl_id
                        != remaining@[q].gpadl_id,
                forall|p: int|
                    0 <= p < remaining@.len() ==> (#[trigger] remaining@[p]).channel_id != id,
                forall|p: int|
                    0 <= p < remaining@.len() ==> spec_has_gpadl_id(
                        old(self).gpadls@,
                        (#[trigger] remaining@[p]).gpadl_id,
                    ) && remaining@[p] == old(self).gpadls@[spec_gpadl_id_index(
                        old(self).gpadls@,
                        remaining@[p].gpadl_id,
                    )] && spec_gpadl_id_index(old(self).gpadls@, remaining@[p].gpadl_id) < k,
                forall|m: int|
                    0 <= m < k && (#[trigger] old(self).gpadls@[m]).channel_id != id
                        ==> spec_has_gpadl_id(remaining@, old(self).gpadls@[m].gpadl_id)
                        && remaining@[spec_gpadl_id_index(
                        remaining@,
                        old(self).gpadls@[m].gpadl_id,
                    )] == old(self).gpadls@[m],
                forall|p: int, q: int|
                    0 <= p < q < self.teardown_gpadls@.len() ==> self.teardown_gpadls@[p].gpadl_id
                        != self.teardown_gpadls@[q].gpadl_id,
                forall|j: int|
                    0 <= j < self.teardown_gpadls@.len() ==> {
                        let gid = (#[trigger] self.teardown_gpadls@[j]).gpadl_id;
                        &&& (spec_has_teardown(old(self).teardown_gpadls@, gid) || spec_owns_prefix(
                            old(self).gpadls@,
                            k as int,
                            id,
                            gid,
                        ))
                        &&& self.teardown_gpadls@[j].channel_id == if spec_owns_prefix(
                            old(self).gpadls@,
                            k as int,
                            id,
                            gid,
                        ) {
                            None::<ChannelId>
                        } else {
                            spec_teardown_channel(old(self).teardown_gpadls@, gid)
                        }
                    },
                forall|j: int|
                    0 <= j < old(self).teardown_gpadls@.len() ==> spec_has_teardown(
                        self.teardown_gpadls@,
                        (#[trigger] old(self).teardown_gpadls@[j]).gpadl_id,
                    ),
                forall|m: int|
                    0 <= m < k && (#[trigger] old(self).gpadls@[m]).channel_id == id
                        ==> spec_has_teardown(
                        self.teardown_gpadls@,
                        old(self).gpadls@[m].gpadl_id,
                    ),
            decreases n - k,
        {
            let g = self.gpadls[k];
            let ghost pre_remaining = remaining@;
            let ghost pre_td = self.teardown_gpadls@;
            let ghost pre_a = a@;
            if g.channel_id == id {
                if matches!(g.state, GpadlState::TearingDown) {
                    a.push(Action::Respond(id, ChannelResponse::TeardownGpadl(g.gpadl_id)));
                } else {
                    a.push(
                        Action::Send(
                            OutgoingMessage::GpadlTeardown(
                                GpadlTeardown { channel_id: id, gpadl_id: g.gpadl_id },
                            ),
                        ),
                    );
                }
                match self.find_teardown(g.gpadl_id) {
                    Some(j) => {
                        self.teardown_gpadls[j].channel_id = None;
                        proof {
                            assert(self.teardown_gpadls@[j as int].gpadl_id == g.gpadl_id);
                            assert(spec_has_teardown(self.teardown_gpadls@, g.gpadl_id));
                        }
                    },
                    None => {
                        self.teardown_gpadls.push(
                            TeardownEntry { gpadl_id: g.gpadl_id, channel_id: None },
                        );
                        proof {
                            assert(self.teardown_gpadls@.last().gpadl_id == g.gpadl_id);
                            assert(spec_has_teardown(self.teardown_gpadls@, g.gpadl_id));
                        }
                    },
                }
            } else {
                remaining.push(g);
            }
            proof {
                let preg = old(self).gpadls@;
                let prefix = preg.subrange(0, k as int);
                assert(preg.subrange(0, (k + 1) as int) =~= prefix.push(g));
                lemma_gpadls_split_push(prefix, g, id);
                lemma_rescind_actions_push(spec_gpadls_of(prefix, id), g, id);
                assert forall|gid: GpadlId|
                    spec_owns_prefix(preg, (k + 1) as int, id, gid) == (spec_owns_prefix(
                        preg,
                        k as int,
                        id,
                        gid,
                    ) || (g.channel_id == id && gid == g.gpadl_id)) by {
                    if spec_owns_prefix(preg, (k + 1) as int, id, gid) {
                        let m = choose|m: int|
                            0 <= m < k + 1 && (#[trigger] preg[m]).channel_id == id
                                && preg[m].gpadl_id == gid;
                        if m < k {
                            assert(spec_owns_prefix(preg, k as int, id, gid));
                        }
                    }
                    if spec_owns_prefix(preg, k as int, id, gid) {
                        let m = choose|m: int|
                            0 <= m < k && (#[trigger] preg[m]).channel_id == id && preg[m].gpadl_id
                                == gid;
                        assert(0 <= m < k + 1 && preg[m].channel_id == id && preg[m].gpadl_id
                            == gid);
                    }
                    if g.channel_id == id && gid == g.gpadl_id {
                        assert(preg[k as int].channel_id == id && preg[k as int].gpadl_id == gid);
                        assert(spec_owns_prefix(preg, (k + 1) as int, id, gid));
                    }
                }
                if g.channel_id == id {
                    assert(a@ == spec_rescind_actions(
                        spec_gpadls_of(preg.subrange(0, (k + 1) as int), id),
                        id,
                    ));
                    assert(self.teardown_gpadls@.len() >= pre_td.len());
                    assert(forall|j2: int|
                        0 <= j2 < pre_td.len() ==> (#[trigger] self.teardown_gpadls@[j2]).gpadl_id
                            == pre_td[j2].gpadl_id);
                    assert forall|jj: int|
                        0 <= jj < old(self).teardown_gpadls@.len() implies spec_has_teardown(
                        self.teardown_gpadls@,
                        (#[trigger] old(self).teardown_gpadls@[jj]).gpadl_id,
                    ) by {
                        let gid0 = old(self).teardown_gpadls@[jj].gpadl_id;
                        assert(spec_has_teardown(pre_td, gid0));
                        let w = choose|w: int|
                            0 <= w < pre_td.len() && (#[trigger] pre_td[w]).gpadl_id == gid0;
                        assert(self.teardown_gpadls@[w].gpadl_id == gid0);
                    }
                    assert forall|m: int|
                        0 <= m < k + 1 && (#[trigger] preg[m]).channel_id == id
                            implies spec_has_teardown(
                        self.teardown_gpadls@,
                        preg[m].gpadl_id,
                    ) by {
                        if m < k {
                            assert(spec_has_teardown(pre_td, preg[m].gpadl_id));
                            let w = choose|w: int|
                                0 <= w < pre_td.len() && (#[trigger] pre_td[w]).gpadl_id
                                    == preg[m].gpadl_id;
                            assert(self.teardown_gpadls@[w].gpadl_id == preg[m].gpadl_id);
                        } else {
                            assert(preg[m] == g);
                        }
                    }
                } else {
                    lemma_gpadl_id_index(preg, k as int);
                    assert(remaining@ == pre_remaining.push(g));
                    assert forall|p: int, q: int|
                        0 <= p < q < remaining@.len() implies remaining@[p].gpadl_id
                        != remaining@[q].gpadl_id by {
                        if q == remaining@.len() - 1 {
                            let mp = spec_gpadl_id_index(preg, remaining@[p].gpadl_id);
                            assert(remaining@[p] == preg[mp]);
                            if mp < k as int {
                                assert(preg[mp].gpadl_id != preg[k as int].gpadl_id);
                            }
                        }
                    }
                    assert forall|m: int|
                        0 <= m < k + 1 && (#[trigger] preg[m]).channel_id != id
                            implies spec_has_gpadl_id(remaining@, preg[m].gpadl_id)
                        && remaining@[spec_gpadl_id_index(remaining@, preg[m].gpadl_id)]
                            == preg[m] by {
                        assert forall|p: int, q: int|
                            0 <= p < q < remaining@.len() implies remaining@[p].gpadl_id
                            != remaining@[q].gpadl_id by {
                            if q == remaining@.len() - 1 {
                                let mp = spec_gpadl_id_index(preg, remaining@[p].gpadl_id);
                                assert(remaining@[p] == preg[mp]);
                                if mp < k as int {
                                    assert(preg[mp].gpadl_id != preg[k as int].gpadl_id);
                                }
                            }
                        }
                        if m == k as int {
                            lemma_gpadl_id_index(remaining@, remaining@.len() - 1);
                        } else {
                            let p0 = spec_gpadl_id_index(pre_remaining, preg[m].gpadl_id);
                            assert(pre_remaining[p0] == preg[m]);
                            assert(remaining@[p0] == preg[m]);
                            lemma_gpadl_id_index(remaining@, p0);
                        }
                    }
                }
            }
            k = k + 1;
        }
        proof {
            assert(old(self).gpadls@.subrange(0, n as int) =~= old(self).gpadls@);
        }
        self.gpadls = remaining;
        self.channels.remove(ci);
        a.push(Action::Send(OutgoingMessage::RelIdReleased(RelIdReleased { channel_id: id })));
        a.push(Action::Notify(ClientNotification::Revoke(id)));
        proof {
            assert(a@ =~= spec_rescind_actions(spec_gpadls_of(old(self).gpadls@, id), id) + seq![
                Action::Send(OutgoingMessage::RelIdReleased(RelIdReleased { channel_id: id })),
                Action::Notify(ClientNotification::Revoke(id)),
            ]);
            lemma_wf_rescind(*old(self), *self, id);
        }
        Ok(a)
    }

    /// Whether any channel already registered this GPADL id.
    fn has_gpadl_id(&self, gid: GpadlId) -> (r: bool)
        ensures
            r == spec_has_gpadl_id(self.gpadls@, gid),
    {
        let n = self.gpadls.len();
        let mut i: usize = 0;
        while i < n
            invariant
                i <= n,
                n == self.gpadls@.len(),
                forall|j: int| 0 <= j < i ==> self.gpadls@[j].gpadl_id != gid,
            decreases n - i,
        {
            if self.gpadls[i].gpadl_id.0 == gid.0 {
                return true;
            }
            i = i + 1;
        }
        false
    }

    /// Handles a caller's request to register a GPADL, serializing its
    /// values into one header frame and as many body frames as needed.
    pub fn handle_gpadl(&mut self, channel_id: ChannelId, rpc: Rpc<GpadlRequest>) -> (r: Result<
        Vec<Action>,
        FatalError,
    >)
        requires
            old(self).wf(),
            spec_has_channel(old(self).channels@, channel_id),
        ensures
            final(self).wf(),
            spec_gpadl(*old(self), channel_id, rpc, *final(self), r),
    {
        if self.has_gpadl_id(rpc.request.id) {
            return Err(FatalError::DuplicateGpadlId(channel_id, rpc.request.id));
        }
        let n = rpc.request.buf.len();
        if n > 8191 {
            return Err(FatalError::TooManyGpaValues(rpc.request.id));
        }
        let entry = GpadlEntry {
            channel_id,
            gpadl_id: rpc.request.id,
            state: GpadlState::Offered(rpc.reply),
        };
        self.gpadls.push(entry);
        proof {
            lemma_wf_gpadl_pushed(*old(self), *self, entry);
        }
        let first_end = if n <= GPADL_HEADER_MAX_DATA_VALUES {
            n
        } else {
            GPADL_HEADER_MAX_DATA_VALUES
        };
        let data = gpa_chunk_bytes(&rpc.request.buf, 0, first_end);
        let mut a: Vec<Action> = Vec::new();
        a.push(
            Action::Send(
                OutgoingMessage::GpadlHeader(
                    GpadlHeader {
                        channel_id,
                        gpadl_id: rpc.request.id,
                        len: (n * 8) as u16,
                        count: rpc.request.count,
                    },
                    data,
                ),
            ),
        );
        let mut m: usize = 0;
        while 27 + m * 28 < n
            invariant
                n == rpc.request.buf@.len(),
                n <= 8191,
                m <= n,
                a@.len() == 1 + m,
                m > 0 ==> 27 + (m - 1) * 28 < n,
                spec_is_gpadl_header_action(
                    a@[0],
                    channel_id,
                    rpc.request.id,
                    (n * 8) as u16,
                    rpc.request.count,
                    spec_gpa_bytes(
                        rpc.request.buf@.subrange(
                            0,
                            if n <= 27 {
                                n as int
                            } else {
                                27
                            },
                        ),
                    ),
                ),
                forall|k: int|
                    1 <= k < a@.len() ==> spec_is_gpadl_body_action(
                        #[trigger] a@[k],
                        rpc.request.id,
                        spec_gpa_bytes(spec_gpadl_body_chunk(rpc.request.buf@, k)),
                    ),
            decreases n - m,
        {
            let start = 27 + m * 28;
            let end = if start + 28 <= n {
                start + 28
            } else {
                n
            };
            let d = gpa_chunk_bytes(&rpc.request.buf, start, end);
            a.push(
                Action::Send(
                    OutgoingMessage::GpadlBody(GpadlBody { rsvd: 0, gpadl_id: rpc.request.id }, d),
                ),
            );
            m = m + 1;
        }
        Ok(a)
    }

    /// Handles the host's answer to a GPADL registration.
    pub fn handle_gpadl_created(&mut self, request: GpadlCreated) -> (r: Vec<Action>)
        requires
            old(self).wf(),
        ensures
            final(self).wf(),
            spec_gpadl_created(*old(self), request, *final(self), r@),
    {
        let mut r: Vec<Action> = Vec::new();
        let i = match self.find_gpadl(request.channel_id, request.gpadl_id) {
            None => {
                return r;
            },
            Some(i) => i,
        };
        proof {
            lemma_gpadl_index(self.gpadls@, i as int);
        }
        match self.gpadls[i].state {
            GpadlState::Offered(tok) => {
                let created = request.status == STATUS_SUCCESS;
                if created {
                    self.gpadls[i].state = GpadlState::Created;
                    proof {
                        lemma_wf_gpadl_state_changed(
                            *old(self),
                            *self,
                            i as int,
                            GpadlState::Created,
                        );
                    }
                } else {
                    self.gpadls.remove(i);
                    proof {
                        lemma_wf_gpadl_removed(*old(self), *self, i as int);
                    }
                }
                r.push(Action::CompleteGpadl(tok, created));
            },
            _ => {},
        }
        r
    }

    /// Handles a caller's request to tear a GPADL down.
    pub fn handle_gpadl_teardown(&mut self, channel_id: ChannelId, gpadl_id: GpadlId) -> (r: Result<
        Vec<Action>,
        FatalError,
    >)
        requires
            old(self).wf(),
        ensures
            final(self).wf(),
            spec_gpadl_teardown(*old(self), channel_id, gpadl_id, *final(self), r),
    {
        let mut a: Vec<Action> = Vec::new();
        let i = match self.find_gpadl(channel_id, gpadl_id) {
            None => {
                return Ok(a);
            },
            Some(i) => i,
        };
        proof {
            lemma_gpadl_index(self.gpadls@, i as int);
        }
        if matches!(self.gpadls[i].state, GpadlState::TearingDown) {
            return Ok(a);
        }
        match self.find_teardown(gpadl_id) {
            Some(_) => Err(FatalError::GpadlIdInTeardown(gpadl_id)),
            None => {
                self.gpadls[i].state = GpadlState::TearingDown;
                self.teardown_gpadls.push(
                    TeardownEntry { gpadl_id, channel_id: Some(channel_id) },
                );
                proof {
                    lemma_wf_gpadl_tearing(*old(self), *self, i as int);
                }
                a.push(
                    Action::Send(
                        OutgoingMessage::GpadlTeardown(GpadlTeardown { channel_id, gpadl_id }),
                    ),
                );
                Ok(a)
            },
        }
    }

    /// Handles the host's confirmation that a GPADL is gone.
    pub fn handle_gpadl_torndown(&mut self, request: GpadlTorndown) -> (r: Vec<Action>)
        requires
            old(self).wf(),
        ensures
            final(self).wf(),
            spec_gpadl_torndown(*old(self), request, *final(self), r@),
    {
        let mut r: Vec<Action> = Vec::new();
        let j = match self.find_teardown(request.gpadl_id) {
            None => {
                return r;
            },
            Some(j) => j,
        };
        proof {
            lemma_teardown_index(self.teardown_gpadls@, j as int);
        }
        match self.teardown_gpadls[j].channel_id {
            None => {
                self.teardown_gpadls.remove(j);
                proof {
                    lemma_wf_teardown_none_removed(*old(self), *self, j as int);
                }
            },
            Some(cid) => {
                let i = match self.find_gpadl(cid, request.gpadl_id) {
                    Some(i) => i,
                    None => {
                        // The pending teardown names its channel, so by
                        // well-formedness the record is present.
                        proof {
                            assert(false);
                        }
                        return r;
                    },
                };
                proof {
                    lemma_gpadl_index(self.gpadls@, i as int);
                }
                self.gpadls.remove(i);
                self.teardown_gpadls.remove(j);
                proof {
                    lemma_wf_torndown_removed(*old(self), *self, i as int, j as int);
                }
                r.push(Action::Respond(cid, ChannelResponse::TeardownGpadl(request.gpadl_id)));
            },
        }
        r
    }
}

} // verus!
