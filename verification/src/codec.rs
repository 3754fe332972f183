//! Framing, serialization and parsing of VMBus messages.
//!
//! A frame is the 32-bit message type, 32 reserved zero bits, the fixed
//! body, then any trailing data. `OutgoingMessage` covers every kind this
//! client sends; `Message` is the result of parsing an inbound frame,
//! where kinds only a server accepts are represented by bare variants so
//! the engine can reject them.

use vstd::prelude::*;

verus! {

use crate::protocol::CloseChannel;
use crate::protocol::ConnectionState;
use crate::protocol::ChannelId;
use crate::protocol::FeatureFlags;
use crate::protocol::GpadlBody;
use crate::protocol::GpadlCreated;
use crate::protocol::GpadlHeader;
use crate::protocol::GpadlId;
use crate::protocol::GpadlTeardown;
use crate::protocol::GpadlTorndown;
use crate::protocol::Guid;
use crate::protocol::InitiateContact;
use crate::protocol::InitiateContact2;
use crate::protocol::ModifyChannel;
use crate::protocol::ModifyChannelResponse;
use crate::protocol::ModifyConnection;
use crate::protocol::ModifyConnectionResponse;
use crate::protocol::OfferChannel;
use crate::protocol::OfferFlags;
use crate::protocol::OpenChannel;
use crate::protocol::OpenChannel2;
use crate::protocol::OpenResult;
use crate::protocol::RelIdReleased;
use crate::protocol::RescindChannelOffer;
use crate::protocol::TlConnectRequest;
use crate::protocol::TlConnectRequest2;
use crate::protocol::TlConnectResult;
use crate::protocol::UserDefinedData;
use crate::protocol::Version;
use crate::protocol::VersionInfo;
use crate::protocol::VersionResponse;
use crate::protocol::VersionResponse2;
use crate::protocol::spec_guid_bytes;
use crate::protocol::spec_guid_from_bytes;
use crate::protocol::MSG_OFFER_CHANNEL;
use crate::protocol::MSG_RESCIND_CHANNEL_OFFER;
use crate::protocol::MSG_REQUEST_OFFERS;
use crate::protocol::MSG_ALL_OFFERS_DELIVERED;
use crate::protocol::MSG_OPEN_CHANNEL;
use crate::protocol::MSG_OPEN_CHANNEL_RESULT;
use crate::protocol::MSG_CLOSE_CHANNEL;
use crate::protocol::MSG_GPADL_HEADER;
use crate::protocol::MSG_GPADL_BODY;
use crate::protocol::MSG_GPADL_CREATED;
use crate::protocol::MSG_GPADL_TEARDOWN;
use crate::protocol::MSG_GPADL_TORNDOWN;
use crate::protocol::MSG_REL_ID_RELEASED;
use crate::protocol::MSG_INITIATE_CONTACT;
use crate::protocol::MSG_VERSION_RESPONSE;
use crate::protocol::MSG_UNLOAD;
use crate::protocol::MSG_UNLOAD_COMPLETE;
use crate::protocol::MSG_OPEN_RESERVED_CHANNEL;
use crate::protocol::MSG_CLOSE_RESERVED_CHANNEL;
use crate::protocol::MSG_CLOSE_RESERVED_CHANNEL_RESPONSE;
use crate::protocol::MSG_TL_CONNECT_REQUEST;
use crate::protocol::MSG_MODIFY_CHANNEL;
use crate::protocol::MSG_TL_CONNECT_RESULT;
use crate::protocol::MSG_MODIFY_CHANNEL_RESPONSE;
use crate::protocol::MSG_MODIFY_CONNECTION;
use crate::protocol::MSG_MODIFY_CONNECTION_RESPONSE;
use vstd::bytes::spec_u16_to_le_bytes;
use vstd::bytes::spec_u32_to_le_bytes;
use vstd::bytes::spec_u64_to_le_bytes;
use vstd::bytes::spec_u16_from_le_bytes;
use vstd::bytes::spec_u32_from_le_bytes;
use vstd::bytes::spec_u64_from_le_bytes;
use vstd::bytes::u16_to_le_bytes;
use vstd::bytes::u32_to_le_bytes;
use vstd::bytes::u64_to_le_bytes;
use vstd::bytes::u16_from_le_bytes;
use vstd::bytes::u32_from_le_bytes;
use vstd::bytes::u64_from_le_bytes;
use vstd::slice::slice_subrange;
use vstd::slice::slice_index_get;
use vstd::array::array_as_slice;

/// A message the client can post to the host, together with any trailing
/// data that follows the fixed body on the wire.
#[derive(Clone, Debug, PartialEq, Eq)]
pub enum OutgoingMessage {
    InitiateContact(InitiateContact),
    InitiateContact2(InitiateContact2),
    RequestOffers,
    Unload,
    ModifyConnection(ModifyConnection),
    TlConnectRequest2(TlConnectRequest2),
    OpenChannel(OpenChannel),
    OpenChannel2(OpenChannel2),
    CloseChannel(CloseChannel),
    GpadlHeader(GpadlHeader, Vec<u8>),
    GpadlBody(GpadlBody, Vec<u8>),
    GpadlTeardown(GpadlTeardown),
    RelIdReleased(RelIdReleased),
    ModifyChannel(ModifyChannel),
}

/// An inbound frame after parsing. Kinds that only a vmbus server
/// accepts carry no payload: their arrival at a client is already a
/// protocol fault, whatever their body holds.
#[derive(Clone, Copy, Debug, PartialEq, Eq)]
pub enum Message {
    VersionResponse(VersionResponse),
    VersionResponse2(VersionResponse2),
    OfferChannel(OfferChannel),
    RescindChannelOffer(RescindChannelOffer),
    AllOffersDelivered,
    UnloadComplete,
    GpadlCreated(GpadlCreated),
    OpenResult(OpenResult),
    GpadlTorndown(GpadlTorndown),
    ModifyConnectionResponse(ModifyConnectionResponse),
    ModifyChannelResponse(ModifyChannelResponse),
    TlConnectResult(TlConnectResult),
    CloseReservedChannelResponse,
    RequestOffers,
    OpenChannel,
    CloseChannel,
    GpadlHeader,
    GpadlBody,
    GpadlTeardown,
    RelIdReleased,
    InitiateContact,
    Unload,
    OpenReservedChannel,
    CloseReservedChannel,
    TlConnectRequest,
    ModifyChannel,
    ModifyConnection,
}

/// Why an inbound frame could not be parsed.
#[derive(Clone, Copy, Debug, PartialEq, Eq, Structural)]
pub enum ParseError {
    /// The frame ends before its header or fixed body does.
    Truncated,
    /// The message type number is not one of the protocol's kinds.
    UnknownMessageType(u32),
}

impl OutgoingMessage {
    /// The wire number this message is framed under.
    pub open spec fn spec_message_type(self) -> u32 {
        match self {
            OutgoingMessage::InitiateContact(_) => MSG_INITIATE_CONTACT,
            OutgoingMessage::InitiateContact2(_) => MSG_INITIATE_CONTACT,
            OutgoingMessage::RequestOffers => MSG_REQUEST_OFFERS,
            OutgoingMessage::Unload => MSG_UNLOAD,
            OutgoingMessage::ModifyConnection(_) => MSG_MODIFY_CONNECTION,
            OutgoingMessage::TlConnectRequest2(_) => MSG_TL_CONNECT_REQUEST,
            OutgoingMessage::OpenChannel(_) => MSG_OPEN_CHANNEL,
            OutgoingMessage::OpenChannel2(_) => MSG_OPEN_CHANNEL,
            OutgoingMessage::CloseChannel(_) => MSG_CLOSE_CHANNEL,
            OutgoingMessage::GpadlHeader(_, _) => MSG_GPADL_HEADER,
            OutgoingMessage::GpadlBody(_, _) => MSG_GPADL_BODY,
            OutgoingMessage::GpadlTeardown(_) => MSG_GPADL_TEARDOWN,
            OutgoingMessage::RelIdReleased(_) => MSG_REL_ID_RELEASED,
            OutgoingMessage::ModifyChannel(_) => MSG_MODIFY_CHANNEL,
        }
    }

    /// The fixed body of this message.
    pub open spec fn spec_body(self) -> Seq<u8> {
        match self {
            OutgoingMessage::InitiateContact(m) => m.spec_bytes(),
            OutgoingMessage::InitiateContact2(m) => m.spec_bytes(),
            OutgoingMessage::RequestOffers => Seq::<u8>::empty(),
            OutgoingMessage::Unload => Seq::<u8>::empty(),
            OutgoingMessage::ModifyConnection(m) => m.spec_bytes(),
            OutgoingMessage::TlConnectRequest2(m) => m.spec_bytes(),
            OutgoingMessage::OpenChannel(m) => m.spec_bytes(),
            OutgoingMessage::OpenChannel2(m) => m.spec_bytes(),
            OutgoingMessage::CloseChannel(m) => m.spec_bytes(),
            OutgoingMessage::GpadlHeader(m, _) => m.spec_bytes(),
            OutgoingMessage::GpadlBody(m, _) => m.spec_bytes(),
            OutgoingMessage::GpadlTeardown(m) => m.spec_bytes(),
            OutgoingMessage::RelIdReleased(m) => m.spec_bytes(),
            OutgoingMessage::ModifyChannel(m) => m.spec_bytes(),
        }
    }

    /// The trailing data that follows the fixed body.
    pub open spec fn spec_data(self) -> Seq<u8> {
        match self {
            OutgoingMessage::GpadlHeader(_, d) => d@,
            OutgoingMessage::GpadlBody(_, d) => d@,
            _ => Seq::<u8>::empty(),
        }
    }

    /// The full frame this message travels as.
    pub open spec fn spec_encoded(self) -> Seq<u8> {
        spec_u32_to_le_bytes(self.spec_message_type()) + spec_u32_to_le_bytes(0) + self.spec_body()
            + self.spec_data()
    }
}

/// Appends one byte.
fn put_u8(out: &mut Vec<u8>, x: u8)
    ensures
        final(out)@ == old(out)@ + seq![x],
{
    out.push(x);
    proof {
        assert(out@ =~= old(out)@ + seq![x]);
    }
}

/// Appends a `u16` in little-endian order.
fn put_u16(out: &mut Vec<u8>, x: u16)
    ensures
        final(out)@ == old(out)@ + spec_u16_to_le_bytes(x),
{
    let mut b = u16_to_le_bytes(x);
    out.append(&mut b);
}

/// Appends a `u32` in little-endian order.
fn put_u32(out: &mut Vec<u8>, x: u32)
    ensures
        final(out)@ == old(out)@ + spec_u32_to_le_bytes(x),
{
    let mut b = u32_to_le_bytes(x);
    out.append(&mut b);
}

/// Appends a `u64` in little-endian order.
fn put_u64(out: &mut Vec<u8>, x: u64)
    ensures
        final(out)@ == old(out)@ + spec_u64_to_le_bytes(x),
{
    let mut b = u64_to_le_bytes(x);
    out.append(&mut b);
}

/// Appends an `i32` as its two's-complement little-endian bytes.
fn put_i32(out: &mut Vec<u8>, x: i32)
    ensures
        final(out)@ == old(out)@ + spec_u32_to_le_bytes(x as u32),
{
    put_u32(out, x as u32);
}

/// Appends a byte slice unchanged.
fn put_bytes(out: &mut Vec<u8>, src: &[u8])
    ensures
        final(out)@ == old(out)@ + src@,
{
    let n = src.len();
    let mut i: usize = 0;
    while i < n
        invariant
            i <= n,
            n == src@.len(),
            out@ == old(out)@ + src@.subrange(0, i as int),
        decreases n - i,
    {
        out.push(*slice_index_get(src, i));
        proof {
            assert(out@ =~= old(out)@ + src@.subrange(0, (i + 1) as int));
        }
        i = i + 1;
    }
    proof {
        assert(src@.subrange(0, n as int) =~= src@);
    }
}

/// Appends a GUID's 16 wire bytes.
fn put_guid(out: &mut Vec<u8>, g: &Guid)
    ensures
        final(out)@ == old(out)@ + spec_guid_bytes(*g),
{
    put_u32(out, g.data1);
    put_u16(out, g.data2);
    put_u16(out, g.data3);
    put_u64(out, g.data4);
    proof {
        assert(out@ =~= old(out)@ + spec_guid_bytes(*g));
    }
}

/// Appends the 120 user-defined bytes.
fn put_user_defined(out: &mut Vec<u8>, d: &UserDefinedData)
    ensures
        final(out)@ == old(out)@ + d.0@,
{
    put_bytes(out, array_as_slice(&d.0));
}

impl OutgoingMessage {
    /// Serializes this message into its wire frame.
    pub fn encode(&self) -> (r: Vec<u8>)
        ensures
            r@ == self.spec_encoded(),
    {
        let mut out: Vec<u8> = Vec::new();
        match self {
            OutgoingMessage::InitiateContact(m) => {
                put_u32(&mut out, MSG_INITIATE_CONTACT);
                put_u32(&mut out, 0);
                put_u32(&mut out, m.version_requested);
                put_u32(&mut out, m.target_message_vp);
                put_u64(&mut out, m.interrupt_page_or_target_info);
                put_u64(&mut out, m.parent_to_child_monitor_page_gpa);
                put_u64(&mut out, m.child_to_parent_monitor_page_gpa);
            },
            OutgoingMessage::InitiateContact2(m) => {
                put_u32(&mut out, MSG_INITIATE_CONTACT);
                put_u32(&mut out, 0);
                put_u32(&mut out, m.initiate_contact.version_requested);
                put_u32(&mut out, m.initiate_contact.target_message_vp);
                put_u64(&mut out, m.initiate_contact.interrupt_page_or_target_info);
                put_u64(&mut out, m.initiate_contact.parent_to_child_monitor_page_gpa);
                put_u64(&mut out, m.initiate_contact.child_to_parent_monitor_page_gpa);
                put_guid(&mut out, &m.client_id);
            },
            OutgoingMessage::RequestOffers => {
                put_u32(&mut out, MSG_REQUEST_OFFERS);
                put_u32(&mut out, 0);
            },
            OutgoingMessage::Unload => {
                put_u32(&mut out, MSG_UNLOAD);
                put_u32(&mut out, 0);
            },
            OutgoingMessage::ModifyConnection(m) => {
                put_u32(&mut out, MSG_MODIFY_CONNECTION);
                put_u32(&mut out, 0);
                put_u64(&mut out, m.parent_to_child_monitor_page_gpa);
                put_u64(&mut out, m.child_to_parent_monitor_page_gpa);
            },
            OutgoingMessage::TlConnectRequest2(m) => {
                put_u32(&mut out, MSG_TL_CONNECT_REQUEST);
                put_u32(&mut out, 0);
                put_guid(&mut out, &m.base.service_id);
                put_guid(&mut out, &m.base.endpoint_id);
                put_guid(&mut out, &m.silo_id);
            },
            OutgoingMessage::OpenChannel(m) => {
                put_u32(&mut out, MSG_OPEN_CHANNEL);
                put_u32(&mut out, 0);
                put_u32(&mut out, m.channel_id.0);
                put_u32(&mut out, m.open_id);
                put_u32(&mut out, m.ring_buffer_gpadl_id.0);
                put_u32(&mut out, m.target_vp);
                put_u32(&mut out, m.downstream_ring_buffer_page_offset);
                put_user_defined(&mut out, &m.user_data);
            },
            OutgoingMessage::OpenChannel2(m) => {
                put_u32(&mut out, MSG_OPEN_CHANNEL);
                put_u32(&mut out, 0);
                put_u32(&mut out, m.open_channel.channel_id.0);
                put_u32(&mut out, m.open_channel.open_id);
                put_u32(&mut out, m.open_channel.ring_buffer_gpadl_id.0);
                put_u32(&mut out, m.open_channel.target_vp);
                put_u32(&mut out, m.open_channel.downstream_ring_buffer_page_offset);
                put_user_defined(&mut out, &m.open_channel.user_data);
                put_u32(&mut out, m.connection_id);
                put_u16(&mut out, m.event_flag);
                put_u16(&mut out, m.flags);
            },
            OutgoingMessage::CloseChannel(m) => {
                put_u32(&mut out, MSG_CLOSE_CHANNEL);
                put_u32(&mut out, 0);
                put_u32(&mut out, m.channel_id.0);
            },
            OutgoingMessage::GpadlHeader(m, d) => {
                put_u32(&mut out, MSG_GPADL_HEADER);
                put_u32(&mut out, 0);
                put_u32(&mut out, m.channel_id.0);
                put_u32(&mut out, m.gpadl_id.0);
                put_u16(&mut out, m.len);
                put_u16(&mut out, m.count);
                put_bytes(&mut out, d.as_slice());
            },
            OutgoingMessage::GpadlBody(m, d) => {
                put_u32(&mut out, MSG_GPADL_BODY);
                put_u32(&mut out, 0);
                put_u32(&mut out, m.rsvd);
                put_u32(&mut out, m.gpadl_id.0);
                put_bytes(&mut out, d.as_slice());
            },
            OutgoingMessage::GpadlTeardown(m) => {
                put_u32(&mut out, MSG_GPADL_TEARDOWN);
                put_u32(&mut out, 0);
                put_u32(&mut out, m.channel_id.0);
                put_u32(&mut out, m.gpadl_id.0);
            },
            OutgoingMessage::RelIdReleased(m) => {
                put_u32(&mut out, MSG_REL_ID_RELEASED);
                put_u32(&mut out, 0);
                put_u32(&mut out, m.channel_id.0);
            },
            OutgoingMessage::ModifyChannel(m) => {
                put_u32(&mut out, MSG_MODIFY_CHANNEL);
                put_u32(&mut out, 0);
                put_u32(&mut out, m.channel_id.0);
                put_u32(&mut out, m.target_vp);
            },
        }
        proof {
            assert(out@ =~= self.spec_encoded());
        }
        out
    }
}

/// Whether a wire number names a message kind of the protocol.
pub open spec fn spec_known_message_type(t: u32) -> bool {
    1 <= t <= 26
}

/// The fixed body length a parser demands of each kind. Kinds whose body
/// the client never reads demand nothing.
pub open spec fn spec_fixed_body_len(t: u32) -> int {
    if t == MSG_OFFER_CHANNEL {
        188
    } else if t == MSG_RESCIND_CHANNEL_OFFER {
        4
    } else if t == MSG_OPEN_CHANNEL_RESULT {
        12
    } else if t == MSG_GPADL_CREATED {
        12
    } else if t == MSG_GPADL_TORNDOWN {
        4
    } else if t == MSG_VERSION_RESPONSE {
        8
    } else if t == MSG_TL_CONNECT_RESULT {
        36
    } else if t == MSG_MODIFY_CHANNEL_RESPONSE {
        8
    } else if t == MSG_MODIFY_CONNECTION_RESPONSE {
        1
    } else {
        0
    }
}

/// Whether a version response may take the extended (Copper) form. While
/// no version is negotiated the answer to the contact request itself is
/// in flight, and the form is told apart by length alone.
pub open spec fn spec_takes_extended_version_response(version: Option<VersionInfo>) -> bool {
    match version {
        Option::None => true,
        Option::Some(v) => v.version == Version::Copper,
    }
}

/// Field equations tying a parsed offer to the body it came from.
pub open spec fn spec_offer_channel_fields(b: Seq<u8>, o: OfferChannel) -> bool {
    &&& o.interface_id == spec_guid_from_bytes(b, 0)
    &&& o.instance_id == spec_guid_from_bytes(b, 16)
    &&& o.rsvd@ == b.subrange(32, 48)
    &&& o.flags.0 == spec_u16_from_le_bytes(b.subrange(48, 50))
    &&& o.mmio_megabytes == spec_u16_from_le_bytes(b.subrange(50, 52))
    &&& o.user_defined.0@ == b.subrange(52, 172)
    &&& o.subchannel_index == spec_u16_from_le_bytes(b.subrange(172, 174))
    &&& o.mmio_megabytes_optional == spec_u16_from_le_bytes(b.subrange(174, 176))
    &&& o.channel_id.0 == spec_u32_from_le_bytes(b.subrange(176, 180))
    &&& o.monitor_id == b[180]
    &&& o.monitor_allocated == b[181]
    &&& o.is_dedicated == spec_u16_from_le_bytes(b.subrange(182, 184))
    &&& o.connection_id == spec_u32_from_le_bytes(b.subrange(184, 188))
}

/// The version response encoded at the head of `b`.
pub open spec fn spec_parse_version_response(b: Seq<u8>) -> VersionResponse {
    VersionResponse {
        version_supported: b[0],
        connection_state: ConnectionState(b[1]),
        padding: spec_u16_from_le_bytes(b.subrange(2, 4)),
        selected_version_or_connection_id: spec_u32_from_le_bytes(b.subrange(4, 8)),
    }
}

/// The extended version response encoded at the head of `b`.
pub open spec fn spec_parse_version_response2(b: Seq<u8>) -> VersionResponse2 {
    VersionResponse2 {
        version_response: spec_parse_version_response(b),
        supported_features: spec_u32_from_le_bytes(b.subrange(8, 12)),
    }
}

/// The rescind notice encoded at the head of `b`.
pub open spec fn spec_parse_rescind(b: Seq<u8>) -> RescindChannelOffer {
    RescindChannelOffer { channel_id: ChannelId(spec_u32_from_le_bytes(b.subrange(0, 4))) }
}

/// The open result encoded at the head of `b`.
pub open spec fn spec_parse_open_result(b: Seq<u8>) -> OpenResult {
    OpenResult {
        channel_id: ChannelId(spec_u32_from_le_bytes(b.subrange(0, 4))),
        open_id: spec_u32_from_le_bytes(b.subrange(4, 8)),
        status: spec_u32_from_le_bytes(b.subrange(8, 12)),
    }
}

/// The GPADL creation result encoded at the head of `b`.
pub open spec fn spec_parse_gpadl_created(b: Seq<u8>) -> GpadlCreated {
    GpadlCreated {
        channel_id: ChannelId(spec_u32_from_le_bytes(b.subrange(0, 4))),
        gpadl_id: GpadlId(spec_u32_from_le_bytes(b.subrange(4, 8))),
        status: spec_u32_from_le_bytes(b.subrange(8, 12)) as i32,
    }
}

/// The GPADL teardown confirmation encoded at the head of `b`.
pub open spec fn spec_parse_gpadl_torndown(b: Seq<u8>) -> GpadlTorndown {
    GpadlTorndown { gpadl_id: GpadlId(spec_u32_from_le_bytes(b.subrange(0, 4))) }
}

/// The channel modification result encoded at the head of `b`.
pub open spec fn spec_parse_modify_channel_response(b: Seq<u8>) -> ModifyChannelResponse {
    ModifyChannelResponse {
        channel_id: ChannelId(spec_u32_from_le_bytes(b.subrange(0, 4))),
        status: spec_u32_from_le_bytes(b.subrange(4, 8)) as i32,
    }
}

/// The connection modification result encoded at the head of `b`.
pub open spec fn spec_parse_modify_connection_response(b: Seq<u8>) -> ModifyConnectionResponse {
    ModifyConnectionResponse { connection_state: ConnectionState(b[0]) }
}

/// The hypervisor-socket result encoded at the head of `b`.
pub open spec fn spec_parse_tl_connect_result(b: Seq<u8>) -> TlConnectResult {
    TlConnectResult {
        service_id: spec_guid_from_bytes(b, 0),
        endpoint_id: spec_guid_from_bytes(b, 16),
        status: spec_u32_from_le_bytes(b.subrange(32, 36)) as i32,
    }
}

/// The message a well-formed frame of kind `t` with body `b` parses to.
pub open spec fn spec_parsed_message(
    t: u32,
    body: Seq<u8>,
    version: Option<VersionInfo>,
    r: Result<Message, ParseError>,
) -> bool {
    if t == MSG_OFFER_CHANNEL {
        r matches Ok(Message::OfferChannel(o)) && spec_offer_channel_fields(body, o)
    } else if t == MSG_RESCIND_CHANNEL_OFFER {
        r == Ok::<Message, ParseError>(Message::RescindChannelOffer(spec_parse_rescind(body)))
    } else if t == MSG_VERSION_RESPONSE {
        if body.len() >= 12 && spec_takes_extended_version_response(version) {
            r == Ok::<Message, ParseError>(
                Message::VersionResponse2(spec_parse_version_response2(body)),
            )
        } else {
            r == Ok::<Message, ParseError>(
                Message::VersionResponse(spec_parse_version_response(body)),
            )
        }
    } else if t == MSG_OPEN_CHANNEL_RESULT {
        r == Ok::<Message, ParseError>(Message::OpenResult(spec_parse_open_result(body)))
    } else if t == MSG_GPADL_CREATED {
        r == Ok::<Message, ParseError>(Message::GpadlCreated(spec_parse_gpadl_created(body)))
    } else if t == MSG_GPADL_TORNDOWN {
        r == Ok::<Message, ParseError>(Message::GpadlTorndown(spec_parse_gpadl_torndown(body)))
    } else if t == MSG_MODIFY_CHANNEL_RESPONSE {
        r == Ok::<Message, ParseError>(
            Message::ModifyChannelResponse(spec_parse_modify_channel_response(body)),
        )
    } else if t == MSG_MODIFY_CONNECTION_RESPONSE {
        r == Ok::<Message, ParseError>(
            Message::ModifyConnectionResponse(spec_parse_modify_connection_response(body)),
        )
    } else if t == MSG_TL_CONNECT_RESULT {
        r == Ok::<Message, ParseError>(Message::TlConnectResult(spec_parse_tl_connect_result(body)))
    } else if t == MSG_ALL_OFFERS_DELIVERED {
        r == Ok::<Message, ParseError>(Message::AllOffersDelivered)
    } else if t == MSG_UNLOAD_COMPLETE {
        r == Ok::<Message, ParseError>(Message::UnloadComplete)
    } else if t == MSG_CLOSE_RESERVED_CHANNEL_RESPONSE {
        r == Ok::<Message, ParseError>(Message::CloseReservedChannelResponse)
    } else if t == MSG_REQUEST_OFFERS {
        r == Ok::<Message, ParseError>(Message::RequestOffers)
    } else if t == MSG_OPEN_CHANNEL {
        r == Ok::<Message, ParseError>(Message::OpenChannel)
    } else if t == MSG_CLOSE_CHANNEL {
        r == Ok::<Message, ParseError>(Message::CloseChannel)
    } else if t == MSG_GPADL_HEADER {
        r == Ok::<Message, ParseError>(Message::GpadlHeader)
    } else if t == MSG_GPADL_BODY {
        r == Ok::<Message, ParseError>(Message::GpadlBody)
    } else if t == MSG_GPADL_TEARDOWN {
        r == Ok::<Message, ParseError>(Message::GpadlTeardown)
    } else if t == MSG_REL_ID_RELEASED {
        r == Ok::<Message, ParseError>(Message::RelIdReleased)
    } else if t == MSG_INITIATE_CONTACT {
        r == Ok::<Message, ParseError>(Message::InitiateContact)
    } else if t == MSG_UNLOAD {
        r == Ok::<Message, ParseError>(Message::Unload)
    } else if t == MSG_OPEN_RESERVED_CHANNEL {
        r == Ok::<Message, ParseError>(Message::OpenReservedChannel)
    } else if t == MSG_CLOSE_RESERVED_CHANNEL {
        r == Ok::<Message, ParseError>(Message::CloseReservedChannel)
    } else if t == MSG_TL_CONNECT_REQUEST {
        r == Ok::<Message, ParseError>(Message::TlConnectRequest)
    } else if t == MSG_MODIFY_CHANNEL {
        r == Ok::<Message, ParseError>(Message::ModifyChannel)
    } else if t == MSG_MODIFY_CONNECTION {
        r == Ok::<Message, ParseError>(Message::ModifyConnection)
    } else {
        false
    }
}

/// The full relation between an inbound frame and what parsing makes of
/// it: too short a frame or body is `Truncated`, a wire number outside
/// the protocol is `UnknownMessageType`, and everything else parses to
/// the fields its kind lays out.
pub open spec fn spec_parse_result(
    data: Seq<u8>,
    version: Option<VersionInfo>,
    r: Result<Message, ParseError>,
) -> bool {
    if data.len() < 8 {
        r == Err::<Message, ParseError>(ParseError::Truncated)
    } else {
        let t = spec_u32_from_le_bytes(data.subrange(0, 4));
        let body = data.subrange(8, data.len() as int);
        if !spec_known_message_type(t) {
            r == Err::<Message, ParseError>(ParseError::UnknownMessageType(t))
        } else if body.len() < spec_fixed_body_len(t) {
            r == Err::<Message, ParseError>(ParseError::Truncated)
        } else {
            spec_parsed_message(t, body, version, r)
        }
    }
}

/// Reads one byte.
fn get_u8(b: &[u8], off: usize) -> (x: u8)
    requires
        off < b@.len(),
    ensures
        x == b@[off as int],
{
    *slice_index_get(b, off)
}

/// Reads a little-endian `u16`.
fn get_u16(b: &[u8], off: usize) -> (x: u16)
    requires
        off + 2 <= b@.len(),
    ensures
        x == spec_u16_from_le_bytes(b@.subrange(off as int, off as int + 2)),
{
    let n = b.len();
    u16_from_le_bytes(slice_subrange(b, off, off + 2))
}

/// Reads a little-endian `u32`.
fn get_u32(b: &[u8], off: usize) -> (x: u32)
    requires
        off + 4 <= b@.len(),
    ensures
        x == spec_u32_from_le_bytes(b@.subrange(off as int, off as int + 4)),
{
    let n = b.len();
    u32_from_le_bytes(slice_subrange(b, off, off + 4))
}

/// Reads a little-endian `u64`.
fn get_u64(b: &[u8], off: usize) -> (x: u64)
    requires
        off + 8 <= b@.len(),
    ensures
        x == spec_u64_from_le_bytes(b@.subrange(off as int, off as int + 8)),
{
    let n = b.len();
    u64_from_le_bytes(slice_subrange(b, off, off + 8))
}

/// Reads a little-endian `i32` as its two's-complement bytes.
fn get_i32(b: &[u8], off: usize) -> (x: i32)
    requires
        off + 4 <= b@.len(),
    ensures
        x == spec_u32_from_le_bytes(b@.subrange(off as int, off as int + 4)) as i32,
{
    get_u32(b, off) as i32
}

/// Reads a GUID's 16 wire bytes.
fn get_guid(b: &[u8], off: usize) -> (g: Guid)
    requires
        off + 16 <= b@.len(),
    ensures
        g == spec_guid_from_bytes(b@, off as int),
{
    let n = b.len();
    Guid {
        data1: get_u32(b, off),
        data2: get_u16(b, off + 4),
        data3: get_u16(b, off + 6),
        data4: get_u64(b, off + 8),
    }
}

/// Parses one inbound frame against the negotiated version.
pub fn parse_message(data: &[u8], version: Option<VersionInfo>) -> (r: Result<Message, ParseError>)
    ensures
        spec_parse_result(data@, version, r),
{
    if data.len() < 8 {
        return Err(ParseError::Truncated);
    }
    let t = get_u32(data, 0);
    if !(1 <= t && t <= 26) {
        return Err(ParseError::UnknownMessageType(t));
    }
    let body = slice_subrange(data, 8, data.len());
    if t == MSG_OFFER_CHANNEL {
        if body.len() < 188 {
            return Err(ParseError::Truncated);
        }
        let mut rsvd = [0u8; 16];
        let mut k: usize = 0;
        while k < 16
            invariant
                k <= 16,
                body@.len() >= 188,
                rsvd@.len() == 16,
                forall|j: int| 0 <= j < k ==> rsvd@[j] == body@[32 + j],
            decreases 16 - k,
        {
            rsvd[k] = get_u8(body, 32 + k);
            k = k + 1;
        }
        let mut user_defined = [0u8; 120];
        let mut k: usize = 0;
        while k < 120
            invariant
                k <= 120,
                body@.len() >= 188,
                user_defined@.len() == 120,
                forall|j: int| 0 <= j < k ==> user_defined@[j] == body@[52 + j],
            decreases 120 - k,
        {
            user_defined[k] = get_u8(body, 52 + k);
            k = k + 1;
        }
        let o = OfferChannel {
            interface_id: get_guid(body, 0),
            instance_id: get_guid(body, 16),
            rsvd,
            flags: OfferFlags(get_u16(body, 48)),
            mmio_megabytes: get_u16(body, 50),
            user_defined: UserDefinedData(user_defined),
            subchannel_index: get_u16(body, 172),
            mmio_megabytes_optional: get_u16(body, 174),
            channel_id: ChannelId(get_u32(body, 176)),
            monitor_id: get_u8(body, 180),
            monitor_allocated: get_u8(body, 181),
            is_dedicated: get_u16(body, 182),
            connection_id: get_u32(body, 184),
        };
        proof {
            assert(o.rsvd@ =~= body@.subrange(32, 48));
            assert(o.user_defined.0@ =~= body@.subrange(52, 172));
        }
        Ok(Message::OfferChannel(o))
    } else if t == MSG_RESCIND_CHANNEL_OFFER {
        if body.len() < 4 {
            return Err(ParseError::Truncated);
        }
        Ok(Message::RescindChannelOffer(RescindChannelOffer { channel_id: ChannelId(get_u32(body, 0)) }))
    } else if t == MSG_VERSION_RESPONSE {
        if body.len() < 8 {
            return Err(ParseError::Truncated);
        }
        let takes_extended = match version {
            Option::None => true,
            Option::Some(v) => matches!(v.version, Version::Copper),
        };
        let base = VersionResponse {
            version_supported: get_u8(body, 0),
            connection_state: ConnectionState(get_u8(body, 1)),
            padding: get_u16(body, 2),
            selected_version_or_connection_id: get_u32(body, 4),
        };
        if body.len() >= 12 && takes_extended {
            Ok(Message::VersionResponse2(VersionResponse2 {
                version_response: base,
                supported_features: get_u32(body, 8),
            }))
        } else {
            Ok(Message::VersionResponse(base))
        }
    } else if t == MSG_OPEN_CHANNEL_RESULT {
        if body.len() < 12 {
            return Err(ParseError::Truncated);
        }
        Ok(Message::OpenResult(OpenResult {
            channel_id: ChannelId(get_u32(body, 0)),
            open_id: get_u32(body, 4),
            status: get_u32(body, 8),
        }))
    } else if t == MSG_GPADL_CREATED {
        if body.len() < 12 {
            return Err(ParseError::Truncated);
        }
        Ok(Message::GpadlCreated(GpadlCreated {
            channel_id: ChannelId(get_u32(body, 0)),
            gpadl_id: GpadlId(get_u32(body, 4)),
            status: get_i32(body, 8),
        }))
    } else if t == MSG_GPADL_TORNDOWN {
        if body.len() < 4 {
            return Err(ParseError::Truncated);
        }
        Ok(Message::GpadlTorndown(GpadlTorndown { gpadl_id: GpadlId(get_u32(body, 0)) }))
    } else if t == MSG_MODIFY_CHANNEL_RESPONSE {
        if body.len() < 8 {
            return Err(ParseError::Truncated);
        }
        Ok(Message::ModifyChannelResponse(ModifyChannelResponse {
            channel_id: ChannelId(get_u32(body, 0)),
            status: get_i32(body, 4),
        }))
    } else if t == MSG_MODIFY_CONNECTION_RESPONSE {
        if body.len() < 1 {
            return Err(ParseError::Truncated);
        }
        Ok(Message::ModifyConnectionResponse(ModifyConnectionResponse {
            connection_state: ConnectionState(get_u8(body, 0)),
        }))
    } else if t == MSG_TL_CONNECT_RESULT {
        if body.len() < 36 {
            return Err(ParseError::Truncated);
        }
        Ok(Message::TlConnectResult(TlConnectResult {
            service_id: get_guid(body, 0),
            endpoint_id: get_guid(body, 16),
            status: get_i32(body, 32),
        }))
    } else if t == MSG_ALL_OFFERS_DELIVERED {
        Ok(Message::AllOffersDelivered)
    } else if t == MSG_UNLOAD_COMPLETE {
        Ok(Message::UnloadComplete)
    } else if t == MSG_CLOSE_RESERVED_CHANNEL_RESPONSE {
        Ok(Message::CloseReservedChannelResponse)
    } else if t == MSG_REQUEST_OFFERS {
        Ok(Message::RequestOffers)
    } else if t == MSG_OPEN_CHANNEL {
        Ok(Message::OpenChannel)
    } else if t == MSG_CLOSE_CHANNEL {
        Ok(Message::CloseChannel)
    } else if t == MSG_GPADL_HEADER {
        Ok(Message::GpadlHeader)
    } else if t == MSG_GPADL_BODY {
        Ok(Message::GpadlBody)
    } else if t == MSG_GPADL_TEARDOWN {
        Ok(Message::GpadlTeardown)
    } else if t == MSG_REL_ID_RELEASED {
        Ok(Message::RelIdReleased)
    } else if t == MSG_INITIATE_CONTACT {
        Ok(Message::InitiateContact)
    } else if t == MSG_UNLOAD {
        Ok(Message::Unload)
    } else if t == MSG_OPEN_RESERVED_CHANNEL {
        Ok(Message::OpenReservedChannel)
    } else if t == MSG_CLOSE_RESERVED_CHANNEL {
        Ok(Message::CloseReservedChannel)
    } else if t == MSG_TL_CONNECT_REQUEST {
        Ok(Message::TlConnectRequest)
    } else if t == MSG_MODIFY_CHANNEL {
        Ok(Message::ModifyChannel)
    } else {
        Ok(Message::ModifyConnection)
    }
}

} // verus!
