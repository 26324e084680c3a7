//! Core protocol types: node identifiers, packet and service type tags,
//! QoS requirements, and the fixed-layout wire codec for service requests
//! and responses.

use vstd::prelude::*;

verus! {

use vstd::std_specs::cmp::PartialEqSpec;

/// Largest packet the stack handles, header and payload together.
pub const MAX_PACKET_SIZE: usize = 256;

/// Protocol version carried in every packet.
pub const PROTOCOL_VERSION: u8 = 1;

/// Six-byte node identifier with value equality; the all-0xFF value is
/// reserved for broadcast.
#[derive(Clone, Copy, Debug)]
pub struct NodeId(pub [u8; 6]);

impl NodeId {
    /// The reserved all-0xFF broadcast identifier.
    pub open spec fn broadcast_spec() -> NodeId {
        NodeId([0xFFu8, 0xFFu8, 0xFFu8, 0xFFu8, 0xFFu8, 0xFFu8])
    }

    pub open spec fn is_broadcast_spec(self) -> bool {
        self.0@ == Seq::<u8>::new(6, |i: int| 0xFFu8)
    }

    pub fn new(id: [u8; 6]) -> (r: Self)
        ensures
            r == NodeId(id),
    {
        Self(id)
    }

    /// The reserved all-0xFF broadcast identifier.
    pub fn broadcast() -> (r: Self)
        ensures
            r == NodeId::broadcast_spec(),
            r.is_broadcast_spec(),
    {
        let r = Self([0xFF; 6]);
        proof {
            assert(r.0 =~= NodeId::broadcast_spec().0);
            assert(r.is_broadcast_spec()) by {
                assert(r.0@ =~= Seq::<u8>::new(6, |i: int| 0xFFu8));
            }
        }
        r
    }

    pub fn is_broadcast(&self) -> (r: bool)
        ensures
            r == self.is_broadcast_spec(),
    {
        let r = self.0[0] == 0xFF && self.0[1] == 0xFF && self.0[2] == 0xFF && self.0[3] == 0xFF
            && self.0[4] == 0xFF && self.0[5] == 0xFF;
        proof {
            if r {
                assert(self.0@ =~= Seq::<u8>::new(6, |i: int| 0xFFu8));
            }
        }
        r
    }
}

impl PartialEq for NodeId {
    /// Byte-wise identity of the six identifier bytes.
    fn eq(&self, other: &NodeId) -> (r: bool)
    {
        let r = self.0[0] == other.0[0] && self.0[1] == other.0[1] && self.0[2] == other.0[2]
            && self.0[3] == other.0[3] && self.0[4] == other.0[4] && self.0[5] == other.0[5];
        proof {
            if r {
                assert(self.0 =~= other.0);
            } else {
                assert(self.0 != other.0);
            }
        }
        r
    }
}

impl Eq for NodeId {

}

impl vstd::std_specs::cmp::PartialEqSpecImpl for NodeId {
    open spec fn obeys_eq_spec() -> bool {
        true
    }

    open spec fn eq_spec(&self, other: &NodeId) -> bool {
        self.0 == other.0
    }
}

/// Node identity is exactly six-byte identity: the reserved broadcast
/// value is recognised by `is_broadcast` and by nothing else.
pub proof fn lemma_broadcast_exact(b: NodeId)
    ensures
        b.is_broadcast_spec() <==> b == NodeId::broadcast_spec(),
{
    if b.is_broadcast_spec() {
        assert(b.0 =~= NodeId::broadcast_spec().0);
    }
    if b == NodeId::broadcast_spec() {
        assert(b.0@ =~= Seq::<u8>::new(6, |i: int| 0xFFu8));
    }
}

/// Node equality is an equivalence over six-byte identity: reflexive,
/// symmetric and transitive, and it is what the `==` operator decides.
pub proof fn lemma_node_id_equivalence(a: NodeId, b: NodeId, c: NodeId)
    ensures
        a.eq_spec(&a),
        a.eq_spec(&b) ==> b.eq_spec(&a),
        a.eq_spec(&b) && b.eq_spec(&c) ==> a.eq_spec(&c),
        a.eq_spec(&b) <==> a == b,
{
}

/// Packet type tags carried in the type byte of every packet.
#[derive(Clone, Copy, Debug, PartialEq, Eq, Structural)]
pub enum PacketType {
    Beacon,
    Data,
    Ack,
    Control,
    ServiceRequest,
    ServiceResponse,
    PathEstablish,
    PathConfirm,
}

impl PacketType {
    /// Wire tag of this packet type.
    pub open spec fn tag_spec(self) -> u8 {
        match self {
            PacketType::Beacon => 0x01,
            PacketType::Data => 0x02,
            PacketType::Ack => 0x03,
            PacketType::Control => 0x04,
            PacketType::ServiceRequest => 0x05,
            PacketType::ServiceResponse => 0x06,
            PacketType::PathEstablish => 0x07,
            PacketType::PathConfirm => 0x08,
        }
    }

    pub fn tag(self) -> (r: u8)
        ensures
            r == self.tag_spec(),
    {
        match self {
            PacketType::Beacon => 0x01,
            PacketType::Data => 0x02,
            PacketType::Ack => 0x03,
            PacketType::Control => 0x04,
            PacketType::ServiceRequest => 0x05,
            PacketType::ServiceResponse => 0x06,
            PacketType::PathEstablish => 0x07,
            PacketType::PathConfirm => 0x08,
        }
    }

    pub open spec fn from_tag_spec(v: u8) -> Option<PacketType> {
        if v == 0x01 {
            Some(PacketType::Beacon)
        } else if v == 0x02 {
            Some(PacketType::Data)
        } else if v == 0x03 {
            Some(PacketType::Ack)
        } else if v == 0x04 {
            Some(PacketType::Control)
        } else if v == 0x05 {
            Some(PacketType::ServiceRequest)
        } else if v == 0x06 {
            Some(PacketType::ServiceResponse)
        } else if v == 0x07 {
            Some(PacketType::PathEstablish)
        } else if v == 0x08 {
            Some(PacketType::PathConfirm)
        } else {
            None
        }
    }

    pub fn from_tag(v: u8) -> (r: Option<PacketType>)
        ensures
            r == PacketType::from_tag_spec(v),
    {
        match v {
            0x01 => Some(PacketType::Beacon),
            0x02 => Some(PacketType::Data),
            0x03 => Some(PacketType::Ack),
            0x04 => Some(PacketType::Control),
            0x05 => Some(PacketType::ServiceRequest),
            0x06 => Some(PacketType::ServiceResponse),
            0x07 => Some(PacketType::PathEstablish),
            0x08 => Some(PacketType::PathConfirm),
            _ => None,
        }
    }
}

/// Service categories a node can offer.
#[derive(Clone, Copy, Debug, PartialEq, Eq, Structural)]
pub enum ServiceType {
    Storage,
    Processing,
    Gateway,
    VideoRelay,
    AudioRelay,
    DataRelay,
    SensorCollection,
}

impl ServiceType {
    /// Wire tag of this service type.
    pub open spec fn tag_spec(self) -> u8 {
        match self {
            ServiceType::Storage => 0x01,
            ServiceType::Processing => 0x02,
            ServiceType::Gateway => 0x03,
            ServiceType::VideoRelay => 0x04,
            ServiceType::AudioRelay => 0x05,
            ServiceType::DataRelay => 0x06,
            ServiceType::SensorCollection => 0x07,
        }
    }

    pub fn tag(self) -> (r: u8)
        ensures
            r == self.tag_spec(),
    {
        match self {
            ServiceType::Storage => 0x01,
            ServiceType::Processing => 0x02,
            ServiceType::Gateway => 0x03,
            ServiceType::VideoRelay => 0x04,
            ServiceType::AudioRelay => 0x05,
            ServiceType::DataRelay => 0x06,
            ServiceType::SensorCollection => 0x07,
        }
    }

    pub open spec fn from_tag_spec(v: u8) -> Option<ServiceType> {
        if v == 0x01 {
            Some(ServiceType::Storage)
        } else if v == 0x02 {
            Some(ServiceType::Processing)
        } else if v == 0x03 {
            Some(ServiceType::Gateway)
        } else if v == 0x04 {
            Some(ServiceType::VideoRelay)
        } else if v == 0x05 {
            Some(ServiceType::AudioRelay)
        } else if v == 0x06 {
            Some(ServiceType::DataRelay)
        } else if v == 0x07 {
            Some(ServiceType::SensorCollection)
        } else {
            None
        }
    }

    pub fn from_tag(v: u8) -> (r: Option<ServiceType>)
        ensures
            r == ServiceType::from_tag_spec(v),
    {
        match v {
            0x01 => Some(ServiceType::Storage),
            0x02 => Some(ServiceType::Processing),
            0x03 => Some(ServiceType::Gateway),
            0x04 => Some(ServiceType::VideoRelay),
            0x05 => Some(ServiceType::AudioRelay),
            0x06 => Some(ServiceType::DataRelay),
            0x07 => Some(ServiceType::SensorCollection),
            _ => None,
        }
    }
}

/// Quality-of-service floor a client demands of a service provider.
#[derive(Clone, Copy, Debug, PartialEq, Eq, Structural)]
pub struct QosRequirements {
    /// Minimum bandwidth (kbps).
    pub min_bandwidth: u16,
    /// Maximum latency (ms).
    pub max_latency: u16,
    /// Minimum reliability (percent).
    pub reliability: u8,
}

/// A client's request for a service, sent to a forward node.
#[derive(Clone, Copy, Debug, PartialEq, Eq, Structural)]
pub struct ServiceRequest {
    pub service_type: ServiceType,
    pub qos: QosRequirements,
    /// Requested service lifetime (seconds); the wire form carries its low
    /// 16 bits.
    pub expiry_time: u32,
}

/// A forward node's answer to a service request.
#[derive(Clone, Copy, Debug, PartialEq)]
pub struct ServiceResponse {
    pub service_id: u32,
    pub server_node_id: NodeId,
    /// 0 = success, 1 = failure.
    pub status: u8,
}

/// Outcomes of a path-establishment attempt.
#[derive(Clone, Copy, Debug, PartialEq, Eq, Structural)]
pub enum PathStatus {
    Success,
    NoResource,
    QosNotMet,
    Timeout,
    ServerBusy,
}

impl PathStatus {
    /// Wire tag of this path status.
    pub open spec fn tag_spec(self) -> u8 {
        match self {
            PathStatus::Success => 0x00,
            PathStatus::NoResource => 0x01,
            PathStatus::QosNotMet => 0x02,
            PathStatus::Timeout => 0x03,
            PathStatus::ServerBusy => 0x04,
        }
    }

    pub fn tag(self) -> (r: u8)
        ensures
            r == self.tag_spec(),
    {
        match self {
            PathStatus::Success => 0x00,
            PathStatus::NoResource => 0x01,
            PathStatus::QosNotMet => 0x02,
            PathStatus::Timeout => 0x03,
            PathStatus::ServerBusy => 0x04,
        }
    }
}

/// A packet the engine asks its caller to transmit: the engine decides
/// destination, correlation id and payload; the caller owns the radio.
#[derive(Clone, Debug)]
pub struct OutboundData {
    /// Node the packet is addressed to.
    pub destination: NodeId,
    /// Packet identifier to carry in the data header.
    pub packet_id: u16,
    /// Payload bytes to send.
    pub payload: Vec<u8>,
}

/// The 8-byte wire form of a service request: type tag, bandwidth (BE16),
/// latency (BE16), reliability, expiry (low 16 bits, BE16).
pub open spec fn service_request_bytes(request: ServiceRequest) -> Seq<u8> {
    seq![
        request.service_type.tag_spec(),
        (request.qos.min_bandwidth / 256) as u8,
        (request.qos.min_bandwidth % 256) as u8,
        (request.qos.max_latency / 256) as u8,
        (request.qos.max_latency % 256) as u8,
        request.qos.reliability,
        ((request.expiry_time / 256) % 256) as u8,
        (request.expiry_time % 256) as u8,
    ]
}

/// What decoding an 8-byte service request wire form yields.
pub open spec fn parse_service_request(buffer: Seq<u8>) -> Option<ServiceRequest> {
    if buffer.len() < 8 {
        None
    } else {
        match ServiceType::from_tag_spec(buffer[0]) {
            Some(service_type) => Some(
                ServiceRequest {
                    service_type,
                    qos: QosRequirements {
                        min_bandwidth: (buffer[1] as u16 * 256 + buffer[2] as u16) as u16,
                        max_latency: (buffer[3] as u16 * 256 + buffer[4] as u16) as u16,
                        reliability: buffer[5],
                    },
                    expiry_time: (buffer[6] as u32 * 256 + buffer[7] as u32) as u32,
                },
            ),
            None => None,
        }
    }
}

/// Writes the 8-byte wire form of `request` to the front of `buffer` and
/// returns the encoded length, or 0 if `buffer` is too short.
pub fn serialize_service_request(request: &ServiceRequest, buffer: &mut [u8]) -> (r: usize)
    ensures
        old(buffer)@.len() < 8 ==> r == 0 && final(buffer)@ == old(buffer)@,
        old(buffer)@.len() >= 8 ==> r == 8 && final(buffer)@ =~= service_request_bytes(*request)
            + old(buffer)@.skip(8),
{
    if buffer.len() < 8 {
        return 0;
    }
    buffer[0] = request.service_type.tag();
    buffer[1] = (request.qos.min_bandwidth / 256) as u8;
    buffer[2] = (request.qos.min_bandwidth % 256) as u8;
    buffer[3] = (request.qos.max_latency / 256) as u8;
    buffer[4] = (request.qos.max_latency % 256) as u8;
    buffer[5] = request.qos.reliability;
    buffer[6] = ((request.expiry_time / 256) % 256) as u8;
    buffer[7] = (request.expiry_time % 256) as u8;
    8
}

/// Decodes a service request from the front of `buffer`; `None` when the
/// buffer is shorter than the fixed size or the type tag is unrecognised.
pub fn deserialize_service_request(buffer: &[u8]) -> (r: Option<ServiceRequest>)
    ensures
        r == parse_service_request(buffer@),
{
    if buffer.len() < 8 {
        return None;
    }
    let service_type = match ServiceType::from_tag(buffer[0]) {
        Some(t) => t,
        None => {
            return None;
        },
    };
    let min_bandwidth: u16 = buffer[1] as u16 * 256 + buffer[2] as u16;
    let max_latency: u16 = buffer[3] as u16 * 256 + buffer[4] as u16;
    let reliability: u8 = buffer[5];
    let expiry_time: u32 = buffer[6] as u32 * 256 + buffer[7] as u32;
    Some(
        ServiceRequest {
            service_type,
            qos: QosRequirements { min_bandwidth, max_latency, reliability },
            expiry_time,
        },
    )
}

/// The 11-byte wire form of a service response: service id (BE32), server
/// id (6 bytes), status.
pub open spec fn service_response_bytes(response: ServiceResponse) -> Seq<u8> {
    seq![
        ((response.service_id / 16777216) % 256) as u8,
        ((response.service_id / 65536) % 256) as u8,
        ((response.service_id / 256) % 256) as u8,
        (response.service_id % 256) as u8,
        response.server_node_id.0[0],
        response.server_node_id.0[1],
        response.server_node_id.0[2],
        response.server_node_id.0[3],
        response.server_node_id.0[4],
        response.server_node_id.0[5],
        response.status,
    ]
}

/// What decoding an 11-byte service response wire form yields.
pub open spec fn parse_service_response(buffer: Seq<u8>) -> Option<ServiceResponse> {
    if buffer.len() < 11 {
        None
    } else {
        Some(
            ServiceResponse {
                service_id: (buffer[0] as u32 * 16777216 + buffer[1] as u32 * 65536 + buffer[2]
                    as u32 * 256 + buffer[3] as u32) as u32,
                server_node_id: NodeId(
                    [buffer[4], buffer[5], buffer[6], buffer[7], buffer[8], buffer[9]],
                ),
                status: buffer[10],
            },
        )
    }
}

/// Writes the 11-byte wire form of `response` to the front of `buffer` and
/// returns the encoded length, or 0 if `buffer` is too short.
pub fn serialize_service_response(response: &ServiceResponse, buffer: &mut [u8]) -> (r: usize)
    ensures
        old(buffer)@.len() < 11 ==> r == 0 && final(buffer)@ == old(buffer)@,
        old(buffer)@.len() >= 11 ==> r == 11 && final(buffer)@ =~= service_response_bytes(
            *response,
        ) + old(buffer)@.skip(11),
{
    if buffer.len() < 11 {
        return 0;
    }
    buffer[0] = ((response.service_id / 16777216) % 256) as u8;
    buffer[1] = ((response.service_id / 65536) % 256) as u8;
    buffer[2] = ((response.service_id / 256) % 256) as u8;
    buffer[3] = (response.service_id % 256) as u8;
    buffer[4] = response.server_node_id.0[0];
    buffer[5] = response.server_node_id.0[1];
    buffer[6] = response.server_node_id.0[2];
    buffer[7] = response.server_node_id.0[3];
    buffer[8] = response.server_node_id.0[4];
    buffer[9] = response.server_node_id.0[5];
    buffer[10] = response.status;
    11
}

/// Decodes a service response from the front of `buffer`; `None` when the
/// buffer is shorter than the fixed size.
pub fn deserialize_service_response(buffer: &[u8]) -> (r: Option<ServiceResponse>)
    ensures
        r == parse_service_response(buffer@),
{
    if buffer.len() < 11 {
        return None;
    }
    let service_id: u32 = buffer[0] as u32 * 16777216 + buffer[1] as u32 * 65536 + buffer[2] as u32
        * 256 + buffer[3] as u32;
    let server_node_id = NodeId([buffer[4], buffer[5], buffer[6], buffer[7], buffer[8], buffer[9]]);
    let status: u8 = buffer[10];
    Some(ServiceResponse { service_id, server_node_id, status })
}

/// The service-request codec is lossless: decoding an encoded request gives
/// back the request, whenever the expiry time fits the 16-bit wire field.
pub proof fn lemma_service_request_round_trip(request: ServiceRequest)
    requires
        request.expiry_time < 65536,
    ensures
        parse_service_request(service_request_bytes(request)) == Some(request),
{
    let bytes = service_request_bytes(request);
    assert(ServiceType::from_tag_spec(request.service_type.tag_spec())
        == Some(request.service_type));
    assert(bytes[1] as u16 * 256 + bytes[2] as u16 == request.qos.min_bandwidth);
    assert(bytes[3] as u16 * 256 + bytes[4] as u16 == request.qos.max_latency);
    assert(bytes[6] as u32 * 256 + bytes[7] as u32 == request.expiry_time);
}

/// The service-response codec is lossless: decoding an encoded response
/// gives back the response.
pub proof fn lemma_service_response_round_trip(response: ServiceResponse)
    ensures
        parse_service_response(service_response_bytes(response)) == Some(response),
{
    let bytes = service_response_bytes(response);
    assert(bytes[0] as u32 * 16777216 + bytes[1] as u32 * 65536 + bytes[2] as u32 * 256 + bytes[3]
        as u32 == response.service_id);
    assert(NodeId([bytes[4], bytes[5], bytes[6], bytes[7], bytes[8], bytes[9]])
        == response.server_node_id) by {
        assert([bytes[4], bytes[5], bytes[6], bytes[7], bytes[8], bytes[9]]
            =~= response.server_node_id.0);
    }
}

} // verus!
