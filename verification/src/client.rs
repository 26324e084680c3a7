//! Client-side protocol decisions: evaluating discovered beacons,
//! interpreting a forward node's service response, and building the
//! close-service message. The caller drives the bounded retry loops and
//! owns the radio.

use vstd::prelude::*;
use crate::beacon::Beacon;
use crate::data::DataPacket;
use crate::protocol::{
    parse_service_response, NodeId, OutboundData, PacketType, ServiceType,
};

verus! {

/// A remote service a client can use, learned from a successful service
/// response.
#[derive(Clone, Copy, Debug)]
pub struct ServiceEndpoint {
    /// Identifier the forward node assigned to the binding.
    pub service_id: u32,
    /// The serving node.
    pub server_id: NodeId,
    /// The forward node relaying to the server.
    pub relay_id: NodeId,
    /// The service bound.
    pub service_type: ServiceType,
    /// Hop count reported by path confirmation.
    pub hops: u8,
}

/// Records the hop count reported for the endpoint's path.
pub fn update_service_endpoint(endpoint: &mut ServiceEndpoint, hops: u8)
    ensures
        final(endpoint).hops == hops,
        final(endpoint).service_id == old(endpoint).service_id,
        final(endpoint).server_id == old(endpoint).server_id,
        final(endpoint).relay_id == old(endpoint).relay_id,
        final(endpoint).service_type == old(endpoint).service_type,
{
    endpoint.hops = hops;
}

/// What a received packet means to a client waiting for a service
/// response.
#[derive(Clone, Copy, Debug)]
pub enum ServiceResponseOutcome {
    /// A successful response: this endpoint is now usable.
    Accepted(ServiceEndpoint),
    /// The forward node answered, but with a failure status: stop
    /// waiting.
    Refused,
    /// Not the awaited response (wrong sender, wrong type, or
    /// undecodable): keep waiting.
    Ignored,
}

/// Interprets a packet received while waiting for `forward_id` to answer
/// a request for `service_type`.
pub fn process_service_response(
    forward_id: NodeId,
    service_type: ServiceType,
    packet: &DataPacket,
) -> (r: ServiceResponseOutcome)
    ensures
        ({
            let source = NodeId(packet.header.source);
            if source == forward_id && packet.header.packet_type
                == PacketType::ServiceResponse.tag_spec() {
                match parse_service_response(packet.data@) {
                    Some(response) => if response.status == 0 {
                        r matches ServiceResponseOutcome::Accepted(e) && e.service_id
                            == response.service_id && e.server_id == response.server_node_id
                            && e.relay_id == forward_id && e.service_type == service_type
                            && e.hops == 0
                    } else {
                        r is Refused
                    },
                    None => r is Ignored,
                }
            } else {
                r is Ignored
            }
        }),
{
    let source = NodeId::new(
        [
            packet.header.source[0],
            packet.header.source[1],
            packet.header.source[2],
            packet.header.source[3],
            packet.header.source[4],
            packet.header.source[5],
        ],
    );
    proof {
        assert(source.0 =~= packet.header.source);
    }
    if source == forward_id && packet.header.packet_type == PacketType::ServiceResponse.tag() {
        match crate::protocol::deserialize_service_response(packet.data) {
            Some(response) => {
                if response.status == 0 {
                    ServiceResponseOutcome::Accepted(
                        ServiceEndpoint {
                            service_id: response.service_id,
                            server_id: response.server_node_id,
                            relay_id: forward_id,
                            service_type,
                            hops: 0,
                        },
                    )
                } else {
                    ServiceResponseOutcome::Refused
                }
            },
            None => ServiceResponseOutcome::Ignored,
        }
    } else {
        ServiceResponseOutcome::Ignored
    }
}

/// Whether a received beacon announces a usable relay: it must carry a
/// valid checksum and the beacon type tag. Returns the announcing node.
pub fn receive_server_response(beacon: &Beacon) -> (r: Option<NodeId>)
    ensures
        beacon.valid_spec() && beacon.packet_type == PacketType::Beacon.tag_spec() ==> r == Some(
            NodeId(beacon.source),
        ),
        !(beacon.valid_spec() && beacon.packet_type == PacketType::Beacon.tag_spec()) ==> r
            is None,
{
    if beacon.is_valid() && beacon.packet_type == PacketType::Beacon.tag() {
        let source = NodeId::new(
            [
                beacon.source[0],
                beacon.source[1],
                beacon.source[2],
                beacon.source[3],
                beacon.source[4],
                beacon.source[5],
            ],
        );
        proof {
            assert(source.0 =~= beacon.source);
        }
        Some(source)
    } else {
        None
    }
}

/// The 6-byte close-service payload: service id (BE32), close reason
/// (0 = normal), one reserved byte.
pub open spec fn close_request_bytes(service_id: u32) -> Seq<u8> {
    seq![
        ((service_id / 16777216) % 256) as u8,
        ((service_id / 65536) % 256) as u8,
        ((service_id / 256) % 256) as u8,
        (service_id % 256) as u8,
        0u8,
        0u8,
    ]
}

/// Builds the message that closes the endpoint's binding, addressed to
/// its relay.
pub fn close_service(endpoint: &ServiceEndpoint) -> (r: OutboundData)
    ensures
        r.destination == endpoint.relay_id,
        r.packet_id == 0,
        r.payload@ == close_request_bytes(endpoint.service_id),
{
    let mut payload: Vec<u8> = Vec::new();
    payload.push(((endpoint.service_id / 16777216) % 256) as u8);
    payload.push(((endpoint.service_id / 65536) % 256) as u8);
    payload.push(((endpoint.service_id / 256) % 256) as u8);
    payload.push((endpoint.service_id % 256) as u8);
    payload.push(0);
    payload.push(0);
    proof {
        assert(payload@ =~= close_request_bytes(endpoint.service_id));
    }
    OutboundData { destination: endpoint.relay_id, packet_id: 0, payload }
}

} // verus!
