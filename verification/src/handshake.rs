//! Forward-node packet handling: absorbing beacons into the routing
//! table and service directory, answering service requests from the
//! directory, and relaying the path-establishment handshake. Each
//! handler decides what to transmit and hands it back as plain values;
//! the caller owns the radio.

use vstd::prelude::*;
use vstd::slice::slice_to_vec;
use crate::beacon::Beacon;
use crate::data::DataPacket;
use crate::directory::{
    best_service, upserted_slots, Capabilities, NetworkServiceDirectory, ServiceEntry,
    ServiceMetrics,
};
use crate::protocol::{
    service_response_bytes, serialize_service_response, NodeId, OutboundData, QosRequirements,
    ServiceResponse, ServiceType,
};
use crate::routing::{contains_dest, update_route_spec, ForwardingEngine};

verus! {

/// The directory entry a received beacon is absorbed as: a video-relay
/// provider with default capabilities, carrying the beacon's battery
/// level and signal strength.
pub open spec fn beacon_service_entry(
    source: NodeId,
    battery_level: u8,
    rssi: i8,
    current_time: u64,
) -> ServiceEntry {
    ServiceEntry {
        node_id: source,
        service_type: ServiceType::VideoRelay,
        load: 0,
        capabilities: Capabilities {
            max_bandwidth: 1000,
            min_latency: 100,
            reliability: 90,
            battery_level,
        },
        last_update_time: current_time,
        metrics: ServiceMetrics {
            success_rate: 100,
            avg_response_time: 50,
            signal_strength: rssi,
        },
    }
}

/// The client named in the first six bytes of a path message.
pub open spec fn client_of(d: Seq<u8>) -> NodeId {
    NodeId([d[0], d[1], d[2], d[3], d[4], d[5]])
}

/// The 20-byte path-establishment payload: client id (6), service type
/// tag, bandwidth (BE16), latency (BE16), reliability, zero padding.
pub open spec fn path_establish_bytes(
    client: NodeId,
    service_type: ServiceType,
    qos: QosRequirements,
) -> Seq<u8> {
    seq![
        client.0[0],
        client.0[1],
        client.0[2],
        client.0[3],
        client.0[4],
        client.0[5],
        service_type.tag_spec(),
        (qos.min_bandwidth / 256) as u8,
        (qos.min_bandwidth % 256) as u8,
        (qos.max_latency / 256) as u8,
        (qos.max_latency % 256) as u8,
        qos.reliability,
        0u8,
        0u8,
        0u8,
        0u8,
        0u8,
        0u8,
        0u8,
        0u8,
    ]
}

/// The 8-byte path-confirmation payload: client id (6), status tag, hop
/// count.
pub open spec fn path_confirm_bytes(client: NodeId, status: u8, hop_count: u8) -> Seq<u8> {
    seq![client.0[0], client.0[1], client.0[2], client.0[3], client.0[4], client.0[5], status, hop_count]
}

/// Absorbs a received beacon: a valid one refreshes the single-hop route
/// to its sender and upserts the sender into the service directory; an
/// invalid one changes nothing.
pub fn handle_beacon(
    forwarding_engine: &mut ForwardingEngine,
    service_directory: &mut NetworkServiceDirectory,
    beacon: &Beacon,
    current_time: u64,
)
    requires
        old(forwarding_engine).wf(),
        old(service_directory).wf(),
    ensures
        final(forwarding_engine).wf(),
        final(service_directory).wf(),
        final(forwarding_engine).spec_node_id() == old(forwarding_engine).spec_node_id(),
        final(service_directory).spec_last_cleanup() == old(service_directory).spec_last_cleanup(),
        !beacon.valid_spec() ==> {
            &&& *final(forwarding_engine) == *old(forwarding_engine)
            &&& *final(service_directory) == *old(service_directory)
        },
        beacon.valid_spec() ==> {
            &&& final(forwarding_engine).slots() == update_route_spec(
                old(forwarding_engine).slots(),
                old(forwarding_engine).spec_node_id(),
                NodeId(beacon.source),
                beacon.rssi,
                current_time,
            )
            &&& final(service_directory).slots() == upserted_slots(
                old(service_directory).slots(),
                beacon_service_entry(
                    NodeId(beacon.source),
                    beacon.battery_level,
                    beacon.rssi,
                    current_time,
                ),
            )
        },
{
    if beacon.is_valid() {
        let source = NodeId::new(
            [
                beacon.source[0],
                beacon.source[1],
                beacon.source[2],
                beacon.source[3],
                beacon.source[4],
                beacon.source[5],
            ],
        );
        proof {
            assert(source.0 =~= beacon.source);
        }
        forwarding_engine.update_route(source, beacon.rssi, current_time);

        let capabilities = Capabilities {
            max_bandwidth: 1000,
            min_latency: 100,
            reliability: 90,
            battery_level: beacon.battery_level,
        };
        let metrics = ServiceMetrics {
            success_rate: 100,
            avg_response_time: 50,
            signal_strength: beacon.rssi,
        };
        service_directory.update_service(
            source,
            ServiceType::VideoRelay,
            0,
            capabilities,
            metrics,
            current_time,
        );
    }
}

/// Relays a data packet not addressed to this node: the routing table
/// names the next hop, or — no route — the packet is dropped with no
/// outbound send at all.
pub fn handle_data_packet(
    forwarding_engine: &ForwardingEngine,
    self_id: NodeId,
    packet: &DataPacket,
) -> (r: Option<OutboundData>)
    requires
        forwarding_engine.wf(),
    ensures
        ({
            let destination = NodeId(packet.header.destination);
            if !destination.is_broadcast_spec() && destination != self_id && contains_dest(
                forwarding_engine.slots(),
                destination,
            ) {
                r matches Some(o) && o.destination == destination && o.packet_id
                    == packet.header.packet_id && o.payload@ == packet.data@
            } else {
                r is None
            }
        }),
{
    let destination = NodeId::new(
        [
            packet.header.destination[0],
            packet.header.destination[1],
            packet.header.destination[2],
            packet.header.destination[3],
            packet.header.destination[4],
            packet.header.destination[5],
        ],
    );
    proof {
        assert(destination.0 =~= packet.header.destination);
    }
    if !destination.is_broadcast() && !(destination == self_id) {
        match forwarding_engine.get_next_hop(destination) {
            Some(next_hop) => Some(
                OutboundData {
                    destination: next_hop,
                    packet_id: packet.header.packet_id,
                    payload: slice_to_vec(packet.data),
                },
            ),
            None => None,
        }
    } else {
        None
    }
}

/// What a forward node sends after a service request: always an answer
/// to the client (success with the chosen server, or failure with the
/// broadcast placeholder), plus — on success — a path-establishment
/// message toward the chosen server. Both empty when the request does
/// not decode.
#[derive(Debug)]
pub struct ServiceRequestReply {
    /// Service response addressed to the requesting client.
    pub response: Option<OutboundData>,
    /// Path-establishment request addressed to the chosen server.
    pub establish: Option<OutboundData>,
}

/// Answers a client's service request from the directory: the best
/// QoS-qualified provider wins and a path toward it is opened; with no
/// qualified provider the client gets a failure response; an
/// undecodable request is dropped.
pub fn handle_service_request(
    service_directory: &NetworkServiceDirectory,
    packet: &DataPacket,
    current_time: u64,
) -> (r: ServiceRequestReply)
    requires
        service_directory.wf(),
    ensures
        ({
            let source = NodeId(packet.header.source);
            match crate::protocol::parse_service_request(packet.data@) {
                Some(request) => match best_service(
                    service_directory.slots(),
                    request.service_type,
                    request.qos,
                ) {
                    Some(best) => {
                        &&& r.response matches Some(o) && o.destination == source && o.packet_id
                            == packet.header.packet_id && o.payload@ == service_response_bytes(
                            ServiceResponse {
                                service_id: current_time as u32,
                                server_node_id: best.node_id,
                                status: 0,
                            },
                        )
                        &&& r.establish matches Some(e) && e.destination == best.node_id
                            && e.packet_id == 0 && e.payload@ == path_establish_bytes(
                            source,
                            request.service_type,
                            request.qos,
                        )
                    },
                    None => {
                        &&& r.response matches Some(o) && o.destination == source && o.packet_id
                            == packet.header.packet_id && o.payload@ == service_response_bytes(
                            ServiceResponse {
                                service_id: 0,
                                server_node_id: NodeId::broadcast_spec(),
                                status: 1,
                            },
                        )
                        &&& r.establish is None
                    },
                },
                None => r.response is None && r.establish is None,
            }
        }),
{
    let source = NodeId::new(
        [
            packet.header.source[0],
            packet.header.source[1],
            packet.header.source[2],
            packet.header.source[3],
            packet.header.source[4],
            packet.header.source[5],
        ],
    );
    proof {
        assert(source.0 =~= packet.header.source);
    }
    match crate::protocol::deserialize_service_request(packet.data) {
        Some(service_request) => {
            match service_directory.find_best_service(
                service_request.service_type,
                &service_request.qos,
            ) {
                Some(best) => {
                    let service_response = ServiceResponse {
                        service_id: current_time as u32,
                        server_node_id: best.node_id,
                        status: 0,
                    };
                    let response = OutboundData {
                        destination: source,
                        packet_id: packet.header.packet_id,
                        payload: service_response_to_vec(&service_response),
                    };
                    let establish = establish_path(
                        source,
                        best.node_id,
                        service_request.service_type,
                        &service_request.qos,
                    );
                    ServiceRequestReply { response: Some(response), establish: Some(establish) }
                },
                None => {
                    let service_response = ServiceResponse {
                        service_id: 0,
                        server_node_id: NodeId::broadcast(),
                        status: 1,
                    };
                    let response = OutboundData {
                        destination: source,
                        packet_id: packet.header.packet_id,
                        payload: service_response_to_vec(&service_response),
                    };
                    ServiceRequestReply { response: Some(response), establish: None }
                },
            }
        },
        None => ServiceRequestReply { response: None, establish: None },
    }
}

/// The wire form of `response` as an owned buffer.
fn service_response_to_vec(response: &ServiceResponse) -> (r: Vec<u8>)
    ensures
        r@ == service_response_bytes(*response),
{
    let mut buffer: Vec<u8> = Vec::new();
    let mut i: usize = 0;
    while i < 11
        invariant
            buffer@.len() == i,
            i <= 11,
        decreases 11 - i,
    {
        buffer.push(0);
        i = i + 1;
    }
    let written = serialize_service_response(response, buffer.as_mut_slice());
    proof {
        assert(buffer@ =~= service_response_bytes(*response));
    }
    buffer
}

/// Builds the path-establishment request a forward node sends toward
/// the chosen server to bind `client` to it.
pub fn establish_path(
    client: NodeId,
    server: NodeId,
    service_type: ServiceType,
    qos: &QosRequirements,
) -> (r: OutboundData)
    ensures
        r.destination == server,
        r.packet_id == 0,
        r.payload@ == path_establish_bytes(client, service_type, *qos),
{
    let mut payload: Vec<u8> = Vec::new();
    payload.push(client.0[0]);
    payload.push(client.0[1]);
    payload.push(client.0[2]);
    payload.push(client.0[3]);
    payload.push(client.0[4]);
    payload.push(client.0[5]);
    payload.push(service_type.tag());
    payload.push((qos.min_bandwidth / 256) as u8);
    payload.push((qos.min_bandwidth % 256) as u8);
    payload.push((qos.max_latency / 256) as u8);
    payload.push((qos.max_latency % 256) as u8);
    payload.push(qos.reliability);
    let mut i: usize = 0;
    while i < 8
        invariant
            payload@.len() == 12 + i,
            i <= 8,
            forall|j: int|
                0 <= j < 12 ==> payload@[j] == path_establish_bytes(client, service_type, *qos)[j],
            forall|j: int| 12 <= j < payload@.len() ==> payload@[j] == 0u8,
        decreases 8 - i,
    {
        payload.push(0);
        i = i + 1;
    }
    proof {
        assert(payload@ =~= path_establish_bytes(client, service_type, *qos));
    }
    OutboundData { destination: server, packet_id: 0, payload }
}

/// Handles a path-establishment packet: one addressed elsewhere is
/// relayed via the routing table (dropped without a route); one
/// addressed to this node — the server — is answered with a success
/// confirmation naming the client, hop count 1, sent back to the
/// immediate sender.
pub fn handle_path_establish(
    forwarding_engine: &ForwardingEngine,
    self_id: NodeId,
    packet: &DataPacket,
) -> (r: Option<OutboundData>)
    requires
        forwarding_engine.wf(),
    ensures
        ({
            let destination = NodeId(packet.header.destination);
            let source = NodeId(packet.header.source);
            let d = packet.data@;
            if destination != self_id {
                if contains_dest(forwarding_engine.slots(), destination) {
                    r matches Some(o) && o.destination == destination && o.packet_id
                        == packet.header.packet_id && o.payload@ == d
                } else {
                    r is None
                }
            } else {
                if d.len() >= 12 {
                    r matches Some(o) && o.destination == source && o.packet_id
                        == packet.header.packet_id && o.payload@ == path_confirm_bytes(
                        client_of(d),
                        0,
                        1,
                    )
                } else {
                    r is None
                }
            }
        }),
{
    let destination = NodeId::new(
        [
            packet.header.destination[0],
            packet.header.destination[1],
            packet.header.destination[2],
            packet.header.destination[3],
            packet.header.destination[4],
            packet.header.destination[5],
        ],
    );
    let source = NodeId::new(
        [
            packet.header.source[0],
            packet.header.source[1],
            packet.header.source[2],
            packet.header.source[3],
            packet.header.source[4],
            packet.header.source[5],
        ],
    );
    proof {
        assert(destination.0 =~= packet.header.destination);
        assert(source.0 =~= packet.header.source);
    }
    if !(destination == self_id) {
        match forwarding_engine.get_next_hop(destination) {
            Some(next_hop) => Some(
                OutboundData {
                    destination: next_hop,
                    packet_id: packet.header.packet_id,
                    payload: slice_to_vec(packet.data),
                },
            ),
            None => None,
        }
    } else {
        if packet.data.len() >= 12 {
            let mut payload: Vec<u8> = Vec::new();
            payload.push(packet.data[0]);
            payload.push(packet.data[1]);
            payload.push(packet.data[2]);
            payload.push(packet.data[3]);
            payload.push(packet.data[4]);
            payload.push(packet.data[5]);
            payload.push(crate::protocol::PathStatus::Success.tag());
            payload.push(1);
            proof {
                assert(payload@ =~= path_confirm_bytes(client_of(packet.data@), 0, 1));
            }
            Some(
                OutboundData {
                    destination: source,
                    packet_id: packet.header.packet_id,
                    payload,
                },
            )
        } else {
            None
        }
    }
}

/// Relays a path confirmation toward the client it names, incrementing
/// the hop count by one and keeping the packet id; a confirmation too
/// short to carry its fields is dropped.
pub fn handle_path_confirm(packet: &DataPacket) -> (r: Option<OutboundData>)
    requires
        packet.data@.len() >= 8 ==> packet.data@[7] < 255,
    ensures
        ({
            let d = packet.data@;
            if d.len() >= 8 {
                r matches Some(o) && o.destination == client_of(d) && o.packet_id
                    == packet.header.packet_id && o.payload@ == path_confirm_bytes(
                    client_of(d),
                    d[6],
                    (d[7] + 1) as u8,
                )
            } else {
                r is None
            }
        }),
{
    if packet.data.len() >= 8 {
        let client = NodeId::new(
            [
                packet.data[0],
                packet.data[1],
                packet.data[2],
                packet.data[3],
                packet.data[4],
                packet.data[5],
            ],
        );
        proof {
            assert(client == client_of(packet.data@)) by {
                assert(client.0 =~= client_of(packet.data@).0);
            }
        }
        let mut payload: Vec<u8> = Vec::new();
        payload.push(packet.data[0]);
        payload.push(packet.data[1]);
        payload.push(packet.data[2]);
        payload.push(packet.data[3]);
        payload.push(packet.data[4]);
        payload.push(packet.data[5]);
        payload.push(packet.data[6]);
        payload.push(packet.data[7] + 1);
        proof {
            assert(payload@ =~= path_confirm_bytes(
                client_of(packet.data@),
                packet.data@[6],
                (packet.data@[7] + 1) as u8,
            ));
        }
        Some(
            OutboundData {
                destination: client,
                packet_id: packet.header.packet_id,
                payload,
            },
        )
    } else {
        None
    }
}

/// Relays any other unicast packet not addressed to this node, exactly
/// as `handle_data_packet` does.
pub fn handle_other_packet(
    forwarding_engine: &ForwardingEngine,
    self_id: NodeId,
    packet: &DataPacket,
) -> (r: Option<OutboundData>)
    requires
        forwarding_engine.wf(),
    ensures
        ({
            let destination = NodeId(packet.header.destination);
            if !destination.is_broadcast_spec() && destination != self_id && contains_dest(
                forwarding_engine.slots(),
                destination,
            ) {
                r matches Some(o) && o.destination == destination && o.packet_id
                    == packet.header.packet_id && o.payload@ == packet.data@
            } else {
                r is None
            }
        }),
{
    handle_data_packet(forwarding_engine, self_id, packet)
}

} // verus!
