use aetherlink::beacon::Beacon;
use aetherlink::data::DataPacket;
use aetherlink::directory::{Capabilities, NetworkServiceDirectory, ServiceMetrics};
use aetherlink::handshake::{
    handle_beacon, handle_data_packet, handle_other_packet, handle_path_confirm,
    handle_path_establish, handle_service_request,
};
use aetherlink::protocol::{
    deserialize_service_response, serialize_service_request, NodeId, QosRequirements,
    ServiceRequest, ServiceType,
};
use aetherlink::routing::ForwardingEngine;

const CLIENT: [u8; 6] = [0xC1, 0xC2, 0xC3, 0xC4, 0xC5, 0xC6];
const FORWARD: [u8; 6] = [0xF1, 0xF2, 0xF3, 0xF4, 0xF5, 0xF6];
const SERVER: [u8; 6] = [0x51, 0x52, 0x53, 0x54, 0x55, 0x56];

/// The full discovery and path-establishment exchange: the client asks
/// the forward node for a video relay, the directory names the server,
/// the server confirms the path with one hop, and the relayed
/// confirmation reaches the client with two.
#[test]
fn test_service_discovery_and_path_establishment() {
    let client_id = NodeId::new(CLIENT);
    let forward_id = NodeId::new(FORWARD);
    let server_id = NodeId::new(SERVER);

    // The forward node's directory knows the server.
    let mut directory = NetworkServiceDirectory::new();
    assert!(directory.update_service(
        server_id,
        ServiceType::VideoRelay,
        20,
        Capabilities { max_bandwidth: 1000, min_latency: 50, reliability: 95, battery_level: 80 },
        ServiceMetrics { success_rate: 100, avg_response_time: 20, signal_strength: -60 },
        0,
    ));

    // 1. The client's request reaches the forward node.
    let qos = QosRequirements { min_bandwidth: 500, max_latency: 100, reliability: 80 };
    let request = ServiceRequest { service_type: ServiceType::VideoRelay, qos, expiry_time: 60 };
    let mut request_buffer = [0u8; 32];
    let request_len = serialize_service_request(&request, &mut request_buffer);
    assert!(request_len > 0);
    let request_packet = DataPacket::new(client_id, forward_id, 1, &request_buffer[..request_len]);

    let reply = handle_service_request(&directory, &request_packet, 12);

    // 2. The client is answered with success naming the server.
    let response_out = reply.response.expect("the client gets a service response");
    assert_eq!(response_out.destination, client_id);
    assert_eq!(response_out.packet_id, 1);
    let response = deserialize_service_response(&response_out.payload).unwrap();
    assert_eq!(response.status, 0);
    assert_eq!(response.server_node_id, server_id);
    assert_eq!(response.service_id, 12);

    // 3. A path-establishment request goes to the server, naming the
    //    client and the requested QoS.
    let establish_out = reply.establish.expect("a path is opened toward the server");
    assert_eq!(establish_out.destination, server_id);
    assert_eq!(establish_out.payload.len(), 20);
    assert_eq!(&establish_out.payload[0..6], &CLIENT);
    assert_eq!(establish_out.payload[6], 0x04);
    assert_eq!(&establish_out.payload[7..9], &[0x01, 0xF4]); // 500 kbps
    assert_eq!(&establish_out.payload[9..11], &[0x00, 0x64]); // 100 ms
    assert_eq!(establish_out.payload[11], 80);

    // 4. The server answers the forward node with a success
    //    confirmation, hop count 1.
    let server_engine = ForwardingEngine::new(server_id);
    let establish_packet =
        DataPacket::new(forward_id, server_id, establish_out.packet_id, &establish_out.payload);
    let confirm_out = handle_path_establish(&server_engine, server_id, &establish_packet)
        .expect("the server confirms the path");
    assert_eq!(confirm_out.destination, forward_id);
    assert_eq!(&confirm_out.payload[0..6], &CLIENT);
    assert_eq!(confirm_out.payload[6], 0x00); // success
    assert_eq!(confirm_out.payload[7], 1);

    // 5. The forward node relays the confirmation to the client with the
    //    hop count incremented.
    let confirm_packet =
        DataPacket::new(server_id, forward_id, confirm_out.packet_id, &confirm_out.payload);
    let relayed = handle_path_confirm(&confirm_packet).expect("the confirmation is relayed");
    assert_eq!(relayed.destination, client_id);
    assert_eq!(&relayed.payload[0..6], &CLIENT);
    assert_eq!(relayed.payload[6], 0x00);
    assert_eq!(relayed.payload[7], 2);
}

#[test]
fn test_service_request_without_candidate_fails() {
    let client_id = NodeId::new(CLIENT);
    let forward_id = NodeId::new(FORWARD);
    let directory = NetworkServiceDirectory::new();

    let qos = QosRequirements { min_bandwidth: 500, max_latency: 100, reliability: 80 };
    let request = ServiceRequest { service_type: ServiceType::VideoRelay, qos, expiry_time: 60 };
    let mut buffer = [0u8; 8];
    serialize_service_request(&request, &mut buffer);
    let packet = DataPacket::new(client_id, forward_id, 3, &buffer);

    let reply = handle_service_request(&directory, &packet, 500);
    let response_out = reply.response.expect("a failure response still goes to the client");
    assert_eq!(response_out.destination, client_id);
    let response = deserialize_service_response(&response_out.payload).unwrap();
    assert_eq!(response.status, 1);
    assert!(response.server_node_id.is_broadcast());
    assert_eq!(response.service_id, 0);
    assert!(reply.establish.is_none());
}

#[test]
fn test_undecodable_service_request_is_dropped() {
    let client_id = NodeId::new(CLIENT);
    let forward_id = NodeId::new(FORWARD);
    let directory = NetworkServiceDirectory::new();

    let packet = DataPacket::new(client_id, forward_id, 3, &[0x7F, 0, 0]);
    let reply = handle_service_request(&directory, &packet, 500);
    assert!(reply.response.is_none());
    assert!(reply.establish.is_none());
}

/// A data packet addressed via a forward whose routing table has no
/// entry for the destination is dropped: no outbound send at all.
#[test]
fn test_data_packet_without_route_is_dropped() {
    let client_id = NodeId::new(CLIENT);
    let forward_id = NodeId::new(FORWARD);
    let server_id = NodeId::new(SERVER);

    let engine = ForwardingEngine::new(forward_id);
    let packet = DataPacket::new(client_id, server_id, 9, &[1, 2, 3]);

    assert!(handle_data_packet(&engine, forward_id, &packet).is_none());
    assert!(handle_other_packet(&engine, forward_id, &packet).is_none());
}

#[test]
fn test_data_packet_with_route_is_relayed() {
    let client_id = NodeId::new(CLIENT);
    let forward_id = NodeId::new(FORWARD);
    let server_id = NodeId::new(SERVER);

    let mut engine = ForwardingEngine::new(forward_id);
    engine.update_route(server_id, -60, 0);

    let payload = [0x01, 0x02, 0x03, 0x04];
    let packet = DataPacket::new(client_id, server_id, 9, &payload);

    let out = handle_data_packet(&engine, forward_id, &packet).expect("relayed via next hop");
    assert_eq!(out.destination, server_id);
    assert_eq!(out.packet_id, 9);
    assert_eq!(out.payload, payload);

    // A packet already addressed to this node is not relayed.
    let to_self = DataPacket::new(client_id, forward_id, 9, &payload);
    assert!(handle_data_packet(&engine, forward_id, &to_self).is_none());

    // Broadcast packets are not relayed either.
    let broadcast = DataPacket::new(client_id, NodeId::broadcast(), 9, &payload);
    assert!(handle_data_packet(&engine, forward_id, &broadcast).is_none());
}

#[test]
fn test_path_establish_relayed_when_not_addressed_here() {
    let forward_id = NodeId::new(FORWARD);
    let server_id = NodeId::new(SERVER);
    let client_id = NodeId::new(CLIENT);

    let mut engine = ForwardingEngine::new(forward_id);
    let mut payload = [0u8; 12];
    payload[0..6].copy_from_slice(&CLIENT);
    let packet = DataPacket::new(client_id, server_id, 4, &payload);

    // Without a route the relay drops it.
    assert!(handle_path_establish(&engine, forward_id, &packet).is_none());

    // With a route it goes to the next hop unchanged.
    engine.update_route(server_id, -60, 0);
    let out = handle_path_establish(&engine, forward_id, &packet).unwrap();
    assert_eq!(out.destination, server_id);
    assert_eq!(out.payload, payload);

    // A short establish addressed to this node is ignored.
    let short = DataPacket::new(client_id, forward_id, 4, &payload[0..11]);
    assert!(handle_path_establish(&engine, forward_id, &short).is_none());
}

#[test]
fn test_short_path_confirm_is_dropped() {
    let forward_id = NodeId::new(FORWARD);
    let server_id = NodeId::new(SERVER);
    let packet = DataPacket::new(server_id, forward_id, 2, &[0xC1, 0xC2, 0xC3, 0xC4, 0xC5, 0xC6, 0]);
    assert!(handle_path_confirm(&packet).is_none());
}

#[test]
fn test_beacon_updates_routes_and_directory() {
    let forward_id = NodeId::new(FORWARD);
    let server_id = NodeId::new(SERVER);
    let mut engine = ForwardingEngine::new(forward_id);
    let mut directory = NetworkServiceDirectory::new();

    let beacon = Beacon::new(server_id, 80, -65);
    handle_beacon(&mut engine, &mut directory, &beacon, 1000);

    assert_eq!(engine.len(), 1);
    assert_eq!(engine.get_next_hop(server_id).unwrap(), server_id);
    assert_eq!(directory.service_count(), 1);
    let services = directory.get_services_by_type(ServiceType::VideoRelay);
    assert_eq!(services.len(), 1);
    assert_eq!(services[0].node_id, server_id);
    assert_eq!(services[0].capabilities.battery_level, 80);
    assert_eq!(services[0].metrics.signal_strength, -65);
    assert_eq!(services[0].last_update_time, 1000);

    // A corrupted beacon changes nothing.
    let mut bad = Beacon::new(client(), 50, -70);
    bad.battery_level = 51; // checksum now stale
    handle_beacon(&mut engine, &mut directory, &bad, 2000);
    assert_eq!(engine.len(), 1);
    assert_eq!(directory.service_count(), 1);
}

fn client() -> NodeId {
    NodeId::new(CLIENT)
}
