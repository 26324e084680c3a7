use aetherlink::checksum::calculate_checksum;
use aetherlink::beacon::Beacon;
use aetherlink::data::{DataHeader, DataPacket};
use aetherlink::protocol::{
    deserialize_service_request, deserialize_service_response, serialize_service_request,
    serialize_service_response, NodeId, PacketType, QosRequirements, ServiceRequest,
    ServiceResponse, ServiceType,
};

#[test]
fn test_beacon_creation_and_parsing() {
    let node_id = NodeId::new([0x01, 0x02, 0x03, 0x04, 0x05, 0x06]);
    let battery_level = 85;
    let rssi = -70;

    let beacon = Beacon::new(node_id, battery_level, rssi);

    assert_eq!(beacon.packet_type, PacketType::Beacon.tag());
    assert_eq!(beacon.source, node_id.0);
    assert_eq!(beacon.battery_level, battery_level);
    assert_eq!(beacon.rssi, rssi);

    assert!(beacon.is_valid());

    let parsed_node_id = NodeId(beacon.source);
    assert_eq!(parsed_node_id, node_id);
}

#[test]
fn test_data_packet_creation_and_parsing() {
    let source_id = NodeId::new([0x01, 0x02, 0x03, 0x04, 0x05, 0x06]);
    let dest_id = NodeId::new([0x51, 0x52, 0x53, 0x54, 0x55, 0x56]);
    let packet_id = 42;
    let test_data = [0x11, 0x22, 0x33, 0x44, 0x55];

    let packet = DataPacket::new(source_id, dest_id, packet_id, &test_data);

    assert_eq!(packet.header.packet_type, PacketType::Data.tag());
    assert_eq!(packet.header.source, source_id.0);
    assert_eq!(packet.header.destination, dest_id.0);
    assert_eq!(packet.header.packet_id, packet_id);
    assert_eq!(packet.header.data_length, test_data.len() as u16);
    assert_eq!(packet.data, test_data);

    assert!(packet.is_valid());

    let mut test_buffer = Vec::new();
    test_buffer.extend_from_slice(&packet.header.source);
    test_buffer.extend_from_slice(&packet.header.destination);
    test_buffer.extend_from_slice(&packet.header.packet_id.to_be_bytes());

    let checksum = calculate_checksum(&test_buffer);
    assert_ne!(checksum, packet.header.checksum);
}

#[test]
fn test_node_id_functions() {
    let node_id = NodeId::new([0x01, 0x02, 0x03, 0x04, 0x05, 0x06]);
    let broadcast_id = NodeId::broadcast();

    assert!(broadcast_id.is_broadcast());
    assert!(!node_id.is_broadcast());

    let same_id = NodeId::new([0x01, 0x02, 0x03, 0x04, 0x05, 0x06]);
    let different_id = NodeId::new([0x01, 0x02, 0x03, 0x04, 0x05, 0x07]);

    assert_eq!(node_id, same_id);
    assert_ne!(node_id, different_id);
}

#[test]
fn test_service_request_round_trip() {
    let request = ServiceRequest {
        service_type: ServiceType::VideoRelay,
        qos: QosRequirements { min_bandwidth: 500, max_latency: 100, reliability: 80 },
        expiry_time: 60,
    };
    let mut buffer = [0u8; 32];
    let len = serialize_service_request(&request, &mut buffer);
    assert_eq!(len, 8);

    let decoded = deserialize_service_request(&buffer[..len]).unwrap();
    assert_eq!(decoded.service_type, request.service_type);
    assert_eq!(decoded.qos.min_bandwidth, request.qos.min_bandwidth);
    assert_eq!(decoded.qos.max_latency, request.qos.max_latency);
    assert_eq!(decoded.qos.reliability, request.qos.reliability);
    assert_eq!(decoded.expiry_time, request.expiry_time);
}

#[test]
fn test_service_request_wire_layout() {
    let request = ServiceRequest {
        service_type: ServiceType::Storage,
        qos: QosRequirements { min_bandwidth: 0x1234, max_latency: 0x0102, reliability: 99 },
        expiry_time: 0xABCD,
    };
    let mut buffer = [0u8; 8];
    assert_eq!(serialize_service_request(&request, &mut buffer), 8);
    assert_eq!(buffer, [0x01, 0x12, 0x34, 0x01, 0x02, 99, 0xAB, 0xCD]);
}

#[test]
fn test_service_request_decode_failures() {
    // Too short: seven bytes cannot carry a request.
    assert!(deserialize_service_request(&[0x01, 0, 0, 0, 0, 0, 0]).is_none());
    // Unknown service type tag.
    assert!(deserialize_service_request(&[0x7F, 0, 0, 0, 0, 0, 0, 0]).is_none());
    // A short buffer refuses serialization with length 0.
    let request = ServiceRequest {
        service_type: ServiceType::Storage,
        qos: QosRequirements { min_bandwidth: 1, max_latency: 1, reliability: 1 },
        expiry_time: 1,
    };
    let mut small = [0u8; 7];
    assert_eq!(serialize_service_request(&request, &mut small), 0);
}

#[test]
fn test_service_response_round_trip() {
    let response = ServiceResponse {
        service_id: 0xDEADBEEF,
        server_node_id: NodeId::new([0x51, 0x52, 0x53, 0x54, 0x55, 0x56]),
        status: 0,
    };
    let mut buffer = [0u8; 16];
    let len = serialize_service_response(&response, &mut buffer);
    assert_eq!(len, 11);

    let decoded = deserialize_service_response(&buffer[..len]).unwrap();
    assert_eq!(decoded.service_id, response.service_id);
    assert_eq!(decoded.server_node_id, response.server_node_id);
    assert_eq!(decoded.status, response.status);
}

#[test]
fn test_service_response_decode_failures() {
    // Ten bytes cannot carry a response.
    assert!(deserialize_service_response(&[0u8; 10]).is_none());
    let response = ServiceResponse {
        service_id: 1,
        server_node_id: NodeId::new([1, 2, 3, 4, 5, 6]),
        status: 1,
    };
    let mut small = [0u8; 10];
    assert_eq!(serialize_service_response(&response, &mut small), 0);
}

#[test]
fn test_data_packet_wire_round_trip() {
    let source = NodeId::new([0x01, 0x02, 0x03, 0x04, 0x05, 0x06]);
    let dest = NodeId::new([0x51, 0x52, 0x53, 0x54, 0x55, 0x56]);
    let payload = [0xDE, 0xAD, 0xBE, 0xEF];
    let packet = DataPacket::new(source, dest, 0x0102, &payload);

    let bytes = packet.to_bytes();
    assert_eq!(bytes.len(), 22 + payload.len());

    let header = DataHeader::from_bytes(&bytes).unwrap();
    assert_eq!(header.source, source.0);
    assert_eq!(header.destination, dest.0);
    assert_eq!(header.packet_id, 0x0102);
    assert_eq!(header.data_length as usize, payload.len());
    assert_eq!(header.checksum, packet.header.checksum);

    let reparsed = DataPacket { header, data: &bytes[22..22 + payload.len()] };
    assert!(reparsed.is_valid());
    assert_eq!(reparsed.data, payload);
}

#[test]
fn test_beacon_wire_round_trip() {
    let beacon = Beacon::new(NodeId::new([0x11, 0x12, 0x13, 0x14, 0x15, 0x16]), 60, -72);
    let bytes = beacon.to_bytes();
    let reparsed = Beacon::from_bytes(&bytes).unwrap();
    assert!(reparsed.is_valid());
    assert_eq!(reparsed.source, beacon.source);
    assert_eq!(reparsed.battery_level, 60);
    assert_eq!(reparsed.rssi, -72);
    assert_eq!(reparsed.checksum, beacon.checksum);
}

#[test]
fn test_beacon_bit_flip_invalidates() {
    let beacon = Beacon::new(NodeId::new([0x01, 0x02, 0x03, 0x04, 0x05, 0x06]), 85, -70);
    let bytes = beacon.to_bytes();
    assert_eq!(bytes.len(), 16);
    // Flip every bit of every byte outside the checksum field (the last
    // two bytes) in turn; validation must fail each time.
    for byte_index in 0..14 {
        for bit in 0..8 {
            let mut flipped = bytes.clone();
            flipped[byte_index] ^= 1 << bit;
            let reparsed = Beacon::from_bytes(&flipped).unwrap();
            assert!(!reparsed.is_valid());
        }
    }
    // The unmodified wire form still validates.
    assert!(Beacon::from_bytes(&bytes).unwrap().is_valid());
}

#[test]
fn test_data_packet_bit_flip_invalidates() {
    let source = NodeId::new([0x01, 0x02, 0x03, 0x04, 0x05, 0x06]);
    let dest = NodeId::new([0x11, 0x12, 0x13, 0x14, 0x15, 0x16]);
    let payload = [0xAA, 0xBB, 0xCC];
    let packet = DataPacket::new(source, dest, 7, &payload);
    let header_bytes = packet.header.to_bytes();

    // Flip each bit of the header outside the checksum field (its last
    // two bytes).
    for byte_index in 0..20 {
        for bit in 0..8 {
            let mut flipped = header_bytes.clone();
            flipped[byte_index] ^= 1 << bit;
            let reparsed = DataHeader::from_bytes(&flipped).unwrap();
            let tampered = DataPacket { header: reparsed, data: &payload };
            assert!(!tampered.is_valid());
        }
    }

    // Flip each bit of the payload.
    for byte_index in 0..payload.len() {
        for bit in 0..8 {
            let mut tampered_payload = payload;
            tampered_payload[byte_index] ^= 1 << bit;
            let tampered = DataPacket { header: packet.header, data: &tampered_payload };
            assert!(!tampered.is_valid());
        }
    }

    assert!(packet.is_valid());
}
