use aetherlink::protocol::NodeId;
use aetherlink::storage::{CircularBuffer, SensorRecord};

const NODE_A: [u8; 6] = [0xA1, 0xA2, 0xA3, 0xA4, 0xA5, 0xA6];
const NODE_B: [u8; 6] = [0xB1, 0xB2, 0xB3, 0xB4, 0xB5, 0xB6];

#[test]
fn test_record_serialization_layout() {
    let buffer = CircularBuffer::new();
    let record = SensorRecord {
        node_id: NodeId::new(NODE_A),
        timestamp: 0x0102030405060708,
        temperature: 2550, // 25.50 degrees in centi-units
        humidity: 6500,
        pressure: 1013,
    };
    let bytes = buffer.serialize_records(&[record]);
    assert_eq!(bytes.len(), 20);
    assert_eq!(&bytes[0..6], &NODE_A);
    assert_eq!(&bytes[6..14], &[0x01, 0x02, 0x03, 0x04, 0x05, 0x06, 0x07, 0x08]);
    assert_eq!(&bytes[14..16], &2550u16.to_be_bytes());
    assert_eq!(&bytes[16..18], &6500u16.to_be_bytes());
    assert_eq!(&bytes[18..20], &1013u16.to_be_bytes());
}

#[test]
fn test_records_filtered_by_node() {
    let mut buffer = CircularBuffer::new();
    let a = NodeId::new(NODE_A);
    let b = NodeId::new(NODE_B);

    buffer.add_data(a, 2000, 5000, 1000);
    buffer.add_data(b, 2100, 5100, 1001);
    buffer.add_data(a, 2200, 5200, 1002);

    let data_a = buffer.get_data_for_node(a);
    assert_eq!(data_a.len(), 40); // two records
    assert_eq!(&data_a[0..6], &NODE_A);
    assert_eq!(&data_a[20..26], &NODE_A);
    assert_eq!(&data_a[14..16], &2000u16.to_be_bytes());
    assert_eq!(&data_a[34..36], &2200u16.to_be_bytes());

    let data_b = buffer.get_data_for_node(b);
    assert_eq!(data_b.len(), 20);
}

#[test]
fn test_records_filtered_by_timerange() {
    let mut buffer = CircularBuffer::new();
    let a = NodeId::new(NODE_A);

    // The internal clock advances one second per record, starting at 0.
    for i in 0..5u16 {
        buffer.add_data(a, 2000 + i, 5000, 1000);
    }

    // Records stamped 1000..=3000 ms: the second, third and fourth.
    let data = buffer.get_data_in_timerange(1000, 3000);
    assert_eq!(data.len(), 60);
    assert_eq!(&data[14..16], &2001u16.to_be_bytes());
    assert_eq!(&data[34..36], &2002u16.to_be_bytes());
    assert_eq!(&data[54..56], &2003u16.to_be_bytes());
}

#[test]
fn test_clear_data_for_node() {
    let mut buffer = CircularBuffer::new();
    let a = NodeId::new(NODE_A);
    let b = NodeId::new(NODE_B);

    buffer.add_data(a, 1, 1, 1);
    buffer.add_data(b, 2, 2, 2);
    buffer.clear_data_for_node(a);

    assert!(buffer.get_data_for_node(a).is_empty());
    assert_eq!(buffer.get_data_for_node(b).len(), 20);

    buffer.clear_all_data();
    assert!(buffer.get_data_for_node(b).is_empty());
}

#[test]
fn test_ring_wraps_and_overwrites_oldest() {
    let mut buffer = CircularBuffer::new();
    let a = NodeId::new(NODE_A);
    let b = NodeId::new(NODE_B);

    // Fill the whole ring with records from node A...
    for _ in 0..1024 {
        buffer.add_data(a, 1, 1, 1);
    }
    assert_eq!(buffer.get_data_for_node(a).len(), 1024 * 20);

    // ...then two more from node B: they overwrite the two oldest.
    buffer.add_data(b, 2, 2, 2);
    buffer.add_data(b, 2, 2, 2);
    assert_eq!(buffer.get_data_for_node(b).len(), 2 * 20);
    assert_eq!(buffer.get_data_for_node(a).len(), 1022 * 20);
}

#[test]
fn test_update_timestamp_stamps_records() {
    let mut buffer = CircularBuffer::new();
    let a = NodeId::new(NODE_A);

    buffer.update_timestamp(5000);
    buffer.add_data(a, 1, 1, 1);

    let data = buffer.get_data_in_timerange(5000, 5000);
    assert_eq!(data.len(), 20);
}
