use aetherlink::cli::{CommandProcessor, CommandType};
use aetherlink::protocol::NodeId;

const SERVER: [u8; 6] = [0x51, 0x52, 0x53, 0x54, 0x55, 0x56];
const CLIENT: [u8; 6] = [0xC1, 0xC2, 0xC3, 0xC4, 0xC5, 0xC6];

#[test]
fn test_parse_command_variants() {
    let processor = CommandProcessor::new(NodeId::new(SERVER));
    let source = NodeId::new(CLIENT);

    let query = processor.parse_command(source, &[0x01, 0xAA, 0xBB]).unwrap();
    assert_eq!(query.command_type, CommandType::Query);
    assert_eq!(query.source, source);
    assert_eq!(query.parameters, vec![0xAA, 0xBB]);

    let configure = processor.parse_command(source, &[0x02]).unwrap();
    assert_eq!(configure.command_type, CommandType::Configure);
    assert!(configure.parameters.is_empty());

    assert_eq!(processor.parse_command(source, &[0x03]).unwrap().command_type, CommandType::Clear);
    assert_eq!(processor.parse_command(source, &[0x04]).unwrap().command_type, CommandType::Reboot);

    // Empty data and unknown tags are rejected.
    assert!(processor.parse_command(source, &[]).is_none());
    assert!(processor.parse_command(source, &[0x05]).is_none());
}

#[test]
fn test_queue_fifo_order() {
    let mut processor = CommandProcessor::new(NodeId::new(SERVER));
    let source = NodeId::new(CLIENT);

    assert!(processor.is_empty());
    assert!(processor.pop_command().is_none());

    processor.add_command(source, &[0x01, 0x11]);
    processor.add_command(source, &[0x03]);
    assert!(!processor.is_empty());

    let first = processor.pop_command().unwrap();
    assert_eq!(first.command_type, CommandType::Query);
    assert_eq!(first.parameters, vec![0x11]);

    let second = processor.pop_command().unwrap();
    assert_eq!(second.command_type, CommandType::Clear);

    assert!(processor.is_empty());
    assert!(processor.pop_command().is_none());
}

#[test]
fn test_full_queue_rejects_new_commands() {
    let mut processor = CommandProcessor::new(NodeId::new(SERVER));
    let source = NodeId::new(CLIENT);

    // Capacity 16 with one slot kept free: 15 commands fit.
    for i in 0..15 {
        processor.add_command(source, &[0x01, i]);
    }
    assert!(processor.is_full());

    // The 16th is dropped.
    processor.add_command(source, &[0x04]);

    let mut count = 0;
    while let Some(command) = processor.pop_command() {
        assert_eq!(command.command_type, CommandType::Query);
        count += 1;
    }
    assert_eq!(count, 15);
}

#[test]
fn test_unparsable_commands_are_not_queued() {
    let mut processor = CommandProcessor::new(NodeId::new(SERVER));
    let source = NodeId::new(CLIENT);

    processor.add_command(source, &[]);
    processor.add_command(source, &[0x7F, 1, 2]);
    assert!(processor.is_empty());
}
