use aetherlink::data::DataPacket;
use aetherlink::election::{ElectionAction, ElectionProtocol};
use aetherlink::protocol::NodeId;

#[test]
fn test_initiate_and_finish_election() {
    let node = NodeId::new([0xF1, 0xF2, 0xF3, 0xF4, 0xF5, 0xF6]);
    let mut election = ElectionProtocol::new(node);
    assert!(election.get_master().is_none());
    assert_eq!(election.get_priority(), 0xF1);

    let start = election.initiate_election();
    assert!(start.destination.is_broadcast());
    assert_eq!(start.packet_id, 1);
    assert_eq!(start.payload, vec![0x01, 0x00, 0x01, 0xF1]);

    let result = election.finish_election();
    assert!(result.destination.is_broadcast());
    assert_eq!(result.packet_id, 1);
    assert_eq!(
        result.payload,
        vec![0x03, 0x00, 0x01, 0xF1, 0xF2, 0xF3, 0xF4, 0xF5, 0xF6, 0x00]
    );
    assert_eq!(election.get_master().unwrap(), node);
}

#[test]
fn test_higher_priority_start_gets_response() {
    let node = NodeId::new([0x40, 0, 0, 0, 0, 1]);
    let sender = NodeId::new([0x80, 0, 0, 0, 0, 2]);
    let mut election = ElectionProtocol::new(node);

    // ElectionStart with id 7 and the sender's (higher) priority.
    let data = [0x01, 0x00, 0x07, 0x80];
    let packet = DataPacket::new(sender, NodeId::broadcast(), 7, &data);

    match election.process_messages(&packet) {
        ElectionAction::Reply(out) => {
            assert_eq!(out.destination, sender);
            assert_eq!(out.packet_id, 7);
            assert_eq!(out.payload, vec![0x02, 0x00, 0x07, 0x40]);
        }
        other => panic!("expected a reply, got {:?}", other),
    }
    // Only an announced result changes the believed master.
    assert!(election.get_master().is_none());
}

#[test]
fn test_lower_priority_start_is_challenged() {
    let node = NodeId::new([0x80, 0, 0, 0, 0, 1]);
    let sender = NodeId::new([0x40, 0, 0, 0, 0, 2]);
    let mut election = ElectionProtocol::new(node);

    let data = [0x01, 0x00, 0x07, 0x40];
    let packet = DataPacket::new(sender, NodeId::broadcast(), 7, &data);

    assert!(matches!(election.process_messages(&packet), ElectionAction::Challenge));

    // While already electing, a lower-priority start is ignored instead.
    let _ = election.initiate_election();
    let packet2 = DataPacket::new(sender, NodeId::broadcast(), 8, &data);
    assert!(matches!(election.process_messages(&packet2), ElectionAction::Nothing));
}

#[test]
fn test_election_result_adopts_master() {
    let node = NodeId::new([0x40, 0, 0, 0, 0, 1]);
    let winner = NodeId::new([0xEE, 0xDD, 0xCC, 0xBB, 0xAA, 0x99]);
    let sender = NodeId::new([0x80, 0, 0, 0, 0, 2]);
    let mut election = ElectionProtocol::new(node);

    let data = [0x03, 0x00, 0x07, 0xEE, 0xDD, 0xCC, 0xBB, 0xAA, 0x99, 0x00];
    let packet = DataPacket::new(sender, NodeId::broadcast(), 7, &data);

    assert!(matches!(election.process_messages(&packet), ElectionAction::Nothing));
    assert_eq!(election.get_master().unwrap(), winner);
}

#[test]
fn test_malformed_election_messages_are_dropped() {
    let node = NodeId::new([0x40, 0, 0, 0, 0, 1]);
    let sender = NodeId::new([0x80, 0, 0, 0, 0, 2]);
    let mut election = ElectionProtocol::new(node);

    // Empty payload, truncated start, truncated result, unknown tag.
    for data in [&[][..], &[0x01, 0x00, 0x07][..], &[0x03, 0x00, 0x07, 0xEE][..], &[0x7F][..]] {
        let packet = DataPacket::new(sender, NodeId::broadcast(), 1, data);
        assert!(matches!(election.process_messages(&packet), ElectionAction::Nothing));
    }
    assert!(election.get_master().is_none());
}
