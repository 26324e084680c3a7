//! Bully-style leader election among forward nodes. A node's priority is
//! the first byte of its identifier; higher wins, ties are unresolved by
//! design. The election owner decides state transitions and the messages
//! to broadcast; the caller performs the sends and the fixed collection
//! delay between start and finish.
//!
//! `finish_election` unconditionally declares the local node the master:
//! collected responses are not tallied. This mirrors the documented
//! simplification of the protocol and is an open question, not an
//! oversight.

use vstd::prelude::*;
use crate::data::DataPacket;
use crate::protocol::{NodeId, OutboundData};

verus! {

/// Election message tags carried in the first payload byte.
#[derive(Clone, Copy, Debug, PartialEq, Eq, Structural)]
pub enum ElectionMessageType {
    /// A node opens an election round.
    ElectionStart,
    /// A higher-priority node answers a start message.
    ElectionResponse,
    /// The elected master is announced.
    ElectionResult,
}

impl ElectionMessageType {
    /// Wire tag of this message type.
    pub open spec fn tag_spec(self) -> u8 {
        match self {
            ElectionMessageType::ElectionStart => 0x01,
            ElectionMessageType::ElectionResponse => 0x02,
            ElectionMessageType::ElectionResult => 0x03,
        }
    }

    pub fn tag(self) -> (r: u8)
        ensures
            r == self.tag_spec(),
    {
        match self {
            ElectionMessageType::ElectionStart => 0x01,
            ElectionMessageType::ElectionResponse => 0x02,
            ElectionMessageType::ElectionResult => 0x03,
        }
    }
}

/// Where a node stands in the current election round.
#[derive(Clone, Copy, Debug, PartialEq, Eq, Structural)]
pub enum ElectionState {
    /// No election in progress.
    Idle,
    /// Collecting responses to a start message.
    Electing,
    /// A master has been adopted.
    Completed,
}

/// What the caller must do after the engine processed an election
/// message.
#[derive(Clone, Debug)]
pub enum ElectionAction {
    /// Nothing to transmit.
    Nothing,
    /// Transmit this reply to the message's sender.
    Reply(OutboundData),
    /// A lower-priority node opened an election: challenge it by running
    /// a full election round (initiate, collect, finish).
    Challenge,
}

/// The 4-byte start message: tag, election id (BE16), sender priority.
pub open spec fn election_start_bytes(election_id: u16, priority: u8) -> Seq<u8> {
    seq![1u8, (election_id / 256) as u8, (election_id % 256) as u8, priority]
}

/// The 4-byte response message: tag, echoed election id bytes, responder
/// priority.
pub open spec fn election_response_bytes(id_hi: u8, id_lo: u8, priority: u8) -> Seq<u8> {
    seq![2u8, id_hi, id_lo, priority]
}

/// The 10-byte result message: tag, election id (BE16), master id (6
/// bytes), one reserved byte.
pub open spec fn election_result_bytes(election_id: u16, master: NodeId) -> Seq<u8> {
    seq![
        3u8,
        (election_id / 256) as u8,
        (election_id % 256) as u8,
        master.0[0],
        master.0[1],
        master.0[2],
        master.0[3],
        master.0[4],
        master.0[5],
        0u8,
    ]
}

/// Per-node state of the master election protocol.
pub struct ElectionProtocol {
    /// The local node.
    node_id: NodeId,
    /// Identifier of the current election round.
    election_id: u16,
    /// Where this node stands in the round.
    state: ElectionState,
    /// The currently believed master, once one is known.
    current_master: Option<NodeId>,
}

impl ElectionProtocol {
    /// The local node's identifier.
    pub closed spec fn spec_node_id(self) -> NodeId {
        self.node_id
    }

    /// Identifier of the current election round.
    pub closed spec fn spec_election_id(self) -> u16 {
        self.election_id
    }

    /// Where this node stands in the round.
    pub closed spec fn spec_state(self) -> ElectionState {
        self.state
    }

    /// The currently believed master.
    pub closed spec fn spec_master(self) -> Option<NodeId> {
        self.current_master
    }

    /// A node's priority: the first byte of its identifier.
    pub open spec fn priority_spec(self) -> u8 {
        self.spec_node_id().0[0]
    }

    /// Creates an idle election endpoint for `node_id`.
    pub fn new(node_id: NodeId) -> (r: Self)
        ensures
            r.spec_node_id() == node_id,
            r.spec_election_id() == 0,
            r.spec_state() == ElectionState::Idle,
            r.spec_master() is None,
    {
        Self { node_id, election_id: 0, state: ElectionState::Idle, current_master: None }
    }

    /// The local node's priority.
    pub fn get_priority(&self) -> (r: u8)
        ensures
            r == self.priority_spec(),
    {
        self.node_id.0[0]
    }

    /// The currently believed master.
    pub fn get_master(&self) -> (r: Option<NodeId>)
        ensures
            r == self.spec_master(),
    {
        self.current_master
    }

    /// Opens a new election round: advances the election id, enters the
    /// Electing state (from whatever state the node was in), and hands
    /// back the start message to broadcast. The caller broadcasts it,
    /// waits the fixed collection window, then calls `finish_election`.
    pub fn initiate_election(&mut self) -> (r: OutboundData)
        ensures
            final(self).spec_node_id() == old(self).spec_node_id(),
            final(self).spec_election_id() == (old(self).spec_election_id() + 1) % 0x10000,
            final(self).spec_state() == ElectionState::Electing,
            final(self).spec_master() == old(self).spec_master(),
            r.destination == NodeId::broadcast_spec(),
            r.packet_id == final(self).spec_election_id(),
            r.payload@ == election_start_bytes(
                final(self).spec_election_id(),
                old(self).priority_spec(),
            ),
    {
        self.election_id = self.election_id.wrapping_add(1);
        self.state = ElectionState::Electing;
        let mut payload: Vec<u8> = Vec::new();
        payload.push(ElectionMessageType::ElectionStart.tag());
        payload.push((self.election_id / 256) as u8);
        payload.push((self.election_id % 256) as u8);
        payload.push(self.get_priority());
        proof {
            assert(payload@ =~= election_start_bytes(self.election_id, old(self).priority_spec()));
        }
        OutboundData {
            destination: NodeId::broadcast(),
            packet_id: self.election_id,
            payload,
        }
    }

    /// Closes the current round by declaring the local node the master —
    /// collected responses are not tallied (documented simplification) —
    /// and hands back the result message to broadcast.
    pub fn finish_election(&mut self) -> (r: OutboundData)
        ensures
            final(self).spec_node_id() == old(self).spec_node_id(),
            final(self).spec_election_id() == old(self).spec_election_id(),
            final(self).spec_state() == ElectionState::Completed,
            final(self).spec_master() == Some(old(self).spec_node_id()),
            r.destination == NodeId::broadcast_spec(),
            r.packet_id == old(self).spec_election_id(),
            r.payload@ == election_result_bytes(
                old(self).spec_election_id(),
                old(self).spec_node_id(),
            ),
    {
        self.current_master = Some(self.node_id);
        self.state = ElectionState::Completed;
        let mut payload: Vec<u8> = Vec::new();
        payload.push(ElectionMessageType::ElectionResult.tag());
        payload.push((self.election_id / 256) as u8);
        payload.push((self.election_id % 256) as u8);
        payload.push(self.node_id.0[0]);
        payload.push(self.node_id.0[1]);
        payload.push(self.node_id.0[2]);
        payload.push(self.node_id.0[3]);
        payload.push(self.node_id.0[4]);
        payload.push(self.node_id.0[5]);
        payload.push(0);
        proof {
            assert(payload@ =~= election_result_bytes(self.election_id, self.node_id));
        }
        OutboundData {
            destination: NodeId::broadcast(),
            packet_id: self.election_id,
            payload,
        }
    }

    /// Handles a start message: a higher-priority opener gets a response;
    /// a lower-or-equal-priority opener is challenged unless this node is
    /// already electing.
    fn handle_election_start(&mut self, source: NodeId, data: &[u8]) -> (r: ElectionAction)
        requires
            old(self).wf_start_message(data@),
        ensures
            final(self).spec_node_id() == old(self).spec_node_id(),
            data@[3] > old(self).priority_spec() ==> {
                &&& *final(self) == *old(self)
                &&& r matches ElectionAction::Reply(out) && out.destination == source
                    && out.packet_id == data@[1] as u16 * 256 + data@[2] as u16 && out.payload@
                    == election_response_bytes(data@[1], data@[2], old(self).priority_spec())
            },
            data@[3] <= old(self).priority_spec() && old(self).spec_state()
                != ElectionState::Electing ==> *final(self) == *old(self) && r is Challenge,
            data@[3] <= old(self).priority_spec() && old(self).spec_state()
                == ElectionState::Electing ==> *final(self) == *old(self) && r is Nothing,
    {
        let election_id: u16 = data[1] as u16 * 256 + data[2] as u16;
        let sender_priority = data[3];
        if sender_priority > self.get_priority() {
            let mut payload: Vec<u8> = Vec::new();
            payload.push(ElectionMessageType::ElectionResponse.tag());
            payload.push(data[1]);
            payload.push(data[2]);
            payload.push(self.get_priority());
            proof {
                assert(payload@ =~= election_response_bytes(
                    data@[1],
                    data@[2],
                    self.priority_spec(),
                ));
            }
            ElectionAction::Reply(
                OutboundData { destination: source, packet_id: election_id, payload },
            )
        } else if self.state != ElectionState::Electing {
            ElectionAction::Challenge
        } else {
            ElectionAction::Nothing
        }
    }

    /// A start message is long enough to carry id and priority.
    pub open spec fn wf_start_message(self, data: Seq<u8>) -> bool {
        data.len() >= 4
    }

    /// Handles a response message. The current round records nothing of
    /// it (no quorum count is retained — an open question of the
    /// protocol), so the state never changes.
    fn handle_election_response(&mut self, _source: NodeId, _data: &[u8]) -> (r: ElectionAction)
        ensures
            *final(self) == *old(self),
            r is Nothing,
    {
        ElectionAction::Nothing
    }

    /// Handles a result message: the announced master is adopted
    /// unconditionally, whatever the prior state.
    fn handle_election_result(&mut self, source: NodeId, data: &[u8]) -> (r: ElectionAction)
        requires
            data@.len() >= 9,
        ensures
            final(self).spec_node_id() == old(self).spec_node_id(),
            final(self).spec_election_id() == old(self).spec_election_id(),
            final(self).spec_state() == ElectionState::Completed,
            final(self).spec_master() == Some(
                NodeId([data@[3], data@[4], data@[5], data@[6], data@[7], data@[8]]),
            ),
            r is Nothing,
    {
        let master_id = NodeId([data[3], data[4], data[5], data[6], data[7], data[8]]);
        self.current_master = Some(master_id);
        self.state = ElectionState::Completed;
        ElectionAction::Nothing
    }

    /// Dispatches one received election message and returns what the
    /// caller must transmit or do. Malformed or unknown messages are
    /// silently dropped.
    pub fn process_messages(&mut self, packet: &DataPacket) -> (r: ElectionAction)
        ensures
            final(self).spec_node_id() == old(self).spec_node_id(),
            ({
                let d = packet.data@;
                let src = NodeId(packet.header.source);
                if d.len() >= 4 && d[0] == 1 && d[3] > old(self).priority_spec() {
                    &&& *final(self) == *old(self)
                    &&& r matches ElectionAction::Reply(out) && out.destination == src
                        && out.packet_id == d[1] as u16 * 256 + d[2] as u16 && out.payload@
                        == election_response_bytes(d[1], d[2], old(self).priority_spec())
                } else if d.len() >= 4 && d[0] == 1 && old(self).spec_state()
                    != ElectionState::Electing {
                    *final(self) == *old(self) && r is Challenge
                } else if d.len() >= 9 && d[0] == 3 {
                    &&& final(self).spec_election_id() == old(self).spec_election_id()
                    &&& final(self).spec_state() == ElectionState::Completed
                    &&& final(self).spec_master() == Some(
                        NodeId([d[3], d[4], d[5], d[6], d[7], d[8]]),
                    )
                    &&& r is Nothing
                } else {
                    *final(self) == *old(self) && r is Nothing
                }
            }),
    {
        if packet.data.len() == 0 {
            return ElectionAction::Nothing;
        }
        let source = NodeId::new(
            [
                packet.header.source[0],
                packet.header.source[1],
                packet.header.source[2],
                packet.header.source[3],
                packet.header.source[4],
                packet.header.source[5],
            ],
        );
        proof {
            assert(source.0 =~= packet.header.source);
        }
        let tag = packet.data[0];
        if tag == 1 {
            if packet.data.len() < 4 {
                return ElectionAction::Nothing;
            }
            self.handle_election_start(source, packet.data)
        } else if tag == 2 {
            if packet.data.len() < 4 {
                return ElectionAction::Nothing;
            }
            self.handle_election_response(source, packet.data)
        } else if tag == 3 {
            if packet.data.len() < 9 {
                return ElectionAction::Nothing;
            }
            self.handle_election_result(source, packet.data)
        } else {
            ElectionAction::Nothing
        }
    }
}

} // verus!
