//! Server command handling: parsing command packets and the bounded
//! command queue. Executing a command touches storage and the radio, so
//! the caller pops commands and performs them; the queue itself never
//! blocks and rejects new commands when full.

use vstd::prelude::*;
use vstd::slice::{slice_subrange, slice_to_vec};
use crate::protocol::NodeId;

verus! {

/// Number of slots in the command queue.
pub const COMMAND_CAPACITY: usize = 16;

/// Commands a client can send to the server.
#[derive(Clone, Copy, Debug, PartialEq, Eq, Structural)]
pub enum CommandType {
    /// Query stored sensor data.
    Query,
    /// Configure the collection interval.
    Configure,
    /// Clear stored data.
    Clear,
    /// Reboot the device.
    Reboot,
}

impl CommandType {
    /// Wire tag of this command type.
    pub open spec fn tag_spec(self) -> u8 {
        match self {
            CommandType::Query => 0x01,
            CommandType::Configure => 0x02,
            CommandType::Clear => 0x03,
            CommandType::Reboot => 0x04,
        }
    }

    pub fn tag(self) -> (r: u8)
        ensures
            r == self.tag_spec(),
    {
        match self {
            CommandType::Query => 0x01,
            CommandType::Configure => 0x02,
            CommandType::Clear => 0x03,
            CommandType::Reboot => 0x04,
        }
    }

    pub open spec fn from_tag_spec(v: u8) -> Option<CommandType> {
        if v == 0x01 {
            Some(CommandType::Query)
        } else if v == 0x02 {
            Some(CommandType::Configure)
        } else if v == 0x03 {
            Some(CommandType::Clear)
        } else if v == 0x04 {
            Some(CommandType::Reboot)
        } else {
            None
        }
    }

    pub fn from_tag(v: u8) -> (r: Option<CommandType>)
        ensures
            r == CommandType::from_tag_spec(v),
    {
        match v {
            0x01 => Some(CommandType::Query),
            0x02 => Some(CommandType::Configure),
            0x03 => Some(CommandType::Clear),
            0x04 => Some(CommandType::Reboot),
            _ => None,
        }
    }
}

/// One queued command.
#[derive(Clone, Debug)]
pub struct Command {
    /// Node that sent the command.
    pub source: NodeId,
    pub command_type: CommandType,
    /// Bytes following the command tag.
    pub parameters: Vec<u8>,
}

/// Bounded FIFO of pending commands.
pub struct CommandProcessor {
    /// The local node, used by the caller as response source.
    node_id: NodeId,
    /// The fixed-capacity circular slot arena.
    commands: Vec<Option<Command>>,
    /// Slot the next command is written to.
    write_position: usize,
    /// Slot the next command is read from.
    read_position: usize,
}

impl CommandProcessor {
    /// The queue's slots.
    pub closed spec fn slots(self) -> Seq<Option<Command>> {
        self.commands@
    }

    /// Slot the next command is written to.
    pub closed spec fn spec_write(self) -> usize {
        self.write_position
    }

    /// Slot the next command is read from.
    pub closed spec fn spec_read(self) -> usize {
        self.read_position
    }

    /// The identifier of the owning node.
    pub closed spec fn spec_node_id(self) -> NodeId {
        self.node_id
    }

    /// Well-formedness: fixed capacity and in-range positions.
    pub closed spec fn wf(self) -> bool {
        &&& self.commands@.len() == COMMAND_CAPACITY
        &&& self.write_position < COMMAND_CAPACITY
        &&& self.read_position < COMMAND_CAPACITY
    }

    /// Creates an empty command queue owned by `node_id`.
    pub fn new(node_id: NodeId) -> (r: Self)
        ensures
            r.wf(),
            r.spec_node_id() == node_id,
            r.spec_write() == 0,
            r.spec_read() == 0,
            forall|i: int| 0 <= i < COMMAND_CAPACITY ==> r.slots()[i] is None,
    {
        let mut commands: Vec<Option<Command>> = Vec::new();
        let mut i: usize = 0;
        while i < COMMAND_CAPACITY
            invariant
                i <= COMMAND_CAPACITY,
                commands@.len() == i,
                forall|j: int| 0 <= j < i ==> commands@[j] is None,
            decreases COMMAND_CAPACITY - i,
        {
            commands.push(None);
            i = i + 1;
        }
        Self { node_id, commands, write_position: 0, read_position: 0 }
    }

    /// Whether no commands are pending.
    pub fn is_empty(&self) -> (r: bool)
        ensures
            r == (self.spec_write() == self.spec_read()),
    {
        self.write_position == self.read_position
    }

    /// Whether the queue can take no further command.
    pub fn is_full(&self) -> (r: bool)
        requires
            self.wf(),
        ensures
            r == ((self.spec_write() + 1) % (COMMAND_CAPACITY as int) == self.spec_read()),
    {
        (self.write_position + 1) % COMMAND_CAPACITY == self.read_position
    }

    /// Parses command bytes: the first byte names the command, the rest
    /// are its parameters; `None` for an empty buffer or an unknown tag.
    pub fn parse_command(&self, source: NodeId, data: &[u8]) -> (r: Option<Command>)
        ensures
            (r is Some) == (data@.len() > 0 && CommandType::from_tag_spec(data@[0]) is Some),
            r matches Some(c) ==> c.source == source && Some(c.command_type)
                == CommandType::from_tag_spec(data@[0]) && c.parameters@ == data@.skip(1),
    {
        if data.len() == 0 {
            return None;
        }
        let command_type = match CommandType::from_tag(data[0]) {
            Some(t) => t,
            None => {
                return None;
            },
        };
        let parameters = slice_to_vec(slice_subrange(data, 1, data.len()));
        Some(Command { source, command_type, parameters })
    }

    /// Queues the command carried in `data`; a full queue or an
    /// unparsable command leaves the queue unchanged.
    pub fn add_command(&mut self, source: NodeId, data: &[u8])
        requires
            old(self).wf(),
        ensures
            final(self).wf(),
            final(self).spec_node_id() == old(self).spec_node_id(),
            final(self).spec_read() == old(self).spec_read(),
            ({
                let full = (old(self).spec_write() + 1) % (COMMAND_CAPACITY as int) == old(
                    self).spec_read();
                let parses = data@.len() > 0 && CommandType::from_tag_spec(data@[0]) is Some;
                if full || !parses {
                    *final(self) == *old(self)
                } else {
                    &&& final(self).spec_write() == (old(self).spec_write() + 1) % (
                    COMMAND_CAPACITY as int)
                    &&& final(self).slots()[old(self).spec_write() as int] matches Some(c)
                        && c.source == source && Some(c.command_type) == CommandType::from_tag_spec(
                        data@[0],
                    ) && c.parameters@ == data@.skip(1)
                    &&& forall|i: int|
                        0 <= i < COMMAND_CAPACITY && i != old(self).spec_write() as int ==> final(
                            self).slots()[i] == old(self).slots()[i]
                }
            }),
    {
        if self.is_full() {
            return;
        }
        match self.parse_command(source, data) {
            Some(command) => {
                self.commands.set(self.write_position, Some(command));
                self.write_position = (self.write_position + 1) % COMMAND_CAPACITY;
            },
            None => {},
        }
    }

    /// Takes the next pending command, freeing its slot and advancing
    /// the read position; `None` when the queue is empty.
    pub fn pop_command(&mut self) -> (r: Option<Command>)
        requires
            old(self).wf(),
        ensures
            final(self).wf(),
            final(self).spec_node_id() == old(self).spec_node_id(),
            final(self).spec_write() == old(self).spec_write(),
            old(self).spec_write() == old(self).spec_read() ==> *final(self) == *old(self) && r
                is None,
            old(self).spec_write() != old(self).spec_read() ==> {
                &&& r == old(self).slots()[old(self).spec_read() as int]
                &&& final(self).spec_read() == (old(self).spec_read() + 1) % (
                COMMAND_CAPACITY as int)
                &&& final(self).slots() == old(self).slots().update(
                    old(self).spec_read() as int,
                    None::<Command>,
                )
            },
    {
        if self.is_empty() {
            return None;
        }
        let taken = self.commands.remove(self.read_position);
        self.commands.insert(self.read_position, None);
        proof {
            assert(self.commands@ =~= old(self).commands@.update(
                old(self).read_position as int,
                None::<Command>,
            ));
        }
        self.read_position = (self.read_position + 1) % COMMAND_CAPACITY;
        taken
    }
}

} // verus!
