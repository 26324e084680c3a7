//! Data packets: a fixed 22-byte header over a borrowed payload span.
//! The header checksum is the XOR of two independent CRC-16s, one over
//! the header (checksum field zeroed) and one over the payload — a
//! deliberate two-part scheme kept for wire compatibility.

use vstd::prelude::*;
use crate::checksum::{calculate_checksum, crc16};
use crate::protocol::{NodeId, PacketType, MAX_PACKET_SIZE, PROTOCOL_VERSION};

verus! {

/// Size of the data packet header on the wire.
pub const DATA_HEADER_SIZE: usize = 22;

/// Data packet header.
#[derive(Clone, Copy, Debug)]
pub struct DataHeader {
    /// Protocol version.
    pub version: u8,
    /// Packet type tag.
    pub packet_type: u8,
    /// Source node identifier.
    pub source: [u8; 6],
    /// Destination node identifier.
    pub destination: [u8; 6],
    /// Packet identifier, used to correlate requests and replies.
    pub packet_id: u16,
    /// Total number of fragments (fixed at 1 in current use).
    pub total_fragments: u8,
    /// Index of this fragment (fixed at 0 in current use).
    pub fragment_index: u8,
    /// Number of payload bytes that follow the header.
    pub data_length: u16,
    /// XOR of the header CRC-16 (checksum field zeroed) and payload CRC-16.
    pub checksum: u16,
}

/// The 22-byte wire form of a data header: version, type, source (6),
/// destination (6), packet id (BE16), total fragments, fragment index,
/// data length (BE16), checksum (BE16).
pub open spec fn header_bytes(h: DataHeader) -> Seq<u8> {
    seq![
        h.version,
        h.packet_type,
        h.source[0],
        h.source[1],
        h.source[2],
        h.source[3],
        h.source[4],
        h.source[5],
        h.destination[0],
        h.destination[1],
        h.destination[2],
        h.destination[3],
        h.destination[4],
        h.destination[5],
        (h.packet_id / 256) as u8,
        (h.packet_id % 256) as u8,
        h.total_fragments,
        h.fragment_index,
        (h.data_length / 256) as u8,
        (h.data_length % 256) as u8,
        (h.checksum / 256) as u8,
        (h.checksum % 256) as u8,
    ]
}

impl DataHeader {
    /// This header with its checksum field replaced.
    pub open spec fn with_checksum(self, checksum: u16) -> DataHeader {
        DataHeader { checksum, ..self }
    }

    /// The header's wire form.
    pub fn to_bytes(&self) -> (r: Vec<u8>)
        ensures
            r@ =~= header_bytes(*self),
    {
        let mut bytes: Vec<u8> = Vec::new();
        bytes.push(self.version);
        bytes.push(self.packet_type);
        bytes.push(self.source[0]);
        bytes.push(self.source[1]);
        bytes.push(self.source[2]);
        bytes.push(self.source[3]);
        bytes.push(self.source[4]);
        bytes.push(self.source[5]);
        bytes.push(self.destination[0]);
        bytes.push(self.destination[1]);
        bytes.push(self.destination[2]);
        bytes.push(self.destination[3]);
        bytes.push(self.destination[4]);
        bytes.push(self.destination[5]);
        bytes.push((self.packet_id / 256) as u8);
        bytes.push((self.packet_id % 256) as u8);
        bytes.push(self.total_fragments);
        bytes.push(self.fragment_index);
        bytes.push((self.data_length / 256) as u8);
        bytes.push((self.data_length % 256) as u8);
        bytes.push((self.checksum / 256) as u8);
        bytes.push((self.checksum % 256) as u8);
        bytes
    }
}

/// Rebuilds a data header from its 22-byte wire form; `None` when the
/// buffer is shorter than the fixed size.
pub open spec fn parse_data_header(buffer: Seq<u8>) -> Option<DataHeader> {
    if buffer.len() < 22 {
        None
    } else {
        Some(
            DataHeader {
                version: buffer[0],
                packet_type: buffer[1],
                source: [buffer[2], buffer[3], buffer[4], buffer[5], buffer[6], buffer[7]],
                destination: [buffer[8], buffer[9], buffer[10], buffer[11], buffer[12], buffer[13]],
                packet_id: (buffer[14] as u16 * 256 + buffer[15] as u16) as u16,
                total_fragments: buffer[16],
                fragment_index: buffer[17],
                data_length: (buffer[18] as u16 * 256 + buffer[19] as u16) as u16,
                checksum: (buffer[20] as u16 * 256 + buffer[21] as u16) as u16,
            },
        )
    }
}

impl DataHeader {
    /// Decodes a data header from the front of `buffer`.
    pub fn from_bytes(buffer: &[u8]) -> (r: Option<DataHeader>)
        ensures
            r == parse_data_header(buffer@),
    {
        if buffer.len() < 22 {
            return None;
        }
        Some(
            DataHeader {
                version: buffer[0],
                packet_type: buffer[1],
                source: [buffer[2], buffer[3], buffer[4], buffer[5], buffer[6], buffer[7]],
                destination: [buffer[8], buffer[9], buffer[10], buffer[11], buffer[12], buffer[13]],
                packet_id: buffer[14] as u16 * 256 + buffer[15] as u16,
                total_fragments: buffer[16],
                fragment_index: buffer[17],
                data_length: buffer[18] as u16 * 256 + buffer[19] as u16,
                checksum: buffer[20] as u16 * 256 + buffer[21] as u16,
            },
        )
    }
}

/// The data header wire codec is lossless: decoding an encoded header
/// gives back the header.
pub proof fn lemma_data_header_round_trip(h: DataHeader)
    ensures
        parse_data_header(header_bytes(h)) == Some(h),
{
    let bytes = header_bytes(h);
    let parsed = parse_data_header(bytes)->Some_0;
    assert(parsed.source =~= h.source);
    assert(parsed.destination =~= h.destination);
    assert(bytes[14] as u16 * 256 + bytes[15] as u16 == h.packet_id);
    assert(bytes[18] as u16 * 256 + bytes[19] as u16 == h.data_length);
    assert(bytes[20] as u16 * 256 + bytes[21] as u16 == h.checksum);
}

/// Data packet: a header over a borrowed payload span, never an owned
/// copy.
#[derive(Debug)]
pub struct DataPacket<'a> {
    pub header: DataHeader,
    pub data: &'a [u8],
}

impl<'a> DataPacket<'a> {
    /// Integrity: the header checksum matches the XOR of the header CRC
    /// (checksum field zeroed) and the payload CRC.
    pub open spec fn valid_spec(self) -> bool {
        self.header.checksum == crc16(header_bytes(self.header.with_checksum(0))) ^ crc16(
            self.data@,
        )
    }

    /// Builds a checksummed single-fragment data packet over `data`.
    pub fn new(source: NodeId, destination: NodeId, packet_id: u16, data: &'a [u8]) -> (r: Self)
        requires
            data@.len() <= MAX_PACKET_SIZE - DATA_HEADER_SIZE,
        ensures
            r.header.version == PROTOCOL_VERSION,
            r.header.packet_type == PacketType::Data.tag_spec(),
            r.header.source == source.0,
            r.header.destination == destination.0,
            r.header.packet_id == packet_id,
            r.header.total_fragments == 1,
            r.header.fragment_index == 0,
            r.header.data_length == data@.len(),
            r.data == data,
            r.valid_spec(),
    {
        let header = DataHeader {
            version: PROTOCOL_VERSION,
            packet_type: PacketType::Data.tag(),
            source: source.0,
            destination: destination.0,
            packet_id,
            total_fragments: 1,
            fragment_index: 0,
            data_length: data.len() as u16,
            checksum: 0,
        };
        let mut packet = Self { header, data };
        packet.update_checksum();
        packet
    }

    /// Recomputes and stores the two-part checksum.
    pub fn update_checksum(&mut self)
        ensures
            final(self).header == old(self).header.with_checksum(
                crc16(header_bytes(old(self).header.with_checksum(0))) ^ crc16(old(self).data@),
            ),
            final(self).data == old(self).data,
            final(self).valid_spec(),
    {
        self.header.checksum = 0;
        let header_vec = self.header.to_bytes();
        let header_checksum = calculate_checksum(header_vec.as_slice());
        let data_checksum = calculate_checksum(self.data);
        self.header.checksum = header_checksum ^ data_checksum;
    }

    /// Checks the stored checksum against the header and payload.
    pub fn is_valid(&self) -> (r: bool)
        ensures
            r == self.valid_spec(),
    {
        let mut header_copy = self.header;
        header_copy.checksum = 0;
        let header_vec = header_copy.to_bytes();
        let header_checksum = calculate_checksum(header_vec.as_slice());
        let data_checksum = calculate_checksum(self.data);
        (header_checksum ^ data_checksum) == self.header.checksum
    }

    /// The packet's full wire form: header bytes followed by the payload.
    pub fn to_bytes(&self) -> (r: Vec<u8>)
        ensures
            r@ =~= header_bytes(self.header) + self.data@,
    {
        let mut bytes = self.header.to_bytes();
        let mut i: usize = 0;
        while i < self.data.len()
            invariant
                i <= self.data@.len(),
                bytes@ =~= header_bytes(self.header) + self.data@.take(i as int),
            decreases self.data@.len() - i,
        {
            bytes.push(self.data[i]);
            i = i + 1;
        }
        proof {
            assert(self.data@.take(self.data@.len() as int) =~= self.data@);
        }
        bytes
    }
}

} // verus!
