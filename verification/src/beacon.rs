//! Presence beacons: the periodic advertisement packet that carries a
//! node's battery level and signal strength, protected by a CRC-16
//! checksum over its fixed 16-byte wire form.

use vstd::prelude::*;
use crate::checksum::{calculate_checksum, crc16};
use crate::protocol::{NodeId, PacketType, PROTOCOL_VERSION};

verus! {

/// Network beacon, used for discovery and topology maintenance.
#[derive(Clone, Copy, Debug)]
pub struct Beacon {
    /// Protocol version.
    pub version: u8,
    /// Packet type tag (always the beacon tag).
    pub packet_type: u8,
    /// Source node identifier.
    pub source: [u8; 6],
    /// Battery level (percent).
    pub battery_level: u8,
    /// Received signal strength indication (dBm).
    pub rssi: i8,
    /// Route hop count.
    pub hop_count: u8,
    /// Reserved padding.
    pub reserved: [u8; 3],
    /// CRC-16 checksum over the rest of the beacon.
    pub checksum: u16,
}

/// The fixed 16-byte wire form of a beacon: version, type, source (6),
/// battery, rssi, hop count, reserved (3), checksum (BE16).
pub open spec fn beacon_bytes(b: Beacon) -> Seq<u8> {
    seq![
        b.version,
        b.packet_type,
        b.source[0],
        b.source[1],
        b.source[2],
        b.source[3],
        b.source[4],
        b.source[5],
        b.battery_level,
        b.rssi as u8,
        b.hop_count,
        b.reserved[0],
        b.reserved[1],
        b.reserved[2],
        (b.checksum / 256) as u8,
        (b.checksum % 256) as u8,
    ]
}

impl Beacon {
    /// This beacon with its checksum field replaced.
    pub open spec fn with_checksum(self, checksum: u16) -> Beacon {
        Beacon { checksum, ..self }
    }

    /// The checksum a well-formed beacon must carry: the CRC-16 of its
    /// wire form with the checksum field zeroed.
    pub open spec fn expected_checksum(self) -> u16 {
        crc16(beacon_bytes(self.with_checksum(0)))
    }

    /// Integrity: the stored checksum matches the beacon's contents.
    pub open spec fn valid_spec(self) -> bool {
        self.checksum == self.expected_checksum()
    }

    /// Builds a checksummed beacon advertising `source`.
    pub fn new(source: NodeId, battery_level: u8, rssi: i8) -> (r: Self)
        ensures
            r.version == PROTOCOL_VERSION,
            r.packet_type == PacketType::Beacon.tag_spec(),
            r.source == source.0,
            r.battery_level == battery_level,
            r.rssi == rssi,
            r.hop_count == 0,
            r.reserved@ =~= seq![0u8, 0u8, 0u8],
            r.valid_spec(),
    {
        let mut beacon = Self {
            version: PROTOCOL_VERSION,
            packet_type: PacketType::Beacon.tag(),
            source: source.0,
            battery_level,
            rssi,
            hop_count: 0,
            reserved: [0; 3],
            checksum: 0,
        };
        beacon.update_checksum();
        beacon
    }

    /// The beacon's wire form.
    pub fn to_bytes(&self) -> (r: Vec<u8>)
        ensures
            r@ =~= beacon_bytes(*self),
    {
        let mut bytes: Vec<u8> = Vec::new();
        bytes.push(self.version);
        bytes.push(self.packet_type);
        bytes.push(self.source[0]);
        bytes.push(self.source[1]);
        bytes.push(self.source[2]);
        bytes.push(self.source[3]);
        bytes.push(self.source[4]);
        bytes.push(self.source[5]);
        bytes.push(self.battery_level);
        bytes.push(self.rssi as u8);
        bytes.push(self.hop_count);
        bytes.push(self.reserved[0]);
        bytes.push(self.reserved[1]);
        bytes.push(self.reserved[2]);
        bytes.push((self.checksum / 256) as u8);
        bytes.push((self.checksum % 256) as u8);
        bytes
    }

    /// Recomputes and stores the checksum over the beacon's contents.
    pub fn update_checksum(&mut self)
        ensures
            *final(self) == old(self).with_checksum(old(self).expected_checksum()),
            final(self).valid_spec(),
    {
        self.checksum = 0;
        let bytes = self.to_bytes();
        self.checksum = calculate_checksum(bytes.as_slice());
    }

    /// Checks the stored checksum against the beacon's contents.
    pub fn is_valid(&self) -> (r: bool)
        ensures
            r == self.valid_spec(),
    {
        let mut copy = *self;
        copy.checksum = 0;
        let bytes = copy.to_bytes();
        calculate_checksum(bytes.as_slice()) == self.checksum
    }
}

/// Rebuilds a beacon from its 16-byte wire form; `None` when the buffer is
/// shorter than the fixed size.
pub open spec fn parse_beacon(buffer: Seq<u8>) -> Option<Beacon> {
    if buffer.len() < 16 {
        None
    } else {
        Some(
            Beacon {
                version: buffer[0],
                packet_type: buffer[1],
                source: [buffer[2], buffer[3], buffer[4], buffer[5], buffer[6], buffer[7]],
                battery_level: buffer[8],
                rssi: buffer[9] as i8,
                hop_count: buffer[10],
                reserved: [buffer[11], buffer[12], buffer[13]],
                checksum: (buffer[14] as u16 * 256 + buffer[15] as u16) as u16,
            },
        )
    }
}

impl Beacon {
    /// Decodes a beacon from the front of `buffer`.
    pub fn from_bytes(buffer: &[u8]) -> (r: Option<Beacon>)
        ensures
            r == parse_beacon(buffer@),
    {
        if buffer.len() < 16 {
            return None;
        }
        Some(
            Beacon {
                version: buffer[0],
                packet_type: buffer[1],
                source: [buffer[2], buffer[3], buffer[4], buffer[5], buffer[6], buffer[7]],
                battery_level: buffer[8],
                rssi: buffer[9] as i8,
                hop_count: buffer[10],
                reserved: [buffer[11], buffer[12], buffer[13]],
                checksum: buffer[14] as u16 * 256 + buffer[15] as u16,
            },
        )
    }
}

/// Casting a signed byte to unsigned and back is the identity.
proof fn lemma_i8_cast_round_trip(x: i8)
    ensures
        (x as u8) as i8 == x,
{
    assert((x as u8) as i8 == x) by (bit_vector);
}

/// The beacon wire codec is lossless: decoding an encoded beacon gives
/// back the beacon.
pub proof fn lemma_beacon_round_trip(b: Beacon)
    ensures
        parse_beacon(beacon_bytes(b)) == Some(b),
{
    let bytes = beacon_bytes(b);
    let parsed = parse_beacon(bytes)->Some_0;
    assert(parsed.source =~= b.source);
    assert(parsed.reserved =~= b.reserved);
    lemma_i8_cast_round_trip(b.rssi);
    assert(bytes[9] as i8 == b.rssi);
    assert(bytes[14] as u16 * 256 + bytes[15] as u16 == b.checksum);
}

} // verus!
