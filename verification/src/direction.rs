//! Classifies each payload's transfer direction from its leading HCI
//! packet-type indicator byte and builds the 4-byte direction pseudo-header
//! that the output link-layer type expects.

use vstd::prelude::*;

verus! {

/// The transfer direction of one packet, relative to the host.
#[derive(Clone, Copy, Debug, PartialEq, Eq, Structural)]
pub enum Direction {
    SentFromHost,
    ReceivedByHost,
    Unknown,
}

/// The direction the leading indicator byte declares: an HCI command goes
/// from the host, an HCI event comes from the controller; every other
/// indicator, and an empty payload, is unknown. The header-declared flags
/// bits are deliberately not consulted.
pub open spec fn direction_of(payload: Seq<u8>) -> Direction {
    if payload.len() == 0 {
        Direction::Unknown
    } else if payload[0] == 0x01 {
        Direction::SentFromHost
    } else if payload[0] == 0x04 {
        Direction::ReceivedByHost
    } else {
        Direction::Unknown
    }
}

/// The fixed 4-byte pseudo-header for a direction: a big-endian flag word,
/// zero for host-sent, one for host-received; an unknown direction is
/// encoded like host-sent.
pub open spec fn pseudo_header_of(d: Direction) -> Seq<u8> {
    match d {
        Direction::SentFromHost => seq![0u8, 0u8, 0u8, 0u8],
        Direction::ReceivedByHost => seq![0u8, 0u8, 0u8, 1u8],
        Direction::Unknown => seq![0u8, 0u8, 0u8, 0u8],
    }
}

impl Direction {
    /// Reads the direction off a payload's leading indicator byte.
    pub fn parse_from_payload(payload: &[u8]) -> (r: Direction)
        ensures
            r == direction_of(payload@),
    {
        if payload.len() == 0 {
            Direction::Unknown
        } else if payload[0] == 0x01 {
            Direction::SentFromHost
        } else if payload[0] == 0x04 {
            Direction::ReceivedByHost
        } else {
            Direction::Unknown
        }
    }

    /// The fixed 4-byte pseudo-header lookup for this direction.
    pub fn to_hci_pseudo_header(self) -> (r: Vec<u8>)
        ensures
            r@ == pseudo_header_of(self),
    {
        let mut v: Vec<u8> = Vec::new();
        v.push(0);
        v.push(0);
        v.push(0);
        match self {
            Direction::ReceivedByHost => {
                v.push(1);
            },
            _ => {
                v.push(0);
            },
        }
        proof {
            assert(v@ =~= pseudo_header_of(self));
        }
        v
    }
}

} // verus!
