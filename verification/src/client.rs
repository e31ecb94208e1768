//! The pure side of issuing a request: building the packet a client
//! sends. Moving its bytes over a socket is the application's part.

use vstd::prelude::*;
use crate::protocol::{
    packet_valid, LeapIndicator, Mode, Packet, ReferenceIdentifier, ShortFormat, TimestampFormat,
    Version, PRIMARY_SOURCE_NULL, STRATUM_UNSPECIFIED,
};

verus! {

/// The packet a client sends to ask a server for the time: version 4,
/// client mode, unspecified stratum, a null primary-source reference
/// identifier, and every field zero except the transmit timestamp,
/// which carries the caller's clock reading.
pub fn client_request_packet(transmit_timestamp: TimestampFormat) -> (r: Packet)
    ensures
        r.leap_indicator == LeapIndicator::NoWarning,
        r.version == Version::V4,
        r.mode == Mode::Client,
        r.stratum == STRATUM_UNSPECIFIED,
        r.poll == 0i8,
        r.precision == 0i8,
        r.root_delay == (ShortFormat { seconds: 0, fraction: 0 }),
        r.root_dispersion == (ShortFormat { seconds: 0, fraction: 0 }),
        r.reference_id == ReferenceIdentifier::PrimarySource(PRIMARY_SOURCE_NULL),
        r.reference_timestamp == (TimestampFormat { seconds: 0, fraction: 0 }),
        r.origin_timestamp == (TimestampFormat { seconds: 0, fraction: 0 }),
        r.receive_timestamp == (TimestampFormat { seconds: 0, fraction: 0 }),
        r.transmit_timestamp == transmit_timestamp,
        packet_valid(r),
{
    Packet {
        leap_indicator: LeapIndicator::NoWarning,
        version: Version::V4,
        mode: Mode::Client,
        stratum: STRATUM_UNSPECIFIED,
        poll: 0,
        precision: 0,
        root_delay: ShortFormat { seconds: 0, fraction: 0 },
        root_dispersion: ShortFormat { seconds: 0, fraction: 0 },
        reference_id: ReferenceIdentifier::PrimarySource(PRIMARY_SOURCE_NULL),
        reference_timestamp: TimestampFormat { seconds: 0, fraction: 0 },
        origin_timestamp: TimestampFormat { seconds: 0, fraction: 0 },
        receive_timestamp: TimestampFormat { seconds: 0, fraction: 0 },
        transmit_timestamp,
    }
}

} // verus!
