//! The NTP v4 packet and its 48-byte wire codec.

use vstd::prelude::*;

verus! {

/// Size in bytes of an encoded NTP v4 packet header.
pub const PACKET_BYTES: usize = 48;

/// Stratum value naming an unspecified or invalid source.
pub const STRATUM_UNSPECIFIED: u8 = 0;

/// Primary-source reference code that names no particular clock.
pub const PRIMARY_SOURCE_NULL: u32 = 0;

/// Error returned when a packet cannot be encoded because a field is
/// inconsistent, or a buffer cannot be decoded as an NTP v4 packet.
#[derive(Clone, Copy, Debug, PartialEq, Eq, Structural)]
pub struct FormatError;

/// The two-bit leap-second warning field.
#[derive(Clone, Copy, Debug, PartialEq, Eq, Structural)]
pub enum LeapIndicator {
    /// No leap second is coming.
    NoWarning,
    /// The current day's last minute has sixty-one seconds.
    SixtyOne,
    /// The current day's last minute has fifty-nine seconds.
    FiftyNine,
    /// The clock is unsynchronized.
    Alarm,
}

/// The three-bit protocol version field; only versions 3 and 4 are defined.
#[derive(Clone, Copy, Debug, PartialEq, Eq, Structural)]
pub enum Version {
    V3,
    V4,
}

/// The three-bit association mode field.
#[derive(Clone, Copy, Debug, PartialEq, Eq, Structural)]
pub enum Mode {
    Reserved,
    SymmetricActive,
    SymmetricPassive,
    Client,
    Server,
    Broadcast,
    Control,
    Private,
}

/// A non-negative duration in NTP short format: unsigned 16-bit seconds
/// and an unsigned 16-bit fraction in units of 1/65536 of a second.
#[derive(Clone, Copy, Debug, PartialEq, Eq, Structural)]
pub struct ShortFormat {
    pub seconds: u16,
    pub fraction: u16,
}

/// An absolute time in NTP timestamp format: unsigned 32-bit seconds
/// since 1900-01-01 00:00:00 UTC and an unsigned 32-bit fraction in
/// units of 1/2^32 of a second.
#[derive(Clone, Copy, Debug, PartialEq, Eq, Structural)]
pub struct TimestampFormat {
    pub seconds: u32,
    pub fraction: u32,
}

/// The four-byte reference identifier, a tagged union selected by the
/// packet's stratum: a primary-source code for strata 0 and 1, otherwise
/// an opaque identifier (for instance an IPv4 address).
#[derive(Clone, Copy, Debug, PartialEq, Eq, Structural)]
pub enum ReferenceIdentifier {
    /// The code of a primary source, packed big-endian into one word.
    PrimarySource(u32),
    /// An opaque identifier of a secondary source, packed big-endian.
    Secondary(u32),
}

/// A full NTP v4 packet header.
#[derive(Clone, Copy, Debug, PartialEq, Eq, Structural)]
pub struct Packet {
    pub leap_indicator: LeapIndicator,
    pub version: Version,
    pub mode: Mode,
    pub stratum: u8,
    /// Poll interval as a signed log2 of seconds.
    pub poll: i8,
    /// Clock precision as a signed log2 of seconds.
    pub precision: i8,
    pub root_delay: ShortFormat,
    pub root_dispersion: ShortFormat,
    pub reference_id: ReferenceIdentifier,
    pub reference_timestamp: TimestampFormat,
    pub origin_timestamp: TimestampFormat,
    pub receive_timestamp: TimestampFormat,
    pub transmit_timestamp: TimestampFormat,
}

/// Wire value of the leap indicator field.
pub open spec fn leap_value(l: LeapIndicator) -> u8 {
    match l {
        LeapIndicator::NoWarning => 0,
        LeapIndicator::SixtyOne => 1,
        LeapIndicator::FiftyNine => 2,
        LeapIndicator::Alarm => 3,
    }
}

/// Leap indicator named by a two-bit wire value.
pub open spec fn leap_of(x: u8) -> LeapIndicator {
    if x == 0 {
        LeapIndicator::NoWarning
    } else if x == 1 {
        LeapIndicator::SixtyOne
    } else if x == 2 {
        LeapIndicator::FiftyNine
    } else {
        LeapIndicator::Alarm
    }
}

/// Wire value of the version field.
pub open spec fn version_value(v: Version) -> u8 {
    match v {
        Version::V3 => 3,
        Version::V4 => 4,
    }
}

/// Version named by a defined wire value (3 or 4).
pub open spec fn version_of(x: u8) -> Version {
    if x == 3 {
        Version::V3
    } else {
        Version::V4
    }
}

/// Wire value of the mode field.
pub open spec fn mode_value(m: Mode) -> u8 {
    match m {
        Mode::Reserved => 0,
        Mode::SymmetricActive => 1,
        Mode::SymmetricPassive => 2,
        Mode::Client => 3,
        Mode::Server => 4,
        Mode::Broadcast => 5,
        Mode::Control => 6,
        Mode::Private => 7,
    }
}

/// Mode named by a three-bit wire value.
pub open spec fn mode_of(x: u8) -> Mode {
    if x == 0 {
        Mode::Reserved
    } else if x == 1 {
        Mode::SymmetricActive
    } else if x == 2 {
        Mode::SymmetricPassive
    } else if x == 3 {
        Mode::Client
    } else if x == 4 {
        Mode::Server
    } else if x == 5 {
        Mode::Broadcast
    } else if x == 6 {
        Mode::Control
    } else {
        Mode::Private
    }
}

/// The leading byte: leap indicator, version and mode packed as the
/// bits `LL VVV MMM`.
pub open spec fn packed_first_byte(l: LeapIndicator, v: Version, m: Mode) -> u8 {
    (leap_value(l) * 64 + version_value(v) * 8 + mode_value(m)) as u8
}

/// The word carried by a reference identifier, whichever its tag.
pub open spec fn ref_id_value(r: ReferenceIdentifier) -> u32 {
    match r {
        ReferenceIdentifier::PrimarySource(c) => c,
        ReferenceIdentifier::Secondary(c) => c,
    }
}

/// Whether the reference identifier's tag agrees with the stratum:
/// a primary source exactly for strata 0 and 1.
pub open spec fn ref_id_matches_stratum(r: ReferenceIdentifier, stratum: u8) -> bool {
    match r {
        ReferenceIdentifier::PrimarySource(_) => stratum <= 1,
        ReferenceIdentifier::Secondary(_) => stratum >= 2,
    }
}

/// A packet that the wire format can represent: its reference
/// identifier's tag agrees with its stratum.
pub open spec fn packet_valid(p: Packet) -> bool {
    ref_id_matches_stratum(p.reference_id, p.stratum)
}

/// Wire byte of a signed eight-bit field (two's complement).
pub open spec fn byte_of_i8(x: i8) -> u8 {
    if x >= 0 {
        x as u8
    } else {
        (x + 256) as u8
    }
}

/// Signed eight-bit field read back from its wire byte.
pub open spec fn i8_of_byte(b: u8) -> i8 {
    if b < 128 {
        b as i8
    } else {
        (b - 256) as i8
    }
}

/// Big-endian bytes of an unsigned 16-bit value.
pub open spec fn be16(x: u16) -> Seq<u8> {
    seq![(x as int / 0x100) as u8, (x as int % 0x100) as u8]
}

/// Big-endian bytes of an unsigned 32-bit value.
pub open spec fn be32(x: u32) -> Seq<u8> {
    seq![
        (x as int / 0x100_0000) as u8,
        ((x as int / 0x1_0000) % 0x100) as u8,
        ((x as int / 0x100) % 0x100) as u8,
        (x as int % 0x100) as u8,
    ]
}

/// Unsigned 16-bit value of two big-endian bytes.
pub open spec fn b16(hi: u8, lo: u8) -> u16 {
    (hi as int * 0x100 + lo as int) as u16
}

/// Unsigned 32-bit value of four big-endian bytes.
pub open spec fn b32(b0: u8, b1: u8, b2: u8, b3: u8) -> u32 {
    (b0 as int * 0x100_0000 + b1 as int * 0x1_0000 + b2 as int * 0x100 + b3 as int) as u32
}

/// Wire bytes of a short-format field.
pub open spec fn short_bytes(s: ShortFormat) -> Seq<u8> {
    be16(s.seconds) + be16(s.fraction)
}

/// Wire bytes of a timestamp-format field.
pub open spec fn timestamp_bytes(t: TimestampFormat) -> Seq<u8> {
    be32(t.seconds) + be32(t.fraction)
}

/// The 48 wire bytes of a packet, in encoding order.
pub open spec fn spec_encode(p: Packet) -> Seq<u8> {
    seq![
        packed_first_byte(p.leap_indicator, p.version, p.mode),
        p.stratum,
        byte_of_i8(p.poll),
        byte_of_i8(p.precision),
    ] + short_bytes(p.root_delay) + short_bytes(p.root_dispersion) + be32(
        ref_id_value(p.reference_id),
    ) + timestamp_bytes(p.reference_timestamp) + timestamp_bytes(p.origin_timestamp)
        + timestamp_bytes(p.receive_timestamp) + timestamp_bytes(p.transmit_timestamp)
}

/// Whether the version bits of the leading byte name a defined version.
pub open spec fn version_bits_valid(b0: u8) -> bool {
    (b0 / 8) % 8 == 3 || (b0 / 8) % 8 == 4
}

/// The packet read from 48 wire bytes, with the reference identifier's
/// tag selected by the stratum byte.
pub open spec fn packet_of_bytes(b: Seq<u8>) -> Packet {
    Packet {
        leap_indicator: leap_of(b[0] / 64),
        version: version_of((b[0] / 8) % 8),
        mode: mode_of(b[0] % 8),
        stratum: b[1],
        poll: i8_of_byte(b[2]),
        precision: i8_of_byte(b[3]),
        root_delay: ShortFormat { seconds: b16(b[4], b[5]), fraction: b16(b[6], b[7]) },
        root_dispersion: ShortFormat { seconds: b16(b[8], b[9]), fraction: b16(b[10], b[11]) },
        reference_id: if b[1] <= 1 {
            ReferenceIdentifier::PrimarySource(b32(b[12], b[13], b[14], b[15]))
        } else {
            ReferenceIdentifier::Secondary(b32(b[12], b[13], b[14], b[15]))
        },
        reference_timestamp: TimestampFormat {
            seconds: b32(b[16], b[17], b[18], b[19]),
            fraction: b32(b[20], b[21], b[22], b[23]),
        },
        origin_timestamp: TimestampFormat {
            seconds: b32(b[24], b[25], b[26], b[27]),
            fraction: b32(b[28], b[29], b[30], b[31]),
        },
        receive_timestamp: TimestampFormat {
            seconds: b32(b[32], b[33], b[34], b[35]),
            fraction: b32(b[36], b[37], b[38], b[39]),
        },
        transmit_timestamp: TimestampFormat {
            seconds: b32(b[40], b[41], b[42], b[43]),
            fraction: b32(b[44], b[45], b[46], b[47]),
        },
    }
}

/// The packet a buffer decodes to: none unless the buffer holds exactly
/// 48 bytes and its version bits name a defined version.
pub open spec fn spec_decode(b: Seq<u8>) -> Option<Packet> {
    if b.len() != 48 {
        None
    } else if !version_bits_valid(b[0]) {
        None
    } else {
        Some(packet_of_bytes(b))
    }
}

fn leap_to_byte(l: LeapIndicator) -> (r: u8)
    ensures
        r == leap_value(l),
{
    match l {
        LeapIndicator::NoWarning => 0,
        LeapIndicator::SixtyOne => 1,
        LeapIndicator::FiftyNine => 2,
        LeapIndicator::Alarm => 3,
    }
}

fn byte_to_leap(x: u8) -> (r: LeapIndicator)
    requires
        x < 4,
    ensures
        r == leap_of(x),
{
    if x == 0 {
        LeapIndicator::NoWarning
    } else if x == 1 {
        LeapIndicator::SixtyOne
    } else if x == 2 {
        LeapIndicator::FiftyNine
    } else {
        LeapIndicator::Alarm
    }
}

fn version_to_byte(v: Version) -> (r: u8)
    ensures
        r == version_value(v),
{
    match v {
        Version::V3 => 3,
        Version::V4 => 4,
    }
}

fn byte_to_version(x: u8) -> (r: Option<Version>)
    ensures
        r is Some <==> (x == 3 || x == 4),
        r matches Some(v) ==> v == version_of(x),
{
    if x == 3 {
        Some(Version::V3)
    } else if x == 4 {
        Some(Version::V4)
    } else {
        None
    }
}

fn mode_to_byte(m: Mode) -> (r: u8)
    ensures
        r == mode_value(m),
{
    match m {
        Mode::Reserved => 0,
        Mode::SymmetricActive => 1,
        Mode::SymmetricPassive => 2,
        Mode::Client => 3,
        Mode::Server => 4,
        Mode::Broadcast => 5,
        Mode::Control => 6,
        Mode::Private => 7,
    }
}

fn byte_to_mode(x: u8) -> (r: Mode)
    requires
        x < 8,
    ensures
        r == mode_of(x),
{
    if x == 0 {
        Mode::Reserved
    } else if x == 1 {
        Mode::SymmetricActive
    } else if x == 2 {
        Mode::SymmetricPassive
    } else if x == 3 {
        Mode::Client
    } else if x == 4 {
        Mode::Server
    } else if x == 5 {
        Mode::Broadcast
    } else if x == 6 {
        Mode::Control
    } else {
        Mode::Private
    }
}

fn i8_to_byte(x: i8) -> (r: u8)
    ensures
        r == byte_of_i8(x),
{
    if x >= 0 {
        x as u8
    } else {
        ((x as i16) + 256) as u8
    }
}

fn byte_to_i8(b: u8) -> (r: i8)
    ensures
        r == i8_of_byte(b),
{
    if b < 128 {
        b as i8
    } else {
        ((b as i16) - 256) as i8
    }
}

fn push_be16(out: &mut Vec<u8>, x: u16)
    ensures
        final(out)@ == old(out)@ + be16(x),
{
    out.push((x / 0x100) as u8);
    out.push((x % 0x100) as u8);
    proof {
        assert(out@ =~= old(out)@ + be16(x));
    }
}

fn push_be32(out: &mut Vec<u8>, x: u32)
    ensures
        final(out)@ == old(out)@ + be32(x),
{
    out.push((x / 0x100_0000) as u8);
    out.push(((x / 0x1_0000) % 0x100) as u8);
    out.push(((x / 0x100) % 0x100) as u8);
    out.push((x % 0x100) as u8);
    proof {
        assert(out@ =~= old(out)@ + be32(x));
    }
}

fn read_u16(b: &[u8], i: usize) -> (r: u16)
    requires
        i + 2 <= b@.len(),
    ensures
        r == b16(b@[i as int], b@[i as int + 1]),
{
    (b[i] as u16) * 0x100 + (b[i + 1] as u16)
}

fn read_u32(b: &[u8], i: usize) -> (r: u32)
    requires
        i + 4 <= b@.len(),
    ensures
        r == b32(b@[i as int], b@[i as int + 1], b@[i as int + 2], b@[i as int + 3]),
{
    (b[i] as u32) * 0x100_0000 + (b[i + 1] as u32) * 0x1_0000 + (b[i + 2] as u32) * 0x100 + (b[i
        + 3] as u32)
}

/// Encode a packet into its 48 wire bytes. Fails exactly when the
/// reference identifier's tag disagrees with the stratum.
pub fn encode(p: &Packet) -> (r: Result<Vec<u8>, FormatError>)
    ensures
        r is Ok <==> packet_valid(*p),
        r matches Ok(b) ==> b@ == spec_encode(*p) && b@.len() == 48,
{
    let consistent = match p.reference_id {
        ReferenceIdentifier::PrimarySource(_) => p.stratum <= 1,
        ReferenceIdentifier::Secondary(_) => p.stratum >= 2,
    };
    if !consistent {
        return Err(FormatError);
    }
    let first = leap_to_byte(p.leap_indicator) * 64 + version_to_byte(p.version) * 8 + mode_to_byte(
        p.mode,
    );
    let reference_word = match p.reference_id {
        ReferenceIdentifier::PrimarySource(c) => c,
        ReferenceIdentifier::Secondary(c) => c,
    };
    let mut out: Vec<u8> = Vec::new();
    out.push(first);
    out.push(p.stratum);
    out.push(i8_to_byte(p.poll));
    out.push(i8_to_byte(p.precision));
    push_be16(&mut out, p.root_delay.seconds);
    push_be16(&mut out, p.root_delay.fraction);
    push_be16(&mut out, p.root_dispersion.seconds);
    push_be16(&mut out, p.root_dispersion.fraction);
    push_be32(&mut out, reference_word);
    push_be32(&mut out, p.reference_timestamp.seconds);
    push_be32(&mut out, p.reference_timestamp.fraction);
    push_be32(&mut out, p.origin_timestamp.seconds);
    push_be32(&mut out, p.origin_timestamp.fraction);
    push_be32(&mut out, p.receive_timestamp.seconds);
    push_be32(&mut out, p.receive_timestamp.fraction);
    push_be32(&mut out, p.transmit_timestamp.seconds);
    push_be32(&mut out, p.transmit_timestamp.fraction);
    proof {
        assert(out@ =~= spec_encode(*p));
    }
    Ok(out)
}

/// Decode 48 wire bytes into a packet. Fails exactly when the buffer's
/// length is not 48 or its version bits name no defined version.
pub fn decode(bytes: &[u8]) -> (r: Result<Packet, FormatError>)
    ensures
        r matches Ok(p) ==> spec_decode(bytes@) == Some(p),
        r is Err <==> spec_decode(bytes@) is None,
        bytes@.len() != 48 ==> r is Err,
{
    if bytes.len() != 48 {
        return Err(FormatError);
    }
    let b0 = bytes[0];
    let leap_indicator = byte_to_leap(b0 / 64);
    let version = match byte_to_version((b0 / 8) % 8) {
        Some(v) => v,
        None => {
            return Err(FormatError);
        },
    };
    let mode = byte_to_mode(b0 % 8);
    let stratum = bytes[1];
    let poll = byte_to_i8(bytes[2]);
    let precision = byte_to_i8(bytes[3]);
    let root_delay = ShortFormat { seconds: read_u16(bytes, 4), fraction: read_u16(bytes, 6) };
    let root_dispersion = ShortFormat {
        seconds: read_u16(bytes, 8),
        fraction: read_u16(bytes, 10),
    };
    let reference_word = read_u32(bytes, 12);
    let reference_id = if stratum <= 1 {
        ReferenceIdentifier::PrimarySource(reference_word)
    } else {
        ReferenceIdentifier::Secondary(reference_word)
    };
    let reference_timestamp = TimestampFormat {
        seconds: read_u32(bytes, 16),
        fraction: read_u32(bytes, 20),
    };
    let origin_timestamp = TimestampFormat {
        seconds: read_u32(bytes, 24),
        fraction: read_u32(bytes, 28),
    };
    let receive_timestamp = TimestampFormat {
        seconds: read_u32(bytes, 32),
        fraction: read_u32(bytes, 36),
    };
    let transmit_timestamp = TimestampFormat {
        seconds: read_u32(bytes, 40),
        fraction: read_u32(bytes, 44),
    };
    let p = Packet {
        leap_indicator,
        version,
        mode,
        stratum,
        poll,
        precision,
        root_delay,
        root_dispersion,
        reference_id,
        reference_timestamp,
        origin_timestamp,
        receive_timestamp,
        transmit_timestamp,
    };
    Ok(p)
}

proof fn lemma_unpack_first_byte(b: u8, li: u8, v: u8, m: u8)
    by (bit_vector)
    requires
        li < 4,
        v < 8,
        m < 8,
        b == li * 64 + v * 8 + m,
    ensures
        b / 64 == li,
        (b / 8) % 8 == v,
        b % 8 == m,
{
}

/// The packed leading byte carries exactly the leap indicator, version
/// and mode: unpacking it restores all three fields, whatever the other
/// 47 bytes hold, and its version bits always pass decoding.
pub proof fn lemma_packed_byte_round_trip(l: LeapIndicator, v: Version, m: Mode)
    ensures
        leap_of(packed_first_byte(l, v, m) / 64) == l,
        version_of((packed_first_byte(l, v, m) / 8) % 8) == v,
        mode_of(packed_first_byte(l, v, m) % 8) == m,
        version_bits_valid(packed_first_byte(l, v, m)),
{
    let b = packed_first_byte(l, v, m);
    assert(leap_value(l) < 4);
    assert(version_value(v) < 8);
    assert(mode_value(m) < 8);
    lemma_unpack_first_byte(b, leap_value(l), version_value(v), mode_value(m));
}

proof fn lemma_be16_round_trip(x: u16)
    ensures
        b16(be16(x)[0], be16(x)[1]) == x,
{
    vstd::arithmetic::div_mod::lemma_fundamental_div_mod(x as int, 0x100);
}

proof fn lemma_be32_round_trip(x: u32)
    by (bit_vector)
    ensures
        (x as int / 0x100_0000) * 0x100_0000 + ((x as int / 0x1_0000) % 0x100) * 0x1_0000 + ((
        x as int / 0x100) % 0x100) * 0x100 + (x as int % 0x100) == x as int,
{
}

proof fn lemma_b32_of_be32(x: u32)
    ensures
        b32(be32(x)[0], be32(x)[1], be32(x)[2], be32(x)[3]) == x,
{
    lemma_be32_round_trip(x);
}

proof fn lemma_short_field_restored(b: Seq<u8>, s: ShortFormat, at: int)
    requires
        0 <= at,
        at + 4 <= b.len(),
        b.subrange(at, at + 4) == short_bytes(s),
    ensures
        b16(b[at], b[at + 1]) == s.seconds,
        b16(b[at + 2], b[at + 3]) == s.fraction,
{
    let sub = b.subrange(at, at + 4);
    assert(b[at] == sub[0] && b[at + 1] == sub[1] && b[at + 2] == sub[2] && b[at + 3] == sub[3]);
    lemma_be16_round_trip(s.seconds);
    lemma_be16_round_trip(s.fraction);
}

proof fn lemma_word_restored(b: Seq<u8>, x: u32, at: int)
    requires
        0 <= at,
        at + 4 <= b.len(),
        b.subrange(at, at + 4) == be32(x),
    ensures
        b32(b[at], b[at + 1], b[at + 2], b[at + 3]) == x,
{
    let sub = b.subrange(at, at + 4);
    assert(b[at] == sub[0] && b[at + 1] == sub[1] && b[at + 2] == sub[2] && b[at + 3] == sub[3]);
    lemma_b32_of_be32(x);
}

proof fn lemma_timestamp_field_restored(b: Seq<u8>, t: TimestampFormat, at: int)
    requires
        0 <= at,
        at + 8 <= b.len(),
        b.subrange(at, at + 8) == timestamp_bytes(t),
    ensures
        b32(b[at], b[at + 1], b[at + 2], b[at + 3]) == t.seconds,
        b32(b[at + 4], b[at + 5], b[at + 6], b[at + 7]) == t.fraction,
{
    let sub = b.subrange(at, at + 8);
    assert(sub.subrange(0, 4) =~= b.subrange(at, at + 4));
    assert(sub.subrange(4, 8) =~= b.subrange(at + 4, at + 8));
    assert(sub.subrange(0, 4) =~= be32(t.seconds));
    assert(sub.subrange(4, 8) =~= be32(t.fraction));
    lemma_word_restored(b, t.seconds, at);
    lemma_word_restored(b, t.fraction, at + 4);
}

/// Round trip of the codec: any packet whose reference identifier
/// agrees with its stratum is restored exactly by decoding its encoding.
#[verifier::rlimit(100)]
pub proof fn lemma_encode_decode_round_trip(p: Packet)
    requires
        packet_valid(p),
    ensures
        spec_decode(spec_encode(p)) == Some(p),
{
    let b = spec_encode(p);
    assert(b.len() == 48);
    assert(b[0] == packed_first_byte(p.leap_indicator, p.version, p.mode));
    lemma_packed_byte_round_trip(p.leap_indicator, p.version, p.mode);
    assert(b[1] == p.stratum);
    assert(b[2] == byte_of_i8(p.poll));
    assert(b[3] == byte_of_i8(p.precision));
    assert(i8_of_byte(byte_of_i8(p.poll)) == p.poll);
    assert(i8_of_byte(byte_of_i8(p.precision)) == p.precision);
    assert(b.subrange(4, 8) =~= short_bytes(p.root_delay));
    assert(b.subrange(8, 12) =~= short_bytes(p.root_dispersion));
    assert(b.subrange(12, 16) =~= be32(ref_id_value(p.reference_id)));
    assert(b.subrange(16, 24) =~= timestamp_bytes(p.reference_timestamp));
    assert(b.subrange(24, 32) =~= timestamp_bytes(p.origin_timestamp));
    assert(b.subrange(32, 40) =~= timestamp_bytes(p.receive_timestamp));
    assert(b.subrange(40, 48) =~= timestamp_bytes(p.transmit_timestamp));
    lemma_short_field_restored(b, p.root_delay, 4);
    lemma_short_field_restored(b, p.root_dispersion, 8);
    lemma_word_restored(b, ref_id_value(p.reference_id), 12);
    lemma_timestamp_field_restored(b, p.reference_timestamp, 16);
    lemma_timestamp_field_restored(b, p.origin_timestamp, 24);
    lemma_timestamp_field_restored(b, p.receive_timestamp, 32);
    lemma_timestamp_field_restored(b, p.transmit_timestamp, 40);
    assert(packet_of_bytes(b) == p);
}

/// The reference identifier's tag follows the stratum, in both
/// directions of the codec: a decoded packet carries a primary-source
/// identifier exactly when its stratum is 0 or 1, and it always
/// satisfies the consistency that `encode` demands.
pub proof fn lemma_reference_id_follows_stratum(b: Seq<u8>, p: Packet)
    requires
        spec_decode(b) == Some(p),
    ensures
        packet_valid(p),
        (p.reference_id is PrimarySource) <==> p.stratum <= 1,
{
}

} // verus!
