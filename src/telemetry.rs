use vstd::prelude::*;

verus! {

/// Version tag of the network flight-dynamics record.
pub const NET_FDM_VERSION: u32 = 24;

/// Size in bytes of one encoded record.
pub const RECORD_LEN: usize = 408;

/// IEEE-754 single-precision bits of 1.0 (time warp).
pub const WARP_BITS: u32 = 0x3F80_0000;

/// IEEE-754 single-precision bits of 5000.0 (visibility in meters).
pub const VISIBILITY_BITS: u32 = 0x459C_4000;

/// IEEE-754 single-precision bits of 90 degrees in radians (fixed yaw).
pub const YAW_BITS: u32 = 0x3FC9_0FDB;

/// One tick's telemetry. Floating-point fields are held as their IEEE-754
/// bit patterns (`u64` for double, `u32` for single precision); every field
/// of the wire record not named here is zero.
#[derive(Clone, Copy, Debug, PartialEq, Eq, Structural)]
pub struct TelemetryRecord {
    pub version: u32,
    /// Geodetic longitude in radians.
    pub longitude_bits: u64,
    /// Geodetic latitude in radians.
    pub latitude_bits: u64,
    /// Altitude above sea level in meters.
    pub altitude_bits: u64,
    /// Roll in radians.
    pub phi_bits: u32,
    /// Pitch in radians.
    pub theta_bits: u32,
    /// Yaw in radians.
    pub psi_bits: u32,
    pub num_engines: u32,
    pub num_tanks: u32,
    pub num_wheels: u32,
    /// Offset in seconds to unix time.
    pub warp_bits: u32,
    /// Visibility in meters.
    pub visibility_bits: u32,
}

/// A 32-bit word, most significant byte first.
pub open spec fn be32(x: u32) -> Seq<u8> {
    seq![(x >> 24u32) as u8, (x >> 16u32) as u8, (x >> 8u32) as u8, x as u8]
}

/// A 64-bit word, most significant byte first.
pub open spec fn be64(x: u64) -> Seq<u8> {
    seq![
        (x >> 56u64) as u8,
        (x >> 48u64) as u8,
        (x >> 40u64) as u8,
        (x >> 32u64) as u8,
        (x >> 24u64) as u8,
        (x >> 16u64) as u8,
        (x >> 8u64) as u8,
        x as u8,
    ]
}

/// `n` zero bytes.
pub open spec fn zeros(n: nat) -> Seq<u8> {
    Seq::new(n, |i: int| 0u8)
}

/// The wire layout of a record, field by field: version, padding,
/// longitude, latitude, altitude, agl, roll, pitch, yaw, eighteen zero
/// words (alpha through slip), engine count, ten zero four-word engine
/// arrays, tank count, four zero fuel quantities, wheel count, four zero
/// three-word gear arrays, current time, warp, visibility, and ten zero
/// control-surface words.
pub open spec fn wire_bytes(r: TelemetryRecord) -> Seq<u8> {
    be32(r.version) + zeros(4) + be64(r.longitude_bits) + be64(r.latitude_bits) + be64(
        r.altitude_bits,
    ) + zeros(4) + be32(r.phi_bits) + be32(r.theta_bits) + be32(r.psi_bits) + zeros(72) + be32(
        r.num_engines,
    ) + zeros(160) + be32(r.num_tanks) + zeros(16) + be32(r.num_wheels) + zeros(48) + zeros(4)
        + be32(r.warp_bits) + be32(r.visibility_bits) + zeros(40)
}

/// Reading a big-endian 32-bit word back, most significant byte first,
/// gives the word that was written.
pub proof fn lemma_be32_value(x: u32)
    ensures
        x == ((be32(x)[0] as u32) << 24u32) | ((be32(x)[1] as u32) << 16u32) | ((be32(x)[2] as u32)
            << 8u32) | (be32(x)[3] as u32),
{
    assert(x == ((((x >> 24u32) as u8) as u32) << 24u32) | ((((x >> 16u32) as u8) as u32)
        << 16u32) | ((((x >> 8u32) as u8) as u32) << 8u32) | ((x as u8) as u32)) by (bit_vector);
}

/// Reading a big-endian 64-bit word back, most significant byte first,
/// gives the word that was written.
pub proof fn lemma_be64_value(x: u64)
    ensures
        x == ((be64(x)[0] as u64) << 56u64) | ((be64(x)[1] as u64) << 48u64) | ((be64(x)[2] as u64)
            << 40u64) | ((be64(x)[3] as u64) << 32u64) | ((be64(x)[4] as u64) << 24u64) | ((
        be64(x)[5] as u64) << 16u64) | ((be64(x)[6] as u64) << 8u64) | (be64(x)[7] as u64),
{
    assert(x == ((((x >> 56u64) as u8) as u64) << 56u64) | ((((x >> 48u64) as u8) as u64)
        << 48u64) | ((((x >> 40u64) as u8) as u64) << 40u64) | ((((x >> 32u64) as u8) as u64)
        << 32u64) | ((((x >> 24u64) as u8) as u64) << 24u64) | ((((x >> 16u64) as u8) as u64)
        << 16u64) | ((((x >> 8u64) as u8) as u64) << 8u64) | ((x as u8) as u64)) by (bit_vector);
}

/// Every record encodes to the same number of bytes, with each field that
/// the receiver reads at its fixed offset, in big-endian order: version at
/// 0, longitude at 8, latitude at 16, altitude at 24, roll at 36, pitch at
/// 40, yaw at 44, engine count at 120, tank count at 284, wheel count at
/// 304, warp at 360 and visibility at 364.
pub proof fn lemma_wire_layout(r: TelemetryRecord)
    ensures
        wire_bytes(r).len() == RECORD_LEN,
        wire_bytes(r).subrange(0, 4) == be32(r.version),
        wire_bytes(r).subrange(4, 8) == zeros(4),
        wire_bytes(r).subrange(8, 16) == be64(r.longitude_bits),
        wire_bytes(r).subrange(16, 24) == be64(r.latitude_bits),
        wire_bytes(r).subrange(24, 32) == be64(r.altitude_bits),
        wire_bytes(r).subrange(36, 40) == be32(r.phi_bits),
        wire_bytes(r).subrange(40, 44) == be32(r.theta_bits),
        wire_bytes(r).subrange(44, 48) == be32(r.psi_bits),
        wire_bytes(r).subrange(120, 124) == be32(r.num_engines),
        wire_bytes(r).subrange(284, 288) == be32(r.num_tanks),
        wire_bytes(r).subrange(304, 308) == be32(r.num_wheels),
        wire_bytes(r).subrange(360, 364) == be32(r.warp_bits),
        wire_bytes(r).subrange(364, 368) == be32(r.visibility_bits),
{
    let w = wire_bytes(r);
    assert(w.subrange(0, 4) =~= be32(r.version));
    assert(w.subrange(4, 8) =~= zeros(4));
    assert(w.subrange(8, 16) =~= be64(r.longitude_bits));
    assert(w.subrange(16, 24) =~= be64(r.latitude_bits));
    assert(w.subrange(24, 32) =~= be64(r.altitude_bits));
    assert(w.subrange(36, 40) =~= be32(r.phi_bits));
    assert(w.subrange(40, 44) =~= be32(r.theta_bits));
    assert(w.subrange(44, 48) =~= be32(r.psi_bits));
    assert(w.subrange(120, 124) =~= be32(r.num_engines));
    assert(w.subrange(284, 288) =~= be32(r.num_tanks));
    assert(w.subrange(304, 308) =~= be32(r.num_wheels));
    assert(w.subrange(360, 364) =~= be32(r.warp_bits));
    assert(w.subrange(364, 368) =~= be32(r.visibility_bits));
}

/// A record with the current version and one engine, tank and wheel (as
/// every tick's record has) starts with the bytes 0, 0, 0, 24, carries each
/// count as the bytes 0, 0, 0, 1, and its longitude and latitude in
/// big-endian order.
pub proof fn lemma_tick_record_bytes(r: TelemetryRecord)
    requires
        r.version == NET_FDM_VERSION,
        r.num_engines == 1,
        r.num_tanks == 1,
        r.num_wheels == 1,
    ensures
        wire_bytes(r).subrange(0, 4) == seq![0u8, 0u8, 0u8, 24u8],
        wire_bytes(r).subrange(8, 16) == be64(r.longitude_bits),
        wire_bytes(r).subrange(16, 24) == be64(r.latitude_bits),
        wire_bytes(r).subrange(120, 124) == seq![0u8, 0u8, 0u8, 1u8],
        wire_bytes(r).subrange(284, 288) == seq![0u8, 0u8, 0u8, 1u8],
        wire_bytes(r).subrange(304, 308) == seq![0u8, 0u8, 0u8, 1u8],
{
    lemma_wire_layout(r);
    assert((24u32 >> 24u32) as u8 == 0u8 && (24u32 >> 16u32) as u8 == 0u8 && (24u32 >> 8u32) as u8
        == 0u8 && 24u32 as u8 == 24u8) by (bit_vector);
    assert((1u32 >> 24u32) as u8 == 0u8 && (1u32 >> 16u32) as u8 == 0u8 && (1u32 >> 8u32) as u8
        == 0u8 && 1u32 as u8 == 1u8) by (bit_vector);
    assert(be32(24) =~= seq![0u8, 0u8, 0u8, 24u8]);
    assert(be32(1) =~= seq![0u8, 0u8, 0u8, 1u8]);
}

/// Appends a 32-bit word in big-endian order.
fn push_be32(out: &mut Vec<u8>, x: u32)
    ensures
        final(out)@ == old(out)@ + be32(x),
{
    out.push((x >> 24u32) as u8);
    out.push((x >> 16u32) as u8);
    out.push((x >> 8u32) as u8);
    out.push(x as u8);
    assert(final(out)@ =~= old(out)@ + be32(x));
}

/// Appends a 64-bit word in big-endian order.
fn push_be64(out: &mut Vec<u8>, x: u64)
    ensures
        final(out)@ == old(out)@ + be64(x),
{
    out.push((x >> 56u64) as u8);
    out.push((x >> 48u64) as u8);
    out.push((x >> 40u64) as u8);
    out.push((x >> 32u64) as u8);
    out.push((x >> 24u64) as u8);
    out.push((x >> 16u64) as u8);
    out.push((x >> 8u64) as u8);
    out.push(x as u8);
    assert(final(out)@ =~= old(out)@ + be64(x));
}

/// Appends `n` zero bytes.
fn push_zeros(out: &mut Vec<u8>, n: usize)
    ensures
        final(out)@ == old(out)@ + zeros(n as nat),
{
    let ghost start = out@;
    let mut i: usize = 0;
    while i < n
        invariant
            i <= n,
            out@ =~= start + zeros(i as nat),
        decreases n - i,
    {
        out.push(0u8);
        i = i + 1;
    }
}

impl TelemetryRecord {
    /// The record sent each tick: the given position and pitch, no roll,
    /// the fixed yaw, one engine, one tank, one wheel, unit time warp and
    /// the fixed visibility.
    pub fn for_tick(latitude_bits: u64, longitude_bits: u64, altitude_bits: u64, pitch_bits: u32) -> (r:
        TelemetryRecord)
        ensures
            r.version == NET_FDM_VERSION,
            r.latitude_bits == latitude_bits,
            r.longitude_bits == longitude_bits,
            r.altitude_bits == altitude_bits,
            r.phi_bits == 0,
            r.theta_bits == pitch_bits,
            r.psi_bits == YAW_BITS,
            r.num_engines == 1,
            r.num_tanks == 1,
            r.num_wheels == 1,
            r.warp_bits == WARP_BITS,
            r.visibility_bits == VISIBILITY_BITS,
    {
        TelemetryRecord {
            version: NET_FDM_VERSION,
            longitude_bits,
            latitude_bits,
            altitude_bits,
            phi_bits: 0,
            theta_bits: pitch_bits,
            psi_bits: YAW_BITS,
            num_engines: 1,
            num_tanks: 1,
            num_wheels: 1,
            warp_bits: WARP_BITS,
            visibility_bits: VISIBILITY_BITS,
        }
    }

    /// The record as the bytes of one datagram.
    pub fn encode(&self) -> (r: Vec<u8>)
        ensures
            r@ == wire_bytes(*self),
            r@.len() == RECORD_LEN,
    {
        let mut out: Vec<u8> = Vec::new();
        push_be32(&mut out, self.version);
        assert(out@ =~= be32(self.version));
        push_zeros(&mut out, 4);
        push_be64(&mut out, self.longitude_bits);
        push_be64(&mut out, self.latitude_bits);
        push_be64(&mut out, self.altitude_bits);
        push_zeros(&mut out, 4);
        push_be32(&mut out, self.phi_bits);
        push_be32(&mut out, self.theta_bits);
        push_be32(&mut out, self.psi_bits);
        push_zeros(&mut out, 72);
        push_be32(&mut out, self.num_engines);
        push_zeros(&mut out, 160);
        push_be32(&mut out, self.num_tanks);
        push_zeros(&mut out, 16);
        push_be32(&mut out, self.num_wheels);
        push_zeros(&mut out, 48);
        push_zeros(&mut out, 4);
        push_be32(&mut out, self.warp_bits);
        push_be32(&mut out, self.visibility_bits);
        push_zeros(&mut out, 40);
        proof {
            lemma_wire_layout(*self);
        }
        out
    }
}

} // verus!
