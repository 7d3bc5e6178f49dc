use coord_transforms::geo::ecef2lla;
use coord_transforms::prelude::Vector3;
use coord_transforms::structs::geo_ellipsoid::{geo_ellipsoid, WGS84_FLATTENING, WGS84_SEMI_MAJOR_AXIS_METERS};
use palmer_fdm::telemetry::{TelemetryRecord, RECORD_LEN, VISIBILITY_BITS, WARP_BITS, YAW_BITS};

#[test]
fn fixed_bit_patterns_match_their_values() {
    assert_eq!(f32::from_bits(WARP_BITS), 1.0_f32);
    assert_eq!(f32::from_bits(VISIBILITY_BITS), 5000.0_f32);
    assert_eq!(f32::from_bits(YAW_BITS), 90.0_f32.to_radians());
}

#[test]
fn record_for_start_position_is_big_endian() {
    let ellipsoid = geo_ellipsoid::new(WGS84_SEMI_MAJOR_AXIS_METERS, WGS84_FLATTENING);
    let ecef = Vector3::new(904799.960942606, -5528914.45139109, 3038233.40847236);
    let lla = ecef2lla(&ecef, &ellipsoid);
    let altitude = 0.0_f64;
    let pitch = (0.0_f32).to_radians();
    let rec = TelemetryRecord::for_tick(lla.x.to_bits(), lla.y.to_bits(), altitude.to_bits(), pitch.to_bits());
    let bytes = rec.encode();
    assert_eq!(bytes.len(), RECORD_LEN);
    assert_eq!(bytes.len(), 408);
    assert_eq!(&bytes[0..4], &[0, 0, 0, 24]);
    assert_eq!(&bytes[4..8], &[0, 0, 0, 0]);
    assert_eq!(&bytes[8..16], &lla.y.to_be_bytes());
    assert_eq!(&bytes[16..24], &lla.x.to_be_bytes());
    assert_eq!(&bytes[24..32], &altitude.to_be_bytes());
    assert_eq!(&bytes[44..48], &(90.0_f32.to_radians()).to_be_bytes());
    assert_eq!(&bytes[120..124], &[0, 0, 0, 1]);
    assert_eq!(&bytes[284..288], &[0, 0, 0, 1]);
    assert_eq!(&bytes[304..308], &[0, 0, 0, 1]);
    assert_eq!(&bytes[360..364], &1.0_f32.to_be_bytes());
    assert_eq!(&bytes[364..368], &5000.0_f32.to_be_bytes());
    assert!(bytes[368..].iter().all(|b| *b == 0));
}

#[test]
fn every_field_is_written_most_significant_byte_first() {
    let rec = TelemetryRecord::for_tick(0x0102030405060708, 0x1112131415161718, 0x2122232425262728, 0x31323334);
    let bytes = rec.encode();
    assert_eq!(&bytes[8..16], &[0x11, 0x12, 0x13, 0x14, 0x15, 0x16, 0x17, 0x18]);
    assert_eq!(&bytes[16..24], &[1, 2, 3, 4, 5, 6, 7, 8]);
    assert_eq!(&bytes[24..32], &[0x21, 0x22, 0x23, 0x24, 0x25, 0x26, 0x27, 0x28]);
    assert_eq!(&bytes[36..40], &[0, 0, 0, 0]);
    assert_eq!(&bytes[40..44], &[0x31, 0x32, 0x33, 0x34]);
}
