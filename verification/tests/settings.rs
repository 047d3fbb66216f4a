use hexa::settings::{Settings, SETTINGS_BYTES};

#[test]
fn encode_then_decode_reproduces_every_field() {
    let s = Settings {
        fov_milli: 1571,
        height_milli: 3000,
        angle_milli: 42,
        distance_milli: 6000,
        elevation_milli: 100,
        size: 5,
        seed: 0xDEAD_BEEF,
    };
    let bytes = s.encode();
    assert_eq!(bytes.len(), SETTINGS_BYTES);
    assert_eq!(Settings::decode(&bytes), Some(s));
}

#[test]
fn default_settings_round_trip() {
    let s = Settings::default();
    assert_eq!(s.fov_milli, 1571);
    assert_eq!(s.elevation_milli, 100);
    assert_eq!(s.size, 5);
    assert_eq!(s.seed, 42);
    assert_eq!(Settings::decode(&s.encode()), Some(s));
}

#[test]
fn encoding_is_little_endian_in_field_order() {
    let s = Settings {
        fov_milli: 0x0403_0201,
        height_milli: 1,
        angle_milli: 0,
        distance_milli: 0x0000_0100,
        elevation_milli: 0xFFFF_FFFF,
        size: 2,
        seed: 3,
    };
    let bytes = s.encode();
    assert_eq!(
        bytes,
        vec![
            1, 2, 3, 4, // fov
            1, 0, 0, 0, // height
            0, 0, 0, 0, // angle
            0, 1, 0, 0, // distance
            255, 255, 255, 255, // elevation
            2, 0, 0, 0, // size
            3, 0, 0, 0, // seed
        ],
    );
}

#[test]
fn wrong_length_is_rejected() {
    assert_eq!(Settings::decode(&[]), None);
    assert_eq!(Settings::decode(&[0u8; 27]), None);
    assert_eq!(Settings::decode(&[0u8; 29]), None);
    // any 28-byte record decodes
    assert!(Settings::decode(&[0u8; 28]).is_some());
}
