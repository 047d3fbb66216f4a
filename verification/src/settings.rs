//! Persisted settings: the camera-tab and tiling-tab parameters as one flat
//! record, with an exact byte encoding.
//!
//! The scene core never touches the disk itself: a "save" action surfaces a
//! `Settings` snapshot, and loading hands one back in. The record also has a
//! fixed 28-byte encoding — seven little-endian 32-bit fields — with a
//! proved round trip, so a persistence shell can store the bytes as they
//! are.

use vstd::prelude::*;
use vstd::bytes::{
    lemma_auto_spec_u32_to_from_le_bytes, spec_u32_from_le_bytes, spec_u32_to_le_bytes,
    u32_from_le_bytes, u32_to_le_bytes,
};
use vstd::slice::slice_subrange;
use crate::camera::{
    DEFAULT_ANGLE_MILLI, DEFAULT_DISTANCE_MILLI, DEFAULT_FOV_MILLI, DEFAULT_HEIGHT_MILLI,
};
use crate::controls::tiling::{DEFAULT_ELEVATION_MILLI, DEFAULT_SEED, DEFAULT_SIZE};

verus! {

/// Length of an encoded settings record: seven 32-bit fields.
pub const SETTINGS_BYTES: usize = 28;

/// One saved parameter set: everything the camera and tiling tabs hold.
#[derive(Clone, Copy, Debug, PartialEq, Eq, Structural)]
pub struct Settings {
    /// Vertical field of view, milliradians.
    pub fov_milli: u32,
    /// Eye height, thousandths.
    pub height_milli: u32,
    /// Orbit angle, milliradians.
    pub angle_milli: u32,
    /// Orbit distance, thousandths.
    pub distance_milli: u32,
    /// Elevation scale, thousandths.
    pub elevation_milli: u32,
    /// Grid size.
    pub size: u32,
    /// Noise seed.
    pub seed: u32,
}

/// The settings a scene starts from when no save exists.
pub open spec fn spec_default_settings() -> Settings {
    Settings {
        fov_milli: DEFAULT_FOV_MILLI,
        height_milli: DEFAULT_HEIGHT_MILLI,
        angle_milli: DEFAULT_ANGLE_MILLI,
        distance_milli: DEFAULT_DISTANCE_MILLI,
        elevation_milli: DEFAULT_ELEVATION_MILLI,
        size: DEFAULT_SIZE,
        seed: DEFAULT_SEED,
    }
}

impl Default for Settings {
    fn default() -> (s: Settings)
        ensures
            s == spec_default_settings(),
    {
        Settings {
            fov_milli: DEFAULT_FOV_MILLI,
            height_milli: DEFAULT_HEIGHT_MILLI,
            angle_milli: DEFAULT_ANGLE_MILLI,
            distance_milli: DEFAULT_DISTANCE_MILLI,
            elevation_milli: DEFAULT_ELEVATION_MILLI,
            size: DEFAULT_SIZE,
            seed: DEFAULT_SEED,
        }
    }
}

/// The encoding: the seven fields, little endian, in declaration order.
pub open spec fn spec_encode(s: Settings) -> Seq<u8> {
    spec_u32_to_le_bytes(s.fov_milli) + spec_u32_to_le_bytes(s.height_milli)
        + spec_u32_to_le_bytes(s.angle_milli) + spec_u32_to_le_bytes(s.distance_milli)
        + spec_u32_to_le_bytes(s.elevation_milli) + spec_u32_to_le_bytes(s.size)
        + spec_u32_to_le_bytes(s.seed)
}

/// The decoding: any 28-byte record is a valid parameter set; anything of
/// another length is rejected.
pub open spec fn spec_decode(b: Seq<u8>) -> Option<Settings> {
    if b.len() != SETTINGS_BYTES {
        None
    } else {
        Some(
            Settings {
                fov_milli: spec_u32_from_le_bytes(b.subrange(0, 4)),
                height_milli: spec_u32_from_le_bytes(b.subrange(4, 8)),
                angle_milli: spec_u32_from_le_bytes(b.subrange(8, 12)),
                distance_milli: spec_u32_from_le_bytes(b.subrange(12, 16)),
                elevation_milli: spec_u32_from_le_bytes(b.subrange(16, 20)),
                size: spec_u32_from_le_bytes(b.subrange(20, 24)),
                seed: spec_u32_from_le_bytes(b.subrange(24, 28)),
            },
        )
    }
}

impl Settings {
    /// Encode the record into its 28-byte form.
    pub fn encode(&self) -> (r: Vec<u8>)
        ensures
            r@ == spec_encode(*self),
            r@.len() == SETTINGS_BYTES,
    {
        let mut out = u32_to_le_bytes(self.fov_milli);
        let mut b = u32_to_le_bytes(self.height_milli);
        out.append(&mut b);
        let mut b = u32_to_le_bytes(self.angle_milli);
        out.append(&mut b);
        let mut b = u32_to_le_bytes(self.distance_milli);
        out.append(&mut b);
        let mut b = u32_to_le_bytes(self.elevation_milli);
        out.append(&mut b);
        let mut b = u32_to_le_bytes(self.size);
        out.append(&mut b);
        let mut b = u32_to_le_bytes(self.seed);
        out.append(&mut b);
        proof {
            lemma_auto_spec_u32_to_from_le_bytes();
            assert(out@ =~= spec_encode(*self));
        }
        out
    }

    /// Decode a record. Succeeds exactly on 28-byte input; a record of any
    /// other length yields `None`, never a panic.
    pub fn decode(bytes: &[u8]) -> (r: Option<Settings>)
        ensures
            r == spec_decode(bytes@),
            r is Some <==> bytes@.len() == SETTINGS_BYTES,
    {
        if bytes.len() != SETTINGS_BYTES {
            return None;
        }
        let fov_milli = u32_from_le_bytes(slice_subrange(bytes, 0, 4));
        let height_milli = u32_from_le_bytes(slice_subrange(bytes, 4, 8));
        let angle_milli = u32_from_le_bytes(slice_subrange(bytes, 8, 12));
        let distance_milli = u32_from_le_bytes(slice_subrange(bytes, 12, 16));
        let elevation_milli = u32_from_le_bytes(slice_subrange(bytes, 16, 20));
        let size = u32_from_le_bytes(slice_subrange(bytes, 20, 24));
        let seed = u32_from_le_bytes(slice_subrange(bytes, 24, 28));
        Some(
            Settings {
                fov_milli,
                height_milli,
                angle_milli,
                distance_milli,
                elevation_milli,
                size,
                seed,
            },
        )
    }
}

/// Round trip: decoding an encoded parameter set gives the set back, field
/// for field, for every parameter set.
pub proof fn lemma_settings_round_trip(s: Settings)
    ensures
        spec_decode(spec_encode(s)) == Some(s),
{
    lemma_auto_spec_u32_to_from_le_bytes();
    let e = spec_encode(s);
    assert(e.subrange(0, 4) =~= spec_u32_to_le_bytes(s.fov_milli));
    assert(e.subrange(4, 8) =~= spec_u32_to_le_bytes(s.height_milli));
    assert(e.subrange(8, 12) =~= spec_u32_to_le_bytes(s.angle_milli));
    assert(e.subrange(12, 16) =~= spec_u32_to_le_bytes(s.distance_milli));
    assert(e.subrange(16, 20) =~= spec_u32_to_le_bytes(s.elevation_milli));
    assert(e.subrange(20, 24) =~= spec_u32_to_le_bytes(s.size));
    assert(e.subrange(24, 28) =~= spec_u32_to_le_bytes(s.seed));
}

} // verus!
