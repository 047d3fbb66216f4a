//! The tiling tab: terrain generation parameters and the dirty flag.
//!
//! Changing any parameter marks the terrain stale; the flag is cleared only
//! by the `Retiled` acknowledgement after a regeneration has been pushed to
//! the renderer. Regeneration therefore happens exactly once per parameter
//! change, not once per frame.

use vstd::prelude::*;

verus! {

/// Default elevation scale, thousandths.
pub const DEFAULT_ELEVATION_MILLI: u32 = 100;
/// Default grid size.
pub const DEFAULT_SIZE: u32 = 5;
/// Default noise seed.
pub const DEFAULT_SEED: u32 = 42;

/// Messages the tiling tab reacts to. The first three change a generation
/// parameter; `Retiled` acknowledges that the renderer has caught up.
#[derive(Clone, Copy, Debug, PartialEq, Eq, Structural)]
pub enum Message {
    ElevationChanged(u32),
    SizeChanged(u32),
    SeedChanged(u32),
    Retiled,
}

/// Whether a message changes a generation parameter (and so must mark the
/// terrain stale).
pub open spec fn is_parameter_change(m: Message) -> bool {
    !(m is Retiled)
}

/// Fresh (and freshly loaded) tiling state starts out stale, so the first
/// frame always generates terrain.
pub fn dirty_default() -> (r: bool)
    ensures
        r == true,
{
    true
}

/// The terrain generation parameters: what the generator is a pure function
/// of.
#[derive(Clone, Copy, Debug, PartialEq, Eq, Structural)]
pub struct Data {
    /// Elevation scale, thousandths.
    pub elevation_milli: u32,
    /// Grid width and depth.
    pub size: u32,
    /// Noise seed.
    pub seed: u32,
}

/// The default generation parameters.
pub open spec fn spec_default_data() -> Data {
    Data { elevation_milli: DEFAULT_ELEVATION_MILLI, size: DEFAULT_SIZE, seed: DEFAULT_SEED }
}

impl Default for Data {
    fn default() -> (d: Data)
        ensures
            d == spec_default_data(),
    {
        Data {
            elevation_milli: DEFAULT_ELEVATION_MILLI,
            size: DEFAULT_SIZE,
            seed: DEFAULT_SEED,
        }
    }
}

/// The tiling tab state: the parameters plus the dirty flag that marks the
/// generated terrain stale relative to them.
#[derive(Clone, Copy, Debug, PartialEq, Eq, Structural)]
pub struct TilingControls {
    /// True while the last generated terrain does not reflect `data`.
    pub dirty: bool,
    /// The generation parameters.
    pub data: Data,
}

/// The default tiling tab: default parameters, stale.
pub open spec fn spec_default_tiling() -> TilingControls {
    TilingControls { dirty: true, data: spec_default_data() }
}

impl Default for TilingControls {
    fn default() -> (t: TilingControls)
        ensures
            t == spec_default_tiling(),
    {
        TilingControls { dirty: dirty_default(), data: Data::default() }
    }
}

/// The tab's reaction to one message: parameter changes store the value and
/// set the dirty flag; `Retiled` clears the flag and touches nothing else.
pub open spec fn spec_tiling_update(t: TilingControls, m: Message) -> TilingControls {
    match m {
        Message::ElevationChanged(e) => TilingControls {
            dirty: true,
            data: Data { elevation_milli: e, ..t.data },
        },
        Message::SizeChanged(s) => TilingControls { dirty: true, data: Data { size: s, ..t.data } },
        Message::SeedChanged(s) => TilingControls { dirty: true, data: Data { seed: s, ..t.data } },
        Message::Retiled => TilingControls { dirty: false, ..t },
    }
}

impl TilingControls {
    /// Apply one message.
    pub fn update(&mut self, message: Message)
        ensures
            *final(self) == spec_tiling_update(*old(self), message),
    {
        match message {
            Message::ElevationChanged(e) => {
                self.data.elevation_milli = e;
                self.dirty = true;
            },
            Message::SizeChanged(s) => {
                self.data.size = s;
                self.dirty = true;
            },
            Message::SeedChanged(s) => {
                self.data.seed = s;
                self.dirty = true;
            },
            Message::Retiled => {
                self.dirty = false;
            },
        }
    }
}

/// Messages that change no generation parameter never make clean tiling
/// state stale: once the terrain has been regenerated, it stays marked
/// up to date until a parameter actually changes.
pub proof fn lemma_clean_stays_clean(t: TilingControls, m: Message)
    requires
        !t.dirty,
        !is_parameter_change(m),
    ensures
        !spec_tiling_update(t, m).dirty,
        spec_tiling_update(t, m).data == t.data,
{
}

} // verus!
