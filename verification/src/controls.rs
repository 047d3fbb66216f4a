//! The control panel: tab selection and the two parameter tabs.
//!
//! The panel is a small state machine over messages. Selecting the save tab
//! does not touch the disk: it surfaces a `Settings` snapshot for an outer
//! persistence collaborator to write, and the panel returns home.

pub mod camera;
pub mod style;
pub mod tiling;

pub use style::DarkIce;

use vstd::prelude::*;
use crate::settings::Settings;

verus! {

/// The panel's tabs. `Save` is an action tab: selecting it requests a save
/// and lands back on `Home`.
#[derive(Clone, Copy, Debug, PartialEq, Eq, Hash, Structural)]
pub enum Tab {
    Home,
    Camera,
    Tiling,
    Save,
}

impl Default for Tab {
    fn default() -> (t: Tab)
        ensures
            t == Tab::Home,
    {
        Tab::Home
    }
}

/// The tabs in display order.
pub fn all_tabs() -> (r: Vec<Tab>)
    ensures
        r@ =~= seq![Tab::Home, Tab::Camera, Tab::Tiling, Tab::Save],
{
    let mut v: Vec<Tab> = Vec::new();
    v.push(Tab::Home);
    v.push(Tab::Camera);
    v.push(Tab::Tiling);
    v.push(Tab::Save);
    v
}

/// Messages the panel reacts to: tab switches and the two tabs' own
/// messages.
#[derive(Clone, Copy, Debug, PartialEq, Eq, Structural)]
pub enum Message {
    SetTab(Tab),
    Camera(camera::Message),
    Tiling(tiling::Message),
}

/// The whole control panel state.
#[derive(Clone, Copy, Debug, PartialEq, Eq, Structural)]
pub struct Controls {
    pub tab: Tab,
    pub camera_tab: camera::CameraControls,
    pub tiling_tab: tiling::TilingControls,
}

/// A panel whose tabs hold the given saved parameters. The tab selection is
/// not persisted and starts at `Home`; the tiling state starts stale so the
/// first frame regenerates.
pub open spec fn spec_controls_from_settings(s: Settings) -> Controls {
    Controls {
        tab: Tab::Home,
        camera_tab: camera::CameraControls {
            fov_milli: s.fov_milli,
            height_milli: s.height_milli,
            angle_milli: s.angle_milli,
            distance_milli: s.distance_milli,
        },
        tiling_tab: tiling::TilingControls {
            dirty: true,
            data: tiling::Data {
                elevation_milli: s.elevation_milli,
                size: s.size,
                seed: s.seed,
            },
        },
    }
}

/// The parameter snapshot a save persists: the two tabs, flattened.
pub open spec fn spec_controls_to_settings(c: Controls) -> Settings {
    Settings {
        fov_milli: c.camera_tab.fov_milli,
        height_milli: c.camera_tab.height_milli,
        angle_milli: c.camera_tab.angle_milli,
        distance_milli: c.camera_tab.distance_milli,
        elevation_milli: c.tiling_tab.data.elevation_milli,
        size: c.tiling_tab.data.size,
        seed: c.tiling_tab.data.seed,
    }
}

/// The panel's reaction to one message. Selecting `Save` returns home;
/// selecting any other tab shows it; tab messages go to their tab.
pub open spec fn spec_controls_update(c: Controls, m: Message) -> Controls {
    match m {
        Message::SetTab(t) => if t is Save {
            Controls { tab: Tab::Home, ..c }
        } else {
            Controls { tab: t, ..c }
        },
        Message::Camera(cm) => Controls {
            camera_tab: camera::spec_camera_update(c.camera_tab, cm),
            ..c
        },
        Message::Tiling(tm) => Controls {
            tiling_tab: tiling::spec_tiling_update(c.tiling_tab, tm),
            ..c
        },
    }
}

/// The save request one message raises: selecting the save tab snapshots the
/// current parameters, everything else asks for nothing.
pub open spec fn spec_save_request(c: Controls, m: Message) -> Option<Settings> {
    if m == Message::SetTab(Tab::Save) {
        Some(spec_controls_to_settings(c))
    } else {
        None
    }
}

impl Controls {
    /// A fresh panel: from the saved parameters when a save was loaded, from
    /// the defaults when none was.
    pub fn new(saved: Option<Settings>) -> (c: Controls)
        ensures
            c == spec_controls_from_settings(
                match saved {
                    Some(s) => s,
                    None => crate::settings::spec_default_settings(),
                },
            ),
    {
        let s = match saved {
            Some(s) => s,
            None => Settings::default(),
        };
        Controls {
            tab: Tab::Home,
            camera_tab: camera::CameraControls {
                fov_milli: s.fov_milli,
                height_milli: s.height_milli,
                angle_milli: s.angle_milli,
                distance_milli: s.distance_milli,
            },
            tiling_tab: tiling::TilingControls {
                dirty: tiling::dirty_default(),
                data: tiling::Data {
                    elevation_milli: s.elevation_milli,
                    size: s.size,
                    seed: s.seed,
                },
            },
        }
    }

    /// The parameter snapshot a save would persist right now.
    pub fn to_settings(&self) -> (s: Settings)
        ensures
            s == spec_controls_to_settings(*self),
    {
        Settings {
            fov_milli: self.camera_tab.fov_milli,
            height_milli: self.camera_tab.height_milli,
            angle_milli: self.camera_tab.angle_milli,
            distance_milli: self.camera_tab.distance_milli,
            elevation_milli: self.tiling_tab.data.elevation_milli,
            size: self.tiling_tab.data.size,
            seed: self.tiling_tab.data.seed,
        }
    }

    /// Apply one message; a raised save request comes back to the caller
    /// instead of being written anywhere from here.
    pub fn update(&mut self, message: Message) -> (save: Option<Settings>)
        ensures
            *final(self) == spec_controls_update(*old(self), message),
            save == spec_save_request(*old(self), message),
    {
        match message {
            Message::SetTab(t) => {
                let save = if t == Tab::Save {
                    Some(self.to_settings())
                } else {
                    None
                };
                self.tab = if t == Tab::Save {
                    Tab::Home
                } else {
                    t
                };
                save
            },
            Message::Camera(cm) => {
                self.camera_tab.update(cm);
                None
            },
            Message::Tiling(tm) => {
                self.tiling_tab.update(tm);
                None
            },
        }
    }
}

/// Saved-then-loaded parameters survive the trip: a panel rebuilt from its
/// own snapshot carries the same camera and tiling parameters, with the tab
/// back home and the terrain marked for regeneration.
pub proof fn lemma_controls_round_trip(c: Controls)
    ensures
        spec_controls_from_settings(spec_controls_to_settings(c)).camera_tab == c.camera_tab,
        spec_controls_from_settings(spec_controls_to_settings(c)).tiling_tab.data
            == c.tiling_tab.data,
        spec_controls_from_settings(spec_controls_to_settings(c)).tab == Tab::Home,
        spec_controls_from_settings(spec_controls_to_settings(c)).tiling_tab.dirty,
{
}

} // verus!
