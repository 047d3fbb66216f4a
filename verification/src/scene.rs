//! The scene controller: the reactive loop's decisions.
//!
//! Each frame the windowing shell hands the controller the control-panel
//! messages that arrived, and gets back what to do: the camera state to
//! re-upload (always), the sprites to place (first frame only), the freshly
//! generated tiles (only when a tiling parameter changed since the last
//! generation), and a settings snapshot to persist (only when a save was
//! requested). The controller itself performs no I/O and issues no GPU
//! call.

use vstd::prelude::*;
use crate::camera::{Camera, CameraError};
use crate::controls::{Controls, Message, spec_controls_update, spec_save_request};
use crate::controls::tiling;
use crate::settings::Settings;
use crate::sprite::{decorative_sprite, spec_decorative_sprite, Sprite};
use crate::terrain::{generate_tiles, spec_tiles, Tile, TilePolicy};

verus! {

/// Everything one frame's update asks the renderer and the persistence
/// collaborator to do.
pub struct UpdateActions {
    /// Sprites to place; raised on the first frame only.
    pub sprites: Option<Vec<Sprite>>,
    /// The camera state to upload. Re-uploaded unconditionally every frame.
    pub camera: Camera,
    /// A regenerated tile layout; raised exactly when a tiling parameter
    /// changed since the last regeneration.
    pub tiles: Option<Vec<Tile>>,
    /// A settings snapshot to persist; raised by a save request.
    pub save: Option<Settings>,
}

/// Window events the controller reacts to.
#[derive(Clone, Copy, Debug, PartialEq, Eq, Structural)]
pub enum SceneEvent {
    /// The window was resized to the given physical size.
    Resized(u32, u32),
    /// Anything else: the controller ignores it (the GUI toolkit consumes
    /// it upstream and surfaces messages instead).
    Other,
}

/// The controls after a sequence of messages, applied left to right.
pub open spec fn spec_apply_messages(c: Controls, ms: Seq<Message>) -> Controls
    decreases ms.len(),
{
    if ms.len() == 0 {
        c
    } else {
        spec_controls_update(spec_apply_messages(c, ms.drop_last()), ms.last())
    }
}

/// The save snapshot a sequence of messages leaves behind: the one raised by
/// the latest save request, against the state current at that request.
pub open spec fn spec_save_of_messages(c: Controls, ms: Seq<Message>) -> Option<Settings>
    decreases ms.len(),
{
    if ms.len() == 0 {
        None
    } else {
        let here = spec_save_request(spec_apply_messages(c, ms.drop_last()), ms.last());
        if here is Some {
            here
        } else {
            spec_save_of_messages(c, ms.drop_last())
        }
    }
}

/// Whether a message changes a terrain generation parameter.
pub open spec fn is_tiling_parameter_change(m: Message) -> bool {
    match m {
        Message::Tiling(tm) => tiling::is_parameter_change(tm),
        _ => false,
    }
}

/// The camera synced from the control tabs: orbit and projection parameters
/// from the camera tab, the target aimed at the grid centre, the aspect
/// ratio kept from the viewport.
pub open spec fn spec_synced_camera(cam: Camera, c: Controls) -> Camera {
    Camera {
        fovy_milli: c.camera_tab.fov_milli,
        height_milli: c.camera_tab.height_milli,
        angle_milli: c.camera_tab.angle_milli,
        distance_milli: c.camera_tab.distance_milli,
        target_milli: (c.tiling_tab.data.size as u64 * 500 + 1000) as u64,
        aspect: cam.aspect,
        znear_milli: cam.znear_milli,
        zfar_milli: cam.zfar_milli,
    }
}

/// The scene: camera, control panel, the chosen terrain policy, and the
/// one-shot flag for initial sprite placement.
pub struct Scene {
    pub camera: Camera,
    pub controls: Controls,
    pub policy: TilePolicy,
    pub first_frame: bool,
}

impl Scene {
    /// The scene invariant: its camera is well formed.
    pub open spec fn wf(self) -> bool {
        self.camera.wf()
    }

    /// A fresh scene for a viewport of the given size, with the saved
    /// parameters when a save was loaded and the defaults when none was.
    pub fn new(width: u32, height: u32, saved: Option<Settings>, policy: TilePolicy) -> (s: Scene)
        ensures
            s.wf(),
            s.controls == crate::controls::spec_controls_from_settings(
                match saved {
                    Some(v) => v,
                    None => crate::settings::spec_default_settings(),
                },
            ),
            s.policy == policy,
            s.first_frame,
            height > 0 ==> s.camera.aspect == (crate::camera::Aspect { width, height }),
    {
        Scene {
            camera: Camera::new(width, height),
            controls: Controls::new(saved),
            policy,
            first_frame: true,
        }
    }

    /// Recompute the camera's aspect ratio for a new viewport; a zero-height
    /// viewport is rejected and changes nothing.
    pub fn resize(&mut self, width: u32, height: u32) -> (r: Result<(), CameraError>)
        requires
            old(self).wf(),
        ensures
            final(self).wf(),
            r is Ok <==> height > 0,
            final(self).controls == old(self).controls,
            final(self).policy == old(self).policy,
            final(self).first_frame == old(self).first_frame,
            height > 0 ==> final(self).camera == (Camera {
                aspect: crate::camera::Aspect { width, height },
                ..old(self).camera
            }),
            height == 0 ==> final(self).camera == old(self).camera,
    {
        self.camera.resize(width, height)
    }

    /// React to one window event: a resize recomputes the aspect ratio (a
    /// zero-height resize is ignored); everything else is left to the GUI
    /// toolkit.
    pub fn handle_event(&mut self, event: SceneEvent)
        requires
            old(self).wf(),
        ensures
            final(self).wf(),
            final(self).controls == old(self).controls,
            final(self).policy == old(self).policy,
            final(self).first_frame == old(self).first_frame,
            match event {
                SceneEvent::Resized(w, h) => if h > 0 {
                    final(self).camera == (Camera {
                        aspect: crate::camera::Aspect { width: w, height: h },
                        ..old(self).camera
                    })
                } else {
                    final(self).camera == old(self).camera
                },
                SceneEvent::Other => final(self).camera == old(self).camera,
            },
    {
        match event {
            SceneEvent::Resized(w, h) => {
                let _ = self.camera.resize(w, h);
            },
            SceneEvent::Other => {},
        }
    }

    /// One frame of the reactive loop: consume the pending messages, sync
    /// the camera, place the start-up sprites once, and regenerate terrain
    /// exactly when a tiling parameter is stale.
    pub fn update(&mut self, messages: &Vec<Message>) -> (r: UpdateActions)
        requires
            old(self).wf(),
        ensures
            final(self).wf(),
            final(self).policy == old(self).policy,
            // the messages were applied in order, then the terrain was
            // marked clean
            final(self).controls.tab == spec_apply_messages(
                old(self).controls,
                messages@,
            ).tab,
            final(self).controls.camera_tab == spec_apply_messages(
                old(self).controls,
                messages@,
            ).camera_tab,
            final(self).controls.tiling_tab.data == spec_apply_messages(
                old(self).controls,
                messages@,
            ).tiling_tab.data,
            !final(self).controls.tiling_tab.dirty,
            // the camera is synced from the tabs and re-uploaded every frame
            final(self).camera == spec_synced_camera(
                old(self).camera,
                spec_apply_messages(old(self).controls, messages@),
            ),
            r.camera == final(self).camera,
            // terrain regenerates exactly when a parameter was stale, and
            // what it regenerates is the pure function of the parameters
            r.tiles is Some <==> spec_apply_messages(
                old(self).controls,
                messages@,
            ).tiling_tab.dirty,
            (r.tiles matches Some(t) ==> t@ == spec_tiles(
                spec_apply_messages(old(self).controls, messages@).tiling_tab.data.size,
                spec_apply_messages(old(self).controls, messages@).tiling_tab.data.seed,
                spec_apply_messages(old(self).controls, messages@).tiling_tab.data.elevation_milli,
                old(self).policy,
            )),
            // the decorative sprites are placed once, on the first frame
            r.sprites is Some <==> old(self).first_frame,
            (r.sprites matches Some(v) ==> v@ =~= seq![spec_decorative_sprite()]),
            !final(self).first_frame,
            // a save request surfaces the snapshot it was raised against
            r.save == spec_save_of_messages(old(self).controls, messages@),
    {
        let ghost c0 = self.controls;
        let mut save: Option<Settings> = None;
        let mut i: usize = 0;
        while i < messages.len()
            invariant
                i <= messages.len(),
                self.controls == spec_apply_messages(c0, messages@.take(i as int)),
                save == spec_save_of_messages(c0, messages@.take(i as int)),
                self.camera == old(self).camera,
                self.policy == old(self).policy,
                self.first_frame == old(self).first_frame,
                old(self).wf(),
            decreases messages.len() - i,
        {
            let m = messages[i];
            let here = self.controls.update(m);
            save = match here {
                Some(s) => Some(s),
                None => save,
            };
            proof {
                assert(messages@.take(i + 1).drop_last() =~= messages@.take(i as int));
                assert(messages@.take(i + 1).last() == messages@[i as int]);
            }
            i = i + 1;
        }
        proof {
            assert(messages@.take(messages@.len() as int) =~= messages@);
        }

        // sync the camera from the tabs; the upload is unconditional
        self.camera.set_fov(self.controls.camera_tab.fov_milli);
        self.camera.set_height(self.controls.camera_tab.height_milli);
        self.camera.set_angle(
            self.controls.camera_tab.angle_milli,
            self.controls.camera_tab.distance_milli,
        );
        self.camera.set_target_for_grid(self.controls.tiling_tab.data.size);

        // place the decorative sprites exactly once
        let sprites: Option<Vec<Sprite>> = if self.first_frame {
            let mut v: Vec<Sprite> = Vec::new();
            v.push(decorative_sprite());
            Some(v)
        } else {
            None
        };
        self.first_frame = false;

        // regenerate terrain only on a dirty transition, then mark it clean
        let tiles: Option<Vec<Tile>> = if self.controls.tiling_tab.dirty {
            let t = generate_tiles(
                self.controls.tiling_tab.data.size,
                self.controls.tiling_tab.data.seed,
                self.controls.tiling_tab.data.elevation_milli,
                self.policy,
            );
            self.controls.tiling_tab.update(tiling::Message::Retiled);
            Some(t)
        } else {
            None
        };

        UpdateActions { sprites, camera: self.camera, tiles, save }
    }
}

/// No change, no regeneration: once the terrain is clean, messages that
/// change no tiling parameter leave it clean, so the next frame's update
/// regenerates nothing.
pub proof fn lemma_no_redundant_regeneration(c: Controls, ms: Seq<Message>)
    requires
        !c.tiling_tab.dirty,
        forall|i: int| 0 <= i < ms.len() ==> !is_tiling_parameter_change(#[trigger] ms[i]),
    ensures
        !spec_apply_messages(c, ms).tiling_tab.dirty,
        spec_apply_messages(c, ms).tiling_tab.data == c.tiling_tab.data,
    decreases ms.len(),
{
    if ms.len() == 0 {
    } else {
        lemma_no_redundant_regeneration(c, ms.drop_last());
    }
}

} // verus!
