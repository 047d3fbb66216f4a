use hexa::camera::Aspect;
use hexa::controls::{Message, Tab};
use hexa::controls::camera as camera_tab;
use hexa::controls::tiling;
use hexa::scene::{Scene, SceneEvent};
use hexa::settings::Settings;
use hexa::sprite::Sprite;
use hexa::terrain::TilePolicy;

fn fresh_scene() -> Scene {
    Scene::new(800, 600, None, TilePolicy::Ring)
}

#[test]
fn first_update_places_the_decorative_sprite_once() {
    let mut s = fresh_scene();
    let first = s.update(&vec![]);
    let sprites = first.sprites.expect("first frame places sprites");
    assert_eq!(
        sprites,
        vec![Sprite {
            image: 0,
            x_milli: 8000,
            y_milli: 7500,
            scale_x_milli: 1000,
            scale_y_milli: 1000,
        }],
    );
    let second = s.update(&vec![]);
    assert!(second.sprites.is_none());
}

#[test]
fn terrain_regenerates_once_per_parameter_change() {
    let mut s = fresh_scene();
    // fresh state is dirty: the first frame generates
    let first = s.update(&vec![]);
    let tiles = first.tiles.expect("first frame generates terrain");
    assert!(!tiles.is_empty());
    // unchanged parameters: no second generation
    let second = s.update(&vec![]);
    assert!(second.tiles.is_none());
    // GUI traffic that touches no tiling parameter still regenerates nothing
    let third = s.update(&vec![
        Message::SetTab(Tab::Camera),
        Message::Camera(camera_tab::Message::FovChanged(800)),
    ]);
    assert!(third.tiles.is_none());
    // one parameter change: exactly one regeneration
    let fourth = s.update(&vec![Message::Tiling(tiling::Message::SizeChanged(6))]);
    let tiles = fourth.tiles.expect("size change regenerates");
    assert!(tiles.iter().all(|t| t.x < 6 && t.y < 6));
    let fifth = s.update(&vec![]);
    assert!(fifth.tiles.is_none());
}

#[test]
fn camera_follows_the_tabs_every_frame() {
    let mut s = fresh_scene();
    let r = s.update(&vec![
        Message::Camera(camera_tab::Message::FovChanged(900)),
        Message::Camera(camera_tab::Message::HeightChanged(4000)),
        Message::Camera(camera_tab::Message::AngleChanged(2500)),
        Message::Camera(camera_tab::Message::DistanceChanged(8000)),
    ]);
    assert_eq!(r.camera.fovy_milli, 900);
    assert_eq!(r.camera.height_milli, 4000);
    assert_eq!(r.camera.angle_milli, 2500);
    assert_eq!(r.camera.distance_milli, 8000);
    // default grid size 5: the target sits at 5 / 2 + 1 = 3.5
    assert_eq!(r.camera.target_milli, 3500);
    assert_eq!(r.camera.aspect, Aspect { width: 800, height: 600 });
    assert_eq!((r.camera.znear_milli, r.camera.zfar_milli), (100, 100000));
    assert_eq!(r.camera, s.camera);
}

#[test]
fn save_tab_surfaces_a_snapshot_and_returns_home() {
    let mut s = fresh_scene();
    let r = s.update(&vec![
        Message::Camera(camera_tab::Message::FovChanged(777)),
        Message::Tiling(tiling::Message::SeedChanged(99)),
        Message::SetTab(Tab::Save),
    ]);
    let saved = r.save.expect("save tab raises a snapshot");
    assert_eq!(saved.fov_milli, 777);
    assert_eq!(saved.seed, 99);
    assert_eq!(saved.size, 5);
    assert_eq!(s.controls.tab, Tab::Home);
    // a frame without a save request raises none
    let r = s.update(&vec![Message::SetTab(Tab::Tiling)]);
    assert!(r.save.is_none());
}

#[test]
fn loaded_settings_reach_the_tabs() {
    let saved = Settings {
        fov_milli: 1200,
        height_milli: 5000,
        angle_milli: 300,
        distance_milli: 9000,
        elevation_milli: 400,
        size: 7,
        seed: 123,
    };
    let mut s = Scene::new(640, 480, Some(saved), TilePolicy::Layered);
    assert_eq!(s.controls.camera_tab.fov_milli, 1200);
    assert_eq!(s.controls.tiling_tab.data.size, 7);
    assert_eq!(s.controls.tiling_tab.data.seed, 123);
    assert!(s.controls.tiling_tab.dirty);
    // saving right back reproduces the loaded parameters field for field
    let r = s.update(&vec![Message::SetTab(Tab::Save)]);
    assert_eq!(r.save, Some(saved));
}

#[test]
fn resize_event_updates_the_aspect_ratio() {
    let mut s = fresh_scene();
    s.handle_event(SceneEvent::Resized(1024, 768));
    assert_eq!(s.camera.aspect, Aspect { width: 1024, height: 768 });
    // a zero-height resize is ignored rather than poisoning the projection
    s.handle_event(SceneEvent::Resized(500, 0));
    assert_eq!(s.camera.aspect, Aspect { width: 1024, height: 768 });
    s.handle_event(SceneEvent::Other);
    assert_eq!(s.camera.aspect, Aspect { width: 1024, height: 768 });
}
