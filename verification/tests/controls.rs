use hexa::controls::{all_tabs, Controls, DarkIce, Message, Tab};
use hexa::controls::camera::CameraControls;
use hexa::controls::tiling::{dirty_default, Data, TilingControls};
use hexa::controls::tiling;
use hexa::controls::camera as camera_tab;

#[test]
fn fresh_state_is_dirty_by_default() {
    assert!(dirty_default());
    let t = TilingControls::default();
    assert!(t.dirty);
    assert_eq!(t.data, Data { elevation_milli: 100, size: 5, seed: 42 });
}

#[test]
fn parameter_changes_set_the_dirty_flag() {
    let mut t = TilingControls::default();
    t.update(tiling::Message::Retiled);
    assert!(!t.dirty);
    t.update(tiling::Message::ElevationChanged(500));
    assert!(t.dirty);
    assert_eq!(t.data.elevation_milli, 500);
    t.update(tiling::Message::Retiled);
    assert!(!t.dirty);
    t.update(tiling::Message::SeedChanged(7));
    assert!(t.dirty);
    assert_eq!(t.data, Data { elevation_milli: 500, size: 5, seed: 7 });
}

#[test]
fn retiled_only_clears_the_flag() {
    let mut t = TilingControls::default();
    t.update(tiling::Message::SizeChanged(9));
    let data_before = t.data;
    t.update(tiling::Message::Retiled);
    assert!(!t.dirty);
    assert_eq!(t.data, data_before);
}

#[test]
fn camera_tab_replaces_one_parameter_at_a_time() {
    let mut c = CameraControls::default();
    assert_eq!(c.fov_milli, 1571);
    assert_eq!(c.distance_milli, 6000);
    c.update(camera_tab::Message::AngleChanged(10));
    assert_eq!(c.angle_milli, 10);
    assert_eq!(c.height_milli, 3000);
    c.update(camera_tab::Message::DistanceChanged(123));
    assert_eq!(c.distance_milli, 123);
    assert_eq!(c.angle_milli, 10);
}

#[test]
fn tab_selection_and_save() {
    let mut c = Controls::new(None);
    assert_eq!(c.tab, Tab::Home);
    assert_eq!(c.update(Message::SetTab(Tab::Tiling)), None);
    assert_eq!(c.tab, Tab::Tiling);
    // the save tab is an action: it snapshots and returns home
    let saved = c.update(Message::SetTab(Tab::Save)).expect("save raises a snapshot");
    assert_eq!(saved, c.to_settings());
    assert_eq!(c.tab, Tab::Home);
}

#[test]
fn snapshot_then_reload_keeps_the_parameters() {
    let mut c = Controls::new(None);
    c.update(Message::Camera(camera_tab::Message::HeightChanged(1234)));
    c.update(Message::Tiling(tiling::Message::SizeChanged(11)));
    c.update(Message::Tiling(tiling::Message::Retiled));
    let snapshot = c.to_settings();
    let reloaded = Controls::new(Some(snapshot));
    assert_eq!(reloaded.camera_tab, c.camera_tab);
    assert_eq!(reloaded.tiling_tab.data, c.tiling_tab.data);
    assert_eq!(reloaded.tab, Tab::Home);
    assert!(reloaded.tiling_tab.dirty);
}

#[test]
fn the_four_tabs_in_display_order() {
    assert_eq!(all_tabs(), vec![Tab::Home, Tab::Camera, Tab::Tiling, Tab::Save]);
    assert_eq!(Tab::default(), Tab::Home);
}

#[test]
fn dark_ice_palette() {
    let container = DarkIce.style();
    assert_eq!(container.background.r, 100);
    assert_eq!(container.background.g, 200);
    assert_eq!(container.background.b, 300);
    assert_eq!(container.background.a, 750);
    assert_eq!(container.border_width, 5);
    assert_eq!(container.border_radius, 15);
    assert_eq!(container.text_color.b, 1000);
    let button = DarkIce.active();
    assert_eq!(button.background.g, 745);
    assert_eq!(button.border_radius, 3);
}
