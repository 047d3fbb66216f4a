use hexa::camera::Camera;
use hexa::scene::Scene;
use hexa::settings::Settings;
use hexa::terrain::TilePolicy;
use hexa::mesh::{hex_mesh, quad_mesh};
use hexa::pipeline::hex::{tile_instance, TileInstance};
use hexa::pipeline::{CapacityError, INSTANCE_CAPACITY};
use hexa::renderer::{Config, FramePlan, Renderer};
use hexa::sprite::Sprite;
use hexa::terrain::Tile;
use hexa::texture::{Texture, TextureDesc, TextureFormat};

fn tile_at(x: u32, y: u32) -> Tile {
    Tile { x, y, elevation_milli: 0, hat: 0, butt: 1, butt_size_milli: 1000 }
}

fn tiles(n: usize) -> Vec<Tile> {
    (0..n).map(|i| tile_at((i / 16) as u32, (i % 16) as u32)).collect()
}

fn tile_texture() -> Texture {
    // the shape of the four-layer hat/butt array the tiles sample
    Texture {
        desc: TextureDesc {
            width: 64,
            height: 64,
            sample_count: 1,
            layer_count: 4,
            format: TextureFormat::Rgba8UnormSrgb,
        },
    }
}

fn sprite_texture() -> Texture {
    Texture {
        desc: TextureDesc {
            width: 64,
            height: 64,
            sample_count: 1,
            layer_count: 1,
            format: TextureFormat::Rgba8UnormSrgb,
        },
    }
}

fn fresh_renderer() -> Renderer {
    Renderer::new(
        800,
        600,
        Config { msaa: 16, camera: Camera::new(800, 600) },
        tile_texture(),
        sprite_texture(),
    )
}

#[test]
fn upload_at_capacity_succeeds_and_one_more_is_rejected() {
    let mut r = fresh_renderer();
    assert_eq!(INSTANCE_CAPACITY, 250);
    assert_eq!(r.set_tiles(&tiles(250)), Ok(()));
    assert_eq!(r.hex_pipeline.instances.count(), 250);
    // one over capacity: rejected whole, the previous upload stays live
    assert_eq!(
        r.set_tiles(&tiles(251)),
        Err(CapacityError { requested: 251, capacity: 250 }),
    );
    assert_eq!(r.hex_pipeline.instances.count(), 250);
}

#[test]
fn sprite_upload_respects_the_same_capacity() {
    let mut r = fresh_renderer();
    let sprite = Sprite { image: 0, x_milli: 0, y_milli: 0, scale_x_milli: 1000, scale_y_milli: 1000 };
    assert_eq!(r.set_sprites(&vec![sprite; 250]), Ok(()));
    assert_eq!(
        r.set_sprites(&vec![sprite; 251]),
        Err(CapacityError { requested: 251, capacity: 250 }),
    );
    assert_eq!(r.quad_pipeline.instances.count(), 250);
}

#[test]
fn tile_placement_formula() {
    let t = Tile { x: 1, y: 3, elevation_milli: -13, hat: 0, butt: 1, butt_size_milli: 1000 };
    // odd row: x = (2 + 1) * 0.866, y = 3 * 1.5
    assert_eq!(
        tile_instance(&t),
        TileInstance {
            x_milli: 2598,
            y_milli: 4500,
            z_milli: -13,
            butt_size_milli: 1000,
            hat: 0,
            butt: 1,
        },
    );
    let even = Tile { x: 2, y: 4, elevation_milli: 7, hat: 2, butt: 3, butt_size_milli: 1700 };
    assert_eq!(tile_instance(&even).x_milli, 4 * 866);
    assert_eq!(tile_instance(&even).y_milli, 6000);
}

#[test]
fn meshes_are_whole_triangles_with_indices_in_range() {
    let hex = hex_mesh();
    assert_eq!(hex.vertices.len(), 19);
    assert_eq!(hex.indices.len(), 54);
    assert_eq!(hex.indices.len() % 3, 0);
    assert!(hex.indices.iter().all(|&i| (i as usize) < hex.vertices.len()));
    let quad = quad_mesh();
    assert_eq!(quad.vertices.len(), 4);
    assert_eq!(quad.indices, vec![2, 1, 0, 0, 3, 2]);
}

#[test]
fn resize_recreates_every_frame_sized_target_in_lockstep() {
    let mut r = fresh_renderer();
    r.set_tiles(&tiles(10)).unwrap();
    r.resize(1024, 768);
    assert_eq!(r.screen_size(), (1024, 768));
    assert_eq!((r.framebuffer.width, r.framebuffer.height), (1024, 768));
    assert_eq!(r.framebuffer.sample_count, 16);
    assert_eq!(r.framebuffer.format, TextureFormat::Rgba8Unorm);
    let depth = r.depth_texture.desc;
    assert_eq!((depth.width, depth.height, depth.sample_count), (1024, 768, 16));
    assert_eq!(depth.format, TextureFormat::Depth32Float);
    let inter = r.fullscreen_triangle_pipeline.no_srgb_framebuffer;
    assert_eq!((inter.width, inter.height, inter.sample_count), (1024, 768, 1));
    // uploads survive the resize, and so do the texture arrays: they are
    // not frame-sized
    assert_eq!(r.hex_pipeline.instances.count(), 10);
    assert_eq!(r.hex_pipeline.diffuse_texture, tile_texture());
    assert_eq!(r.quad_pipeline.diffuse_texture, sprite_texture());
}

#[test]
fn pipelines_record_their_texture_arrays() {
    let r = fresh_renderer();
    assert_eq!(r.hex_pipeline.diffuse_texture.desc.layer_count, 4);
    assert_eq!(r.quad_pipeline.diffuse_texture.desc.layer_count, 1);
    assert_eq!(
        r.hex_pipeline.diffuse_texture.desc.format,
        TextureFormat::Rgba8UnormSrgb,
    );
}

#[test]
fn frame_plan_resolves_through_the_intermediate() {
    let mut r = fresh_renderer();
    r.set_tiles(&tiles(16)).unwrap();
    let plan = r.render(true).expect("acquired frame renders");
    assert_eq!(
        plan,
        FramePlan {
            world_multisampled: true,
            hex_draw: hexa::pipeline::IndexedDraw { index_count: 54, instance_count: 16 },
            quad_draw: hexa::pipeline::IndexedDraw { index_count: 6, instance_count: 0 },
            resolve_draw: hexa::pipeline::PlainDraw { vertex_count: 3, instance_count: 1 },
        },
    );
    // with multisampling off the world pass draws the intermediate directly
    let single = Renderer::new(
        100,
        100,
        Config { msaa: 1, camera: Camera::new(100, 100) },
        tile_texture(),
        sprite_texture(),
    );
    let plan = single.render(true).unwrap();
    assert!(!plan.world_multisampled);
}

#[test]
fn an_oversized_grid_is_rejected_explicitly() {
    // a 16-wide layered grid yields 262 tiles, past the 250-instance
    // buffer: the upload must fail loudly, not truncate
    let saved = Settings { size: 16, ..Settings::default() };
    let mut scene: Scene = Scene::new(800, 600, Some(saved), TilePolicy::Layered);
    let mut renderer = fresh_renderer();
    let actions = scene.update(&vec![]);
    let tiles = actions.tiles.expect("fresh parameters regenerate");
    assert_eq!(tiles.len(), 262);
    assert_eq!(
        renderer.set_tiles(&tiles),
        Err(CapacityError { requested: 262, capacity: 250 }),
    );
    assert_eq!(renderer.hex_pipeline.instances.count(), 0);
}

#[test]
fn unacquired_frame_is_dropped_not_fatal() {
    let r = fresh_renderer();
    assert!(r.render(false).is_none());
}
