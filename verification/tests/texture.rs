use hexa::multisampled_framebuffer::MultisampledFramebuffer;
use hexa::texture::{Texture, TextureError, TextureFormat};

fn png_2x2_red() -> Vec<u8> {
    vec![
        137, 80, 78, 71, 13, 10, 26, 10, 0, 0, 0, 13, 73, 72, 68, 82, 0, 0, 0, 2, 0, 0, 0, 2, 8,
        6, 0, 0, 0, 114, 182, 13, 36, 0, 0, 0, 17, 73, 68, 65, 84, 120, 156, 99, 248, 207, 192,
        240, 31, 132, 25, 96, 12, 0, 71, 202, 7, 249, 103, 89, 110, 183, 0, 0, 0, 0, 73, 69, 78,
        68, 174, 66, 96, 130,
    ]
}

fn png_2x2_green() -> Vec<u8> {
    vec![
        137, 80, 78, 71, 13, 10, 26, 10, 0, 0, 0, 13, 73, 72, 68, 82, 0, 0, 0, 2, 0, 0, 0, 2, 8,
        6, 0, 0, 0, 114, 182, 13, 36, 0, 0, 0, 14, 73, 68, 65, 84, 120, 156, 99, 96, 248, 15, 133,
        48, 6, 0, 67, 206, 7, 249, 247, 162, 226, 239, 0, 0, 0, 0, 73, 69, 78, 68, 174, 66, 96,
        130,
    ]
}

fn png_3x1() -> Vec<u8> {
    vec![
        137, 80, 78, 71, 13, 10, 26, 10, 0, 0, 0, 13, 73, 72, 68, 82, 0, 0, 0, 3, 0, 0, 0, 1, 8,
        6, 0, 0, 0, 27, 224, 20, 180, 0, 0, 0, 14, 73, 68, 65, 84, 120, 156, 99, 248, 207, 192,
        240, 31, 134, 1, 38, 230, 5, 251, 97, 44, 95, 8, 0, 0, 0, 0, 73, 69, 78, 68, 174, 66, 96,
        130,
    ]
}

#[test]
fn matching_layers_build_an_array() {
    let t = Texture::from_bytes(&vec![png_2x2_red(), png_2x2_green()]).unwrap();
    assert_eq!(t.desc.width, 2);
    assert_eq!(t.desc.height, 2);
    assert_eq!(t.desc.layer_count, 2);
    assert_eq!(t.desc.sample_count, 1);
    assert_eq!(t.desc.format, TextureFormat::Rgba8UnormSrgb);
}

#[test]
fn mismatched_layer_dimensions_are_named() {
    let r = Texture::from_bytes(&vec![png_2x2_red(), png_3x1()]);
    assert_eq!(r.unwrap_err(), TextureError::DimensionMismatch { index: 1 });
}

#[test]
fn undecodable_layer_is_named() {
    let r = Texture::from_bytes(&vec![png_2x2_red(), vec![1, 2, 3, 4]]);
    assert_eq!(r.unwrap_err(), TextureError::DecodeFailed { index: 1 });
    let r = Texture::from_bytes(&vec![vec![]]);
    assert_eq!(r.unwrap_err(), TextureError::DecodeFailed { index: 0 });
}

#[test]
fn an_empty_layer_stack_is_rejected() {
    let r = Texture::from_bytes(&vec![]);
    assert_eq!(r.unwrap_err(), TextureError::NoImages);
}

#[test]
fn depth_texture_matches_its_colour_targets() {
    let t = Texture::create_depth_texture(1920, 1080, 16);
    assert_eq!(t.desc.format, TextureFormat::Depth32Float);
    assert_eq!((t.desc.width, t.desc.height, t.desc.sample_count), (1920, 1080, 16));
}

#[test]
fn framebuffer_pair_shares_the_extent() {
    let f = MultisampledFramebuffer::new(640, 480, 8);
    assert_eq!(f.texture_view.sample_count, 8);
    assert_eq!(f.no_srgb_texture_view.sample_count, 1);
    assert_eq!(f.texture_view.format, TextureFormat::Rgba8Unorm);
    assert_eq!(f.no_srgb_texture_view.format, TextureFormat::Rgba8Unorm);
    assert_eq!((f.texture_view.width, f.texture_view.height), (640, 480));
    assert_eq!(
        (f.no_srgb_texture_view.width, f.no_srgb_texture_view.height),
        (640, 480),
    );
}
