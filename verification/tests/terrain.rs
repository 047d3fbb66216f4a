use hexa::terrain::{generate_tiles, noise_milli, sample_milli, Tile, TilePolicy};

#[test]
fn generation_is_deterministic() {
    let a = generate_tiles(5, 42, 100, TilePolicy::Ring);
    let b = generate_tiles(5, 42, 100, TilePolicy::Ring);
    assert_eq!(a, b);
    let c = generate_tiles(9, 7, 2500, TilePolicy::Layered);
    let d = generate_tiles(9, 7, 2500, TilePolicy::Layered);
    assert_eq!(c, d);
}

#[test]
fn default_scenario_is_nonempty_and_in_grid() {
    // the documented defaults: size 5, seed 42, elevation 0.1
    for policy in [TilePolicy::Ring, TilePolicy::Layered] {
        let tiles = generate_tiles(5, 42, 100, policy);
        assert!(!tiles.is_empty());
        for t in &tiles {
            assert!(t.x < 5);
            assert!(t.y < 5);
        }
    }
}

#[test]
fn noise_exact_values() {
    assert_eq!(noise_milli(42, 0, 0, 5), -100);
    assert_eq!(noise_milli(42, 2, 2, 5), -183);
    assert_eq!(noise_milli(42, 4, 4, 5), 376);
    assert_eq!(sample_milli(42, 0, 0, 5, 100), -10);
    assert_eq!(sample_milli(42, 4, 4, 5, 100), 37);
}

#[test]
fn noise_is_within_unit_range() {
    for seed in [0u32, 1, 42, 0xFFFF_FFFF] {
        for x in 0..7u32 {
            for y in 0..7u32 {
                let n = noise_milli(seed, x, y, 7);
                assert!(-1000 <= n && n <= 1000);
            }
        }
    }
}

#[test]
fn ring_layout_for_defaults() {
    let tiles = generate_tiles(5, 42, 100, TilePolicy::Ring);
    // 16 cells fall inside the outer radius; 4 of them inside the inner one
    assert_eq!(tiles.len(), 16);
    // the cell nearest the centre gets the raised snow-cap treatment
    let cap = tiles.iter().find(|t| t.x == 2 && t.y == 2).unwrap();
    assert_eq!(
        *cap,
        Tile { x: 2, y: 2, elevation_milli: 882, hat: 2, butt: 3, butt_size_milli: 1700 },
    );
    // a cell in the outer ring keeps the sampled height and base layers
    let base = tiles.iter().find(|t| t.x == 1 && t.y == 3).unwrap();
    assert_eq!(
        *base,
        Tile { x: 1, y: 3, elevation_milli: -13, hat: 0, butt: 1, butt_size_milli: 1000 },
    );
    // a corner cell lies outside the outer radius and is omitted
    assert!(tiles.iter().all(|t| !(t.x == 0 && t.y == 0)));
}

#[test]
fn layered_layout_emits_base_everywhere_and_caps_on_high_ground() {
    // seed 2 at full elevation scale: every cell a base tile, 4 cells
    // sample above half the scale and get a cap stacked on top
    let tiles = generate_tiles(5, 2, 1000, TilePolicy::Layered);
    assert_eq!(tiles.len(), 29);
    let at_origin: Vec<&Tile> = tiles.iter().filter(|t| t.x == 0 && t.y == 0).collect();
    assert_eq!(at_origin.len(), 2);
    assert_eq!(
        *at_origin[0],
        Tile { x: 0, y: 0, elevation_milli: 0, hat: 2, butt: 3, butt_size_milli: 1288 },
    );
    assert_eq!(
        *at_origin[1],
        Tile { x: 0, y: 0, elevation_milli: 0, hat: 0, butt: 1, butt_size_milli: 260 },
    );
}

#[test]
fn layered_layout_low_scale_has_no_caps() {
    let tiles = generate_tiles(5, 42, 100, TilePolicy::Layered);
    // one base tile per cell, no cell sampling above half the scale
    assert_eq!(tiles.len(), 25);
    assert!(tiles.iter().all(|t| t.hat == 2 && t.butt == 3));
}

#[test]
fn empty_grid_yields_no_tiles() {
    assert!(generate_tiles(0, 42, 100, TilePolicy::Ring).is_empty());
    assert!(generate_tiles(0, 42, 100, TilePolicy::Layered).is_empty());
}
