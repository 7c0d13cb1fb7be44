use ratthew::direction::Direction;
use ratthew::direction::GridDirection;
use ratthew::layer::LayerKind;
use ratthew::layer::LayerVariant;
use ratthew::layer::ParseLayerError;
use ratthew::layer::grid_position_from_pixels;
use ratthew::layer::parse_layer_data;
use ratthew::layer::split_identifier;
use ratthew::position::GridPosition;

#[test]
fn wall_layers_parse_from_all_tile_based_kinds() {
    for kind in [LayerKind::AutoLayer, LayerKind::IntGrid, LayerKind::Tiles] {
        let d = parse_layer_data("Walls_main", "iid-0", kind, 16, 16).unwrap();
        assert_eq!(d.name, "main");
        assert_eq!(d.variant, LayerVariant::Walls);
        assert_eq!(d.sprite_width, 16);
        assert_eq!(d.sprite_height, 16);
    }
}

#[test]
fn entity_layers_parse_particles_and_ramps() {
    let p = parse_layer_data("Particles_torches", "iid-1", LayerKind::Entities, 8, 8).unwrap();
    assert_eq!(p.name, "torches");
    assert_eq!(p.variant, LayerVariant::Particles);

    let r = parse_layer_data("Ramps_upper", "iid-2", LayerKind::Entities, 8, 8).unwrap();
    assert_eq!(r.name, "upper");
    assert_eq!(r.variant, LayerVariant::Ramps);
}

#[test]
fn identifier_without_underscore_is_a_title_error() {
    let e = parse_layer_data("Background", "level-iid-7", LayerKind::Tiles, 16, 16).unwrap_err();
    assert_eq!(e, ParseLayerError::Title(String::from("level-iid-7")));
}

#[test]
fn inadmissible_variant_is_a_variant_error() {
    let e = parse_layer_data("Walls_main", "iid-3", LayerKind::Entities, 16, 16).unwrap_err();
    assert_eq!(e, ParseLayerError::Variant(String::from("Walls")));

    let e = parse_layer_data("Ramps_upper", "iid-4", LayerKind::Tiles, 16, 16).unwrap_err();
    assert_eq!(e, ParseLayerError::Variant(String::from("Ramps")));

    let e = parse_layer_data("Standees_crowd", "iid-5", LayerKind::Entities, 16, 16).unwrap_err();
    assert_eq!(e, ParseLayerError::Variant(String::from("Standees")));
}

#[test]
fn split_happens_at_the_first_underscore_only() {
    assert_eq!(
        split_identifier("Walls_main_extra"),
        Some((String::from("Walls"), String::from("main_extra")))
    );
    assert_eq!(split_identifier("_leading"), Some((String::from(""), String::from("leading"))));
    assert_eq!(split_identifier("trailing_"), Some((String::from("trailing"), String::from(""))));
    assert_eq!(split_identifier("NoSplit"), None);
    assert_eq!(split_identifier(""), None);
}

#[test]
fn empty_variant_text_is_rejected() {
    let e = parse_layer_data("_main", "iid-6", LayerKind::Tiles, 16, 16).unwrap_err();
    assert_eq!(e, ParseLayerError::Variant(String::from("")));
}

#[test]
fn case_matters_for_variant_names() {
    let e = parse_layer_data("walls_main", "iid-8", LayerKind::Tiles, 16, 16).unwrap_err();
    assert_eq!(e, ParseLayerError::Variant(String::from("walls")));
}

#[test]
fn tile_pixels_map_to_lattice_cells() {
    let offset = GridPosition { x: 32, y: 2, z: -16 };
    // A 16-pixel grid: tile pixels land on cell corners.
    assert_eq!(
        grid_position_from_pixels(48, 64, offset, 16),
        GridPosition { x: 5, y: 2, z: 3 }
    );
    // Pixels inside a cell truncate down to the same cell.
    assert_eq!(
        grid_position_from_pixels(49, 79, offset, 16),
        GridPosition { x: 5, y: 2, z: 3 }
    );
    // The origin tile of the shifted level.
    assert_eq!(
        grid_position_from_pixels(-32, 16, offset, 16),
        GridPosition { x: 0, y: 2, z: 0 }
    );
}

#[test]
fn flat_cells_report_equal_edge_heights_in_every_direction() {
    let p = GridPosition { x: 3, y: 2, z: -5 };
    for d in [Direction::North, Direction::East, Direction::South, Direction::West] {
        assert_eq!(p.edge_heights(GridDirection(d), None), (2, 2));
    }
}

#[test]
fn ramp_edge_heights_depend_on_the_quarter_turn_offset() {
    let p = GridPosition { x: 0, y: 0, z: 0 };
    let ramp_facing = Some(GridDirection(Direction::East));
    // Looking uphill: both edges high.
    assert_eq!(p.edge_heights(GridDirection(Direction::East), ramp_facing), (1, 1));
    // Looking downhill: both edges low.
    assert_eq!(p.edge_heights(GridDirection(Direction::West), ramp_facing), (0, 0));
    // Looking across the slope, one edge of the pair is lifted.
    assert_eq!(p.edge_heights(GridDirection(Direction::North), ramp_facing), (0, 1));
    assert_eq!(p.edge_heights(GridDirection(Direction::South), ramp_facing), (1, 0));
}

#[test]
fn ramp_edge_heights_sit_on_top_of_the_cell_altitude() {
    let p = GridPosition { x: 0, y: 4, z: 0 };
    assert_eq!(p.edge_heights(GridDirection(Direction::North), Some(GridDirection(Direction::North))), (5, 5));
    assert_eq!(p.edge_heights(GridDirection(Direction::South), Some(GridDirection(Direction::North))), (4, 4));
}

#[test]
fn navigation_steps_one_cell() {
    let p = GridPosition { x: 0, y: 0, z: 0 };
    let north = GridDirection(Direction::North);
    assert_eq!(p.forward(&north), GridPosition { x: 0, y: 0, z: -1 });
    assert_eq!(p.right(&north), GridPosition { x: 1, y: 0, z: 0 });
    assert_eq!(p.back(&north), GridPosition { x: 0, y: 0, z: 1 });
    assert_eq!(p.left(&north), GridPosition { x: -1, y: 0, z: 0 });
    assert_eq!(p.up(), GridPosition { x: 0, y: 1, z: 0 });
    assert_eq!(p.down(), GridPosition { x: 0, y: -1, z: 0 });
}

#[test]
fn navigation_relative_to_east_rotates_the_step() {
    let p = GridPosition { x: 0, y: 0, z: 0 };
    let east = GridDirection(Direction::East);
    assert_eq!(p.forward(&east), GridPosition { x: 1, y: 0, z: 0 });
    assert_eq!(p.right(&east), GridPosition { x: 0, y: 0, z: 1 });
    assert_eq!(p.back(&east), GridPosition { x: -1, y: 0, z: 0 });
    assert_eq!(p.left(&east), GridPosition { x: 0, y: 0, z: -1 });
}

#[test]
fn the_four_relative_steps_form_a_closed_cycle() {
    // forward, right, back, left from any one facing visit four distinct
    // neighbours and sum to no net displacement.
    let p = GridPosition { x: 10, y: 0, z: 10 };
    for d in [Direction::North, Direction::East, Direction::South, Direction::West] {
        let gd = GridDirection(d);
        let steps = [p.forward(&gd), p.right(&gd), p.back(&gd), p.left(&gd)];
        let sum_x: i32 = steps.iter().map(|q| q.x - p.x).sum();
        let sum_z: i32 = steps.iter().map(|q| q.z - p.z).sum();
        assert_eq!(sum_x, 0);
        assert_eq!(sum_z, 0);
        for (i, a) in steps.iter().enumerate() {
            for b in steps.iter().skip(i + 1) {
                assert_ne!(a, b);
            }
        }
    }
}
