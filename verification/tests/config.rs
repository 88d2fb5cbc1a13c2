use grid_viewport::config::{ConfigError, GridConfig};
use grid_viewport::geometry::{Extent, GridPosition, Size};

#[test]
fn config_keeps_what_it_was_given() {
    let scale = Extent { num: 6, den: 10 };
    let config = GridConfig::new(10, 12, 100, scale).unwrap();
    assert_eq!(config.arena_width(), 10);
    assert_eq!(config.arena_height(), 12);
    assert_eq!(config.global_padding(), 100);
    assert_eq!(config.square_scale(), scale);
}

#[test]
fn config_with_a_single_cell_is_accepted() {
    assert!(GridConfig::new(1, 1, 0, Extent { num: 1, den: 1 }).is_ok());
    assert!(GridConfig::new(u32::MAX, u32::MAX, u32::MAX, Extent { num: 1, den: 1 }).is_ok());
}

#[test]
fn config_without_width_is_refused() {
    let r = GridConfig::new(0, 10, 100, Extent { num: 6, den: 10 });
    assert_eq!(r, Err(ConfigError::InvalidConfiguration));
}

#[test]
fn config_without_height_is_refused() {
    let r = GridConfig::new(10, 0, 100, Extent { num: 6, den: 10 });
    assert_eq!(r, Err(ConfigError::InvalidConfiguration));
}

#[test]
fn config_without_cells_is_refused() {
    let r = GridConfig::new(0, 0, 0, Extent { num: 6, den: 10 });
    assert_eq!(r, Err(ConfigError::InvalidConfiguration));
}

#[test]
fn square_has_equal_sides() {
    let side = Extent { num: 6, den: 10 };
    let s = Size::square(side);
    assert_eq!(s.width, side);
    assert_eq!(s.height, side);
    assert_eq!(s, Size { width: side, height: side });
}

#[test]
fn default_position_is_the_first_cell() {
    assert_eq!(GridPosition::default(), GridPosition { x: 0, y: 0 });
}
