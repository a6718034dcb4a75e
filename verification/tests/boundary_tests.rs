use autobahx::boundary::{Boundary, ConfigError};

#[test]
fn boundary_of_reference_stage() {
    // stage 800, five lanes of 40: corridor is {left: 300, right: 500}
    let b = Boundary::compute(800, 5, 40).unwrap();
    assert_eq!(b.left, 300);
    assert_eq!(b.right, 500);
}

#[test]
fn boundary_is_centred() {
    let b = Boundary::compute(1000, 4, 50).unwrap();
    assert_eq!(b.left, 400);
    assert_eq!(b.right, 600);
}

#[test]
fn boundary_rejects_non_positive_lane_count() {
    assert_eq!(Boundary::compute(800, 0, 40), Err(ConfigError::InvalidConfiguration));
    assert_eq!(Boundary::compute(800, -3, 40), Err(ConfigError::InvalidConfiguration));
}

#[test]
fn boundary_rejects_non_positive_lane_width() {
    assert_eq!(Boundary::compute(800, 5, 0), Err(ConfigError::InvalidConfiguration));
    assert_eq!(Boundary::compute(800, 5, -1), Err(ConfigError::InvalidConfiguration));
}
