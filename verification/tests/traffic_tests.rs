use autobahx::rng::SeededRng;
use autobahx::traffic::{TrafficCar, TrafficField, ENTRY_Y_MAX, ENTRY_Y_MIN};

fn single_car_field(lane: i32, y: i32) -> TrafficField {
    TrafficField {
        cars: vec![TrafficCar { lane, y }],
        lane_count: 5,
        stage_height: 600,
        scroll_speed: 2,
    }
}

#[test]
fn car_scrolls_without_recycling_inside_stage() {
    // lane 2, y 590, scroll 2: next tick is y 592, not yet recycled
    let mut field = single_car_field(2, 590);
    field.advance();
    assert_eq!(field.cars[0].lane, 2);
    assert_eq!(field.cars[0].y, 592);
}

#[test]
fn car_recycles_once_past_stage_bottom() {
    let mut field = single_car_field(2, 590);
    // 592, 594, 596, 598, 600 are all kept (600 exceeds nothing yet)
    for _ in 0..5 {
        field.advance();
    }
    assert_eq!(field.cars[0].lane, 2);
    assert_eq!(field.cars[0].y, 600);
    // the next step would reach 602 > 600: the car is recycled instead
    field.advance();
    let car = field.cars[0];
    assert!((0..5).contains(&car.lane));
    assert!(ENTRY_Y_MIN <= car.y && car.y < ENTRY_Y_MAX);
}

#[test]
fn pool_size_and_lanes_invariant_across_many_ticks() {
    let mut field = TrafficField::new(8, 5, 600, 2);
    assert_eq!(field.cars.len(), 8);
    for _ in 0..2000 {
        field.advance();
        assert_eq!(field.cars.len(), 8);
        for car in &field.cars {
            assert!((0..5).contains(&car.lane));
            assert!(ENTRY_Y_MIN <= car.y && car.y <= 600);
        }
    }
}

#[test]
fn fresh_pool_starts_inside_entry_band() {
    let field = TrafficField::new(100, 5, 600, 2);
    assert_eq!(field.cars.len(), 100);
    for car in &field.cars {
        assert!((0..5).contains(&car.lane));
        assert!(ENTRY_Y_MIN <= car.y && car.y < ENTRY_Y_MAX);
    }
}

#[test]
fn seeded_pools_are_reproducible() {
    let mut rng_a = SeededRng::new(42);
    let mut rng_b = SeededRng::new(42);
    let field_a = TrafficField::new_seeded(8, 5, 600, 2, &mut rng_a);
    let field_b = TrafficField::new_seeded(8, 5, 600, 2, &mut rng_b);
    for i in 0..8 {
        assert_eq!(field_a.cars[i].lane, field_b.cars[i].lane);
        assert_eq!(field_a.cars[i].y, field_b.cars[i].y);
    }
}

#[test]
fn seeded_recycling_is_reproducible() {
    let mut a = single_car_field(1, 599);
    let mut b = single_car_field(1, 599);
    let mut rng_a = SeededRng::new(7);
    let mut rng_b = SeededRng::new(7);
    a.advance_seeded(&mut rng_a);
    b.advance_seeded(&mut rng_b);
    assert_eq!(a.cars[0].lane, b.cars[0].lane);
    assert_eq!(a.cars[0].y, b.cars[0].y);
    assert!(ENTRY_Y_MIN <= a.cars[0].y && a.cars[0].y < ENTRY_Y_MAX);
}

#[test]
fn seeded_draws_stay_in_range() {
    let mut rng = SeededRng::new(123456789);
    for _ in 0..1000 {
        let v = rng.next_below(5);
        assert!((0..5).contains(&v));
        let w = rng.next_in_range(ENTRY_Y_MIN, ENTRY_Y_MAX);
        assert!(ENTRY_Y_MIN <= w && w < ENTRY_Y_MAX);
    }
}
