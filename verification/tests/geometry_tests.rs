use autobahx::geometry::{check_collision, check_overlap, Rect, Vector2i};

fn rect(x: i32, y: i32, w: i32, h: i32) -> Rect {
    Rect { pos: Vector2i { x, y }, size: Vector2i { x: w, y: h } }
}

#[test]
fn edge_touching_rects_do_not_collide() {
    // player.right == car.left: sharing only the boundary edge is no contact
    let player = rect(100, 100, 30, 60);
    let car = rect(130, 100, 30, 60);
    assert!(!check_overlap(&player, &car));

    // player.bottom == car.top
    let below = rect(100, 160, 30, 60);
    assert!(!check_overlap(&player, &below));

    // car.right == player.left
    let left_of = rect(70, 100, 30, 60);
    assert!(!check_overlap(&player, &left_of));
}

#[test]
fn one_unit_overlap_collides() {
    let player = rect(100, 100, 30, 60);
    // car.left == player.right - 1: one unit of horizontal overlap
    let car = rect(129, 100, 30, 60);
    assert!(check_overlap(&player, &car));

    // one unit of vertical overlap
    let below = rect(100, 159, 30, 60);
    assert!(check_overlap(&player, &below));
}

#[test]
fn collision_scan_reports_any_overlap() {
    let player = rect(385, 540, 30, 60);
    let clear = vec![rect(300, 0, 30, 60), rect(340, 200, 30, 60), rect(420, 480, 30, 60)];
    assert!(!check_collision(&player, &clear));

    let with_hit = vec![rect(300, 0, 30, 60), rect(380, 520, 30, 60)];
    assert!(check_collision(&player, &with_hit));

    let empty: Vec<Rect> = Vec::new();
    assert!(!check_collision(&player, &empty));
}
