use recoilly::spray_pattern::{DrawPoints, Payload, SprayPattern};

fn point(x: i32, color: &str) -> DrawPoints {
    DrawPoints { x, y: -x, color: color.to_string(), size: 4 }
}

fn summary(points: &[DrawPoints]) -> Vec<(i32, i32, String, i32)> {
    points.iter().map(|p| (p.x, p.y, p.color.clone(), p.size)).collect()
}

#[test]
fn a_new_pattern_has_no_points() {
    assert!(SprayPattern::new().get_points().is_empty());
}

#[test]
fn points_are_kept_in_the_order_of_their_adding() {
    let mut pattern = SprayPattern::new();
    pattern.add_point(point(1, "#ff0000"));
    pattern.add_point(point(2, "#00ff00"));
    pattern.add_point(point(1, "#ff0000"));
    assert_eq!(
        summary(&pattern.get_points()),
        vec![
            (1, -1, "#ff0000".to_string(), 4),
            (2, -2, "#00ff00".to_string(), 4),
            (1, -1, "#ff0000".to_string(), 4),
        ]
    );
}

#[test]
fn get_points_hands_out_a_copy() {
    let mut pattern = SprayPattern::new();
    pattern.add_point(point(7, "blue"));
    let mut copy = pattern.get_points();
    copy[0].x = 99;
    copy[0].color.push_str("ish");
    copy.clear();
    assert_eq!(summary(&pattern.get_points()), vec![(7, -7, "blue".to_string(), 4)]);
}

#[test]
fn a_drawn_point_clones_field_by_field() {
    let drawn = point(5, "#abcdef");
    let copy = drawn.clone();
    assert_eq!(summary(&[copy]), summary(&[drawn]));
}

#[test]
fn a_message_clones_its_point() {
    let message = Payload { payload: point(9, "white") };
    let copy = message.clone();
    assert_eq!(summary(&[copy.payload]), vec![(9, -9, "white".to_string(), 4)]);
}
