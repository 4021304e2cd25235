use hello_shader::{tumble_turns, Axis, Turn};

fn total(turns: &[Turn], axis: Axis) -> i128 {
    turns.iter().filter(|t| t.axis == axis).map(|t| t.angle).sum()
}

#[test]
fn one_frame_turns_minus_dt_about_y_and_plus_dt_about_x() {
    let turns = tumble_turns(16_666_667);
    assert_eq!(
        turns,
        vec![Turn { axis: Axis::Y, angle: -16_666_667 }, Turn { axis: Axis::X, angle: 16_666_667 }]
    );
    assert_eq!(total(&turns, Axis::Y), -16_666_667);
    assert_eq!(total(&turns, Axis::X), 16_666_667);
}

#[test]
fn no_elapsed_time_turns_nothing() {
    let turns = tumble_turns(0);
    assert!(turns.iter().all(|t| t.angle == 0));
    assert_eq!(total(&turns, Axis::X), 0);
    assert_eq!(total(&turns, Axis::Y), 0);
}

#[test]
fn two_updates_add_up_per_axis() {
    let mut both = tumble_turns(7_000_000);
    both.extend(tumble_turns(9_000_000));
    let once = tumble_turns(16_000_000);
    assert_eq!(total(&both, Axis::X), total(&once, Axis::X));
    assert_eq!(total(&both, Axis::Y), total(&once, Axis::Y));
    assert_eq!(total(&both, Axis::X), 16_000_000);
}

#[test]
fn largest_elapsed_time() {
    let turns = tumble_turns(u64::MAX);
    assert_eq!(turns[0].angle, -(u64::MAX as i128));
    assert_eq!(turns[1].angle, u64::MAX as i128);
}
