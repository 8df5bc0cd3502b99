use arena::animation::Animation;
use arena::color::Rgb;

fn red() -> Rgb {
    Rgb { r: 255, g: 0, b: 0 }
}

#[test]
fn new_animation_has_not_run() {
    let a = Animation::new(16, 250, red());
    assert_eq!(a.time_running, 0);
    assert_eq!(a.step_duration, 16);
    assert_eq!(a.duration, 250);
    assert_eq!(a.color, red());
    assert_eq!(a.step(), 0);
    assert!(!a.is_expired());
}

#[test]
fn update_adds_up_the_time() {
    let mut a = Animation::new(16, 250, red());
    a.update(16);
    a.update(17);
    assert_eq!(a.time_running, 33);
    assert_eq!(a.step_duration, 16);
    assert_eq!(a.duration, 250);
    assert_eq!(a.color, red());
}

#[test]
fn update_by_zero_changes_nothing() {
    let mut a = Animation::new(16, 250, red());
    a.update(40);
    a.update(0);
    assert_eq!(a.time_running, 40);
}

#[test]
fn step_counts_whole_steps() {
    let mut a = Animation::new(16, 250, red());
    a.update(15);
    assert_eq!(a.step(), 0);
    a.update(1);
    assert_eq!(a.step(), 1);
    a.update(84);
    assert_eq!(a.time_running, 100);
    assert_eq!(a.step(), 6);
}

#[test]
fn step_with_unit_duration_is_the_time() {
    let mut a = Animation::new(1, 10, red());
    a.update(7);
    assert_eq!(a.step(), 7);
}

#[test]
fn expires_only_past_its_duration() {
    let mut a = Animation::new(16, 250, red());
    a.update(250);
    assert!(!a.is_expired());
    a.update(1);
    assert!(a.is_expired());
}

#[test]
fn zero_duration_expires_with_the_first_tick() {
    let mut a = Animation::new(16, 0, red());
    assert!(!a.is_expired());
    a.update(1);
    assert!(a.is_expired());
}

#[test]
fn update_reaches_the_largest_time() {
    let mut a = Animation::new(16, 250, red());
    a.update(u32::MAX - 1);
    a.update(1);
    assert_eq!(a.time_running, u32::MAX);
    assert_eq!(a.step(), u32::MAX / 16);
}

#[test]
fn expired_effect_stays_expired() {
    let mut a = Animation::new(16, 250, red());
    a.update(300);
    assert!(a.is_expired());
    a.update(0);
    assert!(a.is_expired());
    a.update(5000);
    assert!(a.is_expired());
}

#[test]
fn ageing_in_slices_is_ageing_by_their_sum() {
    let mut sliced = Animation::new(16, 250, red());
    sliced.update(120);
    sliced.update(131);
    let mut whole = Animation::new(16, 250, red());
    whole.update(251);
    assert_eq!(sliced.time_running, whole.time_running);
    assert_eq!(sliced.step(), whole.step());
    assert_eq!(sliced.is_expired(), whole.is_expired());
}
