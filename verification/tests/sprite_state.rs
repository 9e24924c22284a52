use bouncy_sprite::sprite::Bouncy;

#[test]
fn new_sprite_defaults() {
    let b = Bouncy::new(vec![7, 9], 200);
    assert_eq!(b.x, 1);
    assert_eq!(b.y, 1);
    assert_eq!(b.img, 0);
    assert_eq!(b.scale, 200);
    assert!(!b.moving);
}

#[test]
fn scale_one_wheel_notch() {
    let mut b = Bouncy::new(vec![7, 9], 200);
    b.adjust_scale(33);
    assert_eq!(b.scale, 233);
    b.adjust_scale(-33);
    assert_eq!(b.scale, 200);
}

#[test]
fn scale_clamps_at_top() {
    let mut b = Bouncy::new(vec![7, 9], 200);
    b.adjust_scale(1_000_000);
    assert_eq!(b.scale, bouncy_sprite::SCALE_MAX_MILLI);
}

#[test]
fn scale_clamps_at_bottom() {
    let mut b = Bouncy::new(vec![7, 9], 200);
    b.adjust_scale(-1_000_000);
    assert_eq!(b.scale, bouncy_sprite::SCALE_MIN_MILLI);
}

#[test]
fn scale_stays_in_band_over_many_steps() {
    let mut b = Bouncy::new(vec![7, 9], 200);
    let deltas = [500, -900, 33, 33, 33, -5000, 7000, 0, -1];
    for d in deltas {
        b.adjust_scale(d);
        assert!(bouncy_sprite::SCALE_MIN_MILLI <= b.scale);
        assert!(b.scale <= bouncy_sprite::SCALE_MAX_MILLI);
    }
}

#[test]
fn toggle_moving_flips() {
    let mut b = Bouncy::new(vec![7, 9], 200);
    b.toggle_moving();
    assert!(b.moving);
    b.toggle_moving();
    assert!(!b.moving);
}

#[test]
fn cycle_image_wraps_and_returns_texture() {
    let mut b = Bouncy::new(vec![7, 9], 200);
    let t = b.cycle_image();
    assert_eq!(b.img, 1);
    assert_eq!(t, 9);
    let t = b.cycle_image();
    assert_eq!(b.img, 0);
    assert_eq!(t, 7);
}

#[test]
fn cycle_image_single_texture() {
    let mut b = Bouncy::new(vec![42], 100);
    let t = b.cycle_image();
    assert_eq!(b.img, 0);
    assert_eq!(t, 42);
}

#[test]
fn cycle_image_index_stays_in_bounds() {
    let mut b = Bouncy::new(vec![5, 6, 7], 300);
    for _ in 0..10 {
        b.cycle_image();
        assert!((b.img as usize) < b.imgs.len());
    }
}
