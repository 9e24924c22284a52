use bouncy_sprite::shader::ShaderParams;

#[test]
fn new_params_start_at_zero() {
    let p = ShaderParams::new(5, 3);
    assert_eq!(p.rotation, 0);
    assert_eq!(p.total_colors, 5);
    assert_eq!(p.texture, 3);
}

#[test]
fn set_texture_changes_only_texture() {
    let mut p = ShaderParams::new(5, 3);
    p.set_texture(8);
    assert_eq!(p.texture, 8);
    assert_eq!(p.rotation, 0);
    assert_eq!(p.total_colors, 5);
}

#[test]
fn rotation_step_exact() {
    let mut p = ShaderParams::new(5, 0);
    p.apply_rotation_step(3);
    assert_eq!(p.rotation, 3);
    p.apply_rotation_step(3);
    assert_eq!(p.rotation, 1);
}

#[test]
fn rotation_step_wraps_to_zero() {
    let mut p = ShaderParams::new(5, 0);
    p.apply_rotation_step(2);
    p.apply_rotation_step(3);
    assert_eq!(p.rotation, 0);
}

#[test]
fn bounce_rotation_with_three_colors_is_a_full_cycle() {
    // With three palette rotations the random step can only be 1, so the
    // rotation must walk 0 -> 1 -> 2 -> 0.
    let mut p = ShaderParams::new(3, 0);
    p.bounce_rotation();
    assert_eq!(p.rotation, 1);
    p.bounce_rotation();
    assert_eq!(p.rotation, 2);
    p.bounce_rotation();
    assert_eq!(p.rotation, 0);
}

#[test]
fn bounce_rotation_always_moves_and_stays_in_range() {
    let mut p = ShaderParams::new(5, 0);
    for _ in 0..50 {
        let before = p.rotation;
        p.bounce_rotation();
        assert_ne!(p.rotation, before);
        assert!(p.rotation < p.total_colors);
    }
}
