use wgpu_rendering::aspect_correction;

#[test]
fn square_viewport_needs_no_correction() {
    for size in [1u32, 600, 800, 4096] {
        let correction = aspect_correction(size, size);
        assert_eq!(correction.min_dim, size);
        assert_eq!(correction.width, size);
        assert_eq!(correction.height, size);
        // Both ratio components are exactly one.
        assert_eq!(correction.min_dim as f32 / correction.width as f32, 1.0);
        assert_eq!(correction.min_dim as f32 / correction.height as f32, 1.0);
    }
}

#[test]
fn wide_viewport_shrinks_x() {
    let correction = aspect_correction(1600, 1000);
    assert_eq!(correction.min_dim, 1000);
    assert_eq!(correction.width, 1600);
    assert_eq!(correction.height, 1000);
    let x = correction.min_dim as f32 / correction.width as f32;
    let y = correction.min_dim as f32 / correction.height as f32;
    assert_eq!(x, 0.625);
    assert_eq!(y, 1.0);
}

#[test]
fn tall_viewport_shrinks_y() {
    let correction = aspect_correction(500, 2000);
    assert_eq!(correction.min_dim, 500);
    assert_eq!(correction.min_dim as f32 / correction.height as f32, 0.25);
}
