use moonwalk::bootstrap::window::WindowSettings;
use moonwalk::vector::Vec2Bits;

fn size(w: f32, h: f32) -> Vec2Bits {
    Vec2Bits::new(w.to_bits(), h.to_bits())
}

#[test]
fn new_window_settings_have_the_defaults() {
    let s = WindowSettings::new("Scene".to_string(), 1280.0f32.to_bits(), 720.0f32.to_bits());
    assert_eq!(s.title, "Scene");
    assert_eq!(s.initial_size, size(1280.0, 720.0));
    assert_eq!(s.min_size, None);
    assert_eq!(s.max_size, None);
    assert!(s.resizable);
    assert!(!s.transparent);
    assert!(s.decorated);
}

#[test]
fn window_settings_builders_change_one_setting_each() {
    let s = WindowSettings::new("Scene".to_string(), 800.0f32.to_bits(), 600.0f32.to_bits())
        .with_min_size(320.0f32.to_bits(), 240.0f32.to_bits())
        .with_max_size(1920.0f32.to_bits(), 1080.0f32.to_bits())
        .resizable(false)
        .transparent(true)
        .no_decoration();
    assert_eq!(s.title, "Scene");
    assert_eq!(s.initial_size, size(800.0, 600.0));
    assert_eq!(s.min_size, Some(size(320.0, 240.0)));
    assert_eq!(s.max_size, Some(size(1920.0, 1080.0)));
    assert!(!s.resizable);
    assert!(s.transparent);
    assert!(!s.decorated);

    let t = s.clone().resizable(true).transparent(false);
    assert!(t.resizable);
    assert!(!t.transparent);
    assert!(!t.decorated);
    assert_eq!(t.min_size, s.min_size);
}
