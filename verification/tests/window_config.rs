use notan_draw::config::WindowConfig;

#[test]
fn new_uses_default_values() {
    let c = WindowConfig::new();
    assert_eq!(c.title, "Notan App");
    assert_eq!(c.width, 800);
    assert_eq!(c.height, 600);
    assert!(!c.fullscreen);
    assert_eq!(c.min_size, None);
    assert_eq!(c.max_size, None);
    assert!(!c.maximized);
    assert!(!c.resizable);
    assert!(!c.vsync);
    assert_eq!(c.multisampling, 0);
    assert!(c.canvas_auto_resolution);
    assert!(!c.lazy_loop);
    assert!(!c.transparent);
    assert!(c.decorations);
    assert!(c.visible);
}

#[test]
fn builders_set_their_fields() {
    let c = WindowConfig::new()
        .title("demo")
        .size(1024, 768)
        .fullscreen(true)
        .min_size(320, 200)
        .max_size(1920, 1080)
        .maximized(true)
        .resizable(true)
        .vsync(true)
        .multisampling(4)
        .canvas_auto_resolution(false)
        .lazy_loop(true)
        .transparent(true)
        .decorations(false)
        .visible(false);
    assert_eq!(c.title, "demo");
    assert_eq!(c.width, 1024);
    assert_eq!(c.height, 768);
    assert!(c.fullscreen);
    assert_eq!(c.min_size, Some((320, 200)));
    assert_eq!(c.max_size, Some((1920, 1080)));
    assert!(c.maximized);
    assert!(c.resizable);
    assert!(c.vsync);
    assert_eq!(c.multisampling, 4);
    assert!(!c.canvas_auto_resolution);
    assert!(c.lazy_loop);
    assert!(c.transparent);
    assert!(!c.decorations);
    assert!(!c.visible);
}

#[test]
fn builders_leave_other_fields_alone() {
    let c = WindowConfig::new().vsync(true);
    assert_eq!(c.title, "Notan App");
    assert_eq!(c.width, 800);
    assert_eq!(c.height, 600);
    assert!(c.vsync);
    assert!(c.decorations);
    let c = c.size(10, 20);
    assert!(c.vsync);
    assert_eq!(c.width, 10);
    assert_eq!(c.height, 20);
}
