use viewport::window::WindowBuilder;

#[test]
fn builder_defaults() {
    let b = WindowBuilder::new();
    assert_eq!(b.width(), 0);
    assert_eq!(b.height(), 0);
    assert!(b.vsync());
    assert_eq!(b.title(), "Uninitialized Window!");
}

#[test]
fn builder_settings() {
    let b = WindowBuilder::new()
        .with_title("Triangle example".to_string())
        .with_dimensions(1024, 768)
        .with_vsync();
    assert_eq!(b.width(), 1024);
    assert_eq!(b.height(), 768);
    assert!(b.vsync());
    assert_eq!(b.title(), "Triangle example");
}
