use windowed::config::WindowConfig;
use windowed::error::Error;

#[test]
fn new_config_has_documented_defaults() {
    let c = WindowConfig::new("My Window");
    assert_eq!(c.title, "My Window");
    assert_eq!((c.width, c.height), (800, 600));
    assert_eq!(c.position, None);
    assert!(c.resizable);
    assert_eq!(c.min_size, None);
    assert_eq!(c.max_size, None);
}

#[test]
fn builders_set_their_fields() {
    let c = WindowConfig::new("Title")
        .size(1280, 720)
        .position(100, 100)
        .resizable(false)
        .min_size(320, 240)
        .max_size(1920, 1080)
        .title("Other");
    assert_eq!(c.title, "Other");
    assert_eq!((c.width, c.height), (1280, 720));
    assert_eq!(c.position, Some((100, 100)));
    assert!(!c.resizable);
    assert_eq!(c.min_size, Some((320, 240)));
    assert_eq!(c.max_size, Some((1920, 1080)));
}

#[test]
fn later_builder_call_wins() {
    let c = WindowConfig::new("t").size(1, 2).size(3, 4).position(-5, 6).position(7, -8);
    assert_eq!((c.width, c.height), (3, 4));
    assert_eq!(c.position, Some((7, -8)));
}

#[test]
fn default_config_is_titled_windowed() {
    let c = WindowConfig::default();
    assert_eq!(c.title, "windowed");
    assert_eq!((c.width, c.height), (800, 600));
    assert!(c.resizable);
}

#[test]
fn error_messages() {
    assert_eq!(Error::Platform("XCreateWindow failed".to_string()).message(), "platform error: XCreateWindow failed");
    assert_eq!(Error::NoDisplay.message(), "could not connect to display server");
    assert_eq!(Error::WindowDestroyed.message(), "window has already been destroyed");
    assert_eq!(Error::Unsupported("fullscreen").message(), "unsupported on this platform: fullscreen");
}
