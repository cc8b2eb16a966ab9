use manim_rs::{Color, Error, Scene, SceneConfig};

#[test]
fn test_scene_config_default() {
    let config = SceneConfig::default();
    assert_eq!(config.width, 1920);
    assert_eq!(config.height, 1080);
    assert_eq!(config.fps, 60);
    assert_eq!(config.background_color, Color::black());
}

#[test]
fn test_scene_new_and_render() {
    let scene = Scene::new(SceneConfig::default());
    assert!(scene.render("out.svg").is_ok());
}

#[test]
fn test_error_messages() {
    assert_eq!(
        Error::Render("shader".to_string()).message(),
        "Rendering error: shader"
    );
    assert_eq!(
        Error::Animation("timing".to_string()).message(),
        "Animation error: timing"
    );
    assert_eq!(
        Error::Config("fps".to_string()).message(),
        "Invalid configuration: fps"
    );
    assert_eq!(Error::Other("plain".to_string()).message(), "plain");

    let io = std::io::Error::new(std::io::ErrorKind::NotFound, "missing");
    assert!(Error::Io(io).message().starts_with("IO error: "));
}

#[test]
fn test_error_from_io() {
    let io = std::io::Error::new(std::io::ErrorKind::NotFound, "missing");
    let err = Error::from(io);
    assert!(matches!(err, Error::Io(_)));
}
