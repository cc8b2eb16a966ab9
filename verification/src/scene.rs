//! Scene management and composition.

use vstd::prelude::*;

use crate::color::Color;
use crate::error::Error;

verus! {

/// Configuration for a scene.
#[derive(Debug, Clone)]
pub struct SceneConfig {
    pub width: u32,
    pub height: u32,
    pub fps: u32,
    pub background_color: Color,
}

impl Default for SceneConfig {
    /// The default configuration: 1920 by 1080 pixels, 60 frames per second,
    /// black background.
    fn default() -> (r: Self)
        ensures
            r.width == 1920,
            r.height == 1080,
            r.fps == 60,
            r.background_color == Color::black(),
    {
        SceneConfig { width: 1920, height: 1080, fps: 60, background_color: Color::black() }
    }
}

/// A scene containing animated objects.
pub struct Scene {
    pub config: SceneConfig,
}

impl Scene {
    /// Creates a new scene with the given configuration.
    pub fn new(config: SceneConfig) -> (r: Self)
        ensures
            r.config == config,
    {
        Scene { config }
    }

    /// Renders the scene.  Rendering is not implemented yet, so this always
    /// succeeds without an effect.
    pub fn render(&self, path: &str) -> (r: Result<(), Error>)
        ensures
            r is Ok,
    {
        let _ = path;
        Ok(())
    }
}

} // verus!
