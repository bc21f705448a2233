//! The backend-agnostic face of a renderer: each graphics API provides a
//! `Renderer`, and the application drives it through a `Handle` without
//! knowing which backend it holds.

use crate::settings::{Resolution, Settings};
use vstd::prelude::*;

verus! {

/// What every backend offers the application.
pub trait Renderer: Sized {
    /// What the backend is built against (the window and application
    /// description it renders for).
    type Context;
    /// The scene data `load_scene` uploads.
    type Scene;
    /// The overlay a draw layers on top of the frame.
    type Overlay;

    fn new(context: Self::Context, settings: Settings) -> Self;

    fn load_scene(&mut self, scene: &Self::Scene);

    /// Schedules a swapchain rebuild at `resolution` for the next draw.
    fn handle_resize(&mut self, resolution: &Resolution);

    fn draw(&mut self, overlay: &mut Self::Overlay);
}

/// The application's handle on its renderer.
pub struct Handle<R> {
    pub api: R,
}

impl<R: Renderer> Handle<R> {
    /// Builds the backend for `context` with `buffering` frames in flight at
    /// 1920 by 1080.
    pub fn new(context: R::Context, buffering: u32) -> Handle<R> {
        let settings = Settings::default().resolution(Resolution::new(1920, 1080)).buffering(
            buffering,
        );
        Handle { api: R::new(context, settings) }
    }

    pub fn load_scene(&mut self, scene: &R::Scene) {
        self.api.load_scene(scene);
    }

    /// Passes a new window size on to the backend.
    pub fn handle_resize(&mut self, width: u32, height: u32) {
        let resolution = Resolution::new(width, height);
        self.api.handle_resize(&resolution);
    }

    pub fn draw(&mut self, overlay: &mut R::Overlay) {
        self.api.draw(overlay);
    }
}

} // verus!
