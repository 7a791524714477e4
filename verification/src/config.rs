//! Start-up settings of the application window and frame loop.

use vstd::prelude::*;

verus! {

/// Settings the engine reads once at start-up.
pub struct AppConfig {
    pub width: u32,
    pub height: u32,
    pub vsync: bool,
    pub log_fps: bool,
    pub fullscreen: bool,
    pub resizable: bool,
}

impl AppConfig {
    /// A 1000 by 1000 window with vertical sync on and everything else off.
    pub fn default() -> (config: Self)
        ensures
            config == (AppConfig {
                width: 1000,
                height: 1000,
                vsync: true,
                log_fps: false,
                fullscreen: false,
                resizable: false,
            }),
    {
        AppConfig {
            width: 1000,
            height: 1000,
            vsync: true,
            log_fps: false,
            fullscreen: false,
            resizable: false,
        }
    }

    /// Sets the window width and leaves every other setting as it was.
    pub fn width(self, width: u32) -> (config: Self)
        ensures
            config == (AppConfig { width, ..self }),
    {
        let mut config = self;
        config.width = width;
        config
    }

    /// Sets the window height and leaves every other setting as it was.
    pub fn height(self, height: u32) -> (config: Self)
        ensures
            config == (AppConfig { height, ..self }),
    {
        let mut config = self;
        config.height = height;
        config
    }

    /// Turns vertical sync on or off and leaves every other setting as it was.
    pub fn vsync(self, vsync: bool) -> (config: Self)
        ensures
            config == (AppConfig { vsync, ..self }),
    {
        let mut config = self;
        config.vsync = vsync;
        config
    }

    /// Turns frame-rate logging on or off and leaves every other setting as it was.
    pub fn log_fps(self, log_fps: bool) -> (config: Self)
        ensures
            config == (AppConfig { log_fps, ..self }),
    {
        let mut config = self;
        config.log_fps = log_fps;
        config
    }

    /// Turns fullscreen on or off and leaves every other setting as it was.
    pub fn fullscreen(self, fullscreen: bool) -> (config: Self)
        ensures
            config == (AppConfig { fullscreen, ..self }),
    {
        let mut config = self;
        config.fullscreen = fullscreen;
        config
    }

    /// Makes the window resizable or not and leaves every other setting as it was.
    pub fn resizable(self, resizable: bool) -> (config: Self)
        ensures
            config == (AppConfig { resizable, ..self }),
    {
        let mut config = self;
        config.resizable = resizable;
        config
    }
}

} // verus!
