//! What the engine does about the events of its window and of its own
//! event loop.

use vstd::prelude::*;
use crate::config::AppConfig;
use crate::events::UserEvent;
use crate::shader_path::ShaderPath;

verus! {

/// A key of interest.
#[derive(Clone, Copy, PartialEq, Eq, Structural, Debug)]
pub enum KeyPress {
    Escape,
    Character(char),
    Other,
}

/// What the window system reports, as far as the engine cares.
#[derive(Clone, Copy, PartialEq, Eq, Structural, Debug)]
pub enum WindowEventKind {
    CloseRequested,
    KeyPressed(KeyPress),
    RedrawRequested,
    Resized,
    ScaleFactorChanged,
    Other,
}

/// What the engine does about a window event.
#[derive(Clone, Copy, PartialEq, Eq, Structural, Debug)]
pub enum WindowAction {
    /// Leave the event loop.
    Exit,
    /// Draw a frame.
    Draw,
    /// Rebuild the presentable images for the window as it is now.
    RecreateWindow,
    Ignore,
}

/// What the engine does about an event of its own.
#[derive(Clone, PartialEq, Eq, Debug)]
pub enum UserAction {
    /// Reload the pipelines whose shader source is at this path.
    Reload(ShaderPath),
    Ignore,
}

/// How the window is asked for.
#[derive(Clone, Copy, PartialEq, Eq, Structural, Debug)]
pub struct WindowPlan {
    pub width: u32,
    pub height: u32,
    pub resizable: bool,
    /// Borderless, on the monitor the window system picks.
    pub fullscreen: bool,
}

/// The action for a window event: closing the window, Escape and `q` end
/// the program; a redraw request draws; a change of size or scale rebuilds
/// the presentable images.
pub open spec fn action_for(event: WindowEventKind) -> WindowAction {
    match event {
        WindowEventKind::CloseRequested => WindowAction::Exit,
        WindowEventKind::KeyPressed(KeyPress::Escape) => WindowAction::Exit,
        WindowEventKind::KeyPressed(KeyPress::Character(c)) => if c == 'q' {
            WindowAction::Exit
        } else {
            WindowAction::Ignore
        },
        WindowEventKind::KeyPressed(KeyPress::Other) => WindowAction::Ignore,
        WindowEventKind::RedrawRequested => WindowAction::Draw,
        WindowEventKind::Resized => WindowAction::RecreateWindow,
        WindowEventKind::ScaleFactorChanged => WindowAction::RecreateWindow,
        WindowEventKind::Other => WindowAction::Ignore,
    }
}

/// Decides what to do about a window event.
pub fn window_event(event: WindowEventKind) -> (action: WindowAction)
    ensures
        action == action_for(event),
{
    match event {
        WindowEventKind::CloseRequested => WindowAction::Exit,
        WindowEventKind::KeyPressed(key) => match key {
            KeyPress::Escape => WindowAction::Exit,
            KeyPress::Character(c) => {
                if c == 'q' {
                    WindowAction::Exit
                } else {
                    WindowAction::Ignore
                }
            },
            KeyPress::Other => WindowAction::Ignore,
        },
        WindowEventKind::RedrawRequested => WindowAction::Draw,
        WindowEventKind::Resized => WindowAction::RecreateWindow,
        WindowEventKind::ScaleFactorChanged => WindowAction::RecreateWindow,
        WindowEventKind::Other => WindowAction::Ignore,
    }
}

/// Decides what to do about an event of the engine's own: a shader update
/// asks for a reload of that path, nothing else asks for anything.
pub fn user_event(event: UserEvent) -> (action: UserAction)
    ensures
        action == (match event {
            UserEvent::GlslUpdate(path) => UserAction::Reload(path),
            UserEvent::Idle => UserAction::Ignore,
        }),
{
    match event {
        UserEvent::GlslUpdate(path) => UserAction::Reload(path),
        UserEvent::Idle => UserAction::Ignore,
    }
}

/// Plans the window for the given settings.
pub fn window_plan(config: &AppConfig) -> (plan: WindowPlan)
    ensures
        plan == (WindowPlan {
            width: config.width,
            height: config.height,
            resizable: config.resizable,
            fullscreen: config.fullscreen,
        }),
{
    WindowPlan {
        width: config.width,
        height: config.height,
        resizable: config.resizable,
        fullscreen: config.fullscreen,
    }
}

/// What the frame counter reports once a second has passed.
#[derive(Clone, Copy, PartialEq, Eq, Structural, Debug)]
pub struct FpsReport {
    /// The frames drawn since the last report.
    pub frames: usize,
    /// The time they took, in milliseconds.
    pub elapsed_millis: u64,
}

/// Counts frames between reports.
#[derive(Clone, Copy, PartialEq, Eq, Structural, Debug)]
pub struct FpsCounter {
    pub frame_count: usize,
}

impl FpsCounter {
    /// A counter that has seen no frame.
    pub fn new() -> (counter: Self)
        ensures
            counter.frame_count == 0,
    {
        FpsCounter { frame_count: 0 }
    }

    /// The count after one more frame; it stops at the largest number.
    pub open spec fn counted(self) -> usize {
        if self.frame_count == usize::MAX {
            self.frame_count
        } else {
            (self.frame_count + 1) as usize
        }
    }

    /// Counts a frame that was drawn `elapsed_millis` after the last
    /// report. Once a second has passed, the frames since then are reported
    /// and the count starts over.
    pub fn frame_drawn(&mut self, elapsed_millis: u64) -> (report: Option<FpsReport>)
        ensures
            report == (if elapsed_millis >= 1000 {
                Some(FpsReport { frames: old(self).counted(), elapsed_millis })
            } else {
                None
            }),
            final(self).frame_count == (if elapsed_millis >= 1000 {
                0
            } else {
                old(self).counted()
            }),
    {
        let frames = if self.frame_count == usize::MAX {
            self.frame_count
        } else {
            self.frame_count + 1
        };
        if elapsed_millis >= 1000 {
            self.frame_count = 0;
            Some(FpsReport { frames, elapsed_millis })
        } else {
            self.frame_count = frames;
            None
        }
    }
}

} // verus!
