//! Split-screen layout: which rectangle of the window each camera draws into.

use vstd::prelude::*;

verus! {

/// A rectangle of the window in physical pixels; `x` and `y` place its corner
/// relative to the window's origin.
#[derive(Clone, Copy, Debug, PartialEq, Eq, Structural)]
pub struct Viewport {
    pub x: u32,
    pub y: u32,
    pub width: u32,
    pub height: u32,
}

/// The part a camera plays in the split screen.
#[derive(Clone, Copy, Debug, PartialEq, Eq, Structural)]
pub enum CameraRole {
    /// Fills the window.
    Main,
    /// A small inset over the main view.
    GameView,
}

/// The role that goes with a camera's name, if the name is one of the two known.
pub open spec fn role_of(name: Seq<char>) -> Option<CameraRole> {
    if name == "MainCamera"@ {
        Some(CameraRole::Main)
    } else if name == "GameViewCamera"@ {
        Some(CameraRole::GameView)
    } else {
        None
    }
}

/// The rectangle a camera of the given role gets in a window of the given size:
/// the whole window for the main camera; for the game view a third of the width
/// and of the height (rounded down), flush with the window's far edge in `x` and
/// at `y == 0`.
pub open spec fn viewport_of(role: CameraRole, width: u32, height: u32) -> Viewport {
    match role {
        CameraRole::Main => Viewport { x: 0, y: 0, width, height },
        CameraRole::GameView => Viewport {
            x: (width - width / 3) as u32,
            y: 0,
            width: width / 3,
            height: height / 3,
        },
    }
}

/// Looks up the role of a camera by its name.
pub fn camera_role(name: &str) -> (role: Option<CameraRole>)
    ensures
        role == role_of(name@),
{
    let name: String = name.to_owned();
    if name == "MainCamera".to_owned() {
        Some(CameraRole::Main)
    } else if name == "GameViewCamera".to_owned() {
        Some(CameraRole::GameView)
    } else {
        None
    }
}

/// Lays out one camera in a window of `width` by `height` physical pixels.
pub fn viewport_for(role: CameraRole, width: u32, height: u32) -> (v: Viewport)
    ensures
        v == viewport_of(role, width, height),
        v.x + v.width <= width,
        v.y + v.height <= height,
{
    match role {
        CameraRole::Main => Viewport { x: 0, y: 0, width, height },
        CameraRole::GameView => {
            let small_width: u32 = width / 3;
            let small_height: u32 = height / 3;
            Viewport { x: width - small_width, y: 0, width: small_width, height: small_height }
        },
    }
}

} // verus!
