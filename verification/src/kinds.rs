//! The closed vocabularies of the edit state and capture requests: aspect
//! ratios, camera styling, background types, capture modes, video formats.

use vstd::prelude::*;

verus! {

/// Output aspect ratio of an export.
#[derive(Clone, Copy, Debug, PartialEq, Eq, Structural)]
pub enum Aspect {
    Ratio16x9,
    Ratio1x1,
    Ratio9x16,
}

/// Shape of the camera overlay corner rounding.
#[derive(Clone, Copy, Debug, PartialEq, Eq, Structural)]
pub enum CameraShape {
    Circle,
    Rounded,
    Sharp,
}

/// Corner of the frame where the camera overlay sits.
#[derive(Clone, Copy, Debug, PartialEq, Eq, Structural)]
pub enum CameraPosition {
    TopLeft,
    TopRight,
    BottomLeft,
    BottomRight,
}

/// Background fill style.
#[derive(Clone, Copy, Debug, PartialEq, Eq, Structural)]
pub enum BackgroundType {
    Gradient,
    Wallpaper,
}

/// Per-aspect layout mode.
#[derive(Clone, Copy, Debug, PartialEq, Eq, Structural)]
pub enum LayoutMode {
    Shrink,
    Split,
}

/// Video codec family of a capture or export.
#[derive(Clone, Copy, Debug, PartialEq, Eq, Structural)]
pub enum VideoFormat {
    H264,
    H265,
}

/// What surface a recording captures.
#[derive(Clone, Debug, PartialEq, Eq, Structural)]
pub enum CaptureMode {
    Screen,
    Window,
    Region,
}

} // verus!
