//! The declarative edit state driving the filter graph, and the export
//! profile. Fractional settings are held in hundredths (cent).

use vstd::prelude::*;
use crate::kinds::{Aspect, BackgroundType, CameraPosition, CameraShape, LayoutMode, VideoFormat};

verus! {

/// User-editable parameters of the export composition.
#[derive(Clone, Copy, Debug, PartialEq, Eq, Structural)]
pub struct EditState {
    pub aspect: Aspect,
    pub padding: u32,
    pub radius: u32,
    pub shadow: u32,
    pub camera_size: u32,
    pub camera_shape: CameraShape,
    pub camera_shadow: u32,
    pub camera_mirror: bool,
    pub camera_blur: bool,
    pub background_type: BackgroundType,
    pub background_preset: u32,
    pub camera_position: CameraPosition,
    pub shrink_16_9_cent: u32,
    pub shrink_1_1_cent: u32,
    pub shrink_9_16_cent: u32,
    pub portrait_split: bool,
    pub portrait_bottom_ratio_cent: u32,
    pub mode_16_9: LayoutMode,
    pub mode_1_1: LayoutMode,
    pub mode_9_16: LayoutMode,
    pub title_safe_16_9_cent: u32,
    pub subtitle_safe_16_9_cent: u32,
    pub title_safe_1_1_cent: u32,
    pub subtitle_safe_1_1_cent: u32,
    pub title_safe_9_16_cent: u32,
    pub subtitle_safe_9_16_cent: u32,
}

/// The default edit state.
pub open spec fn spec_default_edit_state() -> EditState {
    EditState {
        aspect: Aspect::Ratio16x9,
        padding: 0,
        radius: 12,
        shadow: 20,
        camera_size: 168,
        camera_shape: CameraShape::Circle,
        camera_shadow: 22,
        camera_mirror: false,
        camera_blur: false,
        background_type: BackgroundType::Gradient,
        background_preset: 0,
        camera_position: CameraPosition::BottomLeft,
        shrink_16_9_cent: 94,
        shrink_1_1_cent: 94,
        shrink_9_16_cent: 92,
        portrait_split: true,
        portrait_bottom_ratio_cent: 36,
        mode_16_9: LayoutMode::Shrink,
        mode_1_1: LayoutMode::Shrink,
        mode_9_16: LayoutMode::Split,
        title_safe_16_9_cent: 8,
        subtitle_safe_16_9_cent: 10,
        title_safe_1_1_cent: 6,
        subtitle_safe_1_1_cent: 12,
        title_safe_9_16_cent: 8,
        subtitle_safe_9_16_cent: 10,
    }
}

impl Default for EditState {
    fn default() -> (r: Self)
        ensures
            r == spec_default_edit_state(),
    {
        EditState {
            aspect: Aspect::Ratio16x9,
            padding: 0,
            radius: 12,
            shadow: 20,
            camera_size: 168,
            camera_shape: CameraShape::Circle,
            camera_shadow: 22,
            camera_mirror: false,
            camera_blur: false,
            background_type: BackgroundType::Gradient,
            background_preset: 0,
            camera_position: CameraPosition::BottomLeft,
            shrink_16_9_cent: 94,
            shrink_1_1_cent: 94,
            shrink_9_16_cent: 92,
            portrait_split: true,
            portrait_bottom_ratio_cent: 36,
            mode_16_9: LayoutMode::Shrink,
            mode_1_1: LayoutMode::Shrink,
            mode_9_16: LayoutMode::Split,
            title_safe_16_9_cent: 8,
            subtitle_safe_16_9_cent: 10,
            title_safe_1_1_cent: 6,
            subtitle_safe_1_1_cent: 12,
            title_safe_9_16_cent: 8,
            subtitle_safe_9_16_cent: 10,
        }
    }
}

impl EditState {
    /// The fractional settings are within the persisted format's range.
    pub open spec fn cents_wf(&self) -> bool {
        &&& self.shrink_16_9_cent <= 1000000
        &&& self.shrink_1_1_cent <= 1000000
        &&& self.shrink_9_16_cent <= 1000000
        &&& self.portrait_bottom_ratio_cent <= 1000000
        &&& self.title_safe_16_9_cent <= 1000000
        &&& self.subtitle_safe_16_9_cent <= 1000000
        &&& self.title_safe_1_1_cent <= 1000000
        &&& self.subtitle_safe_1_1_cent <= 1000000
        &&& self.title_safe_9_16_cent <= 1000000
        &&& self.subtitle_safe_9_16_cent <= 1000000
    }

    /// The numeric fields are within the ranges the filter geometry
    /// supports.
    pub open spec fn wf(&self) -> bool {
        &&& self.padding <= 16384
        &&& self.radius <= 16384
        &&& self.shadow <= 16384
        &&& self.camera_size <= 16384
        &&& self.camera_shadow <= 16384
        &&& self.shrink_16_9_cent <= 1000000
        &&& self.shrink_1_1_cent <= 1000000
        &&& self.shrink_9_16_cent <= 1000000
        &&& self.portrait_bottom_ratio_cent <= 1000000
        &&& self.title_safe_16_9_cent <= 1000000
        &&& self.subtitle_safe_16_9_cent <= 1000000
        &&& self.title_safe_1_1_cent <= 1000000
        &&& self.subtitle_safe_1_1_cent <= 1000000
        &&& self.title_safe_9_16_cent <= 1000000
        &&& self.subtitle_safe_9_16_cent <= 1000000
    }
}

/// What an export encodes to: codec family, frame size, rate and bitrate.
#[derive(Clone, Copy, Debug, PartialEq, Eq, Structural)]
pub struct ExportProfile {
    pub format: VideoFormat,
    pub width: u32,
    pub height: u32,
    pub fps: u32,
    pub bitrate_kbps: u32,
}

impl ExportProfile {
    /// The frame size and rate are within the ranges the filter geometry
    /// supports.
    pub open spec fn wf(&self) -> bool {
        &&& 2 <= self.width <= 16384
        &&& 2 <= self.height <= 16384
        &&& 1 <= self.fps <= 1000
    }
}

} // verus!
