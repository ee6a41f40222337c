//! Rotation and aspect-ratio settings of the video sink.

use vstd::prelude::*;

verus! {

/// A rotation that is not a quarter turn.
#[derive(Debug, Clone, Copy, PartialEq, Eq, Structural)]
pub struct InvalidRotation {
    pub degrees: i32,
}

/// Clockwise quarter turns in degrees.
pub open spec fn valid_degrees(d: i32) -> bool {
    d == 0 || d == 90 || d == 180 || d == 270
}

/// Validates a clockwise rotation in degrees (0, 90, 180 or 270).
pub fn validate_rotate_degrees(degrees: i32) -> (r: Result<i32, InvalidRotation>)
    ensures
        valid_degrees(degrees) ==> r == Ok::<i32, InvalidRotation>(degrees),
        !valid_degrees(degrees) ==> r == Err::<i32, InvalidRotation>(InvalidRotation { degrees }),
{
    if degrees == 0 || degrees == 90 || degrees == 180 || degrees == 270 {
        Ok(degrees)
    } else {
        Err(InvalidRotation { degrees })
    }
}

/// The `videoflip` `method` property value of a rotation.
pub open spec fn method_for(d: i32) -> Seq<char> {
    if d == 90 {
        seq!['c', 'l', 'o', 'c', 'k', 'w', 'i', 's', 'e']
    } else if d == 180 {
        seq!['r', 'o', 't', 'a', 't', 'e', '-', '1', '8', '0']
    } else if d == 270 {
        seq!['c', 'o', 'u', 'n', 't', 'e', 'r', 'c', 'l', 'o', 'c', 'k', 'w', 'i', 's', 'e']
    } else {
        seq!['n', 'o', 'n', 'e']
    }
}

/// Maps degrees to the `videoflip` `method` property value.
pub fn rotate_method(rotate_degrees: i32) -> (s: &'static str)
    ensures
        s@ == method_for(rotate_degrees),
{
    if rotate_degrees == 90 {
        proof { reveal_strlit("clockwise"); }
        "clockwise"
    } else if rotate_degrees == 180 {
        proof { reveal_strlit("rotate-180"); }
        "rotate-180"
    } else if rotate_degrees == 270 {
        proof { reveal_strlit("counterclockwise"); }
        "counterclockwise"
    } else {
        proof { reveal_strlit("none"); }
        "none"
    }
}

/// The `video-direction` values of `videoflip` that rotation uses (any other
/// direction is `Other`).
#[derive(Debug, Clone, Copy, PartialEq, Eq, Structural)]
pub enum VideoDirection {
    Identity,
    Rotate90Right,
    Rotate180,
    Rotate90Left,
    Other,
}

pub open spec fn direction_for(d: i32) -> VideoDirection {
    if d == 90 {
        VideoDirection::Rotate90Right
    } else if d == 180 {
        VideoDirection::Rotate180
    } else if d == 270 {
        VideoDirection::Rotate90Left
    } else {
        VideoDirection::Identity
    }
}

/// Maps degrees to the `videoflip` `video-direction`.
pub fn rotate_video_direction(rotate_degrees: i32) -> (r: VideoDirection)
    ensures
        r == direction_for(rotate_degrees),
{
    if rotate_degrees == 90 {
        VideoDirection::Rotate90Right
    } else if rotate_degrees == 180 {
        VideoDirection::Rotate180
    } else if rotate_degrees == 270 {
        VideoDirection::Rotate90Left
    } else {
        VideoDirection::Identity
    }
}

pub open spec fn degrees_for(dir: VideoDirection) -> i32 {
    match dir {
        VideoDirection::Rotate90Right => 90,
        VideoDirection::Rotate180 => 180,
        VideoDirection::Rotate90Left => 270,
        _ => 0,
    }
}

/// The rotation a `videoflip` currently applies, read back from its direction.
pub fn direction_degrees(dir: VideoDirection) -> (r: i32)
    ensures
        r == degrees_for(dir),
{
    match dir {
        VideoDirection::Rotate90Right => 90,
        VideoDirection::Rotate180 => 180,
        VideoDirection::Rotate90Left => 270,
        _ => 0,
    }
}

/// A rotation element needs its property written unless it already applies
/// the target rotation.
pub fn rotation_needs_update(current_degrees: Option<i32>, rotate_degrees: i32) -> (r: bool)
    ensures
        r == (current_degrees != Some(rotate_degrees)),
{
    match current_degrees {
        Some(d) => d != rotate_degrees,
        None => true,
    }
}

/// The clockwise rotation a `gltransformation` `rotation-z` (whole degrees)
/// applies.
pub open spec fn degrees_for_rotation_z(z: i32) -> i32 {
    if z == -90 {
        90
    } else if z == 180 || z == -180 {
        180
    } else if z == 90 || z == -270 {
        270
    } else {
        0
    }
}

pub fn rotation_z_degrees(z: i32) -> (r: i32)
    ensures
        r == degrees_for_rotation_z(z),
{
    if z == -90 {
        90
    } else if z == 180 || z == -180 {
        180
    } else if z == 90 || z == -270 {
        270
    } else {
        0
    }
}

/// The `gltransformation` `rotation-z` (whole degrees) that applies a
/// clockwise rotation.
pub open spec fn rotation_z_for(d: i32) -> i32 {
    if d == 90 {
        -90i32
    } else if d == 180 {
        180i32
    } else if d == 270 {
        -270i32
    } else {
        0i32
    }
}

pub fn gltransformation_rotation_z(rotate_degrees: i32) -> (z: i32)
    ensures
        z == rotation_z_for(rotate_degrees),
{
    if rotate_degrees == 90 {
        -90
    } else if rotate_degrees == 180 {
        180
    } else if rotate_degrees == 270 {
        -270
    } else {
        0
    }
}

/// What updating a rotation element does: nothing when it already applies
/// the rotation; else set its `video-direction`, or else its
/// `method`, whichever property it has (neither: nothing).
#[derive(Debug, Clone, Copy, PartialEq, Eq, Structural)]
pub enum FlipUpdate {
    Unchanged,
    SetDirection(VideoDirection),
    SetMethod,
    NoProperty,
}

pub open spec fn flip_update_for(current: Option<i32>, rotate_degrees: i32, has_direction: bool, has_method: bool) -> FlipUpdate {
    if current == Some(rotate_degrees) {
        FlipUpdate::Unchanged
    } else if has_direction {
        FlipUpdate::SetDirection(direction_for(rotate_degrees))
    } else if has_method {
        FlipUpdate::SetMethod
    } else {
        FlipUpdate::NoProperty
    }
}

/// The update a `videoflip` needs to apply `rotate_degrees`, given the
/// rotation it applies now (if it can tell) and which properties it has.
pub fn videoflip_update(current: Option<i32>, rotate_degrees: i32, has_direction: bool, has_method: bool) -> (u: FlipUpdate)
    ensures
        u == flip_update_for(current, rotate_degrees, has_direction, has_method),
{
    if !rotation_needs_update(current, rotate_degrees) {
        return FlipUpdate::Unchanged;
    }
    if has_direction {
        FlipUpdate::SetDirection(rotate_video_direction(rotate_degrees))
    } else if has_method {
        FlipUpdate::SetMethod
    } else {
        FlipUpdate::NoProperty
    }
}

/// Aspect ratio scaling mode for the platform video sink.
#[derive(Debug, Clone, Copy, PartialEq, Eq, Structural)]
pub enum InternalAspectRatioMode {
    /// Letterbox fit (default).
    Fit,
    /// Crop to fill.
    Fill,
    /// Stretch to fill.
    Stretch,
}

impl Default for InternalAspectRatioMode {
    fn default() -> (m: Self)
        ensures
            m == InternalAspectRatioMode::Fit,
    {
        InternalAspectRatioMode::Fit
    }
}

/// The sink properties an aspect mode sets: `force-aspect-ratio`, and whether
/// `pixel-aspect-ratio` is reset to 0/1 (unconstrained).
#[derive(Debug, Clone, Copy, PartialEq, Eq, Structural)]
pub struct AspectSinkSettings {
    pub force_aspect_ratio: bool,
    pub reset_pixel_aspect_ratio: bool,
}

impl InternalAspectRatioMode {
    /// Fit keeps the aspect ratio (and frees the pixel aspect ratio); Fill and
    /// Stretch let the sink fill the area.
    pub fn sink_settings(&self) -> (s: AspectSinkSettings)
        ensures
            s.force_aspect_ratio == (*self == InternalAspectRatioMode::Fit),
            s.reset_pixel_aspect_ratio == (*self == InternalAspectRatioMode::Fit),
    {
        match self {
            InternalAspectRatioMode::Fit => AspectSinkSettings { force_aspect_ratio: true, reset_pixel_aspect_ratio: true },
            _ => AspectSinkSettings { force_aspect_ratio: false, reset_pixel_aspect_ratio: false },
        }
    }
}

/// Video orientation applied via a `videoflip` element.
#[derive(Debug, Clone, Copy, PartialEq, Eq, Structural)]
pub struct InternalVideoOrientationConfig {
    pub flip_horizontal: bool,
    pub flip_vertical: bool,
    /// Clockwise rotation in degrees: 0, 90, 180, or 270.
    pub rotate_degrees: i32,
}

impl Default for InternalVideoOrientationConfig {
    fn default() -> (c: Self)
        ensures
            !c.flip_horizontal,
            !c.flip_vertical,
            c.rotate_degrees == 0,
    {
        InternalVideoOrientationConfig { flip_horizontal: false, flip_vertical: false, rotate_degrees: 0 }
    }
}

/// The `videoflip` method for a flip/rotation combination; combinations
/// beyond one flip or one rotation fall back to `automatic`.
pub open spec fn config_method(h: bool, v: bool, d: i32) -> Seq<char> {
    if !h && !v && d == 0 {
        seq!['n', 'o', 'n', 'e']
    } else if h && !v && d == 0 {
        seq!['h', 'o', 'r', 'i', 'z', 'o', 'n', 't', 'a', 'l', '-', 'f', 'l', 'i', 'p']
    } else if !h && v && d == 0 {
        seq!['v', 'e', 'r', 't', 'i', 'c', 'a', 'l', '-', 'f', 'l', 'i', 'p']
    } else if !h && !v && (d == 90 || d == 180 || d == 270) {
        method_for(d)
    } else {
        seq!['a', 'u', 't', 'o', 'm', 'a', 't', 'i', 'c']
    }
}

impl InternalVideoOrientationConfig {
    pub fn method_name(&self) -> (s: &'static str)
        ensures
            s@ == config_method(self.flip_horizontal, self.flip_vertical, self.rotate_degrees),
    {
        if !self.flip_horizontal && !self.flip_vertical {
            if self.rotate_degrees == 0 || self.rotate_degrees == 90 || self.rotate_degrees == 180
                || self.rotate_degrees == 270 {
                return rotate_method(self.rotate_degrees);
            }
        } else if self.flip_horizontal && !self.flip_vertical && self.rotate_degrees == 0 {
            proof { reveal_strlit("horizontal-flip"); }
            return "horizontal-flip";
        } else if !self.flip_horizontal && self.flip_vertical && self.rotate_degrees == 0 {
            proof { reveal_strlit("vertical-flip"); }
            return "vertical-flip";
        }
        proof { reveal_strlit("automatic"); }
        "automatic"
    }
}

} // verus!
