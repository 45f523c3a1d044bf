use vstd::prelude::*;

verus! {

/// Translation of an entity, in world units.
#[derive(Clone, Copy, Debug, PartialEq, Eq, Structural)]
pub struct Transform {
    pub x: i64,
    pub y: i64,
    pub z: i64,
}

/// Handle to a sprite sheet that the asset loader has loaded.
#[derive(Clone, Copy, Debug, PartialEq, Eq, Structural)]
pub struct SpriteSheetHandle {
    pub id: u64,
}

/// A reference to one sprite of a sprite sheet.
#[derive(Clone, Copy, Debug, PartialEq, Eq, Structural)]
pub struct SpriteRender {
    pub sprite_sheet: SpriteSheetHandle,
    pub sprite_number: usize,
}

/// An orthographic projection spanning `width` by `height` world units,
/// centred on the camera entity's translation.
#[derive(Clone, Copy, Debug, PartialEq, Eq, Structural)]
pub struct Camera {
    pub width: u32,
    pub height: u32,
}

} // verus!
