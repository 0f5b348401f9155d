use vstd::prelude::*;

verus! {

/// Width and height of a drawable area, in pixels.
#[derive(Debug, Clone, Copy, PartialEq, Eq, Structural)]
pub struct Extent2D {
    pub width: u32,
    pub height: u32,
}

/// What a device reports about a surface: a snapshot, never mutated.
#[derive(Debug, Clone, Copy, PartialEq, Eq, Structural)]
pub struct SurfaceCapabilities {
    pub min_image_count: u32,
    /// Zero means the device sets no upper bound.
    pub max_image_count: u32,
    /// A width of `u32::MAX` means the window decides the extent.
    pub current_extent: Extent2D,
    pub min_extent: Extent2D,
    pub max_extent: Extent2D,
    /// The device's current transform flags, passed through unchanged.
    pub current_transform: u32,
}

/// Width that a surface reports when the window decides its extent.
pub const UNDEFINED_EXTENT: u32 = 0xffff_ffff;

/// A pixel format and colour space pair that a surface supports, as the
/// driver's raw enumeration values.
#[derive(Debug, Clone, Copy, PartialEq, Eq, Structural)]
pub struct SurfaceFormat {
    pub format: i32,
    pub color_space: i32,
}

/// How a finished image becomes visible.
#[derive(Debug, Clone, Copy, PartialEq, Eq, Structural)]
pub enum PresentMode {
    /// Shown at once, without waiting for the display's refresh.
    Immediate,
    /// Triple buffering: the freshest finished image replaces a queued one.
    Mailbox,
    /// A queue synchronised with the refresh; every device offers it.
    Fifo,
    /// As `Fifo`, but a late image is shown at once.
    FifoRelaxed,
    /// A mode this library has no name for, by its raw value.
    Other(i32),
}

/// The raw driver value of a present mode.
pub open spec fn present_mode_raw(m: PresentMode) -> i32 {
    match m {
        PresentMode::Immediate => 0,
        PresentMode::Mailbox => 1,
        PresentMode::Fifo => 2,
        PresentMode::FifoRelaxed => 3,
        PresentMode::Other(v) => v,
    }
}

/// Whether a present mode is in its one canonical form (named modes are
/// never carried as `Other`).
pub open spec fn present_mode_canonical(m: PresentMode) -> bool {
    match m {
        PresentMode::Other(v) => !(0 <= v <= 3),
        _ => true,
    }
}

impl PresentMode {
    /// The present mode with raw driver value `raw`.
    pub fn from_raw(raw: i32) -> (r: PresentMode)
        ensures
            present_mode_raw(r) == raw,
            present_mode_canonical(r),
    {
        if raw == 0 {
            PresentMode::Immediate
        } else if raw == 1 {
            PresentMode::Mailbox
        } else if raw == 2 {
            PresentMode::Fifo
        } else if raw == 3 {
            PresentMode::FifoRelaxed
        } else {
            PresentMode::Other(raw)
        }
    }

    /// The raw driver value of this present mode.
    pub fn as_raw(&self) -> (r: i32)
        ensures
            r == present_mode_raw(*self),
    {
        match self {
            PresentMode::Immediate => 0,
            PresentMode::Mailbox => 1,
            PresentMode::Fifo => 2,
            PresentMode::FifoRelaxed => 3,
            PresentMode::Other(v) => *v,
        }
    }
}

/// The presentation settings that one negotiation settles.
#[derive(Debug, Clone, Copy, PartialEq, Eq, Structural)]
pub struct NegotiatedConfig {
    pub format: i32,
    pub color_space: i32,
    pub present_mode: PresentMode,
    pub extent: Extent2D,
    pub image_count: u32,
}

/// Why a stage of presentation setup failed.
#[derive(Debug, Clone, Copy, PartialEq, Eq, Structural)]
pub enum PresentError {
    /// Enumerating capabilities, formats or present modes failed.
    QueryFailure,
    /// No usable format, extent or image count exists.
    NoCompatibleConfig,
    /// The driver refused to create a resource.
    ResourceCreationFailure,
    /// The surface is gone; it must be acquired again upstream.
    SurfaceInvalidated,
    /// A shader binary is not a whole number of 32-bit words.
    MalformedShaderBinary,
}

/// Raw driver result for a lost surface.
pub const SURFACE_LOST: i32 = -1_000_000_000;

/// The error that a failed driver create call stands for.
pub open spec fn creation_error(code: i32) -> PresentError {
    if code == SURFACE_LOST {
        PresentError::SurfaceInvalidated
    } else {
        PresentError::ResourceCreationFailure
    }
}

/// Maps the raw result of a failed driver create call to an error: a lost
/// surface is told apart, since only re-acquiring it helps.
pub fn classify_creation_error(code: i32) -> (r: PresentError)
    ensures
        r == creation_error(code),
{
    if code == SURFACE_LOST {
        PresentError::SurfaceInvalidated
    } else {
        PresentError::ResourceCreationFailure
    }
}

} // verus!
