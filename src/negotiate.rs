use vstd::prelude::*;
use crate::surface::{
    Extent2D, NegotiatedConfig, PresentError, PresentMode, SurfaceCapabilities, SurfaceFormat,
    UNDEFINED_EXTENT,
};

verus! {

/// `v` brought into `[lo, hi]`; meaningful where `lo <= hi`.
pub open spec fn clamp_spec(v: u32, lo: u32, hi: u32) -> u32 {
    if v < lo {
        lo
    } else if v > hi {
        hi
    } else {
        v
    }
}

/// Whether the surface leaves the extent to the window.
pub open spec fn extent_is_undefined(caps: SurfaceCapabilities) -> bool {
    caps.current_extent.width == UNDEFINED_EXTENT
}

/// Whether the extent bounds leave at least one extent on each axis.
pub open spec fn extent_bounds_usable(caps: SurfaceCapabilities) -> bool {
    caps.min_extent.width <= caps.max_extent.width
        && caps.min_extent.height <= caps.max_extent.height
}

/// The extent a surface and a window size resolve to.
pub open spec fn resolved_extent(caps: SurfaceCapabilities, window: Extent2D) -> Extent2D {
    if extent_is_undefined(caps) {
        Extent2D {
            width: clamp_spec(window.width, caps.min_extent.width, caps.max_extent.width),
            height: clamp_spec(window.height, caps.min_extent.height, caps.max_extent.height),
        }
    } else {
        caps.current_extent
    }
}

/// Brings `v` into `[lo, hi]`.
pub fn clamp_axis(v: u32, lo: u32, hi: u32) -> (r: u32)
    requires
        lo <= hi,
    ensures
        r == clamp_spec(v, lo, hi),
        lo <= r <= hi,
{
    if v < lo {
        lo
    } else if v > hi {
        hi
    } else {
        v
    }
}

/// The extent of the frame ring: the surface's own extent where it defines
/// one, else the window's size clamped to the surface's bounds on each axis.
/// `None` where the window decides and the bounds are empty on some axis.
pub fn resolve_extent(caps: &SurfaceCapabilities, window: Extent2D) -> (r: Option<Extent2D>)
    ensures
        r.is_none() <==> (extent_is_undefined(*caps) && !extent_bounds_usable(*caps)),
        r.is_some() ==> r.unwrap() == resolved_extent(*caps, window),
{
    if caps.current_extent.width != UNDEFINED_EXTENT {
        Some(caps.current_extent)
    } else if caps.min_extent.width > caps.max_extent.width
        || caps.min_extent.height > caps.max_extent.height {
        None
    } else {
        Some(Extent2D {
            width: clamp_axis(window.width, caps.min_extent.width, caps.max_extent.width),
            height: clamp_axis(window.height, caps.min_extent.height, caps.max_extent.height),
        })
    }
}

/// Whether an image count can be resolved: an unbounded surface asks for one
/// image more than its minimum, which must fit in a `u32`.
pub open spec fn image_count_resolvable(caps: SurfaceCapabilities) -> bool {
    caps.max_image_count > 0 || caps.min_image_count < u32::MAX
}

/// The number of images to ask for: the smaller of the two bounds where the
/// surface sets a maximum, else one more than the minimum.
pub open spec fn resolved_image_count(caps: SurfaceCapabilities) -> int {
    if caps.max_image_count > 0 {
        if caps.min_image_count <= caps.max_image_count {
            caps.min_image_count as int
        } else {
            caps.max_image_count as int
        }
    } else {
        caps.min_image_count + 1
    }
}

/// Resolves the number of images to ask the driver for.
pub fn resolve_image_count(caps: &SurfaceCapabilities) -> (r: u32)
    requires
        image_count_resolvable(*caps),
    ensures
        r == resolved_image_count(*caps),
        caps.max_image_count > 0 && caps.min_image_count <= caps.max_image_count
            ==> caps.min_image_count <= r <= caps.max_image_count,
        caps.max_image_count == 0 ==> r == caps.min_image_count + 1,
{
    if caps.max_image_count > 0 {
        if caps.min_image_count <= caps.max_image_count {
            caps.min_image_count
        } else {
            caps.max_image_count
        }
    } else {
        caps.min_image_count + 1
    }
}

/// Picks the surface format: the first that the device reports.
pub fn choose_format(formats: &Vec<SurfaceFormat>) -> (r: Result<SurfaceFormat, PresentError>)
    ensures
        formats@.len() == 0 <==> r == Err::<SurfaceFormat, PresentError>(PresentError::NoCompatibleConfig),
        formats@.len() > 0 ==> r == Ok::<SurfaceFormat, PresentError>(formats@[0]),
{
    if formats.len() == 0 {
        Err(PresentError::NoCompatibleConfig)
    } else {
        Ok(formats[0])
    }
}

/// The present mode chosen: the preferred one where the device offers it,
/// else `Fifo`, which every device offers.
pub open spec fn chosen_present_mode(supported: Seq<PresentMode>, preferred: PresentMode) -> PresentMode {
    if supported.contains(preferred) {
        preferred
    } else {
        PresentMode::Fifo
    }
}

/// Picks the present mode, falling back to `Fifo` where the preferred mode
/// is not among those the device supports.
pub fn choose_present_mode(supported: &Vec<PresentMode>, preferred: PresentMode) -> (r: PresentMode)
    ensures
        r == chosen_present_mode(supported@, preferred),
{
    let mut i: usize = 0;
    while i < supported.len()
        invariant
            i <= supported@.len(),
            forall|j: int| 0 <= j < i ==> supported@[j] != preferred,
        decreases supported@.len() - i,
    {
        if supported[i] == preferred {
            assert(supported@.contains(preferred));
            return preferred;
        }
        i = i + 1;
    }
    assert(!supported@.contains(preferred));
    PresentMode::Fifo
}

/// Whether negotiation succeeds on these reports.
pub open spec fn negotiable(caps: SurfaceCapabilities, formats: Seq<SurfaceFormat>) -> bool {
    &&& formats.len() > 0
    &&& !(extent_is_undefined(caps) && !extent_bounds_usable(caps))
    &&& image_count_resolvable(caps)
}

/// The configuration that negotiation settles on, where it succeeds.
pub open spec fn negotiated(
    caps: SurfaceCapabilities,
    formats: Seq<SurfaceFormat>,
    modes: Seq<PresentMode>,
    preferred: PresentMode,
    window: Extent2D,
) -> NegotiatedConfig {
    NegotiatedConfig {
        format: formats[0].format,
        color_space: formats[0].color_space,
        present_mode: chosen_present_mode(modes, preferred),
        extent: resolved_extent(caps, window),
        image_count: resolved_image_count(caps) as u32,
    }
}

/// Settles format, present mode, extent and image count from what the device
/// reports of a surface and from the window's current size in pixels.
pub fn negotiate(
    caps: &SurfaceCapabilities,
    formats: &Vec<SurfaceFormat>,
    modes: &Vec<PresentMode>,
    preferred: PresentMode,
    window: Extent2D,
) -> (r: Result<NegotiatedConfig, PresentError>)
    ensures
        negotiable(*caps, formats@) ==> r == Ok::<NegotiatedConfig, PresentError>(
            negotiated(*caps, formats@, modes@, preferred, window),
        ),
        !negotiable(*caps, formats@) ==> r == Err::<NegotiatedConfig, PresentError>(
            PresentError::NoCompatibleConfig,
        ),
{
    let format = match choose_format(formats) {
        Ok(f) => f,
        Err(e) => return Err(e),
    };
    let extent = match resolve_extent(caps, window) {
        Some(e) => e,
        None => return Err(PresentError::NoCompatibleConfig),
    };
    if caps.max_image_count == 0 && caps.min_image_count == u32::MAX {
        return Err(PresentError::NoCompatibleConfig);
    }
    let image_count = resolve_image_count(caps);
    Ok(NegotiatedConfig {
        format: format.format,
        color_space: format.color_space,
        present_mode: choose_present_mode(modes, preferred),
        extent,
        image_count,
    })
}

/// Negotiates from the results of the three surface queries, each either
/// what the device reported or the driver's raw error: a failed query fails
/// negotiation with `QueryFailure`.
pub fn negotiate_queried(
    caps: Result<SurfaceCapabilities, i32>,
    formats: Result<Vec<SurfaceFormat>, i32>,
    modes: Result<Vec<PresentMode>, i32>,
    preferred: PresentMode,
    window: Extent2D,
) -> (r: Result<NegotiatedConfig, PresentError>)
    ensures
        (caps is Err || formats is Err || modes is Err) ==> r == Err::<NegotiatedConfig, PresentError>(
            PresentError::QueryFailure,
        ),
        (caps is Ok && formats is Ok && modes is Ok) ==> {
            let c = caps->Ok_0;
            let f = formats->Ok_0@;
            &&& negotiable(c, f) ==> r == Ok::<NegotiatedConfig, PresentError>(
                negotiated(c, f, modes->Ok_0@, preferred, window),
            )
            &&& !negotiable(c, f) ==> r == Err::<NegotiatedConfig, PresentError>(
                PresentError::NoCompatibleConfig,
            )
        },
{
    match (caps, formats, modes) {
        (Ok(c), Ok(f), Ok(m)) => negotiate(&c, &f, &m, preferred, window),
        _ => Err(PresentError::QueryFailure),
    }
}

} // verus!
