use vulkan_present::negotiate::{
    choose_format, choose_present_mode, negotiate, negotiate_queried, resolve_extent,
    resolve_image_count,
};
use vulkan_present::surface::{
    classify_creation_error, Extent2D, PresentError, PresentMode, SurfaceCapabilities,
    SurfaceFormat, SURFACE_LOST, UNDEFINED_EXTENT,
};

fn caps(min_images: u32, max_images: u32, current: Extent2D) -> SurfaceCapabilities {
    SurfaceCapabilities {
        min_image_count: min_images,
        max_image_count: max_images,
        current_extent: current,
        min_extent: Extent2D { width: 1, height: 1 },
        max_extent: Extent2D { width: 4096, height: 4096 },
        current_transform: 1,
    }
}

fn ext(width: u32, height: u32) -> Extent2D {
    Extent2D { width, height }
}

fn undefined() -> Extent2D {
    ext(UNDEFINED_EXTENT, UNDEFINED_EXTENT)
}

fn formats() -> Vec<SurfaceFormat> {
    vec![
        SurfaceFormat { format: 50, color_space: 0 },
        SurfaceFormat { format: 44, color_space: 0 },
    ]
}

#[test]
fn defined_extent_is_used_verbatim() {
    let c = caps(2, 8, ext(800, 600));
    assert_eq!(resolve_extent(&c, ext(1920, 1080)), Some(ext(800, 600)));
    assert_eq!(resolve_extent(&c, ext(1, 1)), Some(ext(800, 600)));
    let cfg = negotiate(&c, &formats(), &vec![PresentMode::Fifo], PresentMode::Mailbox, ext(1920, 1080)).unwrap();
    assert_eq!(cfg.extent, ext(800, 600));
}

#[test]
fn undefined_extent_clamps_each_axis() {
    let c = caps(2, 8, undefined());
    assert_eq!(resolve_extent(&c, ext(8000, 600)), Some(ext(4096, 600)));
    assert_eq!(resolve_extent(&c, ext(0, 5000)), Some(ext(1, 4096)));
    let cfg = negotiate(&c, &formats(), &vec![PresentMode::Fifo], PresentMode::Mailbox, ext(8000, 600)).unwrap();
    assert_eq!(cfg.extent, ext(4096, 600));
}

#[test]
fn undefined_extent_with_empty_bounds_is_refused() {
    let mut c = caps(2, 8, undefined());
    c.min_extent = ext(10, 1);
    c.max_extent = ext(5, 4096);
    assert_eq!(resolve_extent(&c, ext(8, 8)), None);
    assert_eq!(
        negotiate(&c, &formats(), &vec![], PresentMode::Mailbox, ext(8, 8)),
        Err(PresentError::NoCompatibleConfig)
    );
}

#[test]
fn bounded_image_count_stays_within_bounds() {
    assert_eq!(resolve_image_count(&caps(2, 3, undefined())), 2);
    assert_eq!(resolve_image_count(&caps(3, 3, undefined())), 3);
    assert_eq!(resolve_image_count(&caps(1, 8, undefined())), 1);
}

#[test]
fn bounded_image_count_with_bounds_out_of_order_takes_maximum() {
    assert_eq!(resolve_image_count(&caps(4, 2, undefined())), 2);
}

#[test]
fn unbounded_image_count_adds_one() {
    assert_eq!(resolve_image_count(&caps(3, 0, undefined())), 4);
    assert_eq!(resolve_image_count(&caps(0, 0, undefined())), 1);
}

#[test]
fn unbounded_image_count_at_limit_is_refused() {
    let c = caps(u32::MAX, 0, ext(800, 600));
    assert_eq!(
        negotiate(&c, &formats(), &vec![], PresentMode::Mailbox, ext(8, 8)),
        Err(PresentError::NoCompatibleConfig)
    );
}

#[test]
fn first_format_is_chosen() {
    assert_eq!(choose_format(&formats()), Ok(SurfaceFormat { format: 50, color_space: 0 }));
}

#[test]
fn empty_format_list_is_refused() {
    assert_eq!(choose_format(&vec![]), Err(PresentError::NoCompatibleConfig));
    let c = caps(2, 8, ext(800, 600));
    assert_eq!(
        negotiate(&c, &vec![], &vec![PresentMode::Mailbox], PresentMode::Mailbox, ext(8, 8)),
        Err(PresentError::NoCompatibleConfig)
    );
}

#[test]
fn preferred_present_mode_is_used_when_offered() {
    let modes = vec![PresentMode::Fifo, PresentMode::Mailbox, PresentMode::Immediate];
    assert_eq!(choose_present_mode(&modes, PresentMode::Mailbox), PresentMode::Mailbox);
}

#[test]
fn missing_present_mode_falls_back_to_fifo() {
    let modes = vec![PresentMode::Immediate, PresentMode::Fifo];
    assert_eq!(choose_present_mode(&modes, PresentMode::Mailbox), PresentMode::Fifo);
    assert_eq!(choose_present_mode(&vec![], PresentMode::Mailbox), PresentMode::Fifo);
}

#[test]
fn negotiation_settles_every_field() {
    let c = caps(2, 0, undefined());
    let cfg = negotiate(
        &c,
        &formats(),
        &vec![PresentMode::Mailbox],
        PresentMode::Mailbox,
        ext(640, 480),
    )
    .unwrap();
    assert_eq!(cfg.format, 50);
    assert_eq!(cfg.color_space, 0);
    assert_eq!(cfg.present_mode, PresentMode::Mailbox);
    assert_eq!(cfg.extent, ext(640, 480));
    assert_eq!(cfg.image_count, 3);
}

#[test]
fn present_mode_raw_values() {
    assert_eq!(PresentMode::from_raw(0), PresentMode::Immediate);
    assert_eq!(PresentMode::from_raw(1), PresentMode::Mailbox);
    assert_eq!(PresentMode::from_raw(2), PresentMode::Fifo);
    assert_eq!(PresentMode::from_raw(3), PresentMode::FifoRelaxed);
    assert_eq!(PresentMode::from_raw(1000111000), PresentMode::Other(1000111000));
    for raw in [-1, 0, 1, 2, 3, 7] {
        assert_eq!(PresentMode::from_raw(raw).as_raw(), raw);
    }
}

#[test]
fn lost_surface_is_told_apart() {
    assert_eq!(classify_creation_error(SURFACE_LOST), PresentError::SurfaceInvalidated);
    assert_eq!(classify_creation_error(-2), PresentError::ResourceCreationFailure);
    assert_eq!(classify_creation_error(-1_000_001_004), PresentError::ResourceCreationFailure);
}

#[test]
fn failed_query_is_a_query_failure() {
    let c = caps(2, 8, ext(800, 600));
    let window = ext(8, 8);
    assert_eq!(
        negotiate_queried(Err(-3), Ok(formats()), Ok(vec![]), PresentMode::Mailbox, window),
        Err(PresentError::QueryFailure)
    );
    assert_eq!(
        negotiate_queried(Ok(c), Err(SURFACE_LOST), Ok(vec![]), PresentMode::Mailbox, window),
        Err(PresentError::QueryFailure)
    );
    assert_eq!(
        negotiate_queried(Ok(c), Ok(formats()), Err(-1), PresentMode::Mailbox, window),
        Err(PresentError::QueryFailure)
    );
}

#[test]
fn successful_queries_negotiate() {
    let c = caps(2, 8, ext(800, 600));
    let cfg = negotiate_queried(Ok(c), Ok(formats()), Ok(vec![PresentMode::Mailbox]), PresentMode::Mailbox, ext(8, 8));
    assert_eq!(cfg, negotiate(&c, &formats(), &vec![PresentMode::Mailbox], PresentMode::Mailbox, ext(8, 8)));
    assert_eq!(cfg.unwrap().image_count, 2);
    assert_eq!(
        negotiate_queried(Ok(c), Ok(vec![]), Ok(vec![]), PresentMode::Mailbox, ext(8, 8)),
        Err(PresentError::NoCompatibleConfig)
    );
}
