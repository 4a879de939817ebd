use processing_render::error::ProcessingError;
use processing_render::surface::{
    center_on_monitor, half_toward_zero, monitor_workarea, position_on_monitor, prepare_offscreen, offscreen_pixel_size,
    MonitorInfo, OffscreenFormat, PixelRect,
};

fn monitor(workarea: Option<PixelRect>) -> MonitorInfo {
    MonitorInfo { x: 100, y: 50, width: 1920, height: 1080, workarea }
}

#[test]
fn workarea_is_reported_or_the_whole_monitor() {
    assert_eq!(
        monitor_workarea(Some(monitor(None))),
        PixelRect { min_x: 100, min_y: 50, max_x: 2020, max_y: 1130 }
    );
    let wa = PixelRect { min_x: 100, min_y: 80, max_x: 2020, max_y: 1130 };
    assert_eq!(monitor_workarea(Some(monitor(Some(wa)))), wa);
    assert_eq!(monitor_workarea(None), PixelRect { min_x: 0, min_y: 0, max_x: 0, max_y: 0 });
}

#[test]
fn positions_are_relative_to_the_usable_region() {
    let wa = PixelRect { min_x: 100, min_y: 80, max_x: 2020, max_y: 1130 };
    assert_eq!(position_on_monitor(Some(monitor(Some(wa))), 10, 20), Some((110, 100)));
    assert_eq!(position_on_monitor(Some(monitor(None)), -10, 0), Some((90, 50)));
    assert_eq!(position_on_monitor(None, 1, 1), None);
}

#[test]
fn windows_are_centred_in_the_usable_region() {
    assert_eq!(center_on_monitor(Some(monitor(None)), 800, 600), Some((660, 290)));
    assert_eq!(center_on_monitor(Some(monitor(None)), 1921, 1080), Some((100, 50)));
    assert_eq!(center_on_monitor(Some(monitor(None)), 1923, 1080), Some((99, 50)));
    assert_eq!(center_on_monitor(None, 10, 10), None);
}

#[test]
fn halving_rounds_toward_zero() {
    assert_eq!(half_toward_zero(-3), -1);
    assert_eq!(half_toward_zero(3), 1);
    assert_eq!(half_toward_zero(-4), -2);
}

#[test]
fn offscreen_storage_is_zeroed_by_format() {
    assert_eq!(prepare_offscreen(4, 3, OffscreenFormat::Rgba8Unorm), Ok(vec![0u8; 48]));
    assert_eq!(prepare_offscreen(4, 3, OffscreenFormat::Bgra8Unorm), Ok(vec![0u8; 48]));
    assert_eq!(prepare_offscreen(4, 3, OffscreenFormat::Rgba16Float), Ok(vec![0u8; 48]));
    assert_eq!(prepare_offscreen(4, 3, OffscreenFormat::Rgba32Float), Ok(vec![0u8; 48]));
    assert_eq!(prepare_offscreen(4, 3, OffscreenFormat::Rgba8UnormSrgb), Ok(vec![0u8; 48]));
    assert_eq!(prepare_offscreen(4, 3, OffscreenFormat::R8Unorm), Ok(vec![0u8; 12]));
    assert_eq!(prepare_offscreen(4, 3, OffscreenFormat::Rg8Unorm), Ok(vec![0u8; 24]));
    assert_eq!(prepare_offscreen(0, 3, OffscreenFormat::Rgba8Unorm), Ok(Vec::new()));
}

#[test]
fn offscreen_pixel_sizes() {
    assert_eq!(offscreen_pixel_size(OffscreenFormat::R8Unorm), Some(1));
    assert_eq!(offscreen_pixel_size(OffscreenFormat::Rg8Unorm), Some(2));
    assert_eq!(offscreen_pixel_size(OffscreenFormat::Bgra8Unorm), Some(4));
    assert_eq!(offscreen_pixel_size(OffscreenFormat::Other), None);
}

#[test]
fn offscreen_refuses_other_formats() {
    assert_eq!(
        prepare_offscreen(4, 3, OffscreenFormat::Other),
        Err(ProcessingError::UnsupportedTextureFormat)
    );
    assert_eq!(
        prepare_offscreen(u32::MAX, u32::MAX, OffscreenFormat::Other),
        Err(ProcessingError::UnsupportedTextureFormat)
    );
}
