use processing_render::error::{InvalidArgument, ProcessingError};
use processing_render::image::{
    align_copy_bytes_per_row, check_pixel_count, check_region, is_hdr, pixel_size,
    readback_buffer_size, sampler_modes, unpad_rows, AddressMode, FilterMode, PixelFormat,
    SamplerModes,
};

#[test]
fn pixel_sizes_of_supported_formats() {
    assert_eq!(pixel_size(PixelFormat::Rgba8UnormSrgb), Ok(4));
    assert_eq!(pixel_size(PixelFormat::Rgba16Float), Ok(8));
    assert_eq!(pixel_size(PixelFormat::Rgba32Float), Ok(16));
    assert_eq!(pixel_size(PixelFormat::Other), Err(ProcessingError::UnsupportedTextureFormat));
    assert!(is_hdr(PixelFormat::Rgba16Float));
    assert!(!is_hdr(PixelFormat::Rgba8Unorm));
}

#[test]
fn copy_rows_align_to_256_bytes() {
    assert_eq!(align_copy_bytes_per_row(0), 0);
    assert_eq!(align_copy_bytes_per_row(1), 256);
    assert_eq!(align_copy_bytes_per_row(256), 256);
    assert_eq!(align_copy_bytes_per_row(400), 512);
    assert_eq!(readback_buffer_size(100, 3, PixelFormat::Rgba8Unorm), Ok(512 * 3));
}

#[test]
fn regions_and_pixel_counts_are_checked() {
    assert_eq!(check_region(10, 10, 90, 90, 100, 100), Ok(()));
    assert_eq!(
        check_region(10, 0, 91, 1, 100, 100),
        Err(ProcessingError::InvalidArgument(InvalidArgument::RegionOutOfBounds {
            x: 10,
            y: 0,
            width: 91,
            height: 1,
            bound_width: 100,
            bound_height: 100
        }))
    );
    assert_eq!(check_pixel_count(4, 3, 12), Ok(()));
    assert_eq!(
        check_pixel_count(4, 3, 11),
        Err(ProcessingError::InvalidArgument(InvalidArgument::PixelCountMismatch { expected: 12, got: 11 }))
    );
}

#[test]
fn padding_is_stripped_row_by_row() {
    let data = vec![1, 2, 0, 0, 3, 4, 0, 0, 5, 6, 0, 0];
    assert_eq!(unpad_rows(data.clone(), 2, 2, 4), vec![1, 2, 3, 4]);
    assert_eq!(unpad_rows(data.clone(), 3, 4, 4), data);
}

#[test]
fn unpadded_rows_past_height_are_dropped() {
    let data: Vec<u8> = vec![1, 2, 3, 4, 5, 6, 7, 8, 9, 10];
    assert_eq!(unpad_rows(data.clone(), 2, 4, 4), vec![1, 2, 3, 4, 5, 6, 7, 8]);
    assert_eq!(unpad_rows(data.clone(), 5, 4, 4), vec![1, 2, 3, 4, 5, 6, 7, 8]);
    assert_eq!(unpad_rows(data, 0, 4, 4), Vec::<u8>::new());
}

#[test]
fn sampler_settings_decode() {
    assert_eq!(
        sampler_modes(1, 2, 0),
        Ok(SamplerModes {
            filter: FilterMode::Nearest,
            wrap_x: AddressMode::MirrorRepeat,
            wrap_y: AddressMode::ClampToEdge
        })
    );
    assert_eq!(
        sampler_modes(2, 0, 0),
        Err(ProcessingError::InvalidArgument(InvalidArgument::UnknownFilterMode(2)))
    );
    assert_eq!(
        sampler_modes(0, 0, 3),
        Err(ProcessingError::InvalidArgument(InvalidArgument::UnknownWrapMode(3)))
    );
}
