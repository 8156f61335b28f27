use image_combiner::errors::ImageDataErrors;
use image_combiner::image_data::ImageFormatTag;
use image_combiner::image_data::PixelBuffer;
use image_combiner::pipeline::process_images;
use image_combiner::resample::resample;
use image_combiner::resample::standardise_size;

fn solid_image(width: u32, height: u32, format: ImageFormatTag, byte: u8) -> PixelBuffer {
    let len = (width as usize) * (height as usize) * 4;
    PixelBuffer::new(width, height, format, vec![byte; len]).unwrap()
}

fn tag_of(format: image::ImageFormat) -> ImageFormatTag {
    match format {
        image::ImageFormat::Png => ImageFormatTag::Png,
        image::ImageFormat::Jpeg => ImageFormatTag::Jpeg,
        image::ImageFormat::Gif => ImageFormatTag::Gif,
        image::ImageFormat::Bmp => ImageFormatTag::Bmp,
        _ => panic!("format not used by these tests"),
    }
}

fn decode(encoded: &[u8]) -> PixelBuffer {
    let format = image::guess_format(encoded).unwrap();
    let decoded = image::load_from_memory_with_format(encoded, format).unwrap();
    let rgba = decoded.to_rgba8();
    let (width, height) = rgba.dimensions();
    PixelBuffer::new(width, height, tag_of(format), rgba.into_raw()).unwrap()
}

fn encode_png_rgba(width: u32, height: u32, byte: u8) -> Vec<u8> {
    let bytes = vec![byte; (width as usize) * (height as usize) * 4];
    let mut cursor = std::io::Cursor::new(Vec::new());
    image::write_buffer_with_format(
        &mut cursor,
        &bytes,
        width,
        height,
        image::ExtendedColorType::Rgba8,
        image::ImageFormat::Png,
    )
    .unwrap();
    cursor.into_inner()
}

fn encode_jpeg_rgb(width: u32, height: u32, byte: u8) -> Vec<u8> {
    let bytes = vec![byte; (width as usize) * (height as usize) * 3];
    let mut cursor = std::io::Cursor::new(Vec::new());
    image::write_buffer_with_format(
        &mut cursor,
        &bytes,
        width,
        height,
        image::ExtendedColorType::Rgb8,
        image::ImageFormat::Jpeg,
    )
    .unwrap();
    cursor.into_inner()
}

#[test]
fn resample_match_is_identity() {
    let img = solid_image(2, 2, ImageFormatTag::Png, 0x37);
    let before = img.pixels.clone();
    let out = resample(img, (2, 2));
    assert_eq!(out.width, 2);
    assert_eq!(out.height, 2);
    assert_eq!(out.pixels, before);
}

#[test]
fn resample_resizes_to_target() {
    let img = solid_image(4, 4, ImageFormatTag::Png, 0x11);
    let out = resample(img, (2, 2));
    assert_eq!(out.width, 2);
    assert_eq!(out.height, 2);
    assert_eq!(out.pixels.len(), 16);
}

#[test]
fn standardise_size_resamples_only_the_larger() {
    let small = solid_image(2, 2, ImageFormatTag::Png, 0x22);
    let large = solid_image(4, 4, ImageFormatTag::Png, 0x11);
    let small_bytes = small.pixels.clone();
    let (first, second) = standardise_size(large, small);
    assert_eq!((first.width, first.height), (2, 2));
    assert_eq!((second.width, second.height), (2, 2));
    assert_eq!(first.pixels.len(), 16);
    assert_eq!(second.pixels, small_bytes);
}

#[test]
fn format_mismatch_short_circuits() {
    let a = solid_image(2, 2, ImageFormatTag::Png, 0x11);
    let b = solid_image(2, 2, ImageFormatTag::Jpeg, 0x22);
    let r = process_images(a, b, String::from("out.png"));
    assert!(matches!(r, Err(ImageDataErrors::DifferentImageFormats)));
}

#[test]
fn loaded_png_and_jpeg_yield_format_mismatch() {
    let png = decode(&encode_png_rgba(4, 4, 0x11));
    let jpeg = decode(&encode_jpeg_rgb(4, 4, 0x22));
    assert_eq!(png.format, ImageFormatTag::Png);
    assert_eq!(jpeg.format, ImageFormatTag::Jpeg);
    let r = process_images(png, jpeg, String::from("out.png"));
    assert!(matches!(r, Err(ImageDataErrors::DifferentImageFormats)));
}

#[test]
fn end_to_end_same_size_no_resample() {
    let a = solid_image(4, 4, ImageFormatTag::Png, 0x11);
    let b = solid_image(4, 4, ImageFormatTag::Png, 0x22);
    let (out, format) = process_images(a, b, String::from("merged.png")).unwrap();
    assert_eq!(format, ImageFormatTag::Png);
    assert_eq!(out.width, 4);
    assert_eq!(out.height, 4);
    assert_eq!(out.name, "merged.png");
    assert_eq!(out.data.len(), 64);
    for (i, byte) in out.data.iter().enumerate() {
        if i % 8 < 4 {
            assert_eq!(*byte, 0x11, "byte {} must come from the first image", i);
        } else {
            assert_eq!(*byte, 0x22, "byte {} must come from the second image", i);
        }
    }
}

#[test]
fn end_to_end_loaded_pngs() {
    let a = decode(&encode_png_rgba(4, 4, 0x11));
    let b = decode(&encode_png_rgba(4, 4, 0x22));
    let (out, format) = process_images(a, b, String::from("merged.png")).unwrap();
    assert_eq!(format, ImageFormatTag::Png);
    assert_eq!((out.width, out.height), (4, 4));
    for (i, byte) in out.data.iter().enumerate() {
        let expected = if i % 8 < 4 { 0x11 } else { 0x22 };
        assert_eq!(*byte, expected);
    }
}

#[test]
fn end_to_end_differing_sizes_resamples_larger() {
    let a = solid_image(4, 4, ImageFormatTag::Png, 0x11);
    let b = solid_image(2, 2, ImageFormatTag::Png, 0x22);
    let (out, format) = process_images(a, b, String::from("merged.png")).unwrap();
    assert_eq!(format, ImageFormatTag::Png);
    assert_eq!((out.width, out.height), (2, 2));
    assert_eq!(out.data.len(), 16);
    for (i, byte) in out.data.iter().enumerate() {
        let expected = if i % 8 < 4 { 0x11 } else { 0x22 };
        assert_eq!(*byte, expected);
    }
}
