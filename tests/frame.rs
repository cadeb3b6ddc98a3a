use duck_shot::error::CaptureError;
use duck_shot::frame::{extract_image_buffer, RawFrame};

fn frame(width: i32, height: i32, bits_per_pixel: i32, data: Vec<u8>) -> RawFrame {
    RawFrame { width, height, bits_per_pixel, data }
}

#[test]
fn channel_reorder_first_texel() {
    let data: Vec<u8> = [0x10u8, 0x20, 0x30].repeat(4);
    let p = extract_image_buffer(&frame(2, 2, 24, data)).unwrap();
    assert_eq!(&p.data[0..4], &[0x30, 0x20, 0x10, 0xFF]);
    assert_eq!(p.data, [0x30u8, 0x20, 0x10, 0xFF].repeat(4));
}

#[test]
fn padded_pixels_drop_padding_byte() {
    let data = vec![1u8, 2, 3, 99, 4, 5, 6, 98, 7, 8, 9, 97];
    let p = extract_image_buffer(&frame(3, 1, 32, data)).unwrap();
    assert_eq!((p.width, p.height), (3, 1));
    assert_eq!(p.data, vec![3, 2, 1, 255, 6, 5, 4, 255, 9, 8, 7, 255]);
}

#[test]
fn length_and_alpha_for_each_pixel_size() {
    for bits in [24, 32, 40, 48, 64] {
        let bpp = (bits / 8) as usize;
        let (w, h) = (5usize, 3usize);
        let data: Vec<u8> = (0..w * h * bpp).map(|i| (i % 251) as u8).collect();
        let p = extract_image_buffer(&frame(w as i32, h as i32, bits, data.clone())).unwrap();
        assert_eq!(p.data.len(), w * h * 4);
        for t in 0..w * h {
            assert_eq!(p.data[4 * t + 3], 255);
            assert_eq!(p.data[4 * t], data[t * bpp + 2]);
            assert_eq!(p.data[4 * t + 1], data[t * bpp + 1]);
            assert_eq!(p.data[4 * t + 2], data[t * bpp]);
        }
    }
}

#[test]
fn geometry_comes_from_the_frame() {
    let p = extract_image_buffer(&frame(1, 2, 24, vec![0, 0, 0, 1, 2, 3])).unwrap();
    assert_eq!((p.width, p.height), (1, 2));
    assert_eq!(p.data, vec![0, 0, 0, 255, 3, 2, 1, 255]);
}

#[test]
fn zero_width_or_height_is_refused() {
    let r = extract_image_buffer(&frame(0, 4, 32, vec![0; 64]));
    assert!(matches!(r, Err(CaptureError::UnsupportedFormat)));
    let r = extract_image_buffer(&frame(4, 0, 32, vec![0; 64]));
    assert!(matches!(r, Err(CaptureError::UnsupportedFormat)));
    let r = extract_image_buffer(&frame(-1, 4, 32, vec![0; 64]));
    assert!(matches!(r, Err(CaptureError::UnsupportedFormat)));
}

#[test]
fn unreadable_encodings_are_refused() {
    for bits in [0, 8, 16, 23, 25, 30, -32] {
        let r = extract_image_buffer(&frame(2, 2, bits, vec![0; 64]));
        assert!(matches!(r, Err(CaptureError::UnsupportedFormat)), "bits {}", bits);
    }
}

#[test]
fn short_data_is_refused() {
    let r = extract_image_buffer(&frame(2, 2, 32, vec![0; 15]));
    assert!(matches!(r, Err(CaptureError::UnsupportedFormat)));
    let r = extract_image_buffer(&frame(2, 2, 32, vec![0; 16]));
    assert!(r.is_ok());
}

#[test]
fn oversized_geometry_is_refused() {
    let r = extract_image_buffer(&frame(i32::MAX, i32::MAX, 32, vec![0; 16]));
    assert!(matches!(r, Err(CaptureError::UnsupportedFormat)));
}
