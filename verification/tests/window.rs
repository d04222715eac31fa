use epaper_driver::color::Color;
use epaper_driver::error::Error;
use epaper_driver::framebuffer::FrameBuffer;
use epaper_driver::panel::PanelVariant;
use epaper_driver::window::{check_window, extract_window};
use epaper_driver::wire::{copy_bytes, fill_bytes};

fn frame(len: usize) -> Vec<u8> {
    (0..len).map(|i| (i % 251) as u8).collect()
}

#[test]
fn check_window_accepts_aligned_windows_inside_the_panel() {
    assert!(check_window(PanelVariant::Epd1in54, 20, 20, 160, 160));
    assert!(check_window(PanelVariant::Epd1in54, 0, 0, 200, 200));
    assert!(check_window(PanelVariant::Epd1in54, 192, 192, 8, 8));
    assert!(check_window(PanelVariant::Epd1in54, 25, 25, 16, 16));
    assert!(check_window(PanelVariant::Epd4in2, 0, 0, 400, 296));
    assert!(check_window(PanelVariant::Epd4in2, 392, 292, 8, 8));
}

#[test]
fn check_window_rejects_the_rest() {
    assert!(!check_window(PanelVariant::Epd1in54, 20, 20, 161, 160));
    assert!(!check_window(PanelVariant::Epd1in54, 20, 20, 160, 164));
    assert!(!check_window(PanelVariant::Epd1in54, 0, 0, 0, 8));
    assert!(!check_window(PanelVariant::Epd1in54, 0, 0, 8, 0));
    assert!(!check_window(PanelVariant::Epd1in54, 193, 0, 8, 8));
    assert!(!check_window(PanelVariant::Epd1in54, 0, 193, 8, 8));
    assert!(!check_window(PanelVariant::Epd1in54, 0, 0, 208, 8));
    assert!(!check_window(PanelVariant::Epd1in54, u32::MAX, u32::MAX, 8, 8));
    assert!(!check_window(PanelVariant::Epd1in54, 8, 8, u32::MAX - 7, u32::MAX - 7));
    assert!(!check_window(PanelVariant::Epd4in2, 50, 50, 250, 250));
    assert!(!check_window(PanelVariant::Epd4in2, 0, 0, 400, 304));
}

#[test]
fn extract_window_cuts_rows_out_of_the_frame() {
    let source = frame(5000);
    let window = extract_window(PanelVariant::Epd1in54, &source, 20, 20, 160, 160).unwrap();
    assert_eq!(window.len(), 20 * 160);
    for row in 0..160 {
        let start = (20 + row) * 25 + 2;
        assert_eq!(&window[row * 20..(row + 1) * 20], &source[start..start + 20]);
    }
}

#[test]
fn extract_window_of_the_whole_panel_is_the_frame() {
    let source = frame(5000);
    assert_eq!(extract_window(PanelVariant::Epd1in54, &source, 0, 0, 200, 200), Ok(source));
    let source = frame(15000);
    assert_eq!(
        extract_window(PanelVariant::Epd4in2, &source, 0, 0, 400, 296),
        Ok(source[..50 * 296].to_vec())
    );
}

#[test]
fn extract_window_of_one_cell() {
    let source = frame(5000);
    let window = extract_window(PanelVariant::Epd1in54, &source, 96, 96, 8, 8).unwrap();
    let wanted: Vec<u8> = (0..8).map(|row| source[(96 + row) * 25 + 12]).collect();
    assert_eq!(window, wanted);
    // the low three bits of x are dropped
    assert_eq!(extract_window(PanelVariant::Epd1in54, &source, 103, 96, 8, 8), Ok(wanted));
}

#[test]
fn extract_window_reports_an_invalid_window_first() {
    let source = frame(5000);
    assert_eq!(
        extract_window(PanelVariant::Epd1in54, &source, 20, 20, 12, 160),
        Err(Error::InvalidWindow)
    );
    assert_eq!(
        extract_window(PanelVariant::Epd1in54, &source[..10], 20, 20, 12, 160),
        Err(Error::InvalidWindow)
    );
    assert_eq!(
        extract_window(PanelVariant::Epd1in54, &source, 200, 200, 8, 8),
        Err(Error::InvalidWindow)
    );
}

#[test]
fn extract_window_needs_a_full_frame() {
    let source = frame(15000);
    assert_eq!(
        extract_window(PanelVariant::Epd1in54, &source, 20, 20, 160, 160),
        Err(Error::SizeMismatch)
    );
    assert_eq!(
        extract_window(PanelVariant::Epd4in2, &source[..14999], 0, 0, 8, 8),
        Err(Error::SizeMismatch)
    );
    assert_eq!(
        extract_window(PanelVariant::Epd1in54, &[], 0, 0, 8, 8),
        Err(Error::SizeMismatch)
    );
}

#[test]
fn fill_bytes_repeats_one_value() {
    assert_eq!(fill_bytes(0xff, 0), Vec::<u8>::new());
    assert_eq!(fill_bytes(0xa5, 3), vec![0xa5, 0xa5, 0xa5]);
    assert_eq!(fill_bytes(0x00, 5000), vec![0u8; 5000]);
}

#[test]
fn copy_bytes_copies() {
    assert_eq!(copy_bytes(&[]), Vec::<u8>::new());
    assert_eq!(copy_bytes(&[1, 2, 3]), vec![1, 2, 3]);
}

#[test]
fn a_window_holds_the_pixels_of_its_rectangle() {
    let mut buffer = FrameBuffer::new(200, 200, vec![0u8; 5000]).unwrap();
    for step in 0..3000u32 {
        buffer.set_pixel(step * 37 % 200, step * 53 % 200, Color::White);
    }
    // the columns of the window start at 16, the byte boundary below 20
    let window = extract_window(PanelVariant::Epd1in54, buffer.as_bytes(), 20, 24, 160, 152)
        .unwrap();
    assert_eq!(window.len(), 20 * 152);
    for py in 24..176u32 {
        for px in 16..176u32 {
            let byte = window[((py - 24) * 20 + (px / 8 - 2)) as usize];
            let color = if byte & (0x80 >> (px % 8)) != 0 { Color::White } else { Color::Black };
            assert_eq!(buffer.get_pixel(px, py), Some(color));
        }
    }
}
