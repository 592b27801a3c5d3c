use esp_demo::config::{LCD_BUFFER_SIZE, LCD_HEIGHT, LCD_WIDTH};
use esp_demo::raw_framebuffer::{Pixel, RawFramebuffer, Region};

fn blank(width: u32, height: u32) -> RawFramebuffer {
    RawFramebuffer::new(vec![0u16; (width * height) as usize], width, height)
}

#[test]
fn new_keeps_data_and_dimensions() {
    let fb = RawFramebuffer::new(vec![1, 2, 3, 4, 5, 6], 3, 2);
    assert_eq!(fb.data(), &vec![1u16, 2, 3, 4, 5, 6]);
    assert_eq!(fb.width(), 3);
    assert_eq!(fb.height(), 2);
}

#[test]
fn bounding_box_starts_at_origin() {
    let fb = blank(320, 240);
    assert_eq!(fb.bounding_box(), Region { x: 0, y: 0, width: 320, height: 240 });
}

#[test]
fn panel_constants_agree() {
    assert_eq!(LCD_WIDTH, 320);
    assert_eq!(LCD_HEIGHT, 240);
    assert_eq!(LCD_BUFFER_SIZE, LCD_WIDTH * LCD_HEIGHT);
    assert_eq!(LCD_BUFFER_SIZE, 76800);
}

#[test]
fn draw_pixel_stores_row_major() {
    let mut fb = blank(4, 3);
    fb.draw_pixel(Pixel { x: 3, y: 2, color: 0xabcd });
    let mut expected = vec![0u16; 12];
    expected[11] = 0xabcd;
    assert_eq!(fb.data(), &expected);
    fb.draw_pixel(Pixel { x: 1, y: 1, color: 7 });
    expected[5] = 7;
    assert_eq!(fb.data(), &expected);
}

#[test]
fn draw_pixel_at_origin() {
    let mut fb = blank(4, 3);
    fb.draw_pixel(Pixel { x: 0, y: 0, color: 9 });
    assert_eq!(fb.data()[0], 9);
    assert_eq!(fb.data()[1..], [0u16; 11]);
}

#[test]
fn draw_pixel_right_of_surface_is_dropped() {
    let mut fb = blank(4, 3);
    fb.draw_pixel(Pixel { x: 4, y: 0, color: 9 });
    assert_eq!(fb.data(), &vec![0u16; 12]);
}

#[test]
fn draw_pixel_below_surface_is_dropped() {
    let mut fb = blank(4, 3);
    fb.draw_pixel(Pixel { x: 0, y: 3, color: 9 });
    assert_eq!(fb.data(), &vec![0u16; 12]);
}

#[test]
fn draw_pixel_with_negative_coordinate_is_dropped() {
    let mut fb = blank(4, 3);
    fb.draw_pixel(Pixel { x: -1, y: 1, color: 9 });
    fb.draw_pixel(Pixel { x: 1, y: -1, color: 9 });
    fb.draw_pixel(Pixel { x: i32::MIN, y: i32::MIN, color: 9 });
    assert_eq!(fb.data(), &vec![0u16; 12]);
}

#[test]
fn draw_pixel_beyond_array_is_dropped() {
    // The surface claims 4 x 3 pixels, the array holds only the first 6.
    let mut fb = RawFramebuffer::new(vec![0u16; 6], 4, 3);
    fb.draw_pixel(Pixel { x: 2, y: 1, color: 5 });
    assert_eq!(fb.data(), &vec![0u16; 6]);
    fb.draw_pixel(Pixel { x: 1, y: 1, color: 5 });
    assert_eq!(fb.data(), &vec![0u16, 0, 0, 0, 0, 5]);
}

#[test]
fn draw_pixel_on_surface_without_width_is_dropped() {
    let mut fb = RawFramebuffer::new(vec![0u16; 4], 0, 4);
    fb.draw_pixel(Pixel { x: 0, y: 0, color: 5 });
    assert_eq!(fb.data(), &vec![0u16; 4]);
}

#[test]
fn draw_pixel_with_widest_surface_does_not_overflow() {
    let mut fb = RawFramebuffer::new(vec![0u16; 4], u32::MAX, u32::MAX);
    fb.draw_pixel(Pixel { x: i32::MAX, y: i32::MAX, color: 5 });
    fb.draw_pixel(Pixel { x: 3, y: 0, color: 6 });
    assert_eq!(fb.data(), &vec![0u16, 0, 0, 6]);
}

#[test]
fn draw_iter_draws_every_pixel() {
    let mut fb = blank(3, 2);
    let pixels = [
        Pixel { x: 0, y: 0, color: 1 },
        Pixel { x: 2, y: 0, color: 2 },
        Pixel { x: 1, y: 1, color: 3 },
    ];
    assert_eq!(fb.draw_iter(&pixels), Ok(()));
    assert_eq!(fb.data(), &vec![1u16, 0, 2, 0, 3, 0]);
}

#[test]
fn draw_iter_last_pixel_wins() {
    let mut fb = blank(3, 2);
    let pixels = [
        Pixel { x: 1, y: 0, color: 1 },
        Pixel { x: 1, y: 0, color: 2 },
        Pixel { x: 5, y: 5, color: 9 },
        Pixel { x: 1, y: 0, color: 3 },
    ];
    assert_eq!(fb.draw_iter(&pixels), Ok(()));
    assert_eq!(fb.data(), &vec![0u16, 3, 0, 0, 0, 0]);
}

#[test]
fn draw_iter_of_nothing_changes_nothing() {
    let mut fb = RawFramebuffer::new(vec![4, 5, 6, 7], 2, 2);
    assert_eq!(fb.draw_iter(&[]), Ok(()));
    assert_eq!(fb.data(), &vec![4u16, 5, 6, 7]);
}

#[test]
fn draw_iter_keeps_dimensions() {
    let mut fb = blank(3, 2);
    assert_eq!(fb.draw_iter(&[Pixel { x: 2, y: 1, color: 1 }]), Ok(()));
    assert_eq!(fb.width(), 3);
    assert_eq!(fb.height(), 2);
    assert_eq!(fb.data().len(), 6);
}

#[test]
fn full_frame_corners() {
    let mut fb = blank(LCD_WIDTH as u32, LCD_HEIGHT as u32);
    let pixels = [
        Pixel { x: 0, y: 0, color: 1 },
        Pixel { x: 319, y: 0, color: 2 },
        Pixel { x: 0, y: 239, color: 3 },
        Pixel { x: 319, y: 239, color: 4 },
        Pixel { x: 320, y: 239, color: 5 },
        Pixel { x: 319, y: 240, color: 6 },
    ];
    assert_eq!(fb.draw_iter(&pixels), Ok(()));
    assert_eq!(fb.data()[0], 1);
    assert_eq!(fb.data()[319], 2);
    assert_eq!(fb.data()[239 * 320], 3);
    assert_eq!(fb.data()[LCD_BUFFER_SIZE - 1], 4);
    assert_eq!(fb.data().iter().filter(|&&c| c != 0).count(), 4);
}
