use pathtrace::raster::{pixel_of_slot, slot_of_pixel};

#[test]
fn first_slot_is_top_left() {
    assert_eq!(pixel_of_slot(0, 4, 3), (0, 2));
    assert_eq!(slot_of_pixel(0, 0, 4, 3), 0);
}

#[test]
fn last_slot_is_bottom_right() {
    assert_eq!(pixel_of_slot(11, 4, 3), (3, 0));
    assert_eq!(slot_of_pixel(3, 2, 4, 3), 11);
}

#[test]
fn slot_in_the_middle() {
    assert_eq!(pixel_of_slot(6, 4, 3), (2, 1));
    assert_eq!(slot_of_pixel(2, 1, 4, 3), 6);
}

#[test]
fn slots_and_pixels_round_trip() {
    let (width, height) = (7usize, 5usize);
    for i in 0..width * height {
        let (x, y) = pixel_of_slot(i, width, height);
        assert_eq!(slot_of_pixel(x, height - 1 - y, width, height), i);
    }
}
