use wlgreet::buffer::{Buffer, BufferError, Region};
use wlgreet::color::Color;
use wlgreet::draw::draw_box;

fn grid(width: u32, height: u32) -> Buffer {
    Buffer::new(vec![0u32; (width * height) as usize], (width, height))
}

#[test]
fn a_box_is_drawn_as_an_outline_one_pixel_wide() {
    let mut buf = grid(6, 5);
    let c = Color::new(1, 1, 1, 1);
    assert_eq!(draw_box(&mut buf, &Region::new(1, 1, 5, 4), &c, (4, 3)), Ok(()));
    let p = 0x0101_0101u32;
    let rows = vec![
        vec![0, 0, 0, 0, 0, 0],
        vec![0, p, p, p, p, 0],
        vec![0, p, 0, 0, p, 0],
        vec![0, p, p, p, p, 0],
        vec![0, 0, 0, 0, 0, 0],
    ];
    assert_eq!(buf.into_inner(), rows.concat());
}

#[test]
fn a_box_of_one_pixel_and_a_box_of_none() {
    let c = Color::new(255, 255, 255, 255);
    let mut buf = grid(2, 2);
    assert_eq!(draw_box(&mut buf, &Region::new(1, 0, 1, 2), &c, (1, 1)), Ok(()));
    assert_eq!(draw_box(&mut buf, &Region::new(0, 0, 2, 2), &c, (0, 2)), Ok(()));
    assert_eq!(draw_box(&mut buf, &Region::new(0, 0, 2, 2), &c, (2, 0)), Ok(()));
    assert_eq!(buf.into_inner(), vec![0, 0xffff_ffff, 0, 0]);
}

#[test]
fn a_box_that_does_not_fit_is_refused_and_nothing_is_drawn() {
    let c = Color::new(255, 255, 255, 255);
    let mut buf = grid(4, 4);
    let err = Err(BufferError::OutOfBounds);
    assert_eq!(draw_box(&mut buf, &Region::new(0, 0, 3, 3), &c, (4, 3)), err);
    assert_eq!(draw_box(&mut buf, &Region::new(0, 0, 3, 3), &c, (3, 4)), err);
    assert_eq!(draw_box(&mut buf, &Region::new(2, 0, 3, 3), &c, (3, 3)), err);
    assert_eq!(draw_box(&mut buf, &Region::new(0, 2, 3, 3), &c, (3, 3)), err);
    assert_eq!(buf.into_inner(), vec![0u32; 16]);
}
