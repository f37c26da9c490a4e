use wlgreet::buffer::{Buffer, BufferError, Region};
use wlgreet::color::Color;

fn grid(width: u32, height: u32) -> Buffer {
    Buffer::new(vec![0u32; (width * height) as usize], (width, height))
}

fn red() -> Color {
    Color::new(255, 0, 0, 255)
}

#[test]
fn memset_fills_the_whole_region_and_nothing_else() {
    let mut buf = grid(4, 3);
    buf.memset(&Region::new(1, 1, 2, 1), &red());
    for y in 0..3 {
        for x in 0..4 {
            let inside = y == 1 && (x == 1 || x == 2);
            let expected = if inside { 0xffff_0000 } else { 0 };
            assert_eq!(buf.get((x, y)), Some(expected));
        }
    }
}

#[test]
fn memset_over_the_full_region_fills_every_pixel() {
    let mut buf = grid(3, 2);
    let all = buf.region();
    buf.memset(&all, &Color::new(1, 2, 3, 4));
    assert_eq!(buf.into_inner(), vec![0x0401_0203u32; 6]);
}

#[test]
fn memset_clips_a_region_that_leaves_the_grid() {
    let mut buf = grid(2, 2);
    buf.memset(&Region::new(1, 1, 10, 10), &red());
    assert_eq!(buf.into_inner(), vec![0, 0, 0, 0xffff_0000]);
}

#[test]
fn memset_leaves_the_store_behind_the_grid_alone() {
    let mut buf = Buffer::new(vec![7u32; 6], (2, 2));
    let all = buf.region();
    buf.memset(&all, &red());
    assert_eq!(buf.into_inner(), vec![0xffff_0000, 0xffff_0000, 0xffff_0000, 0xffff_0000, 7, 7]);
}

#[test]
fn put_addresses_pixels_from_the_region_origin() {
    let mut buf = grid(4, 4);
    let region = Region::new(2, 1, 2, 2);
    assert_eq!(buf.put(&region, (1, 1), &red()), Ok(()));
    assert_eq!(buf.get((3, 2)), Some(0xffff_0000));
    assert_eq!(buf.get((1, 1)), Some(0));
}

#[test]
fn put_refuses_a_position_outside_the_region() {
    let mut buf = grid(4, 4);
    let region = Region::new(0, 0, 2, 2);
    assert_eq!(buf.put(&region, (2, 0), &red()), Err(BufferError::OutOfBounds));
    assert_eq!(buf.put(&region, (0, 2), &red()), Err(BufferError::OutOfBounds));
    assert_eq!(buf.into_inner(), vec![0u32; 16]);
}

#[test]
fn put_refuses_a_position_outside_the_grid() {
    let mut buf = grid(2, 2);
    let region = Region::new(1, 1, 5, 5);
    assert_eq!(buf.put(&region, (1, 0), &red()), Err(BufferError::OutOfBounds));
    assert_eq!(buf.put(&region, (0, 0), &red()), Ok(()));
}

#[test]
fn get_is_none_outside_the_grid() {
    let buf = grid(2, 3);
    assert_eq!(buf.get((2, 0)), None);
    assert_eq!(buf.get((0, 3)), None);
    assert_eq!(buf.get((1, 2)), Some(0));
    assert_eq!(buf.dimensions(), (2, 3));
}

#[test]
fn copy_to_copies_the_rectangle_and_only_it() {
    let src = Buffer::new((1..=12).collect(), (4, 3));
    let mut dst = grid(4, 3);
    src.copy_to(&mut dst, (1, 0, 2, 2));
    assert_eq!(dst.into_inner(), vec![0, 2, 3, 0, 0, 6, 7, 0, 0, 0, 0, 0]);
}

#[test]
fn copy_to_clips_the_rectangle_to_both_grids() {
    let src = Buffer::new((1..=4).collect(), (2, 2));
    let mut dst = grid(3, 3);
    src.copy_to(&mut dst, (-5, -5, 100, 100));
    assert_eq!(dst.into_inner(), vec![1, 2, 0, 3, 4, 0, 0, 0, 0]);
}

#[test]
fn copy_to_of_an_empty_rectangle_copies_nothing() {
    let src = Buffer::new(vec![9u32; 4], (2, 2));
    let mut dst = grid(2, 2);
    src.copy_to(&mut dst, (0, 0, 0, 2));
    src.copy_to(&mut dst, (1, 1, -1, 1));
    assert_eq!(dst.into_inner(), vec![0u32; 4]);
}

#[test]
fn subdimensions_are_counted_from_the_region_origin() {
    let outer = Region::new(10, 20, 100, 50);
    assert_eq!(outer.subdimensions((5, 6, 7, 8)), Ok(Region::new(15, 26, 7, 8)));
    assert_eq!(outer.subdimensions((0, 0, 100, 50)), Ok(outer));
}

#[test]
fn subdimensions_past_the_extent_are_refused() {
    let outer = Region::new(10, 20, 100, 50);
    assert_eq!(outer.subdimensions((1, 0, 100, 50)), Err(BufferError::OutOfBounds));
    assert_eq!(outer.subdimensions((0, 1, 100, 50)), Err(BufferError::OutOfBounds));
    assert_eq!(outer.subdimensions((u32::MAX, 0, 1, 1)), Err(BufferError::OutOfBounds));
}

#[test]
fn offset_moves_the_origin_and_shrinks_the_extent() {
    let outer = Region::new(10, 20, 100, 50);
    assert_eq!(outer.offset((32, 24)), Ok(Region::new(42, 44, 68, 26)));
    assert_eq!(outer.offset((100, 50)), Ok(Region::new(110, 70, 0, 0)));
    assert_eq!(outer.offset((101, 0)), Err(BufferError::OutOfBounds));
    assert_eq!(outer.offset((0, 51)), Err(BufferError::OutOfBounds));
}

#[test]
fn bounds_come_back_as_they_were_given() {
    let region = Region::new(1, 2, 3, 4);
    assert_eq!(region.get_bounds(), (1, 2, 3, 4));
    assert_eq!(region.get_signed_bounds(), (1, 2, 3, 4));
    assert_eq!(grid(5, 6).region(), Region::new(0, 0, 5, 6));
}
