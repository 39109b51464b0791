use nanocv::{ImageMapping, ImgRange, Point, Range, Range2d, Vec2d};

#[test]
fn test_range_add() {
    assert_eq!(Range::new(1..3) + 2, Range::new(3..5));
}

#[test]
fn test_range_sub() {
    assert_eq!(Range::new(1..3) - 1, Range::new(0..2));
}

#[test]
fn test_range2d_add() {
    assert_eq!(Range2d::new(1..3, 2..5) + Vec2d::new(2, 1), Range2d::new(3..5, 3..6));
}

#[test]
fn test_range2d_sub() {
    assert_eq!(Range2d::new(1..3, 2..5) - Vec2d::new(2, 1), Range2d::new(-1..1, 1..4));
}

#[test]
fn range_bounds_and_length() {
    let range = Range::<isize>::new(1..4);
    assert_eq!(range.start, 1);
    assert_eq!(range.end, 4);
    assert_eq!(range.length(), 3);
    assert_eq!(range.to_range(), 1..4);
    assert_eq!(Range::<usize>::new(2..5).length(), 3);
}

#[test]
fn range_intersection() {
    assert_eq!(Range::<isize>::new(1..3).intersect(Range::new(2..4)), Range::new(2..3));
    assert_eq!(Range::<usize>::new(0..2).intersect(Range::new(5..9)), Range::new(5..2));
}

#[test]
fn range2d_corners_and_size() {
    let range = Range2d::<isize>::new(0..2, 1..4);
    assert_eq!(range.start(), Vec2d::new(0, 1));
    assert_eq!(range.end(), Vec2d::new(2, 4));
    assert_eq!(range.width(), 2);
    assert_eq!(range.height(), 3);
    assert_eq!(
        Range2d::<isize>::new(0..2, 1..3).intersect(Range2d::new(1..3, 2..5)),
        Range2d::new(1..2, 2..3)
    );
    assert_eq!(Range2d::<usize>::new(0..2, 1..4).width(), 2);
}

#[test]
fn shift_round_trip() {
    let region = Range2d::<isize>::new(-3..7, 2..9);
    for v in [Vec2d::new(0, 0), Vec2d::new(5, -2), Vec2d::new(-100, 40), Vec2d::new(isize::MAX, isize::MIN)] {
        assert_eq!((region + v) - v, region);
        assert_eq!((region + v) + (-v), region);
    }
}

#[test]
fn shift_wraps_at_isize_bounds() {
    assert_eq!(Range::new(isize::MAX - 1..isize::MAX) + 2, Range::new(isize::MIN..isize::MIN + 1));
    assert_eq!(-Vec2d::new(isize::MIN, 3), Vec2d::new(isize::MIN, -3));
}

#[test]
fn vector_arithmetic() {
    assert_eq!(Vec2d::new(1isize, 2) + Vec2d::new(2, 4), Vec2d::new(3, 6));
    assert_eq!(Vec2d::new(1isize, 2) - Vec2d::new(2, 4), Vec2d::new(-1, -2));
    assert_eq!(Vec2d::<usize>::new(3, 4).product(), 12);
    assert_eq!(Vec2d::<isize>::new(-3, 4).product(), -12);
    let point = Point::<usize>::new(1, 2);
    assert_eq!(point.x, 1);
    assert_eq!(point.y, 2);
    assert_eq!(Point::<usize>::new(3, 4).product(), 12);
}

#[test]
fn mapping_of_shifted_regions() {
    let image = ImgRange::new(0..4, 0..3);
    let larger = ImgRange::new(0..5, 0..4);
    let mapping = ImageMapping::new(image, image + Vec2d::new(2, -1), image, larger);
    assert_eq!(mapping.shift, Vec2d::new(2, -1));
    assert_eq!(mapping.src, Range2d::new(0..3, 1..3));
    assert_eq!(mapping.dst, Range2d::new(2..5, 0..2));
    assert_eq!(mapping.src.width(), mapping.dst.width());
    assert_eq!(mapping.src.height(), mapping.dst.height());
}

#[test]
fn mapping_of_disjoint_regions_is_empty() {
    let image = ImgRange::new(0..4, 0..3);
    let mapping = ImageMapping::new(image, image + Vec2d::new(10, 10), image, image);
    assert_eq!(mapping.src.width(), 0);
    assert_eq!(mapping.dst.width(), 0);
    assert_eq!(mapping.src.height(), 0);
    assert_eq!(mapping.dst.height(), 0);
    let mapping = ImageMapping::new(ImgRange::new(-9..-5, 0..3), ImgRange::new(-9..-5, 0..3), image, image);
    assert_eq!(mapping.src.width(), 0);
    assert_eq!(mapping.dst.width(), 0);
}

#[test]
fn mapping_of_areas_of_different_sizes() {
    let bounds = ImgRange::new(0..10, 0..10);
    let mapping = ImageMapping::new(ImgRange::new(0..4, 0..1), ImgRange::new(0..2, 0..1), bounds, bounds);
    assert_eq!(mapping.src, Range2d::new(0..2, 0..1));
    assert_eq!(mapping.dst, Range2d::new(0..2, 0..1));

    let mapping = ImageMapping::new(ImgRange::new(3..5, 0..1), ImgRange::new(0..1, 2..6), bounds, bounds);
    assert_eq!(mapping.shift, Vec2d::new(-3, 2));
    assert_eq!(mapping.src, Range2d::new(3..4, 0..1));
    assert_eq!(mapping.dst, Range2d::new(0..1, 2..3));
}

#[test]
fn mapping_with_empty_output_area_is_empty() {
    let bounds = ImgRange::new(0..10, 0..10);
    let mapping = ImageMapping::new(ImgRange::new(0..1, 0..1), ImgRange::new(0..0, 0..1), bounds, bounds);
    assert_eq!(mapping.src.width(), 0);
    assert_eq!(mapping.dst.width(), 0);
    assert_eq!(mapping.src.height(), mapping.dst.height());
}

#[test]
fn range_conversions() {
    let range: Range<i32> = Range::from(1..4);
    assert_eq!(range, Range::new(1..4));
    let back: std::ops::Range<i32> = std::ops::Range::from(range);
    assert_eq!(back, 1..4);
    assert_eq!(Range::<usize>::from(Range::<isize>::new(2..7)), Range::new(2..7));
    assert_eq!(Range::<isize>::from(Range::<usize>::new(2..7)), Range::new(2..7));
    assert_eq!(Range2d::<usize>::from(Range2d::<isize>::new(0..2, 1..4)), Range2d::new(0..2, 1..4));
}

#[test]
fn vector_and_point_operators() {
    assert_eq!(Vec2d::new(1isize, 2) * Vec2d::new(2, 4), 10);
    assert_eq!(Vec2d::new(1isize, 2) + 1, Vec2d::new(2, 3));
    assert_eq!(Vec2d::new(1isize, 2) - 1, Vec2d::new(0, 1));
    assert_eq!(Vec2d::new(1isize, 2) * 2, Vec2d::new(2, 4));
    assert_eq!(Vec2d::new(2isize, -5) / 2, Vec2d::new(1, -2));
    assert_eq!(Vec2d::<u8>::default(), Vec2d::new(0, 0));
    assert_eq!(Point::new(1isize, 2) + Point::new(2, 4), Point::new(3, 6));
    assert_eq!(Point::new(1isize, 2) - Point::new(2, 4), Point::new(-1, -2));
    assert_eq!(-Point::new(1isize, -2), Point::new(-1, 2));
    assert_eq!(Point::new(1isize, 2) * Point::new(2, 4), 10);
    assert_eq!(Point::new(1isize, 2) + 1, Point::new(2, 3));
    assert_eq!(Point::new(1isize, 2) - 1, Point::new(0, 1));
    assert_eq!(Point::new(1isize, 2) * 2, Point::new(2, 4));
    assert_eq!(Point::new(2isize, 4) / 2, Point::new(1, 2));
    assert_eq!(Point::<i64>::default(), Point::new(0, 0));
}
