use nanocv::filter::map::{map_new, map_range};
use nanocv::filter::resize::{resize_nearest_new, scale_index_table};
use nanocv::filter::{mirror_horizontal_new, mirror_vertical_new, update, update_range};
use nanocv::{Img, ImgBuf, ImgBufLayout, ImgMut, ImgRange, ImgSize, LayoutError, Range2d};

#[test]
fn assert_correct_data_size_should_be_ok() {
    let dimensions = ImgBufLayout { size: ImgSize::new(2, 2), stride: 3 };
    dimensions.assert_data_size_correct(6).unwrap()
}

#[test]
fn assert_correct_data_size_invalid_length() {
    let dimensions = ImgBufLayout { size: ImgSize::new(2, 2), stride: 3 };
    assert_eq!(
        dimensions.assert_data_size_correct(7),
        Err(LayoutError::DataLength { data_size: 7, layout: dimensions })
    );
}

#[test]
fn layout_data_length() {
    assert_eq!(ImgBufLayout { size: ImgSize::new(2, 5), stride: 3 }.data_length(), 15);
    let huge = ImgBufLayout { size: ImgSize::new(1, usize::MAX), stride: 2 };
    assert!(huge.assert_data_size_correct(usize::MAX).is_err());
}

#[test]
fn buffer_construction_and_lines() {
    let buf = ImgBuf::<u8>::new(ImgSize::new(3, 2));
    assert_eq!(buf.dimensions(), ImgBufLayout { size: ImgSize::new(3, 2), stride: 3 });
    assert_eq!(buf.line_ref(0), &[0, 0, 0]);
    assert_eq!(ImgBuf::new_like(&buf).size(), ImgSize::new(3, 2));

    let buf = ImgBuf::<u8>::from_vec(ImgSize::new(2, 2), vec![1, 2, 3, 4]);
    assert_eq!(buf.line_ref(0), &[1, 2]);
    assert_eq!(buf.line_ref(1), &[3, 4]);
    assert_eq!(buf.width(), 2);
    assert_eq!(buf.height(), 2);
    assert_eq!(buf.range(), ImgRange::new(0..2, 0..2));
    assert_eq!(buf.into_pixels(), vec![1, 2, 3, 4]);

    let buf = ImgBuf::<u8>::from_vec_stride(ImgBufLayout { size: ImgSize::new(1, 2), stride: 2 }, vec![1, 2, 3, 4]);
    assert_eq!(buf.line_ref(0), &[1]);
    assert_eq!(buf.line_ref(1), &[3]);

    let buf = ImgBuf::<u8>::new_init(ImgSize::new(2, 2), 7u8);
    assert_eq!(buf.line_ref(1), &[7, 7]);
}

#[test]
fn line_mut_writes_one_line() {
    let mut buf = ImgBuf::<u8>::from_vec_stride(ImgBufLayout { size: ImgSize::new(2, 2), stride: 3 }, vec![1, 2, 9, 3, 4, 9]);
    buf.line_mut(1)[0] = 30;
    assert_eq!(buf.line_ref(0), &[1, 2]);
    assert_eq!(buf.line_ref(1), &[30, 4]);
    assert_eq!(buf.into_pixels(), vec![1, 2, 9, 30, 4, 9]);
}

#[test]
fn map_range_different_sizes() {
    let input = ImgBuf::<i8>::from_vec(ImgSize::new(2, 2), vec![1, 2, 3, 4]);

    let mut output = ImgBuf::<i8>::new(ImgSize::new(3, 3));

    map_range(&input, &mut output, ImgRange::new(0..2, 0..2), ImgRange::new(1..3, 1..3), |x, _| x);

    assert_eq!(
        output,
        ImgBuf::<i8>::from_vec(ImgSize::new(3, 3), vec![
            0, 0, 0,
            0, 1, 2,
            0, 3, 4,
        ])
    )
}

#[test]
fn map_range_inner_area() {
    let size = ImgSize::new(3, 3);
    let input = ImgBuf::<i8>::from_vec(size, vec![1, 2, 3, 4, 5, 6, 7, 8, 9]);
    let mut output = ImgBuf::new(size);
    map_range(&input, &mut output, Range2d::new(1..3, 1..3), Range2d::new(0..2, 0..2), |x, _| -x);
    assert_eq!(output, ImgBuf::<i8>::from_vec(size, vec![-5, -6, 0, -8, -9, 0, 0, 0, 0]));
}

#[test]
fn map_combines_both_images() {
    let a = ImgBuf::<i8>::from_vec(ImgSize::new(2, 2), vec![1, 2, 3, 4]);
    let mut b = ImgBuf::<i8>::from_vec(a.size(), vec![2, 4, 6, 8]);
    nanocv::filter::map::map(&a, &mut b, |a, b| a + b);
    assert_eq!(b, ImgBuf::<i8>::from_vec(a.size(), vec![3, 6, 9, 12]));
}

#[test]
fn map_new_converts_pixels() {
    let input = ImgBuf::<i8>::from_vec(ImgSize::new(2, 2), vec![1, 2, 3, 4]);
    let output = map_new(&input, |x| x as i16 * -100);
    assert_eq!(output, ImgBuf::<i16>::from_vec(input.size(), vec![-100, -200, -300, -400]));
}

#[test]
fn test_image_update_0x0_does_not_panic() {
    let mut image = ImgBuf::<u8>::new(ImgSize::new(0, 0));
    update(&mut image, |x| x);
}

#[test]
fn update_whole_image_and_area() {
    let mut img = ImgBuf::<u8>::from_vec(ImgSize::new(2, 2), vec![1, 2, 3, 4]);
    update(&mut img, |x| x + 1);
    assert_eq!(img.line_ref(0), &[2, 3]);
    assert_eq!(img.line_ref(1), &[4, 5]);
    update_range(&mut img, Range2d::new(0..1, 0..1), |x| x + 1);
    assert_eq!(img.line_ref(0), &[3, 3]);
    assert_eq!(img.line_ref(1), &[4, 5]);
    update_range(&mut img, Range2d::new(-5..1, 1..9), |x| x * 2);
    assert_eq!(img.line_ref(0), &[3, 3]);
    assert_eq!(img.line_ref(1), &[8, 5]);
}

#[test]
fn test_mirror_horizontal() {
    assert_eq!(
        mirror_horizontal_new(&ImgBuf::from_vec(ImgSize::new(3, 3), vec![
            1, 2, 3,
            4, 5, 6,
            7, 8, 9,
        ])),
        ImgBuf::from_vec(ImgSize::new(3, 3), vec![
            3, 2, 1,
            6, 5, 4,
            9, 8, 7,
        ])
    )
}

#[test]
fn test_mirror_vertical() {
    assert_eq!(
        mirror_vertical_new(&ImgBuf::from_vec(ImgSize::new(3, 3), vec![
            1, 2, 3,
            4, 5, 6,
            7, 8, 9,
        ])),
        ImgBuf::from_vec(ImgSize::new(3, 3), vec![
            7, 8, 9,
            4, 5, 6,
            1, 2, 3,
        ])
    )
}

#[test]
fn mirror_of_image_without_columns() {
    let empty = ImgBuf::<u8>::new(ImgSize::new(0, 2));
    assert_eq!(mirror_horizontal_new(&empty), empty);
    assert_eq!(mirror_vertical_new(&empty), empty);
}

#[test]
fn scale_size_6_into_3() {
    assert_eq!(scale_index_table(6, 3), vec![0, 2, 4]);
}

#[test]
fn scale_size_3_into_6() {
    assert_eq!(scale_index_table(3, 6), vec![0, 0, 1, 1, 2, 2]);
}

#[test]
fn scale_size_2_into_4() {
    assert_eq!(scale_index_table(2, 4), vec![0, 0, 1, 1]);
}

#[test]
fn scale_2x2_to_4x4() {
    assert_eq!(
        resize_nearest_new(&ImgBuf::from_vec(ImgSize::new(2, 2), vec![1, 2, 3, 4]), ImgSize::new(4, 4)),
        ImgBuf::from_vec(ImgSize::new(4, 4), vec![
            1, 1, 2, 2,
            1, 1, 2, 2,
            3, 3, 4, 4,
            3, 3, 4, 4,
        ]),
    )
}

#[test]
fn scale_3x2_to_2x1() {
    assert_eq!(
        resize_nearest_new(&ImgBuf::from_vec(ImgSize::new(3, 2), vec![1, 2, 3, 4, 5, 6]), ImgSize::new(2, 1)),
        ImgBuf::from_vec(ImgSize::new(2, 1), vec![1, 2]),
    )
}

#[test]
fn checked_construction() {
    let layout = ImgBufLayout { size: ImgSize::new(1, 2), stride: 2 };
    let buf = ImgBuf::<u8>::try_from_vec_stride(layout, vec![1, 2, 3, 4]).unwrap();
    assert_eq!(buf.line_ref(1), &[3]);
    assert_eq!(
        ImgBuf::<u8>::try_from_vec_stride(layout, vec![1, 2, 3]),
        Err(LayoutError::DataLength { data_size: 3, layout })
    );
    let narrow = ImgBufLayout { size: ImgSize::new(3, 2), stride: 2 };
    assert_eq!(
        ImgBuf::<u8>::try_from_vec_stride(narrow, vec![0; 4]),
        Err(LayoutError::StrideTooSmall { layout: narrow })
    );
}

#[test]
fn scale_index_table_with_largest_source() {
    assert_eq!(scale_index_table(usize::MAX, 2), vec![0, usize::MAX / 2]);
    assert_eq!(scale_index_table(5, 0), Vec::<usize>::new());
}
