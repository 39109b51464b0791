use nanocv::filter::{
    convolution_operator, create_filter_plan, horizontal_filter, horizontal_filter_range, vertical_filter,
    vertical_filter_range, Convolution, FilterError, FilterIteration,
};
use nanocv::{Img, ImgBuf, ImgSize, Range, Vec2d};

fn test_image_1() -> ImgBuf<i16> {
    ImgBuf::from_vec(
        ImgSize::new(4, 3),
        vec![
            1, 2, 3, 4,
            5, 6, 7, 8,
            9, 10, 11, 12,
        ],
    )
}

fn horizontal_same_size(kernel: &[i16]) -> ImgBuf<i16> {
    let input = test_image_1();
    let mut output = ImgBuf::new_like(&input);
    horizontal_filter_range(&input, &mut output, kernel, input.range(), input.range(), Convolution).unwrap();
    output
}

fn vertical_same_size(kernel: &[i16]) -> ImgBuf<i16> {
    let input = test_image_1();
    let mut output = ImgBuf::new_like(&input);
    vertical_filter_range(&input, &mut output, kernel, input.range(), input.range(), Convolution).unwrap();
    output
}

#[test]
fn horizontal_conv_matrix_4x3_kernel_1() {
    assert_eq!(horizontal_same_size(&[1]), test_image_1());
}

#[test]
fn horizontal_conv_matrix_4x3_kernel_0_1_0() {
    assert_eq!(horizontal_same_size(&[0, 1, 0]), test_image_1());
}

#[test]
fn horizontal_conv_matrix_4x3_kernel_0_0_1_0_0() {
    assert_eq!(horizontal_same_size(&[0, 0, 1, 0, 0]), test_image_1());
}

#[test]
fn horizontal_conv_matrix_4x3_kernel_1_1_1() {
    assert_eq!(
        horizontal_same_size(&[1, 1, 1]),
        ImgBuf::from_vec(
            ImgSize::new(4, 3),
            vec![
                4, 6, 9, 11,
                16, 18, 21, 23,
                28, 30, 33, 35,
            ],
        )
    );
}

#[test]
fn horizontal_conv_matrix_4x3_kernel_1_2_3() {
    assert_eq!(
        horizontal_same_size(&[1, 2, 3]),
        ImgBuf::from_vec(
            ImgSize::new(4, 3),
            vec![
                7, 10, 16, 21,
                31, 34, 40, 45,
                55, 58, 64, 69,
            ],
        )
    );
}

#[test]
fn vertical_conv_matrix_4x3_kernel_1() {
    assert_eq!(vertical_same_size(&[1]), test_image_1());
}

#[test]
fn vertical_conv_matrix_4x3_kernel_0_1_0() {
    assert_eq!(vertical_same_size(&[0, 1, 0]), test_image_1());
}

#[test]
fn vertical_conv_matrix_4x3_kernel_0_0_1_0_0() {
    assert_eq!(vertical_same_size(&[0, 0, 1, 0, 0]), test_image_1());
}

#[test]
fn vertical_conv_matrix_4x3_kernel_1_1_1() {
    assert_eq!(
        vertical_same_size(&[1, 1, 1]),
        ImgBuf::from_vec(
            ImgSize::new(4, 3),
            vec![
                7, 10, 13, 16,
                15, 18, 21, 24,
                23, 26, 29, 32,
            ],
        )
    );
}

#[test]
fn vertical_conv_matrix_4x3_kernel_1_2_3() {
    assert_eq!(
        vertical_same_size(&[1, 2, 3]),
        ImgBuf::from_vec(
            ImgSize::new(4, 3),
            vec![
                10, 16, 22, 28,
                22, 28, 34, 40,
                42, 48, 54, 60,
            ],
        )
    );
}

#[test]
fn conv_identity_to_larger_image() {
    let input = test_image_1();
    let mut output = ImgBuf::new(ImgSize::new(5, 4));

    horizontal_filter_range(&input, &mut output, &[1], input.range(), input.range(), Convolution).unwrap();

    assert_eq!(
        output,
        ImgBuf::from_vec(
            ImgSize::new(5, 4),
            vec![
                1, 2, 3, 4, 0,
                5, 6, 7, 8, 0,
                9, 10, 11, 12, 0,
                0, 0, 0, 0, 0,
            ]
        )
    );
}

#[test]
fn conv_identity_output_moved_down() {
    let input = test_image_1();
    let mut output = ImgBuf::new(ImgSize::new(5, 4));

    horizontal_filter_range(&input, &mut output, &[1], input.range(), input.range() + Vec2d::new(0, 1), Convolution)
        .unwrap();

    assert_eq!(
        output,
        ImgBuf::from_vec(
            ImgSize::new(5, 4),
            vec![
                0, 0, 0, 0, 0,
                1, 2, 3, 4, 0,
                5, 6, 7, 8, 0,
                9, 10, 11, 12, 0,
            ]
        )
    );
}

#[test]
fn conv_identity_output_moved_down_more() {
    let input = test_image_1();
    let mut output = ImgBuf::new(ImgSize::new(5, 4));

    horizontal_filter_range(&input, &mut output, &[1], input.range(), input.range() + Vec2d::new(0, 2), Convolution)
        .unwrap();

    assert_eq!(
        output,
        ImgBuf::from_vec(
            ImgSize::new(5, 4),
            vec![
                0, 0, 0, 0, 0,
                0, 0, 0, 0, 0,
                1, 2, 3, 4, 0,
                5, 6, 7, 8, 0,
            ]
        )
    );
}

#[test]
fn conv_identity_output_moved_up() {
    let input = test_image_1();
    let mut output = ImgBuf::new(ImgSize::new(5, 4));

    horizontal_filter_range(&input, &mut output, &[1], input.range(), input.range() + Vec2d::new(0, -1), Convolution)
        .unwrap();

    assert_eq!(
        output,
        ImgBuf::from_vec(
            ImgSize::new(5, 4),
            vec![
                5, 6, 7, 8, 0,
                9, 10, 11, 12, 0,
                0, 0, 0, 0, 0,
                0, 0, 0, 0, 0,
            ]
        )
    );
}

#[test]
fn conv_identity_output_moved_right() {
    let input = test_image_1();
    let mut output = ImgBuf::new(ImgSize::new(5, 4));

    horizontal_filter_range(&input, &mut output, &[1], input.range(), input.range() + Vec2d::new(1, 0), Convolution)
        .unwrap();

    assert_eq!(
        output,
        ImgBuf::from_vec(
            ImgSize::new(5, 4),
            vec![
                0, 1, 2, 3, 4,
                0, 5, 6, 7, 8,
                0, 9, 10, 11, 12,
                0, 0, 0, 0, 0,
            ]
        )
    );
}

#[test]
fn conv_identity_output_moved_right_more() {
    let input = test_image_1();
    let mut output = ImgBuf::new(ImgSize::new(5, 4));

    horizontal_filter_range(&input, &mut output, &[1], input.range(), input.range() + Vec2d::new(2, 0), Convolution)
        .unwrap();

    assert_eq!(
        output,
        ImgBuf::from_vec(
            ImgSize::new(5, 4),
            vec![
                0, 0, 1, 2, 3,
                0, 0, 5, 6, 7,
                0, 0, 9, 10, 11,
                0, 0, 0, 0, 0,
            ]
        )
    );
}

#[test]
fn conv_identity_output_moved_left() {
    let input = test_image_1();
    let mut output = ImgBuf::new(ImgSize::new(5, 4));

    horizontal_filter_range(&input, &mut output, &[1], input.range(), input.range() + Vec2d::new(-1, 0), Convolution)
        .unwrap();

    assert_eq!(
        output,
        ImgBuf::from_vec(
            ImgSize::new(5, 4),
            vec![
                2, 3, 4, 0, 0,
                6, 7, 8, 0, 0,
                10, 11, 12, 0, 0,
                0, 0, 0, 0, 0,
            ]
        )
    );
}

#[test]
fn horizontal_kernel_wider_than_image_replicates_edges() {
    let input = ImgBuf::<i32>::from_vec(ImgSize::new(2, 1), vec![1, 10]);
    let mut output = ImgBuf::new_like(&input);
    horizontal_filter(&input, &mut output, &[1, 1, 1, 1, 1], Convolution).unwrap();
    // positions -2..3 around column 0 read 1, 1, 1, 10, 10; around column 1: 1, 1, 10, 10, 10
    assert_eq!(output, ImgBuf::from_vec(ImgSize::new(2, 1), vec![23, 32]));
}

#[test]
fn vertical_kernel_wider_than_image_replicates_edges() {
    let input = ImgBuf::<i32>::from_vec(ImgSize::new(1, 2), vec![1, 10]);
    let mut output = ImgBuf::new_like(&input);
    vertical_filter(&input, &mut output, &[1, 1, 1, 1, 1], Convolution).unwrap();
    assert_eq!(output, ImgBuf::from_vec(ImgSize::new(1, 2), vec![23, 32]));
}

#[test]
fn horizontal_kernel_is_applied_as_correlation() {
    let input = ImgBuf::<i32>::from_vec(ImgSize::new(3, 1), vec![1, 2, 3]);
    let mut output = ImgBuf::new_like(&input);
    horizontal_filter(&input, &mut output, &[100, 10, 1], Convolution).unwrap();
    // the tap reading the pixel to the left takes the last coefficient
    assert_eq!(output, ImgBuf::from_vec(ImgSize::new(3, 1), vec![1 + 10 + 200, 1 + 20 + 300, 2 + 30 + 300]));
}

#[test]
fn horizontal_output_shifted_with_wide_kernel() {
    let input = ImgBuf::<i32>::from_vec(ImgSize::new(2, 1), vec![1, 2]);
    let mut output = ImgBuf::new(ImgSize::new(4, 1));
    horizontal_filter_range(&input, &mut output, &[1, 1, 1], input.range(), input.range() + Vec2d::new(1, 0), Convolution)
        .unwrap();
    assert_eq!(output, ImgBuf::from_vec(ImgSize::new(4, 1), vec![0, 4, 5, 0]));
}

#[test]
fn vertical_output_shifted_with_wide_kernel() {
    let input = ImgBuf::<i32>::from_vec(ImgSize::new(1, 2), vec![1, 2]);
    let mut output = ImgBuf::new(ImgSize::new(2, 3));
    vertical_filter_range(&input, &mut output, &[1, 1, 1], input.range(), input.range() + Vec2d::new(1, 1), Convolution)
        .unwrap();
    assert_eq!(output, ImgBuf::from_vec(ImgSize::new(2, 3), vec![0, 0, 0, 4, 0, 5]));
}

#[test]
fn identity_kernel_on_empty_image() {
    let input = ImgBuf::<i16>::new(ImgSize::new(0, 0));
    let mut output = ImgBuf::new_like(&input);
    horizontal_filter(&input, &mut output, &[1], Convolution).unwrap();
    vertical_filter(&input, &mut output, &[1], Convolution).unwrap();
    assert_eq!(output, input);
}

#[test]
fn identity_kernel_reproduces_image() {
    let input = ImgBuf::<u8>::from_vec(ImgSize::new(3, 2), vec![255, 0, 7, 1, 128, 64]);
    let mut across = ImgBuf::new_like(&input);
    horizontal_filter(&input, &mut across, &[1], Convolution).unwrap();
    assert_eq!(across, input);
    let mut down = ImgBuf::new_like(&input);
    vertical_filter(&input, &mut down, &[1], Convolution).unwrap();
    assert_eq!(down, input);
}

#[test]
fn even_kernel_is_rejected_before_output_changes() {
    let input = test_image_1();
    let mut output = ImgBuf::new_init(ImgSize::new(4, 3), 5i16);
    let expected = output.clone();
    assert_eq!(
        horizontal_filter_range(&input, &mut output, &[1, 1], input.range(), input.range(), Convolution),
        Err(FilterError::EvenKernel)
    );
    assert_eq!(output, expected);
    assert_eq!(vertical_filter(&input, &mut output, &[1, 1], Convolution), Err(FilterError::EvenKernel));
    assert_eq!(output, expected);
    assert_eq!(horizontal_filter(&input, &mut output, &[], Convolution), Err(FilterError::EvenKernel));
    assert_eq!(output, expected);
}

#[test]
fn even_kernel_plan_is_rejected() {
    assert_eq!(create_filter_plan(3, 2, Range::new(0..3), Range::new(0..3)), Err(FilterError::EvenKernel));
    assert_eq!(create_filter_plan(3, 0, Range::new(0..3), Range::new(0..3)), Err(FilterError::EvenKernel));
}

#[test]
fn disjoint_output_range_changes_nothing() {
    let input = test_image_1();
    let mut output = ImgBuf::new(ImgSize::new(5, 4));
    horizontal_filter_range(&input, &mut output, &[1, 1, 1], input.range(), input.range() + Vec2d::new(10, 0), Convolution)
        .unwrap();
    assert_eq!(output, ImgBuf::new(ImgSize::new(5, 4)));
}

#[test]
fn convolution_operator_accumulates() {
    let input = [1, 2, 3];
    let mut output = [4, 5, 6];
    convolution_operator(&input, &mut output, 3);
    assert_eq!(output, [4 + 3 * 1, 5 + 3 * 2, 6 + 3 * 3]);
}

#[test]
fn convolution_operator_truncates_to_shorter_slice() {
    let input = [1, 2];
    let mut output = [10, 10, 10];
    convolution_operator(&input, &mut output, 2);
    assert_eq!(output, [12, 14, 10]);
    let input = [1, 2, 3];
    let mut output = [0];
    convolution_operator(&input, &mut output, 5);
    assert_eq!(output, [5]);
}

#[test]
fn convolution_operator_wraps_around() {
    let input = [100u8];
    let mut output = [200u8];
    convolution_operator(&input, &mut output, 1);
    assert_eq!(output, [44]);
    let input = [-100i8];
    let mut output = [-100i8];
    convolution_operator(&input, &mut output, 1);
    assert_eq!(output, [56]);
}

#[test]
fn plan_kernel_size_1_image_size_3_from_0_to_3() {
    assert_eq!(
        create_filter_plan(3, 1, Range::new(0..3), Range::new(0..3)),
        Ok(vec![FilterIteration {
            src_range: Range::new(0..3),
            dst_range: Range::new(0..3),
            kernel_index: 0,
            outside_start: 0,
            outside_end: 0
        }])
    )
}

#[test]
fn plan_kernel_size_1_image_size_3_from_1_to_2() {
    assert_eq!(
        create_filter_plan(3, 1, Range::new(1..2), Range::new(1..2)),
        Ok(vec![FilterIteration {
            src_range: Range::new(1..2),
            dst_range: Range::new(1..2),
            kernel_index: 0,
            outside_start: 0,
            outside_end: 0
        }])
    )
}

#[test]
fn plan_kernel_size_3_image_size_3_from_0_to_3() {
    assert_eq!(
        create_filter_plan(3, 3, Range::new(0..3), Range::new(0..3)),
        Ok(vec![
            FilterIteration {
                src_range: Range::new(0..2),
                dst_range: Range::new(1..3),
                kernel_index: 2,
                outside_start: 1,
                outside_end: 0
            },
            FilterIteration {
                src_range: Range::new(0..3),
                dst_range: Range::new(0..3),
                kernel_index: 1,
                outside_start: 0,
                outside_end: 0
            },
            FilterIteration {
                src_range: Range::new(1..3),
                dst_range: Range::new(0..2),
                kernel_index: 0,
                outside_start: 0,
                outside_end: 1
            },
        ])
    )
}

#[test]
fn plan_kernel_size_3_image_size_3_from_1_to_2() {
    assert_eq!(
        create_filter_plan(3, 3, Range::new(1..2), Range::new(1..2)),
        Ok(vec![
            FilterIteration {
                src_range: Range::new(0..1),
                dst_range: Range::new(1..2),
                kernel_index: 2,
                outside_start: 0,
                outside_end: 0
            },
            FilterIteration {
                src_range: Range::new(1..2),
                dst_range: Range::new(1..2),
                kernel_index: 1,
                outside_start: 0,
                outside_end: 0
            },
            FilterIteration {
                src_range: Range::new(2..3),
                dst_range: Range::new(1..2),
                kernel_index: 0,
                outside_start: 0,
                outside_end: 0
            },
        ])
    )
}

#[test]
fn plan_kernel_size_3_image_size_1_from_0_to_1() {
    assert_eq!(
        create_filter_plan(1, 3, Range::new(0..1), Range::new(0..1)),
        Ok(vec![
            FilterIteration {
                src_range: Range::new(0..0),
                dst_range: Range::new(1..1),
                kernel_index: 2,
                outside_start: 1,
                outside_end: 0
            },
            FilterIteration {
                src_range: Range::new(0..1),
                dst_range: Range::new(0..1),
                kernel_index: 1,
                outside_start: 0,
                outside_end: 0
            },
            FilterIteration {
                src_range: Range::new(1..1),
                dst_range: Range::new(0..0),
                kernel_index: 0,
                outside_start: 0,
                outside_end: 1
            },
        ])
    )
}

/// Plan for filtering the interval `[start, end)` of a line in place.
fn in_place_plan(length: usize, kernel_size: usize, start: isize, end: isize) -> Result<Vec<FilterIteration>, FilterError> {
    create_filter_plan(length, kernel_size, Range::new(start..end), Range::new(start..end))
}

#[test]
fn kernel_size_1_image_size_3_from_0_to_3() {
    assert_eq!(
        in_place_plan(3, 1, 0, 3),
        Ok(vec![FilterIteration {
            src_range: Range::new(0..3),
            dst_range: Range::new(0..3),
            kernel_index: 0,
            outside_start: 0,
            outside_end: 0
        }])
    )
}

#[test]
fn kernel_size_1_image_size_3_from_1_to_2() {
    assert_eq!(
        in_place_plan(3, 1, 1, 2),
        Ok(vec![FilterIteration {
            src_range: Range::new(1..2),
            dst_range: Range::new(1..2),
            kernel_index: 0,
            outside_start: 0,
            outside_end: 0
        }])
    )
}

#[test]
fn kernel_size_3_image_size_3_from_0_to_3() {
    assert_eq!(
        in_place_plan(3, 3, 0, 3),
        Ok(vec![
            FilterIteration {
                src_range: Range::new(0..2),
                dst_range: Range::new(1..3),
                kernel_index: 2,
                outside_start: 1,
                outside_end: 0
            },
            FilterIteration {
                src_range: Range::new(0..3),
                dst_range: Range::new(0..3),
                kernel_index: 1,
                outside_start: 0,
                outside_end: 0
            },
            FilterIteration {
                src_range: Range::new(1..3),
                dst_range: Range::new(0..2),
                kernel_index: 0,
                outside_start: 0,
                outside_end: 1
            },
        ])
    )
}

#[test]
fn kernel_size_3_image_size_3_from_1_to_2() {
    assert_eq!(
        in_place_plan(3, 3, 1, 2),
        Ok(vec![
            FilterIteration {
                src_range: Range::new(0..1),
                dst_range: Range::new(1..2),
                kernel_index: 2,
                outside_start: 0,
                outside_end: 0
            },
            FilterIteration {
                src_range: Range::new(1..2),
                dst_range: Range::new(1..2),
                kernel_index: 1,
                outside_start: 0,
                outside_end: 0
            },
            FilterIteration {
                src_range: Range::new(2..3),
                dst_range: Range::new(1..2),
                kernel_index: 0,
                outside_start: 0,
                outside_end: 0
            },
        ])
    )
}

#[test]
fn kernel_size_3_image_size_1_from_0_to_1() {
    assert_eq!(
        in_place_plan(1, 3, 0, 1),
        Ok(vec![
            FilterIteration {
                src_range: Range::new(0..0),
                dst_range: Range::new(1..1),
                kernel_index: 2,
                outside_start: 1,
                outside_end: 0
            },
            FilterIteration {
                src_range: Range::new(0..1),
                dst_range: Range::new(0..1),
                kernel_index: 1,
                outside_start: 0,
                outside_end: 0
            },
            FilterIteration {
                src_range: Range::new(1..1),
                dst_range: Range::new(0..0),
                kernel_index: 0,
                outside_start: 0,
                outside_end: 1
            },
        ])
    )
}

#[test]
fn plan_edges_of_kernel_wider_than_image() {
    let plan = create_filter_plan(1, 5, Range::new(0..1), Range::new(0..1)).unwrap();
    assert_eq!(plan.len(), 5);
    // the first pixel has two kernel positions before pixel 0, the last one two at or after pixel 1
    assert_eq!(plan[0].outside_start, 2);
    assert_eq!(plan[0].src_range, Range::new(0..0));
    assert_eq!(plan[4].outside_end, 2);
    assert_eq!(plan[4].src_range, Range::new(1..1));
    assert_eq!(plan[2].src_range, Range::new(0..1));
    assert_eq!(plan[2].dst_range, Range::new(0..1));
    let kernel_indices: Vec<usize> = plan.iter().map(|step| step.kernel_index).collect();
    assert_eq!(kernel_indices, vec![4, 3, 2, 1, 0]);
}

#[test]
fn plan_taps_cover_the_interval() {
    let plan = create_filter_plan(6, 5, Range::new(1..5), Range::new(3..7)).unwrap();
    for step in &plan {
        let inside = step.src_range.end - step.src_range.start;
        assert_eq!(step.outside_start + step.outside_end + inside, 4);
        assert_eq!(step.dst_range.end - step.dst_range.start, inside);
    }
    assert_eq!(plan[0].outside_start, 1);
    assert_eq!(plan[0].src_range, Range::new(0..3));
    assert_eq!(plan[0].dst_range, Range::new(4..7));
    assert_eq!(plan[4].outside_end, 1);
    assert_eq!(plan[4].src_range, Range::new(3..6));
    assert_eq!(plan[4].dst_range, Range::new(3..6));
}

#[test]
fn output_area_smaller_than_input_area_limits_writes() {
    let input = ImgBuf::<i32>::from_vec(ImgSize::new(3, 1), vec![1, 2, 3]);
    let mut output = ImgBuf::new(ImgSize::new(3, 1));
    horizontal_filter_range(&input, &mut output, &[1], input.range(), nanocv::ImgRange::new(0..1, 0..1), Convolution)
        .unwrap();
    assert_eq!(output, ImgBuf::from_vec(ImgSize::new(3, 1), vec![1, 0, 0]));
    let mut output = ImgBuf::new(ImgSize::new(3, 1));
    vertical_filter_range(&input, &mut output, &[1], input.range(), nanocv::ImgRange::new(0..1, 0..1), Convolution)
        .unwrap();
    assert_eq!(output, ImgBuf::from_vec(ImgSize::new(3, 1), vec![1, 0, 0]));
}

#[test]
fn output_area_larger_than_input_area_limits_writes() {
    let input = ImgBuf::<i32>::from_vec(ImgSize::new(3, 1), vec![1, 2, 3]);
    let mut output = ImgBuf::new(ImgSize::new(3, 1));
    horizontal_filter_range(
        &input,
        &mut output,
        &[1, 1, 1],
        nanocv::ImgRange::new(1..2, 0..1),
        nanocv::ImgRange::new(0..3, 0..1),
        Convolution,
    )
    .unwrap();
    assert_eq!(output, ImgBuf::from_vec(ImgSize::new(3, 1), vec![6, 0, 0]));
}

#[test]
fn empty_output_area_changes_nothing() {
    let input = ImgBuf::<i32>::from_vec(ImgSize::new(1, 1), vec![7]);
    let mut output = ImgBuf::new(ImgSize::new(1, 1));
    horizontal_filter_range(&input, &mut output, &[1], input.range(), nanocv::ImgRange::new(0..0, 0..1), Convolution)
        .unwrap();
    vertical_filter_range(&input, &mut output, &[1], input.range(), nanocv::ImgRange::new(0..1, 0..0), Convolution)
        .unwrap();
    assert_eq!(output, ImgBuf::from_vec(ImgSize::new(1, 1), vec![0]));
}
