use try_vulkano::content::{
    check_copy, check_scaled, compute_input, copy_destination, copy_source, ramp_content,
    zero_content, Mismatch, COMPUTE_LEN, COPY_LEN, FACTOR,
};

#[test]
fn copy_source_counts_up_to_sixty_three() {
    let expected: Vec<u32> = (0..64).collect();
    assert_eq!(copy_source(), expected);
    assert_eq!(COPY_LEN, 64);
}

#[test]
fn copy_destination_is_sixty_four_zeros() {
    assert_eq!(copy_destination(), vec![0u32; 64]);
}

#[test]
fn compute_input_counts_up_to_a_thousand_and_twenty_three() {
    let expected: Vec<u32> = (0..1024).collect();
    assert_eq!(compute_input(), expected);
    assert_eq!(COMPUTE_LEN, 1024);
    assert_eq!(FACTOR, 12);
}

#[test]
fn ramp_and_zero_contents_of_other_lengths() {
    assert_eq!(ramp_content(0), Vec::<u32>::new());
    assert_eq!(ramp_content(1), vec![0u32]);
    assert_eq!(ramp_content(5), vec![0u32, 1, 2, 3, 4]);
    assert_eq!(zero_content(0), Vec::<u32>::new());
    assert_eq!(zero_content(3), vec![0u32, 0, 0]);
}

#[test]
fn copy_then_wait_fills_destination() {
    let source = copy_source();
    let mut destination = copy_destination();
    // The device's part: the copy command, complete once the wait returns.
    destination.copy_from_slice(&source);
    assert_eq!(check_copy(&source, &destination), Ok(()));
    let expected: Vec<u32> = (0..64).collect();
    assert_eq!(destination, expected);
}

#[test]
fn untouched_destination_fails_the_copy_check() {
    let source = copy_source();
    let destination = copy_destination();
    // Element 0 is zero in both; the first departure is at position 1.
    assert_eq!(
        check_copy(&source, &destination),
        Err(Mismatch::Element { index: 1, found: 0 })
    );
}

#[test]
fn copy_check_reports_the_first_difference() {
    let source: Vec<u32> = vec![7, 8, 9, 10];
    assert_eq!(check_copy(&source, &[7, 8, 9, 10]), Ok(()));
    assert_eq!(
        check_copy(&source, &[7, 8, 0, 0]),
        Err(Mismatch::Element { index: 2, found: 0 })
    );
    assert_eq!(
        check_copy(&source, &[1, 8, 9, 10]),
        Err(Mismatch::Element { index: 0, found: 1 })
    );
    assert_eq!(
        check_copy(&source, &[7, 8, 9, 11]),
        Err(Mismatch::Element { index: 3, found: 11 })
    );
}

#[test]
fn copy_check_reports_different_lengths() {
    assert_eq!(
        check_copy(&[1, 2, 3], &[1, 2]),
        Err(Mismatch::Length { source: 3, destination: 2 })
    );
    assert_eq!(check_copy(&[], &[5]), Err(Mismatch::Length { source: 0, destination: 1 }));
    assert_eq!(check_copy(&[], &[]), Ok(()));
}

#[test]
fn dispatch_then_wait_scales_every_element() {
    let mut data = compute_input();
    // The device's part: one invocation for each element, complete once the
    // wait returns.
    for value in data.iter_mut() {
        *value *= 12;
    }
    assert_eq!(check_scaled(&data), Ok(()));
    for (n, value) in data.iter().enumerate() {
        assert_eq!(*value, n as u32 * 12);
    }
    assert_eq!(data[0], 0);
    assert_eq!(data[1], 12);
    assert_eq!(data[1023], 12276);
}

#[test]
fn unscaled_input_fails_the_dispatch_check() {
    let data = compute_input();
    assert_eq!(check_scaled(&data), Err(Mismatch::Element { index: 1, found: 1 }));
}

#[test]
fn dispatch_check_reports_the_first_wrong_element() {
    assert_eq!(check_scaled(&[]), Ok(()));
    assert_eq!(check_scaled(&[0]), Ok(()));
    assert_eq!(check_scaled(&[0, 12, 24, 36]), Ok(()));
    assert_eq!(check_scaled(&[1, 12, 24]), Err(Mismatch::Element { index: 0, found: 1 }));
    assert_eq!(check_scaled(&[0, 12, 25, 37]), Err(Mismatch::Element { index: 2, found: 25 }));
    assert_eq!(check_scaled(&[0, 12, 24, 0]), Err(Mismatch::Element { index: 3, found: 0 }));
}

#[test]
fn partly_dispatched_buffer_fails_the_check() {
    let mut data = compute_input();
    // Only fifteen of the sixteen workgroups ran.
    for value in data.iter_mut().take(960) {
        *value *= 12;
    }
    assert_eq!(check_scaled(&data), Err(Mismatch::Element { index: 960, found: 960 }));
}

#[test]
fn fresh_buffers_give_the_same_results_twice() {
    let mut results: Vec<(Vec<u32>, Vec<u32>)> = Vec::new();
    for _ in 0..2 {
        let source = copy_source();
        let mut destination = copy_destination();
        destination.copy_from_slice(&source);
        assert_eq!(check_copy(&source, &destination), Ok(()));
        let mut data = compute_input();
        for value in data.iter_mut() {
            *value *= 12;
        }
        assert_eq!(check_scaled(&data), Ok(()));
        results.push((destination, data));
    }
    assert_eq!(results[0], results[1]);
}

#[test]
fn a_buffer_scaled_twice_fails_the_check() {
    let mut data = compute_input();
    for _ in 0..2 {
        for value in data.iter_mut() {
            *value *= 12;
        }
    }
    assert_eq!(check_scaled(&data), Err(Mismatch::Element { index: 1, found: 144 }));
}
