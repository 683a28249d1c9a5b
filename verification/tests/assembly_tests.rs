use framefetch::assembly::plan_assembly;

#[test]
fn full_manifest_lists_every_frame_in_order() {
    let present = vec![true; 10];
    let plan = plan_assembly(&present, false);
    assert_eq!(plan.manifest_lines.len(), 10);
    for (i, line) in plan.manifest_lines.iter().enumerate() {
        assert_eq!(*line, format!("file 'video{}.jpeg'", i));
    }
    assert_eq!(plan.found_count, 10);
    assert_eq!(plan.expected_count, 10);
    assert!(plan.invoke_encoder);
    assert_eq!(plan.found_count as f64 / plan.expected_count as f64, 1.0);
}

#[test]
fn missing_frame_is_omitted_not_zero_filled() {
    let mut present = vec![true; 10];
    present[4] = false;
    let plan = plan_assembly(&present, false);
    assert_eq!(plan.manifest_lines.len(), 9);
    assert!(!plan.manifest_lines.contains(&"file 'video4.jpeg'".to_string()));
    let expected: Vec<String> = [0, 1, 2, 3, 5, 6, 7, 8, 9]
        .iter()
        .map(|i| format!("file 'video{}.jpeg'", i))
        .collect();
    assert_eq!(plan.manifest_lines, expected);
    assert_eq!(plan.found_count, 9);
    assert_eq!(plan.expected_count, 10);
    // the encoder is still invoked over the gapped manifest
    assert!(plan.invoke_encoder);
    assert_eq!(plan.found_count as f64 / plan.expected_count as f64, 0.9);
}

#[test]
fn existing_output_skips_the_encoder_but_rebuilds_the_manifest() {
    let mut present = vec![true; 10];
    present[4] = false;
    let first = plan_assembly(&present, false);
    let second = plan_assembly(&present, true);
    assert!(first.invoke_encoder);
    assert!(!second.invoke_encoder);
    assert_eq!(first.manifest_lines, second.manifest_lines);
    assert_eq!(first.found_count, second.found_count);
    assert_eq!(first.expected_count, second.expected_count);
}

#[test]
fn single_expected_frame_accounting() {
    let plan = plan_assembly(&vec![true], false);
    assert_eq!(plan.found_count, 1);
    assert_eq!(plan.expected_count, 1);
    assert_eq!(plan.manifest_lines, vec!["file 'video0.jpeg'".to_string()]);

    let plan = plan_assembly(&vec![false], false);
    assert_eq!(plan.found_count, 0);
    assert_eq!(plan.expected_count, 1);
    assert!(plan.manifest_lines.is_empty());
}
