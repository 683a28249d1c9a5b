use framefetch::progress::{progress_line, BAR_LENGTH};

#[test]
fn bar_width_is_fifty_cells() {
    assert_eq!(BAR_LENGTH, 50);
}

#[test]
fn half_way_fills_half_the_bar() {
    let line = progress_line(5, 10);
    let expected = format!("\rProgress: [{}{}] 5/10", "#".repeat(25), "-".repeat(25));
    assert_eq!(line, expected);
}

#[test]
fn zero_progress_is_all_empty_cells() {
    let line = progress_line(0, 10);
    let expected = format!("\rProgress: [{}] 0/10", "-".repeat(50));
    assert_eq!(line, expected);
}

#[test]
fn full_progress_is_all_filled_cells() {
    let line = progress_line(10, 10);
    let expected = format!("\rProgress: [{}] 10/10", "#".repeat(50));
    assert_eq!(line, expected);
}

#[test]
fn fill_rounds_to_the_nearest_cell() {
    // 50 * 1 / 3 = 16.67, which rounds to 17 cells
    let line = progress_line(1, 3);
    let expected = format!("\rProgress: [{}{}] 1/3", "#".repeat(17), "-".repeat(33));
    assert_eq!(line, expected);
}
