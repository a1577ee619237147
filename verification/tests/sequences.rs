use exercises::sequences::{
    duplicate, duplicate_line, duplicate_then_set, materialize, names_lines, pair_line, range_line,
};

#[test]
fn duplicate_holds_the_same_elements() {
    let x = [5, 7];
    let y = duplicate(&x);
    assert_eq!(y, [5, 7]);
    assert_eq!(x, [5, 7]);
}

#[test]
fn duplicate_prints_identically() {
    assert_eq!(duplicate_line(&[5, 7]), "x = [5, 7], y = [5, 7]");
}

#[test]
fn duplicate_line_shows_negative_and_extreme_values() {
    assert_eq!(duplicate_line(&[-1, 0]), "x = [-1, 0], y = [-1, 0]");
    assert_eq!(
        duplicate_line(&[i32::MIN, i32::MAX]),
        "x = [-2147483648, 2147483647], y = [-2147483648, 2147483647]"
    );
}

#[test]
fn changing_the_source_leaves_the_duplicate() {
    let mut x = [5, 7];
    let y = duplicate_then_set(&mut x, 0, 9);
    assert_eq!(x, [9, 7]);
    assert_eq!(y, [5, 7]);
    let z = duplicate_then_set(&mut x, 1, -3);
    assert_eq!(x, [9, -3]);
    assert_eq!(z, [9, 7]);
    assert_eq!(y, [5, 7]);
}

#[test]
fn changing_the_duplicate_leaves_the_source() {
    let x = [5, 7];
    let mut y = duplicate(&x);
    y[1] = 70;
    assert_eq!(x, [5, 7]);
    assert_eq!(y, [5, 70]);
}

#[test]
fn pair_line_joins_two_texts() {
    assert_eq!(pair_line("[5, 7]", "[5, 7]"), "x = [5, 7], y = [5, 7]");
    assert_eq!(pair_line("", ""), "x = , y = ");
    assert_eq!(pair_line("a", "b"), "x = a, y = b");
}

#[test]
fn range_becomes_its_members_in_rising_order() {
    assert_eq!(materialize(0, 5), vec![0, 1, 2, 3, 4]);
    assert_eq!(materialize(-2, 2), vec![-2, -1, 0, 1]);
    assert_eq!(materialize(7, 8), vec![7]);
}

#[test]
fn empty_and_backward_ranges_have_no_members() {
    assert!(materialize(3, 3).is_empty());
    assert!(materialize(5, 0).is_empty());
    assert!(materialize(i32::MAX, i32::MIN).is_empty());
}

#[test]
fn range_at_the_upper_limit_stops_before_the_end() {
    assert_eq!(materialize(i32::MAX - 2, i32::MAX), vec![i32::MAX - 2, i32::MAX - 1]);
    assert_eq!(materialize(i32::MIN, i32::MIN + 1), vec![i32::MIN]);
}

#[test]
fn range_line_is_the_debug_notation() {
    assert_eq!(range_line(0, 5), "[0, 1, 2, 3, 4]");
    assert_eq!(range_line(5, 0), "[]");
}

#[test]
fn names_are_shown_in_order_and_then_reversed() {
    assert_eq!(
        names_lines(),
        vec![
            String::from("[\"String1\", \"String2\", \"String3\"]"),
            String::from("[\"String3\", \"String2\", \"String1\"]"),
        ]
    );
}

#[test]
fn sequence_exercises_repeat_themselves() {
    assert_eq!(names_lines(), names_lines());
    assert_eq!(duplicate_line(&[5, 7]), duplicate_line(&[5, 7]));
    assert_eq!(range_line(0, 5), range_line(0, 5));
}
