use fsel::dmenu::columns::select_columns;

#[test]
fn columns_are_picked_in_the_order_given() {
    let line = "alpha  beta gamma";
    assert_eq!(select_columns(line, " ", &vec![1, 3]), "alpha gamma");
    assert_eq!(select_columns(line, " ", &vec![3, 1]), "gamma alpha");
    assert_eq!(select_columns(line, " ", &vec![2]), "beta");
}

#[test]
fn columns_split_on_the_delimiter_and_skip_missing_ones() {
    assert_eq!(select_columns("a:b:c", ":", &vec![2, 9, 3]), "b:c");
    assert_eq!(select_columns("a:b:c", ":", &vec![0]), "");
    assert_eq!(select_columns("a:b:c", ":", &vec![]), "");
}

#[test]
fn a_line_without_the_delimiter_is_one_column() {
    assert_eq!(select_columns("left:right", " ", &vec![1]), "left:right");
    assert_eq!(select_columns("left:right", "", &vec![1]), "left:right");
}
