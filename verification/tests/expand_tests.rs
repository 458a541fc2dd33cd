use raven::expand::{product_list, try_expand_numeric_list};

#[test]
fn try_expand_list_test() {
    let numeric_list_pattern = "[1..5]";
    let result1 = try_expand_numeric_list(numeric_list_pattern);
    assert_eq!(result1, vec!["1", "2", "3", "4", "5"]);

    let not_numeric_list_pattern = "a1234";
    let result2 = try_expand_numeric_list(not_numeric_list_pattern);
    assert_eq!(result2, vec!["a1234".to_owned()]);

    let contain_other_strings = "id-[1..2]-[1..2]";
    let result3 = try_expand_numeric_list(contain_other_strings);
    assert_eq!(
        result3,
        vec![
            "id-1-1".to_owned(),
            "id-1-2".to_owned(),
            "id-2-1".to_owned(),
            "id-2-2".to_owned()
        ]
    )
}

#[test]
fn raven_template_parser_try_expand_list_test() {
    let numeric_list_pattern = "[1..5]";
    let result1 = try_expand_numeric_list(numeric_list_pattern);
    assert_eq!(result1, vec!["1", "2", "3", "4", "5"]);

    let not_numeric_list_pattern = "a1234";
    let result2 = try_expand_numeric_list(not_numeric_list_pattern);
    assert_eq!(result2, vec!["a1234".to_owned()]);

    let contain_other_strings = "id-[1..2]-[1..2]";
    let result3 = try_expand_numeric_list(contain_other_strings);
    assert_eq!(
        result3,
        vec![
            "id-1-1".to_owned(),
            "id-1-2".to_owned(),
            "id-2-1".to_owned(),
            "id-2-2".to_owned()
        ]
    )
}

#[test]
fn expand_is_identity_without_ranges() {
    for s in ["", "plain", "almost[1..", "[..2]", "a[b]c", "[", "]["] {
        assert_eq!(try_expand_numeric_list(s), vec![s.to_owned()]);
    }
}

#[test]
fn expand_keeps_literal_brackets() {
    assert_eq!(
        try_expand_numeric_list("x[y[1..2]"),
        vec!["x[y1".to_owned(), "x[y2".to_owned()]
    );
}

#[test]
fn expand_empty_range_yields_nothing() {
    // an inverted range has no values, so the cross product is empty
    let result = try_expand_numeric_list("a[2..1]b");
    assert_eq!(result, Vec::<String>::new());
}

#[test]
fn expand_falls_back_when_a_bound_overflows() {
    let s = "id-[99999999999999999999..1]";
    assert_eq!(try_expand_numeric_list(s), vec![s.to_owned()]);
}

#[test]
fn product_list_pairs_everything() {
    let vec1: Vec<u8> = vec![1, 2, 3];
    let vec2: Vec<String> = vec!["-1".to_owned(), "-2".to_owned(), "-3".to_owned()];

    let result = product_list(&vec1, &vec2);

    let expected: Vec<(&u8, &String)> = vec![
        (&vec1[0], &vec2[0]),
        (&vec1[0], &vec2[1]),
        (&vec1[0], &vec2[2]),
        (&vec1[1], &vec2[0]),
        (&vec1[1], &vec2[1]),
        (&vec1[1], &vec2[2]),
        (&vec1[2], &vec2[0]),
        (&vec1[2], &vec2[1]),
        (&vec1[2], &vec2[2]),
    ];

    assert_eq!(expected, result);

    let empty: Vec<u8> = vec![];
    let vec3 = vec!["a"];

    assert_eq!(product_list(&empty, &vec3), vec![]);
    assert_eq!(product_list(&vec3, &empty), vec![]);
}
