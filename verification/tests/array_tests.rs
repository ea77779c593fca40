use basic_filter::array::{deserialize_array, InvalidLength};

#[test]
fn exact_length_gives_the_items() {
    assert_eq!(deserialize_array::<u32, 3>(vec![7, 8, 9]), Ok([7, 8, 9]));
}

#[test]
fn longer_list_gives_the_first_items() {
    assert_eq!(deserialize_array::<u32, 2>(vec![7, 8, 9, 10]), Ok([7, 8]));
    assert_eq!(
        deserialize_array::<String, 1>(vec!["a".to_string(), "b".to_string()]),
        Ok(["a".to_string()])
    );
}

#[test]
fn shorter_list_is_refused_with_its_length() {
    assert_eq!(
        deserialize_array::<u32, 3>(vec![7, 8]),
        Err(InvalidLength { len: 2, expected: 3 })
    );
    assert_eq!(
        deserialize_array::<u8, 1>(Vec::new()),
        Err(InvalidLength { len: 0, expected: 1 })
    );
}

#[test]
fn empty_array_comes_from_any_list() {
    assert_eq!(deserialize_array::<u32, 0>(Vec::new()), Ok([]));
    assert_eq!(deserialize_array::<u32, 0>(vec![1, 2, 3]), Ok([]));
}

#[test]
fn float_items_pass_through() {
    assert_eq!(deserialize_array::<f64, 2>(vec![0.5, 1.5, 2.5]), Ok([0.5, 1.5]));
}
