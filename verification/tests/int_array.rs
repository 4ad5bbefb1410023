use vtk_rs::IntArray;

#[test]
fn test_int_array() {
    let mut array = IntArray::new_id_array("MaterialID");
    assert_eq!(array.get_number_of_components(), 1);

    array.insert_next_value(1);
    array.insert_next_value(2);
    array.insert_next_value(1);

    assert_eq!(array.get_number_of_tuples(), 3);
    assert_eq!(array.get_value(0), 1);
    assert_eq!(array.get_value(1), 2);
    assert_eq!(array.get_value(2), 1);
}

#[test]
fn test_int_array_modify() {
    let mut array = IntArray::new();
    array.set_number_of_components(1);
    array.set_number_of_tuples(3);

    array.set_value(0, 10);
    array.set_value(1, 20);
    array.set_value(2, 30);

    assert_eq!(array.get_value(0), 10);
    assert_eq!(array.get_value(1), 20);
    assert_eq!(array.get_value(2), 30);
}

#[test]
fn test_int_array_name() {
    let mut array = IntArray::new();
    assert!(array.get_name().is_none());
    array.set_name("Flags");
    assert_eq!(array.get_name().unwrap(), "Flags");
}

#[test]
fn test_int_array_tuples() {
    let mut array = IntArray::new();
    array.set_number_of_components(3);
    for v in [1, 2, 3, 4, 5, 6] {
        array.insert_next_value(v);
    }
    assert_eq!(array.get_number_of_values(), 6);
    assert_eq!(array.get_number_of_tuples(), 2);
    assert_eq!(array.get_tuple(0), vec![1, 2, 3]);
    assert_eq!(array.get_tuple(1), vec![4, 5, 6]);
}

#[test]
fn test_int_array_resize_pads_with_zeros() {
    let mut array = IntArray::new();
    array.insert_next_value(9);
    array.set_number_of_tuples(3);
    assert_eq!(array.get_value(0), 9);
    assert_eq!(array.get_value(1), 0);
    assert_eq!(array.get_value(2), 0);
    array.set_number_of_tuples(1);
    assert_eq!(array.get_number_of_values(), 1);
    assert_eq!(array.get_value(0), 9);
}

#[test]
fn test_int_array_initialize_keeps_shape() {
    let mut array = IntArray::new_id_array("Ids");
    array.insert_next_tuple1(4);
    array.initialize();
    assert_eq!(array.get_number_of_values(), 0);
    assert_eq!(array.get_number_of_components(), 1);
    assert_eq!(array.get_name().unwrap(), "Ids");
    array.squeeze();
    assert_eq!(array.get_number_of_values(), 0);
}
