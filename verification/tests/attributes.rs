use vtk_rs::CellData;
use vtk_rs::DoubleArray;
use vtk_rs::IntArray;
use vtk_rs::PointData;

#[test]
fn test_double_array_shape() {
    let mut array = DoubleArray::new();
    assert_eq!(array.get_number_of_components(), 1);
    assert_eq!(array.get_number_of_values(), 0);
    assert!(array.get_name().is_none());

    array.set_number_of_components(3);
    array.set_number_of_tuples(5);
    assert_eq!(array.get_number_of_components(), 3);
    assert_eq!(array.get_number_of_tuples(), 5);
    assert_eq!(array.get_number_of_values(), 15);

    array.initialize();
    assert_eq!(array.get_number_of_values(), 0);
    assert_eq!(array.get_number_of_components(), 3);
    array.squeeze();
    assert_eq!(array.get_number_of_components(), 3);
}

#[test]
fn test_double_array_factories() {
    let scalar = DoubleArray::new_scalar("Displacement");
    assert_eq!(scalar.get_number_of_components(), 1);
    assert_eq!(scalar.get_name().unwrap(), "Displacement");

    let vector = DoubleArray::new_vector("DisplacementVector");
    assert_eq!(vector.get_number_of_components(), 3);
    assert_eq!(vector.get_name().unwrap(), "DisplacementVector");
}

#[test]
fn test_cell_data_array_names() {
    let mut data = CellData::new();
    assert_eq!(data.get_number_of_arrays(), 0);
    assert!(data.get_array_name(0).is_none());

    data.add_array(&DoubleArray::new_scalar("Stress"));
    data.add_int_array(&IntArray::new_id_array("MaterialID"));
    data.add_array(&DoubleArray::new());
    assert_eq!(data.get_number_of_arrays(), 3);
    assert_eq!(data.get_array_name(0).unwrap(), "Stress");
    assert_eq!(data.get_array_name(1).unwrap(), "MaterialID");
    // The third array was attached without a name.
    assert!(data.get_array_name(2).is_none());
    assert!(data.get_array_name(3).is_none());
    assert!(data.get_array_name(-1).is_none());
}

#[test]
fn test_cell_data_remove_array() {
    let mut data = CellData::new();
    data.add_array(&DoubleArray::new_scalar("Stress"));
    data.add_array(&DoubleArray::new_scalar("Strain"));
    data.add_array(&DoubleArray::new_scalar("Stress"));

    data.remove_array("Stress");
    assert_eq!(data.get_number_of_arrays(), 2);
    assert_eq!(data.get_array_name(0).unwrap(), "Strain");
    assert_eq!(data.get_array_name(1).unwrap(), "Stress");

    // Removing a name that is not attached changes nothing.
    data.remove_array("Temperature");
    assert_eq!(data.get_number_of_arrays(), 2);
}

#[test]
fn test_point_data_array_names() {
    let mut data = PointData::new();
    data.add_array(&DoubleArray::new_vector("DisplacementVector"));
    data.add_int_array(&IntArray::new_id_array("NodeID"));
    assert_eq!(data.get_number_of_arrays(), 2);
    assert_eq!(data.get_array_name(0).unwrap(), "DisplacementVector");
    assert_eq!(data.get_array_name(1).unwrap(), "NodeID");

    data.remove_array("NodeID");
    assert_eq!(data.get_number_of_arrays(), 1);
    assert_eq!(data.get_array_name(0).unwrap(), "DisplacementVector");
}

#[test]
fn test_point_data_active_selections() {
    let mut data = PointData::new();
    data.add_array(&DoubleArray::new_scalar("Magnitude"));
    data.set_active_scalars("Magnitude");
    data.set_vectors(&DoubleArray::new_vector("Field"));
    data.set_active_vectors("Field");
    data.set_scalars(&DoubleArray::new_scalar("Other"));
    assert_eq!(data.get_number_of_arrays(), 1);
}
