use vtk_rs::CellArray;

#[test]
fn test_cell_array_creation() {
    let cells = CellArray::new();
    assert_eq!(cells.get_number_of_cells(), 0);
}

#[test]
fn test_insert_beam() {
    let mut cells = CellArray::new();
    let beam_id = cells.insert_next_cell(&[0, 1]);
    assert_eq!(beam_id, 0);
    assert_eq!(cells.get_number_of_cells(), 1);
    assert_eq!(cells.get_number_of_connectivity_ids(), 2);
}

#[test]
fn test_get_cell() {
    let mut cells = CellArray::new();
    cells.insert_next_cell(&[5, 10]);

    let point_ids = cells.get_cell(0).unwrap();
    assert_eq!(point_ids, vec![5, 10]);
}

#[test]
fn test_iterator() {
    let mut cells = CellArray::new();
    cells.insert_next_cell(&[0, 1]);
    cells.insert_next_cell(&[1, 2]);
    cells.insert_next_cell(&[2, 3]);

    let mut collected: Vec<(i64, Vec<i64>)> = Vec::new();
    let mut iterator = cells.iter();
    while let Some(item) = iterator.next() {
        collected.push(item);
    }
    assert_eq!(collected.len(), 3);
    assert_eq!(collected[0], (0, vec![0, 1]));
    assert_eq!(collected[1], (1, vec![1, 2]));
    assert_eq!(collected[2], (2, vec![2, 3]));
}

#[test]
fn test_get_cell_out_of_range() {
    let mut cells = CellArray::new();
    cells.insert_next_cell(&[4, 5]);
    assert!(cells.get_cell(-1).is_none());
    assert!(cells.get_cell(1).is_none());
}

#[test]
fn test_get_cell_empty_cell() {
    let mut cells = CellArray::new();
    let empty: [i64; 0] = [];
    cells.insert_next_cell(&empty);
    assert_eq!(cells.get_number_of_cells(), 1);
    assert_eq!(cells.get_number_of_connectivity_ids(), 0);
    assert!(cells.get_cell(0).is_none());
}

#[test]
fn test_reset_and_initialize() {
    let mut cells = CellArray::new();
    cells.insert_next_cell(&[0, 1, 2]);
    cells.reset();
    assert_eq!(cells.get_number_of_cells(), 0);
    cells.insert_next_cell(&[7, 8]);
    assert_eq!(cells.get_number_of_connectivity_ids(), 2);
    cells.initialize();
    assert_eq!(cells.get_number_of_cells(), 0);
    assert_eq!(cells.get_number_of_connectivity_ids(), 0);
}
