use vtk_rs::ArrowSource;
use vtk_rs::ConeSource;
use vtk_rs::CylinderSource;
use vtk_rs::DiskSource;
use vtk_rs::InterpolationType;
use vtk_rs::LineSource;
use vtk_rs::OrientationMarkerWidget;
use vtk_rs::PlaneSource;
use vtk_rs::Property;
use vtk_rs::RegularPolygonSource;
use vtk_rs::RenderWindow;
use vtk_rs::RepresentationType;
use vtk_rs::TubeFilter;
use vtk_rs::VectorText;

#[test]
fn test_arrow_source_configuration() {
    let mut arrow = ArrowSource::new();
    assert_eq!(arrow.get_tip_resolution(), 6);
    assert_eq!(arrow.get_shaft_resolution(), 6);
    assert!(!arrow.get_invert());
    assert_eq!(arrow.get_arrow_origin_as_string(), "Default");

    arrow.set_tip_resolution(16);
    arrow.set_shaft_resolution(24);
    arrow.invert_on();
    arrow.set_arrow_origin_to_center();
    assert_eq!(arrow.get_tip_resolution(), 16);
    assert_eq!(arrow.get_shaft_resolution(), 24);
    assert!(arrow.get_invert());
    assert_eq!(arrow.get_arrow_origin_as_string(), "Center");

    arrow.invert_off();
    arrow.set_invert(true);
    arrow.set_arrow_origin_to_default();
    assert!(arrow.get_invert());
    assert_eq!(arrow.get_arrow_origin_as_string(), "Default");
}

#[test]
fn test_cone_source_configuration() {
    let mut cone = ConeSource::new();
    assert_eq!(cone.get_resolution(), 6);
    assert!(cone.get_capping());
    cone.set_resolution(32);
    cone.set_capping(false);
    assert_eq!(cone.get_resolution(), 32);
    assert!(!cone.get_capping());
}

#[test]
fn test_cylinder_source_configuration() {
    let mut cylinder = CylinderSource::new();
    cylinder.set_resolution(12);
    cylinder.set_capping(false);
    assert_eq!(cylinder.get_resolution(), 12);
    assert!(!cylinder.get_capping());
}

#[test]
fn test_disk_source_configuration() {
    let mut disk = DiskSource::new();
    disk.set_radial_resolution(4);
    disk.set_circumferential_resolution(48);
    assert_eq!(disk.get_radial_resolution(), 4);
    assert_eq!(disk.get_circumferential_resolution(), 48);
}

#[test]
fn test_plane_source_configuration() {
    let mut plane = PlaneSource::new();
    plane.set_x_resolution(10);
    plane.set_y_resolution(20);
    assert_eq!(plane.get_x_resolution(), 10);
    assert_eq!(plane.get_y_resolution(), 20);
}

#[test]
fn test_regular_polygon_source_configuration() {
    let mut polygon = RegularPolygonSource::new();
    assert_eq!(polygon.get_number_of_sides(), 6);
    polygon.set_number_of_sides(5);
    polygon.generate_polygon_off();
    polygon.generate_polyline_on();
    polygon.set_output_points_precision(1);
    assert_eq!(polygon.get_number_of_sides(), 5);
    assert!(!polygon.get_generate_polygon());
    assert!(polygon.get_generate_polyline());
    assert_eq!(polygon.get_output_points_precision(), 1);
    polygon.set_generate_polygon(true);
    polygon.set_generate_polyline(false);
    polygon.generate_polyline_off();
    assert!(polygon.get_generate_polygon());
    assert!(!polygon.get_generate_polyline());
    polygon.generate_polygon_off();
    assert!(!polygon.get_generate_polygon());
}

#[test]
fn test_line_source_configuration() {
    let mut line = LineSource::new();
    line.set_resolution(100);
    assert_eq!(line.get_resolution(), 100);
}

#[test]
fn test_tube_filter_configuration() {
    let mut tube = TubeFilter::new();
    assert_eq!(tube.get_number_of_sides(), 3);
    assert!(!tube.get_capping());
    tube.set_number_of_sides(8);
    tube.set_capping(true);
    assert_eq!(tube.get_number_of_sides(), 8);
    assert!(tube.get_capping());
}

#[test]
fn test_property_configuration() {
    let mut property = Property::new();
    assert_eq!(property.get_representation(), RepresentationType::Surface);
    assert!(!property.get_edge_visibility());
    assert_eq!(property.get_interpolation(), InterpolationType::Gouraud);

    property.set_representation(RepresentationType::Wireframe);
    property.set_edge_visibility(true);
    property.set_interpolation(InterpolationType::Phong);
    assert_eq!(property.get_representation(), RepresentationType::Wireframe);
    assert!(property.get_edge_visibility());
    assert_eq!(property.get_interpolation(), InterpolationType::Phong);
}

#[test]
fn test_representation_codes() {
    assert_eq!(RepresentationType::Points.code(), 0);
    assert_eq!(RepresentationType::Wireframe.code(), 1);
    assert_eq!(RepresentationType::Surface.code(), 2);
    assert_eq!(RepresentationType::from_code(0), RepresentationType::Points);
    assert_eq!(RepresentationType::from_code(1), RepresentationType::Wireframe);
    assert_eq!(RepresentationType::from_code(2), RepresentationType::Surface);
    // An unknown native code reads as the surface representation.
    assert_eq!(RepresentationType::from_code(7), RepresentationType::Surface);
}

#[test]
fn test_interpolation_codes() {
    assert_eq!(InterpolationType::Flat.code(), 0);
    assert_eq!(InterpolationType::Gouraud.code(), 1);
    assert_eq!(InterpolationType::Phong.code(), 2);
    assert_eq!(InterpolationType::from_code(0), InterpolationType::Flat);
    assert_eq!(InterpolationType::from_code(2), InterpolationType::Phong);
    // An unknown native code reads as Gouraud shading.
    assert_eq!(InterpolationType::from_code(-3), InterpolationType::Gouraud);
}

#[test]
fn test_vector_text_round_trip() {
    let mut text = VectorText::new();
    assert_eq!(text.get_text(), "");
    text.set_text("Node 17");
    assert_eq!(text.get_text(), "Node 17");
}

#[test]
fn test_render_window_accepts_configuration() {
    let mut window = RenderWindow::new();
    assert_eq!(window.render_count_value(), 0);
    window.set_size(800, 600);
    window.set_window_name("Beam view");
    window.render();
    window.render();
    assert_eq!(window.render_count_value(), 2);
}

#[test]
fn test_orientation_marker_widget_accepts_configuration() {
    let mut widget = OrientationMarkerWidget::new();
    widget.set_enabled(true);
    widget.interactive_off();
    widget.set_enabled(false);
}
