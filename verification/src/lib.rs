//! Typed models of a 3D-visualization pipeline's configurable objects,
//! together with the callback registry that routes interaction events
//! raised by the native toolkit to handlers chosen by integer handles.
//!
//! The registry and every property model here are plain data with verified
//! contracts; the thin layer that forwards this state to the native toolkit
//! lives outside the library.

pub mod arrow_source;
pub mod attributes;
pub mod cell_array;
pub mod cone_source;
pub mod cylinder_source;
pub mod disk_source;
pub mod double_array;
pub mod handle_table;
pub mod int_array;
pub mod interactor_style_custom;
pub mod line_source;
pub mod orientation_marker_widget;
pub mod plane_source;
pub mod property;
pub mod registry;
pub mod regular_polygon_source;
pub mod render_window;
pub mod tube_filter;
pub mod vector_text;

pub use arrow_source::ArrowSource;
pub use attributes::CellData;
pub use attributes::PointData;
pub use cell_array::CellArray;
pub use cell_array::CellArrayIterator;
pub use cone_source::ConeSource;
pub use cylinder_source::CylinderSource;
pub use disk_source::DiskSource;
pub use double_array::DoubleArray;
pub use handle_table::HandleTable;
pub use int_array::IntArray;
pub use interactor_style_custom::InteractorStyleCustom;
pub use line_source::LineSource;
pub use orientation_marker_widget::OrientationMarkerWidget;
pub use plane_source::PlaneSource;
pub use property::InterpolationType;
pub use property::Property;
pub use property::RepresentationType;
pub use registry::CallbackRegistry;
pub use registry::EventCategory;
pub use regular_polygon_source::RegularPolygonSource;
pub use render_window::RenderWindow;
pub use tube_filter::TubeFilter;
pub use vector_text::VectorText;
