//! Core of an interactive explorer of scalar fields: the decisions of the
//! camera controller, frame-rate calibration, the order statistics it rests
//! on, the colour map, the escape-time normalisation of the fields and the
//! layout of the rendered pixel buffer.
pub mod calibrate;
pub mod camera;
pub mod color;
pub mod field;
pub mod raster;
pub mod stats;
