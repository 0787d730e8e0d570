//! Turns a JSON chart description into a raster image: the options are
//! validated, the chart kind is dispatched to a typed chart, and the chart is
//! rendered to SVG and then to JPEG bytes.
pub mod chart_type;
mod engine;
pub mod image_builder;
pub mod input;
pub mod json;
pub mod pipeline;
pub mod validator;

pub use chart_type::{svg_outcome, ChartError, ChartKind, ChartType, NO_Y_AXIS};
pub use image_builder::{jpeg_outcome, ImageBuilder};
pub use input::{UserInput, ValidateUserInput};
pub use pipeline::{build_image, PipelineError, Stage, OUTPUT_PATH};
pub use validator::{JsonSource, ValidationError, Validator};
