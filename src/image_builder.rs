//! Drives a chart from JSON text through SVG to JPEG bytes.
use crate::chart_type::{kind_named, ChartError, ChartKind, ChartType, NO_Y_AXIS};
use crate::engine::svg_to_jpeg;
use crate::json::{array_field_len, json_parses};
use vstd::prelude::*;

verus! {

/// What a chart of kind `k` may end in: its JPEG bytes, never empty, or a
/// failure of one of the stages that reading, drawing and rasterising it go
/// through.
pub open spec fn stage_outcome(r: Result<Vec<u8>, ChartError>, k: ChartKind) -> bool {
    match r {
        Ok(bytes) => bytes@.len() > 0,
        Err(e) => (e is SchemaMismatch && e->kind == k) || e == ChartError::VectorRenderFailure(k)
            || e == ChartError::RasterConversionFailure,
    }
}

/// Hands on the engine's rasterising of SVG: the JPEG bytes as they came,
/// or `RasterConversionFailure`.
pub fn jpeg_outcome(converted: Result<Vec<u8>, charts_rs::Error>) -> (r: Result<
    Vec<u8>,
    ChartError,
>)
    ensures
        match converted {
            Ok(bytes) => r == Ok::<Vec<u8>, ChartError>(bytes),
            Err(_) => r == Err::<Vec<u8>, ChartError>(ChartError::RasterConversionFailure),
        },
{
    match converted {
        Ok(bytes) => Ok(bytes),
        Err(_) => Err(ChartError::RasterConversionFailure),
    }
}

pub struct ImageBuilder {}

impl ImageBuilder {
    /// Reads `json_strings` as a chart of the kind `chart_type` names, draws
    /// it as SVG and rasterises that to JPEG bytes. The first stage that
    /// fails decides the error; an unknown kind fails before any drawing,
    /// and text that is not JSON fails before any drawing too.
    pub fn create_chart(chart_type: &str, json_strings: &str) -> (r: Result<Vec<u8>, ChartError>)
        ensures
            kind_named(chart_type@) is None ==> r == Err::<Vec<u8>, ChartError>(
                ChartError::UnknownChartKind,
            ),
            kind_named(chart_type@) is Some ==> stage_outcome(r, kind_named(chart_type@)->Some_0),
            kind_named(chart_type@) is Some && !json_parses(json_strings@) ==> r is Err
                && r->Err_0 is SchemaMismatch,
            kind_named(chart_type@) == Some(ChartKind::Scatter) && array_field_len(
                json_strings@,
                "y_axis_configs"@,
            ) == Some(0nat) ==> r is Err && r->Err_0 is SchemaMismatch && r->Err_0->detail@
                == NO_Y_AXIS@,
    {
        let chart = match ChartType::from_json(chart_type, json_strings) {
            Ok(c) => c,
            Err(e) => return Err(e),
        };
        let svg_chart = match chart.svg() {
            Ok(s) => s,
            Err(e) => return Err(e),
        };
        jpeg_outcome(svg_to_jpeg(svg_chart.as_str()))
    }
}

} // verus!
