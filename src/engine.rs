//! The chart rendering engine, charts-rs, as the library sees it. Whether
//! a chart is accepted or rendered depends on themes and fonts registered in
//! the process, so nothing here names a result.
use crate::json::{array_field_len, json_parses};
use vstd::prelude::*;

verus! {

#[verifier::external_type_specification]
#[verifier::external_body]
pub struct ExScatterChart(charts_rs::ScatterChart);

#[verifier::external_type_specification]
#[verifier::external_body]
pub struct ExBarChart(charts_rs::BarChart);

#[verifier::external_type_specification]
#[verifier::external_body]
pub struct ExChartsError(charts_rs::Error);

/// Relies on `charts_rs::ScatterChart::from_json`, which reads a scatter
/// chart from JSON text or reports why the text does not fit its schema. It
/// parses the text with `serde_json::from_str` first, so text that is not
/// JSON is an error. Its schema lets `y_axis_configs` be an empty array, on
/// which it then indexes the first axis and panics: that input is left out.
#[verifier::external_body]
pub(crate) fn scatter_from_json(json: &str) -> (r: Result<charts_rs::ScatterChart, charts_rs::Error>)
    requires
        array_field_len(json@, "y_axis_configs"@) != Some(0nat),
    ensures
        !json_parses(json@) ==> r is Err,
{
    charts_rs::ScatterChart::from_json(json)
}

/// Relies on `charts_rs::BarChart::from_json`, which reads a bar chart from
/// JSON text or reports why the text does not fit its schema. It parses the
/// text with `serde_json::from_str` first, so text that is not JSON is an
/// error.
#[verifier::external_body]
pub(crate) fn bar_from_json(json: &str) -> (r: Result<charts_rs::BarChart, charts_rs::Error>)
    ensures
        !json_parses(json@) ==> r is Err,
{
    charts_rs::BarChart::from_json(json)
}

/// Relies on `charts_rs::ScatterChart::svg`, which draws the chart as SVG.
#[verifier::external_body]
pub(crate) fn scatter_svg(chart: &charts_rs::ScatterChart) -> (r: Result<String, charts_rs::Error>) {
    chart.svg()
}

/// Relies on `charts_rs::BarChart::svg`, which draws the chart as SVG.
#[verifier::external_body]
pub(crate) fn bar_svg(chart: &charts_rs::BarChart) -> (r: Result<String, charts_rs::Error>) {
    chart.svg()
}

/// Relies on `charts_rs::svg_to_jpeg`, which rasterises SVG text to JPEG
/// bytes. It hands the buffer back only after the JPEG encoder wrote it,
/// and the encoder writes the start-of-image marker first, so the bytes of
/// a success are never empty.
#[verifier::external_body]
pub(crate) fn svg_to_jpeg(svg: &str) -> (r: Result<Vec<u8>, charts_rs::Error>)
    ensures
        r is Ok ==> r->Ok_0@.len() > 0,
{
    charts_rs::svg_to_jpeg(svg)
}

} // verus!
