//! The closed set of chart kinds and the dispatch from a kind's name to a
//! typed chart.
use crate::engine::{bar_from_json, bar_svg, scatter_from_json, scatter_svg};
use crate::json::{array_field_len, array_field_len_of, json_parses};
use vstd::string::to_string_from_display_ensures;
use vstd::prelude::*;

verus! {

/// The kinds of chart this tool draws.
#[derive(Clone, Copy, Debug, PartialEq, Eq, Structural)]
pub enum ChartKind {
    Scatter,
    Bar,
}

/// The name a kind is selected by.
pub open spec fn kind_name(k: ChartKind) -> Seq<char> {
    match k {
        ChartKind::Scatter => "scatter"@,
        ChartKind::Bar => "bar"@,
    }
}

/// The kind a name selects, matched case-sensitively; `None` for any other name.
pub open spec fn kind_named(name: Seq<char>) -> Option<ChartKind> {
    if name == "scatter"@ {
        Some(ChartKind::Scatter)
    } else if name == "bar"@ {
        Some(ChartKind::Bar)
    } else {
        None
    }
}

impl ChartKind {
    pub fn name(&self) -> (r: String)
        ensures
            r@ == kind_name(*self),
    {
        match self {
            ChartKind::Scatter => "scatter".to_owned(),
            ChartKind::Bar => "bar".to_owned(),
        }
    }

    /// Looks up the kind that `name` selects.
    pub fn from_name(name: &str) -> (r: Option<ChartKind>)
        ensures
            r == kind_named(name@),
    {
        let name = name.to_owned();
        if name == "scatter".to_owned() {
            Some(ChartKind::Scatter)
        } else if name == "bar".to_owned() {
            Some(ChartKind::Bar)
        } else {
            None
        }
    }
}

/// Why a chart request could not be turned into an image.
#[derive(Debug)]
pub enum ChartError {
    /// The chart name selects no kind.
    UnknownChartKind,
    /// The JSON does not fit the schema of the kind; `detail` is the engine's account.
    SchemaMismatch { kind: ChartKind, detail: String },
    /// The engine could not draw the chart as SVG.
    VectorRenderFailure(ChartKind),
    /// The SVG could not be turned into JPEG bytes.
    RasterConversionFailure,
    /// The JPEG bytes could not be written to disk.
    PersistFailure,
}

/// The chart type named at the start of a schema mismatch message.
pub open spec fn schema_head(k: ChartKind) -> Seq<char> {
    match k {
        ChartKind::Scatter => "ScatterChart"@,
        ChartKind::Bar => "BarChart"@,
    }
}

/// The message shown to the operator for each error.
pub open spec fn chart_message_of(e: ChartError) -> Seq<char> {
    match e {
        ChartError::UnknownChartKind => "不明なチャート名です"@,
        ChartError::SchemaMismatch { kind, detail } => schema_head(kind)
            + "のJSONパースに失敗しました。入力したJSONを見直してください。: "@ + detail@,
        ChartError::VectorRenderFailure(_) => "(依存ライブラリエラー) SVG変換に失敗しました"@,
        ChartError::RasterConversionFailure => "(依存ライブラリエラー) JPEG変換に失敗しました"@,
        ChartError::PersistFailure => "(依存ライブラリエラー) JPEGファイルの保存に失敗しました"@,
    }
}

impl ChartError {
    /// The message shown to the operator.
    pub fn message(&self) -> (r: String)
        ensures
            r@ == chart_message_of(*self),
    {
        match self {
            ChartError::UnknownChartKind => "不明なチャート名です".to_owned(),
            ChartError::SchemaMismatch { kind, detail } => {
                let head = match kind {
                    ChartKind::Scatter => "ScatterChart".to_owned(),
                    ChartKind::Bar => "BarChart".to_owned(),
                };
                head.concat("のJSONパースに失敗しました。入力したJSONを見直してください。: ").concat(
                    detail.as_str(),
                )
            },
            ChartError::VectorRenderFailure(_) => "(依存ライブラリエラー) SVG変換に失敗しました".to_owned(),
            ChartError::RasterConversionFailure => "(依存ライブラリエラー) JPEG変換に失敗しました".to_owned(),
            ChartError::PersistFailure => "(依存ライブラリエラー) JPEGファイルの保存に失敗しました".to_owned(),
        }
    }
}

/// The account of a scatter chart whose `y_axis_configs` holds no axis.
pub const NO_Y_AXIS: &'static str = "y_axis_configs must hold at least one y axis";

/// A typed chart description; the variant always matches the kind it was read for.
pub enum ChartType {
    Scatter(charts_rs::ScatterChart),
    Bar(charts_rs::BarChart),
}

impl ChartType {
    pub open spec fn kind(&self) -> ChartKind {
        match self {
            ChartType::Scatter(_) => ChartKind::Scatter,
            ChartType::Bar(_) => ChartKind::Bar,
        }
    }

    /// Hands on the engine's reading of JSON as a scatter chart: the chart
    /// itself, or a schema mismatch with the engine's account of why.
    pub fn from_scatter(read: Result<charts_rs::ScatterChart, charts_rs::Error>) -> (r: Result<
        ChartType,
        ChartError,
    >)
        ensures
            match read {
                Ok(c) => r == Ok::<ChartType, ChartError>(ChartType::Scatter(c)),
                Err(e) => r is Err && r->Err_0 is SchemaMismatch && r->Err_0->kind
                    == ChartKind::Scatter && to_string_from_display_ensures::<charts_rs::Error>(
                    &e,
                    r->Err_0->detail,
                ),
            },
    {
        match read {
            Ok(chart) => Ok(ChartType::Scatter(chart)),
            Err(e) => Err(ChartError::SchemaMismatch { kind: ChartKind::Scatter, detail: e.to_string() }),
        }
    }

    /// Hands on the engine's reading of JSON as a bar chart: the chart
    /// itself, or a schema mismatch with the engine's account of why.
    pub fn from_bar(read: Result<charts_rs::BarChart, charts_rs::Error>) -> (r: Result<
        ChartType,
        ChartError,
    >)
        ensures
            match read {
                Ok(c) => r == Ok::<ChartType, ChartError>(ChartType::Bar(c)),
                Err(e) => r is Err && r->Err_0 is SchemaMismatch && r->Err_0->kind
                    == ChartKind::Bar && to_string_from_display_ensures::<charts_rs::Error>(
                    &e,
                    r->Err_0->detail,
                ),
            },
    {
        match read {
            Ok(chart) => Ok(ChartType::Bar(chart)),
            Err(e) => Err(ChartError::SchemaMismatch { kind: ChartKind::Bar, detail: e.to_string() }),
        }
    }

    /// Reads `json` as a chart of the kind that `chart_name` selects. An
    /// unknown name fails before the engine is asked anything; text that is
    /// not JSON at all never fits a schema. A scatter chart needs at least one
    /// y axis: an empty `y_axis_configs` is a schema mismatch found here,
    /// before the engine reads the text.
    pub fn from_json(chart_name: &str, json: &str) -> (r: Result<ChartType, ChartError>)
        ensures
            kind_named(chart_name@) is None ==> r == Err::<ChartType, ChartError>(
                ChartError::UnknownChartKind,
            ),
            kind_named(chart_name@) is Some ==> match r {
                Ok(c) => c.kind() == kind_named(chart_name@)->Some_0,
                Err(e) => e is SchemaMismatch && e->kind == kind_named(chart_name@)->Some_0,
            },
            kind_named(chart_name@) is Some && !json_parses(json@) ==> r is Err,
            kind_named(chart_name@) == Some(ChartKind::Scatter) && array_field_len(
                json@,
                "y_axis_configs"@,
            ) == Some(0nat) ==> r is Err && r->Err_0->detail@ == NO_Y_AXIS@,
    {
        match ChartKind::from_name(chart_name) {
            Some(ChartKind::Scatter) => match array_field_len_of(json, "y_axis_configs") {
                Some(0) => Err(
                    ChartError::SchemaMismatch { kind: ChartKind::Scatter, detail: NO_Y_AXIS.to_owned() },
                ),
                _ => ChartType::from_scatter(scatter_from_json(json)),
            },
            Some(ChartKind::Bar) => ChartType::from_bar(bar_from_json(json)),
            None => Err(ChartError::UnknownChartKind),
        }
    }

    /// Draws the chart as SVG text.
    pub fn svg(&self) -> (r: Result<String, ChartError>)
        ensures
            r is Err ==> r->Err_0 == ChartError::VectorRenderFailure(self.kind()),
    {
        match self {
            ChartType::Scatter(chart) => svg_outcome(ChartKind::Scatter, scatter_svg(chart)),
            ChartType::Bar(chart) => svg_outcome(ChartKind::Bar, bar_svg(chart)),
        }
    }
}

/// Hands on the engine's drawing of a chart of kind `kind`: the SVG text as
/// it came, or `VectorRenderFailure` for that kind.
pub fn svg_outcome(kind: ChartKind, drawn: Result<String, charts_rs::Error>) -> (r: Result<
    String,
    ChartError,
>)
    ensures
        match drawn {
            Ok(s) => r == Ok::<String, ChartError>(s),
            Err(_) => r == Err::<String, ChartError>(ChartError::VectorRenderFailure(kind)),
        },
{
    match drawn {
        Ok(s) => Ok(s),
        Err(_) => Err(ChartError::VectorRenderFailure(kind)),
    }
}

} // verus!
