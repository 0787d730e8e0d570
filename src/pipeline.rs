//! The whole run from raw options to image bytes: each stage runs at most
//! once and the first failure ends the run.
use crate::chart_type::{chart_message_of, kind_named, ChartError};
use crate::image_builder::{stage_outcome, ImageBuilder};
use crate::input::UserInput;
use crate::validator::{message_of, validation_error, ValidationError, Validator};
use vstd::prelude::*;

verus! {

/// The file the image is written to, in the working directory.
pub const OUTPUT_PATH: &'static str = "chart.jpg";

/// The stages after the options were read that a run can fail in, in order.
#[derive(Clone, Copy, Debug, PartialEq, Eq, Structural)]
pub enum Stage {
    Validating,
    Dispatching,
    Rendering,
}

/// The stage a failure belongs to: the options, the choice and reading of
/// the chart, or drawing, rasterising and writing it.
pub open spec fn stage_of(e: PipelineError) -> Stage {
    match e {
        PipelineError::Validation(_) => Stage::Validating,
        PipelineError::Chart(ChartError::UnknownChartKind) => Stage::Dispatching,
        PipelineError::Chart(ChartError::SchemaMismatch { .. }) => Stage::Dispatching,
        PipelineError::Chart(_) => Stage::Rendering,
    }
}

/// The first failure of a run.
#[derive(Debug)]
pub enum PipelineError {
    Validation(ValidationError),
    Chart(ChartError),
}

/// The message shown to the operator for a failed run.
pub open spec fn pipeline_message_of(e: PipelineError) -> Seq<char> {
    match e {
        PipelineError::Validation(v) => message_of(v),
        PipelineError::Chart(c) => chart_message_of(c),
    }
}

impl PipelineError {
    /// The stage that failed.
    pub fn stage(&self) -> (r: Stage)
        ensures
            r == stage_of(*self),
    {
        match self {
            PipelineError::Validation(_) => Stage::Validating,
            PipelineError::Chart(ChartError::UnknownChartKind) => Stage::Dispatching,
            PipelineError::Chart(ChartError::SchemaMismatch { .. }) => Stage::Dispatching,
            PipelineError::Chart(_) => Stage::Rendering,
        }
    }

    pub fn message(&self) -> (r: String)
        ensures
            r@ == pipeline_message_of(*self),
    {
        match self {
            PipelineError::Validation(v) => v.message(),
            PipelineError::Chart(c) => c.message(),
        }
    }
}

/// What a run on `input` may end in, where `file_text` is what reading its
/// file gave: a validation failure decides alone; then an unknown chart
/// name fails before the engine is asked anything; a known kind ends in its
/// JPEG bytes, never empty, or in the failure of one of the engine's stages
/// for that kind.
pub open spec fn run_outcome(
    input: UserInput,
    file_text: Option<String>,
    r: Result<Vec<u8>, PipelineError>,
) -> bool {
    match validation_error(input, file_text) {
        Some(e) => r == Err::<Vec<u8>, PipelineError>(PipelineError::Validation(e)),
        None => match kind_named(input.chart_name->Some_0@) {
            None => r == Err::<Vec<u8>, PipelineError>(
                PipelineError::Chart(ChartError::UnknownChartKind),
            ),
            Some(k) => match r {
                Ok(bytes) => stage_outcome(Ok(bytes), k),
                Err(PipelineError::Chart(e)) => stage_outcome(Err(e), k),
                Err(PipelineError::Validation(_)) => false,
            },
        },
    }
}

/// Validates `input` and turns the chart it describes into JPEG bytes.
/// `file_text` is what reading the options' file path gave (`None` where the
/// read failed), and is only looked at where the options name a file alone.
pub fn build_image(input: UserInput, file_text: Option<String>) -> (r: Result<
    Vec<u8>,
    PipelineError,
>)
    ensures
        run_outcome(input, file_text, r),
{
    let validated = match Validator::new(input).validate(file_text) {
        Ok(v) => v,
        Err(e) => return Err(PipelineError::Validation(e)),
    };
    let json_text = validated.json.to_string();
    match ImageBuilder::create_chart(validated.chart_name.as_str(), json_text.as_str()) {
        Ok(bytes) => Ok(bytes),
        Err(e) => Err(PipelineError::Chart(e)),
    }
}

/// A chart name that selects no kind, with otherwise valid input, ends the
/// run in `UnknownChartKind`: no JSON is read as a chart and nothing is drawn.
pub proof fn lemma_unknown_kind_is_not_rendered(
    input: UserInput,
    file_text: Option<String>,
    r: Result<Vec<u8>, PipelineError>,
)
    requires
        validation_error(input, file_text) is None,
        kind_named(input.chart_name->Some_0@) is None,
        run_outcome(input, file_text, r),
    ensures
        r == Err::<Vec<u8>, PipelineError>(PipelineError::Chart(ChartError::UnknownChartKind)),
{
}

/// With valid input for a known kind, a run succeeds with a non-empty image
/// or fails only where the engine itself fails: reading the JSON as that
/// kind's chart, drawing it, or rasterising it. Validation and dispatch by
/// name let it through.
pub proof fn lemma_valid_input_reaches_the_engine(
    input: UserInput,
    file_text: Option<String>,
    r: Result<Vec<u8>, PipelineError>,
)
    requires
        validation_error(input, file_text) is None,
        kind_named(input.chart_name->Some_0@) is Some,
        run_outcome(input, file_text, r),
    ensures
        r is Ok ==> r->Ok_0@.len() > 0,
        r is Err ==> r->Err_0 is Chart && !(r->Err_0->Chart_0 is UnknownChartKind)
            && !(r->Err_0->Chart_0 is PersistFailure),
{
}

} // verus!
