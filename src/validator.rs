//! Checks the raw options and reads the JSON document from the one source given.
use crate::input::{UserInput, ValidateUserInput};
use crate::json::{json_parses, parse_json};
use vstd::prelude::*;

verus! {

/// Why a set of options cannot be turned into a chart request.
#[derive(Debug, PartialEq, Eq, Structural)]
pub enum ValidationError {
    MissingChartName,
    MissingJsonSource,
    ConflictingJsonSources,
    FileReadFailure,
    JsonParseFailure,
}

/// Where the JSON text comes from: the text itself, or a path to read it from.
pub enum JsonSource {
    Inline(String),
    File(String),
}

/// The message shown to the operator for each error.
pub open spec fn message_of(e: ValidationError) -> Seq<char> {
    match e {
        ValidationError::MissingChartName => "チャート名が指定されていません"@,
        ValidationError::MissingJsonSource => "JSONが指定されていません"@,
        ValidationError::ConflictingJsonSources => "inline-jsonとfile-jsonは同時に指定できません"@,
        ValidationError::FileReadFailure => "ファイルの読み込みに失敗しました"@,
        ValidationError::JsonParseFailure =>
            "JSONのパースに失敗しました。正しいJSON形式か確認してください"@,
    }
}

impl ValidationError {
    pub fn message(&self) -> (r: String)
        ensures
            r@ == message_of(*self),
    {
        match self {
            ValidationError::MissingChartName => "チャート名が指定されていません".to_owned(),
            ValidationError::MissingJsonSource => "JSONが指定されていません".to_owned(),
            ValidationError::ConflictingJsonSources =>
                "inline-jsonとfile-jsonは同時に指定できません".to_owned(),
            ValidationError::FileReadFailure => "ファイルの読み込みに失敗しました".to_owned(),
            ValidationError::JsonParseFailure =>
                "JSONのパースに失敗しました。正しいJSON形式か確認してください".to_owned(),
        }
    }
}

/// The presence rules, in order: a chart name, then exactly one JSON source.
pub open spec fn source_of(u: UserInput) -> Result<JsonSource, ValidationError> {
    if u.chart_name is None {
        Err(ValidationError::MissingChartName)
    } else if u.inline_json is None && u.file_json is None {
        Err(ValidationError::MissingJsonSource)
    } else if u.inline_json is Some && u.file_json is Some {
        Err(ValidationError::ConflictingJsonSources)
    } else if u.inline_json is Some {
        Ok(JsonSource::Inline(u.inline_json->Some_0))
    } else {
        Ok(JsonSource::File(u.file_json->Some_0))
    }
}

/// The JSON text the options resolve to, where `file_text` is what reading the
/// named file gave (`None` when it could not be read).
pub open spec fn text_of(u: UserInput, file_text: Option<String>) -> Result<
    Seq<char>,
    ValidationError,
> {
    match source_of(u) {
        Err(e) => Err(e),
        Ok(JsonSource::Inline(s)) => Ok(s@),
        Ok(JsonSource::File(_)) => match file_text {
            None => Err(ValidationError::FileReadFailure),
            Some(t) => Ok(t@),
        },
    }
}

/// The error that validation ends in, or `None` where it succeeds.
pub open spec fn validation_error(u: UserInput, file_text: Option<String>) -> Option<
    ValidationError,
> {
    match text_of(u, file_text) {
        Err(e) => Some(e),
        Ok(t) => if json_parses(t) {
            None
        } else {
            Some(ValidationError::JsonParseFailure)
        },
    }
}

pub struct Validator {
    pub user_input: UserInput,
}

impl Validator {
    pub fn new(user_input: UserInput) -> (r: Validator)
        ensures
            r.user_input == user_input,
    {
        Validator { user_input }
    }

    /// Applies the presence rules and says which source holds the JSON text.
    pub fn source(&self) -> (r: Result<JsonSource, ValidationError>)
        ensures
            r == source_of(self.user_input),
    {
        match (&self.user_input.chart_name, &self.user_input.inline_json, &self.user_input.file_json) {
            (None, _, _) => Err(ValidationError::MissingChartName),
            (Some(_), None, None) => Err(ValidationError::MissingJsonSource),
            (Some(_), Some(_), Some(_)) => Err(ValidationError::ConflictingJsonSources),
            (Some(_), Some(s), None) => Ok(JsonSource::Inline(s.clone())),
            (Some(_), None, Some(p)) => Ok(JsonSource::File(p.clone())),
        }
    }

    /// Validates the options. `file_text` is what reading the path of the
    /// file source gave, `None` where the read failed; it is not looked at
    /// unless the options name a file and nothing else.
    pub fn validate(self, file_text: Option<String>) -> (r: Result<
        ValidateUserInput,
        ValidationError,
    >)
        ensures
            r is Err <==> validation_error(self.user_input, file_text) is Some,
            r is Err ==> r->Err_0 == validation_error(self.user_input, file_text)->Some_0,
            r is Ok ==> self.user_input.chart_name == Some(r->Ok_0.chart_name),
    {
        let source = self.source();
        let text = match source {
            Err(e) => return Err(e),
            Ok(JsonSource::Inline(s)) => s,
            Ok(JsonSource::File(_)) => match file_text {
                None => return Err(ValidationError::FileReadFailure),
                Some(t) => t,
            },
        };
        let json = match parse_json(text.as_str()) {
            Ok(v) => v,
            Err(_) => return Err(ValidationError::JsonParseFailure),
        };
        let chart_name = match self.user_input.chart_name {
            Some(n) => n,
            None => return Err(ValidationError::MissingChartName),
        };
        Ok(ValidateUserInput { chart_name, json })
    }
}

/// Without a chart name validation fails with `MissingChartName`, whatever
/// the JSON sources hold.
pub proof fn lemma_missing_chart_name(u: UserInput, file_text: Option<String>)
    requires
        u.chart_name is None,
    ensures
        validation_error(u, file_text) == Some(ValidationError::MissingChartName),
{
}

/// With a chart name and neither JSON source, validation fails with
/// `MissingJsonSource`.
pub proof fn lemma_missing_json_source(u: UserInput, file_text: Option<String>)
    requires
        u.chart_name is Some,
        u.inline_json is None,
        u.file_json is None,
    ensures
        validation_error(u, file_text) == Some(ValidationError::MissingJsonSource),
{
}

/// With a chart name and both JSON sources, validation fails with
/// `ConflictingJsonSources`, whatever the two hold.
pub proof fn lemma_conflicting_json_sources(u: UserInput, file_text: Option<String>)
    requires
        u.chart_name is Some,
        u.inline_json is Some,
        u.file_json is Some,
    ensures
        validation_error(u, file_text) == Some(ValidationError::ConflictingJsonSources),
{
}

/// With a chart name and a file path alone, a file that cannot be read makes
/// validation fail with `FileReadFailure`.
pub proof fn lemma_file_read_failure(u: UserInput)
    requires
        u.chart_name is Some,
        u.inline_json is None,
        u.file_json is Some,
    ensures
        validation_error(u, None) == Some(ValidationError::FileReadFailure),
{
}

/// Where the one JSON source resolves to text that is not valid JSON,
/// validation fails with `JsonParseFailure`.
pub proof fn lemma_json_parse_failure(u: UserInput, file_text: Option<String>)
    requires
        text_of(u, file_text) is Ok,
        !json_parses(text_of(u, file_text)->Ok_0),
    ensures
        validation_error(u, file_text) == Some(ValidationError::JsonParseFailure),
{
}

} // verus!
