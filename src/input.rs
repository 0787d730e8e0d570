//! The command line's values before and after validation.
use vstd::prelude::*;

verus! {

/// The three options as they were given, none of them checked yet.
#[derive(Debug)]
pub struct UserInput {
    pub chart_name: Option<String>,
    pub inline_json: Option<String>,
    pub file_json: Option<String>,
}

impl UserInput {
    pub fn new(
        chart_name: Option<String>,
        inline_json: Option<String>,
        file_json: Option<String>,
    ) -> (r: UserInput)
        ensures
            r.chart_name == chart_name,
            r.inline_json == inline_json,
            r.file_json == file_json,
    {
        UserInput { chart_name, inline_json, file_json }
    }
}

/// A chart name together with the JSON document read from exactly one source.
#[derive(Debug)]
pub struct ValidateUserInput {
    pub chart_name: String,
    pub json: serde_json::Value,
}

} // verus!
