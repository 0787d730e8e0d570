use charts::{JsonSource, UserInput, ValidationError, Validator};

/// Validates with `file_text` standing for what reading the named file gave.
fn validate_with(
    user_input: UserInput,
    file_text: Option<&str>,
) -> Result<charts::ValidateUserInput, ValidationError> {
    Validator::new(user_input).validate(file_text.map(String::from))
}

fn validate(user_input: UserInput) -> Result<charts::ValidateUserInput, ValidationError> {
    validate_with(user_input, None)
}

fn parse(text: &str) -> serde_json::Value {
    serde_json::from_str(text).unwrap()
}

#[test]
fn test_chart_name_is_none() {
    let user_input = UserInput {
        chart_name: None,
        inline_json: Some("{}".to_string()),
        file_json: None,
    };
    let result = validate(user_input);
    assert_eq!(result.unwrap_err().message(), "チャート名が指定されていません");
}

#[test]
fn test_both_json_sources_are_none() {
    let user_input = UserInput {
        chart_name: Some("Test Chart".to_string()),
        inline_json: None,
        file_json: None,
    };
    let result = validate(user_input);
    assert_eq!(result.unwrap_err().message(), "JSONが指定されていません");
}

#[test]
fn test_both_json_sources_are_some() {
    let user_input = UserInput {
        chart_name: Some("Test Chart".to_string()),
        inline_json: Some("{}".to_string()),
        file_json: Some("test.json".to_string()),
    };
    let result = validate(user_input);
    assert_eq!(
        result.unwrap_err().message(),
        "inline-jsonとfile-jsonは同時に指定できません"
    );
}

#[test]
fn test_file_json_not_found() {
    let user_input = UserInput {
        chart_name: Some("Test Chart".to_string()),
        inline_json: None,
        file_json: Some("non_existent.json".to_string()),
    };
    // non_existent.json cannot be read.
    let result = validate_with(user_input, None);
    assert_eq!(result.unwrap_err().message(), "ファイルの読み込みに失敗しました");
}

#[test]
fn test_invalid_json() {
    let user_input = UserInput {
        chart_name: Some("Test Chart".to_string()),
        inline_json: Some("{invalid_json}".to_string()),
        file_json: None,
    };
    let result = validate(user_input);
    assert_eq!(
        result.unwrap_err().message(),
        "JSONのパースに失敗しました。正しいJSON形式か確認してください"
    );
}

#[test]
fn test_valid_input_with_inline_json() {
    let user_input = UserInput {
        chart_name: Some("Test Chart".to_string()),
        inline_json: Some(r#"{"key": "value"}"#.to_string()),
        file_json: None,
    };
    let result = validate(user_input);
    assert!(result.is_ok());

    let validated_input = result.unwrap();
    assert_eq!(validated_input.chart_name, "Test Chart");
    assert_eq!(validated_input.json, parse(r#"{"key": "value"}"#));
}

#[test]
fn test_valid_input_with_file_json() {
    let file_path = "test_valid.json";
    // What reading the file gives: one line of JSON.
    let file_content = format!("{}\n", r#"{"key": "value"}"#);

    let user_input = UserInput {
        chart_name: Some("Test Chart".to_string()),
        inline_json: None,
        file_json: Some(file_path.to_string()),
    };
    let result = validate_with(user_input, Some(&file_content));
    assert!(result.is_ok());

    let validated_input = result.unwrap();
    assert_eq!(validated_input.chart_name, "Test Chart");
    assert_eq!(validated_input.json, parse(r#"{"key": "value"}"#));
}

#[test]
fn missing_chart_name_wins_over_every_source_state() {
    let cases = [
        (None, None),
        (Some("{}"), None),
        (None, Some("a.json")),
        (Some("{invalid}"), Some("a.json")),
    ];
    for (inline, file) in cases {
        let user_input = UserInput::new(None, inline.map(String::from), file.map(String::from));
        let validator = Validator::new(user_input);
        assert_eq!(validator.source().err(), Some(ValidationError::MissingChartName));
        let result = validator.validate(Some("{}".to_string()));
        assert_eq!(result.err(), Some(ValidationError::MissingChartName));
    }
}

#[test]
fn conflicting_sources_ignore_their_content() {
    let user_input = UserInput::new(
        Some("scatter".to_string()),
        Some("{invalid}".to_string()),
        Some("missing.json".to_string()),
    );
    let result = Validator::new(user_input).validate(None);
    assert_eq!(result.err(), Some(ValidationError::ConflictingJsonSources));
}

#[test]
fn unreadable_file_is_a_read_failure() {
    let user_input = UserInput::new(Some("scatter".to_string()), None, Some("x.json".to_string()));
    let result = Validator::new(user_input).validate(None);
    assert_eq!(result.err(), Some(ValidationError::FileReadFailure));
}

#[test]
fn invalid_json_in_file_is_a_parse_failure() {
    let user_input = UserInput::new(Some("bar".to_string()), None, Some("x.json".to_string()));
    let result = Validator::new(user_input).validate(Some("{invalid}".to_string()));
    assert_eq!(result.err(), Some(ValidationError::JsonParseFailure));
}

#[test]
fn empty_inline_text_counts_as_present() {
    let user_input = UserInput::new(Some("scatter".to_string()), Some(String::new()), None);
    let result = Validator::new(user_input).validate(None);
    assert_eq!(result.err(), Some(ValidationError::JsonParseFailure));
}

#[test]
fn inline_source_ignores_file_text() {
    let user_input = UserInput::new(Some("bar".to_string()), Some("[1, 2]".to_string()), None);
    let validator = Validator::new(user_input);
    match validator.source() {
        Ok(JsonSource::Inline(text)) => assert_eq!(text, "[1, 2]"),
        _ => panic!("expected the inline source"),
    }
    let validated = validator.validate(Some("{invalid}".to_string())).unwrap();
    assert_eq!(validated.chart_name, "bar");
    assert_eq!(validated.json, parse("[1,2]"));
}

#[test]
fn scatter_json_from_file_is_kept() {
    let content = r#"{"series_list": [{"name": "a", "data": [1, 2, 3, 4]}]}"#;
    let user_input =
        UserInput::new(Some("scatter".to_string()), None, Some("scatter.json".to_string()));
    let validator = Validator::new(user_input);
    match validator.source() {
        Ok(JsonSource::File(path)) => assert_eq!(path, "scatter.json"),
        _ => panic!("expected the file source"),
    }
    let result = validator.validate(Some(content.to_string()));
    let validated = result.unwrap();
    assert_eq!(validated.chart_name, "scatter");
    assert_eq!(validated.json, parse(content));
}
