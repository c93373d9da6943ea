use ata::config::{parse_config, Config, ConfigError};
use ata::repl::{ata_message, greeting, prompt_label, repl_action, shortcuts_text, ReplAction, ReplEvent};
use ata::reply::{extract_reply, ReplyError};
use ata::request::{bearer_token, completions_uri, int_to_decimal, json_escape, prepare_prompt, request_body};
use ata::sanitize::{
    escape_quotes, remove_leading_newlines, remove_outer_quotation_marks, sanitize_response,
    unescape_newlines, unescape_quotes,
};

#[test]
fn leading_newlines() {
    assert_eq!(remove_leading_newlines("\nfoo".to_string()), "foo");
}

#[test]
fn leading_newlines_run() {
    assert_eq!(remove_leading_newlines("\n\nfoo".to_string()), "foo");
    assert_eq!(remove_leading_newlines("foo".to_string()), "foo");
    assert_eq!(remove_leading_newlines("\n\n".to_string()), "");
    assert_eq!(remove_leading_newlines("".to_string()), "");
    assert_eq!(remove_leading_newlines("\nfoo\nbar".to_string()), "foo\nbar");
}

#[test]
fn quote_escape_round_trip() {
    let original = "say \"hi\" to \\ the \"world\"";
    let escaped = escape_quotes(original);
    assert_eq!(escaped, "say \\\"hi\\\" to \\ the \\\"world\\\"");
    assert_eq!(unescape_quotes(&escaped), original);

    let tricky = "\\\"";
    assert_eq!(unescape_quotes(&escape_quotes(tricky)), tricky);

    assert_eq!(unescape_quotes(&escape_quotes("")), "");
}

#[test]
fn newline_unescape() {
    assert_eq!(unescape_newlines("a\\nb"), "a\nb");
    assert_eq!(unescape_newlines("\\n\\n"), "\n\n");
    assert_eq!(unescape_newlines("plain"), "plain");
}

#[test]
fn outer_quotation_marks() {
    assert_eq!(remove_outer_quotation_marks("\"abc\"".to_string()), "abc");
    assert_eq!(remove_outer_quotation_marks("abc".to_string()), "abc");
    assert_eq!(remove_outer_quotation_marks("\"".to_string()), "\"");
    assert_eq!(remove_outer_quotation_marks("\"\"".to_string()), "");
    assert_eq!(remove_outer_quotation_marks("\"open".to_string()), "\"open");
}

#[test]
fn sanitize_plain_reply() {
    assert_eq!(
        sanitize_response("\"\\n\\nfoo bar\"".to_string()),
        "foo bar"
    );
}

#[test]
fn mocked_choice_reply() {
    let body = "{\"choices\":[{\"text\":\"\\\"Hello\\\\n\\\\nworld\\\"\"}]}";
    let raw = extract_reply(body.as_bytes()).unwrap();
    assert_eq!(sanitize_response(raw), "Hello\n\nworld");
}

#[test]
fn mocked_error_reply() {
    let body = "{\"error\":{\"message\":\"invalid_api_key\"}}";
    let raw = extract_reply(body.as_bytes());
    assert!(raw.is_ok());
    assert_eq!(sanitize_response(raw.unwrap()), "invalid_api_key");
}

#[test]
fn reply_not_json() {
    assert_eq!(extract_reply(b"not json at all"), Err(ReplyError::Parse));
}

#[test]
fn reply_missing_fields() {
    let raw = extract_reply(b"{}").unwrap();
    assert_eq!(raw, "null");
    let raw = extract_reply("{\"choices\":[]}".as_bytes()).unwrap();
    assert_eq!(raw, "null");
}

#[test]
fn reply_non_string_payloads() {
    // A message that is not a string reads as its JSON notation.
    let raw = extract_reply("{\"error\":{\"message\":{\"code\":7}}}".as_bytes()).unwrap();
    assert_eq!(raw, "{\"code\":7}");
    // An error object without a message reads as the JSON null does.
    let raw = extract_reply("{\"error\":{}}".as_bytes()).unwrap();
    assert_eq!(raw, "null");
    // A first choice whose text is not a string reads as its JSON notation.
    let raw = extract_reply("{\"choices\":[{\"text\":5}]}".as_bytes()).unwrap();
    assert_eq!(raw, "5");
}

#[test]
fn config_parses() {
    let contents = "api_key = \"SECRET-REDACTED\"\nmodel = \"davinci\"\nmax_tokens = 100\ntemperature = 0\n";
    let config: Config = parse_config(contents).unwrap();
    assert_eq!(config.api_key, "SECRET-REDACTED");
    assert_eq!(config.model, "davinci");
    assert_eq!(config.max_tokens, 100);
    assert_eq!(config.temperature, 0);
}

#[test]
fn config_errors() {
    assert_eq!(parse_config("not = = toml"), Err(ConfigError::Syntax));
    assert_eq!(
        parse_config("model = \"m\"\nmax_tokens = 1\ntemperature = 0\n"),
        Err(ConfigError::MissingApiKey)
    );
    assert_eq!(
        parse_config("api_key = 5\nmodel = \"m\"\nmax_tokens = 1\ntemperature = 0\n"),
        Err(ConfigError::MissingApiKey)
    );
    assert_eq!(
        parse_config("api_key = \"k\"\nmax_tokens = 1\ntemperature = 0\n"),
        Err(ConfigError::MissingModel)
    );
    assert_eq!(
        parse_config("api_key = \"k\"\nmodel = \"m\"\ntemperature = 0\n"),
        Err(ConfigError::MissingMaxTokens)
    );
    assert_eq!(
        parse_config("api_key = \"k\"\nmodel = \"m\"\nmax_tokens = 1\n"),
        Err(ConfigError::MissingTemperature)
    );
    assert_eq!(
        parse_config("api_key = \"k\"\nmodel = \"m\"\nmax_tokens = \"many\"\ntemperature = 0\n"),
        Err(ConfigError::MissingMaxTokens)
    );
}

#[test]
fn prompt_preparation() {
    assert_eq!(prepare_prompt("hi\n"), "hi\\n\\n");
    assert_eq!(prepare_prompt(""), "\\n\\n");
    assert_eq!(prepare_prompt("say \"x\"\n"), "say \\\"x\\\"\\n\\n");
}

#[test]
fn body_serialization() {
    let body = request_body("gpt", "hi\\n\\n", 100, 0);
    assert_eq!(
        body,
        "{\"max_tokens\":100,\"model\":\"gpt\",\"prompt\":\"hi\\\\n\\\\n\",\"temperature\":0}"
    );
    let parsed: serde_json::Value = serde_json::from_str(&body).unwrap();
    assert_eq!(parsed.get("model").unwrap().as_str().unwrap(), "gpt");
    assert_eq!(parsed.get("prompt").unwrap().as_str().unwrap(), "hi\\n\\n");
    assert_eq!(parsed.get("max_tokens").unwrap().as_i64().unwrap(), 100);
    assert_eq!(parsed.get("temperature").unwrap().as_i64().unwrap(), 0);
}

#[test]
fn body_escaping_agrees_with_json() {
    let model = "a\"b\\c\nd\te\u{1}f";
    let body = request_body(model, "p", 1, 2);
    let parsed: serde_json::Value = serde_json::from_str(&body).unwrap();
    assert_eq!(parsed.get("model").unwrap().as_str().unwrap(), model);
}

#[test]
fn json_escaping() {
    assert_eq!(json_escape("plain"), "plain");
    assert_eq!(json_escape("a\tb\u{1}c"), "a\\tb\\u0001c");
    assert_eq!(json_escape("\"\\\n\r\u{8}\u{c}"), "\\\"\\\\\\n\\r\\b\\f");
    assert_eq!(json_escape("\u{1f}"), "\\u001f");
}

#[test]
fn decimal_formatting() {
    assert_eq!(int_to_decimal(0), "0");
    assert_eq!(int_to_decimal(7), "7");
    assert_eq!(int_to_decimal(100), "100");
    assert_eq!(int_to_decimal(-17), "-17");
    assert_eq!(int_to_decimal(i64::MAX), "9223372036854775807");
    assert_eq!(int_to_decimal(i64::MIN), "-9223372036854775808");
}

#[test]
fn bearer_header() {
    assert_eq!(bearer_token("abc"), "Bearer abc");
}

#[test]
fn endpoint() {
    assert_eq!(completions_uri(), "https://api.openai.com/v1/completions");
}

#[test]
fn repl_decisions() {
    assert_eq!(repl_action(ReplEvent::Line("".to_string())), ReplAction::Skip);
    assert_eq!(
        repl_action(ReplEvent::Line("hi".to_string())),
        ReplAction::Submit("hi".to_string())
    );
    assert_eq!(repl_action(ReplEvent::Interrupted), ReplAction::Quit);
    assert_eq!(repl_action(ReplEvent::EndOfInput), ReplAction::Quit);
    assert_eq!(repl_action(ReplEvent::ReadFailure), ReplAction::QuitWithError);
}

#[test]
fn usage_message() {
    assert_eq!(
        ata_message(vec!["ata".to_string()]),
        "Usage: `ata --config=<Path to ata.toml>` or have ata.toml in the current dir."
    );
}

#[test]
fn static_texts() {
    assert_eq!(
        greeting(),
        "Ask the Terminal Anything. Type `commands` for a list of commands."
    );
    assert_eq!(prompt_label("davinci"), "davinci> ");
    assert!(shortcuts_text().contains("CTRL-C"));
}
