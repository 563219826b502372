use sprout_worker::errors::WorkerError;
use sprout_worker::expand::parse_expansion_body;
use sprout_worker::store::parse_fetch_body;

#[test]
fn fetch_body_that_is_not_json_is_a_parse_error() {
    assert_eq!(parse_fetch_body("not json at all"), Err(WorkerError::Parse));
    assert_eq!(parse_fetch_body(""), Err(WorkerError::Parse));
}

#[test]
fn fetch_body_that_is_not_an_array_is_a_shape_error() {
    assert_eq!(parse_fetch_body("{}"), Err(WorkerError::ResponseShape));
    assert_eq!(parse_fetch_body("\"seeds\""), Err(WorkerError::ResponseShape));
    assert_eq!(parse_fetch_body("7"), Err(WorkerError::ResponseShape));
}

#[test]
fn empty_fetch_body_holds_no_record() {
    assert_eq!(
        parse_fetch_body("[]").map(|o| o.is_none()),
        Ok(true)
    );
}

#[test]
fn record_fields_are_read_out_exactly() {
    let body = "[{\"id\":\"abc\",\"title\":\"Recipe app\",\"context\":\"family use\",\"status\":\"pending\"}]";
    let seed = parse_fetch_body(body)
        .unwrap_or_else(|_| panic!("body is a well-formed record list"))
        .unwrap_or_else(|| panic!("body holds one record"));
    assert_eq!(seed.id, "abc");
    assert_eq!(seed.title, "Recipe app");
    assert_eq!(seed.context.as_deref(), Some("family use"));
}

#[test]
fn null_context_reads_as_no_context() {
    let body = "[{\"id\":\"abc\",\"title\":\"T\",\"context\":null}]";
    let seed = parse_fetch_body(body).unwrap().unwrap();
    assert_eq!(seed.context, None);
}

#[test]
fn missing_or_non_string_title_reads_as_empty() {
    let seed = parse_fetch_body("[{\"id\":\"abc\"}]").unwrap().unwrap();
    assert_eq!(seed.title, "");
    let seed = parse_fetch_body("[{\"id\":\"abc\",\"title\":7}]").unwrap().unwrap();
    assert_eq!(seed.title, "");
}

#[test]
fn record_without_usable_id_is_invalid() {
    assert_eq!(
        parse_fetch_body("[{\"title\":\"X\"}]"),
        Err(WorkerError::InvalidRecord)
    );
    assert_eq!(
        parse_fetch_body("[{\"id\":\"\",\"title\":\"X\"}]"),
        Err(WorkerError::InvalidRecord)
    );
    assert_eq!(
        parse_fetch_body("[{\"id\":42,\"title\":\"X\"}]"),
        Err(WorkerError::InvalidRecord)
    );
    assert_eq!(parse_fetch_body("[null]"), Err(WorkerError::InvalidRecord));
}

#[test]
fn first_of_several_records_is_taken() {
    let body = "[{\"id\":\"one\",\"title\":\"A\"},{\"id\":\"two\",\"title\":\"B\"}]";
    let seed = parse_fetch_body(body).unwrap().unwrap();
    assert_eq!(seed.id, "one");
}

#[test]
fn expansion_body_that_is_not_json_is_a_parse_error() {
    assert_eq!(
        parse_expansion_body("mumble").map(|_| ()),
        Err(WorkerError::Parse)
    );
}

#[test]
fn expansion_body_missing_content_is_a_shape_error() {
    for body in [
        "{}",
        "{\"choices\":[]}",
        "{\"choices\":[{}]}",
        "{\"choices\":[{\"message\":{}}]}",
        "{\"choices\":[{\"message\":{\"content\":null}}]}",
        "{\"choices\":[{\"message\":{\"content\":7}}]}",
    ] {
        assert_eq!(
            parse_expansion_body(body).map(|_| ()),
            Err(WorkerError::ResponseShape),
            "body: {}",
            body
        );
    }
}

#[test]
fn expansion_content_that_is_not_json_is_a_parse_error() {
    let body = "{\"choices\":[{\"message\":{\"content\":\"not json\"}}]}";
    assert_eq!(parse_expansion_body(body).map(|_| ()), Err(WorkerError::Parse));
}

#[test]
fn expansion_content_comes_back_exactly_as_sent() {
    let body = "{\"choices\":[{\"message\":{\"content\":\"{\\\"a\\\": [1, 2]}\"}}]}";
    let content = parse_expansion_body(body).unwrap();
    assert_eq!(content, "{\"a\": [1, 2]}");
}

#[test]
fn first_of_several_choices_is_read() {
    let body = "{\"choices\":[{\"message\":{\"content\":\"{}\"}},{\"message\":{\"content\":\"[]\"}}]}";
    assert_eq!(parse_expansion_body(body).unwrap(), "{}");
}
