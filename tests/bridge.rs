use model_bridge::catalog::{catalog_outcome, extract_catalog, NO_LISTS_MESSAGE};
use model_bridge::decode::{
    aggregate_fragments, decode_envelope, stream_lines, OperationResult, RawOutput,
    StreamFragment,
};
use model_bridge::greet;
use model_bridge::operations::{after_change, opening_request, ChangeStep, DaemonRequest};
use model_bridge::request::{
    curl_args, generate_body, name_body, BridgeConfig, HttpMethod, HttpRequest,
};
use model_bridge::text::{join_lines, split_lines};

fn raw(stdout: &[u8], stderr: &[u8], success: bool) -> RawOutput {
    RawOutput { stdout: stdout.to_vec(), stderr: stderr.to_vec(), success }
}

fn s(text: &str) -> String {
    text.to_string()
}

fn config() -> BridgeConfig {
    BridgeConfig { daemon_base_url: s("http://127.0.0.1:9000"), catalog_url: s("http://127.0.0.1:9001/library") }
}

// Decodes one streamed line the way the front end's glue does.
fn fragment(line: &str) -> Option<StreamFragment> {
    let value: serde_json::Value = serde_json::from_str(line).ok()?;
    let response = value.get("response")?.as_str()?.to_string();
    let done = match value.get("done") {
        None | Some(serde_json::Value::Null) => None,
        Some(v) => Some(v.as_bool()?),
    };
    Some(StreamFragment { response, done })
}

fn generate_from(stdout: &str) -> Result<String, String> {
    let lines = stream_lines(raw(stdout.as_bytes(), b"", true))?;
    let frags: Vec<Option<StreamFragment>> = lines.iter().map(|l| fragment(l)).collect();
    Ok(aggregate_fragments(&frags))
}

fn assert_failure(r: &OperationResult, error: &str) {
    assert!(!r.success);
    assert_eq!(r.data, None);
    assert_eq!(r.error.as_deref(), Some(error));
}

fn assert_success(r: &OperationResult, data: &str) {
    assert!(r.success);
    assert_eq!(r.data.as_deref(), Some(data));
    assert_eq!(r.error, None);
}

#[test]
fn greet_formats_name() {
    assert_eq!(greet("Ada"), "Hello, Ada!");
}

#[test]
fn local_config_addresses() {
    let c = BridgeConfig::local();
    assert_eq!(c.daemon_base_url, "http://localhost:11434");
    assert_eq!(c.catalog_url, "https://ollama.com/library");
}

#[test]
fn generate_body_template() {
    assert_eq!(generate_body("llama3", "Why?"), r#"{ "model": "llama3", "prompt": "Why?" }"#);
    assert_eq!(name_body("llama3"), r#"{ "name": "llama3" }"#);
}

#[test]
fn quote_in_value_is_not_escaped() {
    assert_eq!(
        generate_body("m", "say \"hi\""),
        "{ \"model\": \"m\", \"prompt\": \"say \"hi\"\" }"
    );
    assert_eq!(name_body("a\"b\\c"), "{ \"name\": \"a\"b\\c\" }");
}

#[test]
fn list_request_is_plain_get() {
    let req = opening_request(&config(), &DaemonRequest::ListModels);
    assert_eq!(req.method, HttpMethod::Get);
    assert_eq!(req.url, "http://127.0.0.1:9000/api/tags");
    assert_eq!(req.body, None);
    assert_eq!(curl_args(&req), vec![s("http://127.0.0.1:9000/api/tags")]);
}

#[test]
fn generate_request_arguments() {
    let req = opening_request(&config(), &DaemonRequest::Generate { model: s("m"), prompt: s("p") });
    assert_eq!(
        curl_args(&req),
        vec![
            s("-X"),
            s("POST"),
            s("http://127.0.0.1:9000/api/generate"),
            s("-d"),
            s(r#"{ "model": "m", "prompt": "p" }"#),
        ]
    );
}

#[test]
fn pull_and_delete_request_arguments() {
    let pull = opening_request(&config(), &DaemonRequest::Pull { name: s("phi") });
    assert_eq!(pull.method, HttpMethod::Post);
    assert_eq!(
        curl_args(&pull),
        vec![s("-X"), s("POST"), s("http://127.0.0.1:9000/api/pull"), s("-d"), s(r#"{ "name": "phi" }"#)]
    );
    let delete = opening_request(&config(), &DaemonRequest::Delete { name: s("phi") });
    assert_eq!(delete.method, HttpMethod::Delete);
    assert_eq!(
        curl_args(&delete),
        vec![s("-X"), s("DELETE"), s("http://127.0.0.1:9000/api/delete"), s("-d"), s(r#"{ "name": "phi" }"#)]
    );
}

#[test]
fn get_with_body_names_method() {
    let req = HttpRequest { method: HttpMethod::Get, url: s("u"), body: Some(s("b")) };
    assert_eq!(curl_args(&req), vec![s("-X"), s("GET"), s("u"), s("-d"), s("b")]);
}

#[test]
fn split_lines_like_std() {
    for text in ["", "a", "a\n", "a\nb", "a\r\nb\r\n", "a\n\nb", "a\r", "\n", "\r\n\r\n", "x\ry\nz"] {
        let expected: Vec<String> = text.lines().map(|l| l.to_string()).collect();
        assert_eq!(split_lines(text), expected, "text {:?}", text);
    }
    assert_eq!(split_lines("héllo\nwörld"), vec![s("héllo"), s("wörld")]);
}

#[test]
fn join_lines_with_newlines() {
    assert_eq!(join_lines(&vec![]), "");
    assert_eq!(join_lines(&vec![s("a")]), "a");
    assert_eq!(join_lines(&vec![s("a"), s(""), s("c")]), "a\n\nc");
}

#[test]
fn stream_concatenates_responses_in_order() {
    let out = "{\"response\":\"The \",\"done\":false}\n{\"response\":\"sky \",\"done\":false}\n{\"response\":\"is blue\",\"done\":true}\n";
    assert_eq!(generate_from(out), Ok(s("The sky is blue")));
}

#[test]
fn stream_keeps_lines_after_done() {
    let out = "{\"response\":\"a\",\"done\":true}\n{\"response\":\"b\"}\n{\"response\":\"c\",\"done\":false}";
    assert_eq!(generate_from(out), Ok(s("abc")));
}

#[test]
fn stream_skips_garbage_line() {
    let out = "{\"response\":\"Hel\"}\ngarbage\n{\"response\":\"lo\"}";
    assert_eq!(generate_from(out), Ok(s("Hello")));
}

#[test]
fn stream_of_nothing_is_empty_text() {
    assert_eq!(generate_from(""), Ok(s("")));
}

#[test]
fn aggregate_ignores_missing_fragments() {
    let frags = vec![
        None,
        Some(StreamFragment { response: s("x"), done: Some(true) }),
        None,
        Some(StreamFragment { response: s("y"), done: None }),
    ];
    assert_eq!(aggregate_fragments(&frags), "xy");
}

#[test]
fn stream_failure_quotes_stderr() {
    let r = stream_lines(raw(b"{\"response\":\"out\"}", b"connection refused", false));
    assert_eq!(r, Err(s("Command executed with failing error code: connection refused")));
}

#[test]
fn stream_invalid_utf8_is_error() {
    let r = stream_lines(raw(&[0x66, 0xff, 0x0a], b"", true));
    assert_eq!(r, Err(s("Failed to parse output: invalid utf-8 sequence of 1 bytes from index 1")));
}

#[test]
fn envelope_passes_text_through() {
    let listing = "{\"models\":[{\"name\":\"llama3\"}]}";
    assert_success(&decode_envelope(raw(listing.as_bytes(), b"warn", true)), listing);
    assert_success(&decode_envelope(raw(b"not json at all", b"", true)), "not json at all");
}

#[test]
fn envelope_exit_failure_uses_stderr_only() {
    let r = decode_envelope(raw(b"stdout text", b"curl: (7) Failed to connect", false));
    assert_failure(&r, "Command executed with failing error code: curl: (7) Failed to connect");
    assert!(!r.error.unwrap().contains("stdout text"));
}

#[test]
fn envelope_exit_failure_lossy_stderr() {
    let r = decode_envelope(raw(b"", &[b'e', 0xff, b'!'], false));
    assert_failure(&r, "Command executed with failing error code: e\u{FFFD}!");
}

#[test]
fn envelope_invalid_utf8() {
    let r = decode_envelope(raw(&[0xc3], b"", true));
    assert_failure(&r, "Failed to parse output: incomplete utf-8 byte sequence from index 0");
}

#[test]
fn pull_and_delete_relist_on_success() {
    let c = config();
    for out in [&b"{\"status\":\"success\"}"[..], b""] {
        match after_change(&c, raw(out, b"", true)) {
            ChangeStep::Relist(req) => {
                let listing = opening_request(&c, &DaemonRequest::ListModels);
                assert_eq!(req.method, listing.method);
                assert_eq!(req.url, listing.url);
                assert_eq!(req.body, listing.body);
            },
            ChangeStep::Fail(e) => panic!("unexpected failure {}", e),
        }
    }
    // Whatever the listing then returns is the result of both operations.
    let listed = decode_envelope(raw(b"{\"models\":[]}", b"", true));
    assert_success(&listed, "{\"models\":[]}");
}

#[test]
fn change_failure_is_error() {
    let c = config();
    match after_change(&c, raw(b"partial", b"no such model", false)) {
        ChangeStep::Fail(e) => assert_eq!(e, "Command executed with failing error code: no such model"),
        ChangeStep::Relist(_) => panic!("expected failure"),
    }
    match after_change(&c, raw(&[0xff], b"", true)) {
        ChangeStep::Fail(e) => assert_eq!(e, "Failed to parse output: invalid utf-8 sequence of 1 bytes from index 0"),
        ChangeStep::Relist(_) => panic!("expected failure"),
    }
}

#[test]
fn catalog_two_lists_joined() {
    let page = r#"<html><body><ul role="list">A</ul><p>x</p><ul role="list">B</ul></body></html>"#;
    let r = extract_catalog(page).unwrap();
    assert_success(&r, "<ul role=\"list\">A</ul>\n<ul role=\"list\">B</ul>");
}

#[test]
fn catalog_ignores_other_lists() {
    let page = r#"<ul>no</ul><ul role="menu">no</ul><ul role="list"><li>llama3</li></ul>"#;
    let r = extract_catalog(page).unwrap();
    assert_success(&r, "<ul role=\"list\"><li>llama3</li></ul>");
}

#[test]
fn catalog_nothing_found_is_failure() {
    let r = extract_catalog("<html><body><ul>x</ul></body></html>").unwrap();
    assert_failure(&r, NO_LISTS_MESSAGE);
    assert_eq!(NO_LISTS_MESSAGE, "No <ul role=\"list\"> elements found.");
}

#[test]
fn catalog_outcome_cases() {
    assert_eq!(catalog_outcome(None).err(), Some(s("Failed to parse selector")));
    assert_failure(&catalog_outcome(Some(vec![])).unwrap(), NO_LISTS_MESSAGE);
    assert_success(&catalog_outcome(Some(vec![s("a"), s("b")])).unwrap(), "a\nb");
}
