use generator_sdk::identity::GeneratorMetadata;
use generator_sdk::pipeline::{file_contents, Action, Pipeline, Stage};
use generator_sdk::protocol::{
    classify_method, encode_reply, id_to_json, manifest_json_from, reply_from_parts, reply_to,
    Method, ReplyError, Request, RequestId,
};
use generator_sdk::json::{json_integer, json_string};
use generator_sdk::session::{Session, SessionState};
use serde_json::Value;

fn demo() -> GeneratorMetadata {
    GeneratorMetadata::new("demo", "./gen/demo.ts")
}

fn int_id(n: i64) -> RequestId {
    RequestId::Int(n)
}

fn request(method: &str, id: RequestId) -> Request {
    Request { method: method.to_string(), id, params: Value::Null }
}

#[test]
fn metadata_keeps_identity() {
    let g = demo();
    assert_eq!(g.name, "demo");
    assert_eq!(g.default_output, "./gen/demo.ts");
    let m = g.manifest();
    assert_eq!(m.pretty_name, "demo");
    assert_eq!(m.default_output, "./gen/demo.ts");
}

#[test]
fn methods_are_classified() {
    assert_eq!(classify_method("getManifest"), Method::GetManifest);
    assert_eq!(classify_method("generate"), Method::Generate);
    assert_eq!(classify_method("getmanifest"), Method::Unknown);
    assert_eq!(classify_method(""), Method::Unknown);
    assert_eq!(classify_method("generate "), Method::Unknown);
}

#[test]
fn reply_envelope_is_framed() {
    assert_eq!(encode_reply("7", "null"), "{\"jsonrpc\":\"2.0\",\"id\":7,\"result\":null}\n");
    assert_eq!(
        manifest_json_from("\"o\"", "\"n\""),
        "{\"defaultOutput\":\"o\",\"prettyName\":\"n\"}"
    );
}

#[test]
fn manifest_reply_scenario() {
    let r = reply_to(&demo(), &request("getManifest", int_id(1))).unwrap();
    assert_eq!(
        r,
        "{\"jsonrpc\":\"2.0\",\"id\":1,\"result\":{\"defaultOutput\":\"./gen/demo.ts\",\"prettyName\":\"demo\"}}\n"
    );
}

#[test]
fn manifest_reply_echoes_any_id() {
    let r = reply_to(&demo(), &request("getManifest", RequestId::Text("req-9".to_string()))).unwrap();
    assert_eq!(
        r,
        "{\"jsonrpc\":\"2.0\",\"id\":\"req-9\",\"result\":{\"defaultOutput\":\"./gen/demo.ts\",\"prettyName\":\"demo\"}}\n"
    );
    let r = reply_to(&demo(), &request("getManifest", int_id(4096))).unwrap();
    assert!(r.starts_with("{\"jsonrpc\":\"2.0\",\"id\":4096,\"result\":"));
}

#[test]
fn manifest_strings_are_escaped() {
    let g = GeneratorMetadata::new("de\"mo", "a\\b");
    let r = reply_to(&g, &request("getManifest", int_id(2))).unwrap();
    assert_eq!(
        r,
        "{\"jsonrpc\":\"2.0\",\"id\":2,\"result\":{\"defaultOutput\":\"a\\\\b\",\"prettyName\":\"de\\\"mo\"}}\n"
    );
}

#[test]
fn generate_reply_is_null() {
    let r = reply_to(&demo(), &request("generate", int_id(3))).unwrap();
    assert_eq!(r, "{\"jsonrpc\":\"2.0\",\"id\":3,\"result\":null}\n");
    assert_eq!(
        reply_from_parts("generate", "3", "x", "y").unwrap(),
        "{\"jsonrpc\":\"2.0\",\"id\":3,\"result\":null}\n"
    );
}

#[test]
fn unknown_method_gets_no_reply() {
    let r = reply_to(&demo(), &request("shutdown", int_id(1)));
    assert!(matches!(r, Err(ReplyError::UnknownMethod)));
    assert!(reply_from_parts("shutdown", "1", "x", "y").is_none());
}

#[test]
fn session_stays_open_after_manifest() {
    let g = demo();
    let mut s = Session::new();
    assert!(s.awaiting_request());
    let req = request("getManifest", int_id(1));
    assert_eq!(s.dispatch(&req), Method::GetManifest);
    assert!(s.complete(&g, &req).is_ok());
    assert_eq!(s.state, SessionState::AwaitingRequest);
    assert!(s.awaiting_request());
}

#[test]
fn session_ends_after_one_generation() {
    let g = demo();
    let mut s = Session::new();
    assert!(s.complete(&g, &request("getManifest", int_id(1))).is_ok());
    let req = request("generate", int_id(2));
    assert_eq!(s.dispatch(&req), Method::Generate);
    assert!(s.complete(&g, &req).is_ok());
    assert_eq!(s.state, SessionState::Terminated);
    assert!(!s.awaiting_request());
}

#[test]
fn session_ends_on_unknown_method() {
    let mut s = Session::new();
    let r = s.complete(&demo(), &request("bogus", int_id(1)));
    assert!(matches!(r, Err(ReplyError::UnknownMethod)));
    assert!(!s.awaiting_request());
}

#[test]
fn header_precedes_emitted_text() {
    assert_eq!(
        file_contents("demo", "export const x = 1;\n"),
        "// Code generated by demo. DO NOT EDIT\n\nexport const x = 1;\n"
    );
    assert_eq!(file_contents("", ""), "// Code generated by . DO NOT EDIT\n\n");
}

#[test]
fn pipeline_runs_steps_in_order() {
    let mut p = Pipeline::new(&demo());
    let expected = [
        Action::DecodeManifest,
        Action::CompileSchema,
        Action::CreateOutputDirs,
        Action::CreateFile,
        Action::ValidateNames,
    ];
    for a in expected {
        assert_eq!(p.next_action(), a);
        p.advance(true);
    }
    assert_eq!(p.next_action(), Action::Emit);
    p.record_emitted("body".to_string());
    assert_eq!(p.next_action(), Action::WriteFile);
    assert_eq!(p.file_text(), "// Code generated by demo. DO NOT EDIT\n\nbody");
    p.advance(true);
    assert_eq!(p.next_action(), Action::Format);
    assert!(p.progress.written && p.progress.names_validated && p.progress.dirs_ready);
    p.advance(false);
    assert_eq!(p.next_action(), Action::Finish);
    assert_eq!(p.progress.stage, Stage::Done);
}

#[test]
fn bad_manifest_creates_no_file() {
    let mut p = Pipeline::new(&demo());
    p.advance(false);
    assert_eq!(p.next_action(), Action::Abort { discard_file: false });
    assert!(!p.progress.file_created);
    p.advance(true);
    assert_eq!(p.progress.stage, Stage::Failed);
}

#[test]
fn failed_name_check_discards_file() {
    let mut p = Pipeline::new(&demo());
    for _ in 0..4 {
        p.advance(true);
    }
    assert_eq!(p.next_action(), Action::ValidateNames);
    p.advance(false);
    assert_eq!(p.next_action(), Action::Abort { discard_file: true });
    assert!(!p.progress.written);
}

#[test]
fn failed_compile_leaves_no_directories() {
    let mut p = Pipeline::new(&demo());
    p.advance(true);
    p.advance(false);
    assert_eq!(p.next_action(), Action::Abort { discard_file: false });
    assert!(!p.progress.dirs_ready);
}

#[test]
fn json_literals_follow_serde_json() {
    assert_eq!(json_string("plain"), "\"plain\"");
    assert_eq!(json_string(""), "\"\"");
    assert_eq!(json_string("a\"b\\c"), "\"a\\\"b\\\\c\"");
    assert_eq!(json_string("\n\t\r\u{8}\u{c}"), "\"\\n\\t\\r\\b\\f\"");
    assert_eq!(json_string("\u{1}\u{1f}"), "\"\\u0001\\u001f\"");
    assert_eq!(json_string("é\u{7f}"), "\"é\u{7f}\"");
    assert_eq!(json_integer(0), "0");
    assert_eq!(json_integer(-42), "-42");
    assert_eq!(json_integer(i64::MIN), "-9223372036854775808");
    assert_eq!(json_integer(i64::MAX), "9223372036854775807");
}

#[test]
fn request_ids_are_echoed_as_json() {
    assert_eq!(id_to_json(&RequestId::Int(17)), "17");
    assert_eq!(id_to_json(&RequestId::Text("a\"b".to_string())), "\"a\\\"b\"");
    let r = reply_to(&demo(), &request("generate", RequestId::Int(-3))).unwrap();
    assert_eq!(r, "{\"jsonrpc\":\"2.0\",\"id\":-3,\"result\":null}\n");
    let r = reply_to(&demo(), &request("generate", RequestId::Text("7".to_string()))).unwrap();
    assert_eq!(r, "{\"jsonrpc\":\"2.0\",\"id\":\"7\",\"result\":null}\n");
}
