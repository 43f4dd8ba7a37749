use jinn_domain::json::{Json, JsonNumber};
use jinn_domain::rewrite::{
    metadata_document, metadata_profile, profile_model_document, profile_strategy_document,
    rewrite_metadata_blob_model, rewrite_profile_model, rewrite_profile_strategy, rewrite_strategy_state,
    strategy_state_document,
};

fn parse(s: &str) -> serde_json::Value {
    serde_json::from_str(s).expect("json")
}

#[test]
fn migrate_v10_consolidates_strategy_state() {
    let state = rewrite_strategy_state(
        r#"{"passthrough": "Passthrough", "compaction": {"compaction": {"compaction_count": 2}}}"#,
    );
    assert_eq!(state, r#"{"compaction":{"compaction":{"compaction_count":2}}}"#);
    let profile = rewrite_profile_strategy(
        r#"{"strategy": "sliding_window", "model": "test", "persona_name": "coding-assistant", "token_budget": 150000, "sliding_window_size": 5}"#,
    );
    let p = parse(&profile);
    assert_eq!(p["strategy"], "compaction");
    assert_eq!(p["token_budget"], 150000);
    assert_eq!(p["model"], "test");
}

#[test]
fn migrate_v10_inserts_default_when_no_compaction_key() {
    let state = rewrite_strategy_state(r#"{"passthrough": "Passthrough"}"#);
    assert_eq!(state, r#"{"compaction":{"compaction":{"compaction_count":0}}}"#);
}

#[test]
fn strategy_rewrites_leave_non_objects_alone() {
    assert_eq!(rewrite_strategy_state("not json"), "not json");
    assert_eq!(rewrite_strategy_state("[1,2]"), "[1,2]");
    assert_eq!(rewrite_profile_strategy("\"text\""), "\"text\"");
}

#[test]
fn profile_strategy_is_added_when_missing() {
    let p = parse(&rewrite_profile_strategy(r#"{"model":"m"}"#));
    assert_eq!(p["strategy"], "compaction");
    assert_eq!(p["model"], "m");
}

#[test]
fn migrate_v17_rewrites_bare_string_model_to_single() {
    let out = rewrite_profile_model(
        r#"{"strategy": "sliding_window", "model": "ollama/llama3", "persona_name": "coding-assistant", "token_budget": 150000, "sliding_window_size": 5}"#,
    );
    let p = parse(&out);
    assert_eq!(p["model"], parse(r#"{"single": "ollama/llama3"}"#));
    assert_eq!(p["strategy"], "sliding_window");
    assert_eq!(p["persona_name"], "coding-assistant");
}

#[test]
fn migrate_v17_handles_no_provider_id() {
    let p = parse(&rewrite_profile_model(r#"{"strategy": "sliding_window", "model": "<none>", "persona_name": "coding-assistant"}"#));
    assert_eq!(p["model"], parse(r#"{"single": "<none>"}"#));
}

#[test]
fn migrate_v17_is_idempotent() {
    let once = rewrite_profile_model(r#"{"strategy": "sliding_window", "model": "ollama/llama3"}"#);
    let twice = rewrite_profile_model(&once);
    assert_eq!(once, twice);
    assert_eq!(parse(&twice)["model"], parse(r#"{"single": "ollama/llama3"}"#));
}

#[test]
fn profile_without_model_is_returned_verbatim() {
    let raw = r#"{ "strategy" : "x" }"#;
    assert_eq!(rewrite_profile_model(raw), raw);
    assert_eq!(rewrite_profile_model("garbage"), "garbage");
}

#[test]
fn migrate_v19_rewrites_bare_string_model_in_blob() {
    let out = rewrite_metadata_blob_model(r#"{"title": "t", "profile": {"model": "openai/gpt-4o", "persona_name": "p"}}"#);
    let v = parse(&out);
    assert_eq!(v["profile"]["model"], parse(r#"{"single": "openai/gpt-4o"}"#));
    assert_eq!(v["profile"]["persona_name"], "p");
    assert_eq!(v["title"], "t");
}

#[test]
fn migrate_v19_leaves_already_object_model_unchanged() {
    let out = rewrite_metadata_blob_model(r#"{"profile": {"model": {"alloy": "duo"}}}"#);
    assert_eq!(parse(&out)["profile"]["model"], parse(r#"{"alloy": "duo"}"#));
}

#[test]
fn migrate_v19_leaves_blob_without_profile_unchanged() {
    let raw = r#"{"title": "t"}"#;
    assert_eq!(rewrite_metadata_blob_model(raw), raw);
    let raw2 = r#"{"profile": "flat"}"#;
    assert_eq!(rewrite_metadata_blob_model(raw2), raw2);
}

#[test]
fn numbers_survive_a_rewrite() {
    let p = parse(&rewrite_profile_strategy(r#"{"a": 1.5, "b": -3, "c": [true, null, 2e3]}"#));
    assert_eq!(p["a"], 1.5);
    assert_eq!(p["b"], -3);
    assert_eq!(p["c"], parse("[true, null, 2000.0]"));
}

fn text(s: &str) -> Json {
    Json::Text(s.to_owned())
}

fn object(members: Vec<(&str, Json)>) -> Json {
    Json::Object(members.into_iter().map(|(k, v)| (k.to_owned(), v)).collect())
}

fn members(j: Json) -> Vec<(String, Json)> {
    match j {
        Json::Object(m) => m,
        _ => panic!("not an object"),
    }
}

fn show(j: &Json) -> String {
    match j {
        Json::Null => "null".to_owned(),
        Json::Bool(b) => b.to_string(),
        Json::Number(n) => n.text().to_owned(),
        Json::Text(s) => format!("{:?}", s),
        Json::Array(a) => format!("[{}]", a.iter().map(show).collect::<Vec<_>>().join(",")),
        Json::Object(m) => format!(
            "{{{}}}",
            m.iter().map(|(k, v)| format!("{:?}:{}", k, show(v))).collect::<Vec<_>>().join(",")
        ),
    }
}

#[test]
fn strategy_state_document_keeps_only_compaction() {
    let m = members(object(vec![("passthrough", text("P")), ("compaction", object(vec![("n", Json::Number(JsonNumber::from_u64(2)))]))]));
    assert_eq!(show(&strategy_state_document(m)), r#"{"compaction":{"n":2}}"#);
    let m = members(object(vec![("passthrough", text("P"))]));
    assert_eq!(show(&strategy_state_document(m)), r#"{"compaction":{"compaction":{"compaction_count":0}}}"#);
}

#[test]
fn profile_strategy_document_sets_the_strategy_in_place() {
    let m = members(object(vec![("model", text("m")), ("strategy", text("sliding_window")), ("x", Json::Null)]));
    assert_eq!(show(&profile_strategy_document(m)), r#"{"model":"m","strategy":"compaction","x":null}"#);
    let m = members(object(vec![("model", text("m"))]));
    assert_eq!(show(&profile_strategy_document(m)), r#"{"model":"m","strategy":"compaction"}"#);
}

#[test]
fn profile_model_document_wraps_a_bare_model() {
    let m = members(object(vec![("model", text("ollama/llama3")), ("persona_name", text("p"))]));
    let d = profile_model_document(m).expect("document");
    assert_eq!(show(&d), r#"{"model":{"single":"ollama/llama3"},"persona_name":"p"}"#);
    let m = members(object(vec![("model", object(vec![("alloy", text("duo"))]))]));
    assert_eq!(show(&profile_model_document(m).expect("document")), r#"{"model":{"alloy":"duo"}}"#);
    let m = members(object(vec![("strategy", text("x"))]));
    assert!(profile_model_document(m).is_none());
}

#[test]
fn metadata_profile_is_found_only_when_an_object() {
    let root = members(object(vec![("title", text("t")), ("profile", object(vec![("model", text("m"))]))]));
    assert_eq!(show(metadata_profile(&root).expect("profile")), r#"{"model":"m"}"#);
    let root = members(object(vec![("profile", text("flat"))]));
    assert!(metadata_profile(&root).is_none());
    let root = members(object(vec![("title", text("t"))]));
    assert!(metadata_profile(&root).is_none());
}

#[test]
fn metadata_document_replaces_the_profile() {
    let root = members(object(vec![("profile", text("old")), ("title", text("t"))]));
    let d = metadata_document(root, object(vec![("model", Json::Bool(true))]));
    assert_eq!(show(&d), r#"{"profile":{"model":true},"title":"t"}"#);
}

#[test]
fn json_number_from_u64_is_decimal() {
    assert_eq!(JsonNumber::from_u64(0).text(), "0");
    assert_eq!(JsonNumber::from_u64(18446744073709551615).text(), "18446744073709551615");
}

#[test]
fn metadata_rewrite_is_idempotent() {
    let raw = r#"{"title": "t", "profile": {"model": "openai/gpt-4o", "persona_name": "p"}, "n": 3}"#;
    let once = rewrite_metadata_blob_model(raw);
    let twice = rewrite_metadata_blob_model(&once);
    assert_eq!(once, twice);
    let mut expected = parse(raw);
    expected["profile"]["model"] = parse(r#"{"single": "openai/gpt-4o"}"#);
    assert_eq!(parse(&once), expected);
}
