use chat_server::api_doc::ApiDoc;
use chat_server::chat::{
    answer_text, azure_api_version, azure_settings, chat_event_type, chat_request_plan,
    completion_payload, completion_stream_plan, custom_completion_payload, persist_plan,
    stream_step, vip_expire_notice, PersistPlan, StreamAction, StreamItem,
};
use chat_server::chat_error::ChatError;
use chat_server::requests::AskReq;

fn ask(prompt: &str, cid: Option<i64>) -> AskReq {
    AskReq { prompt: prompt.to_string(), cid }
}

#[test]
fn chat_request_asks_the_model_with_a_system_prompt() {
    let plan = chat_request_plan(&ask("Why is the sky blue?", Some(3)));
    assert_eq!(plan.model, "gpt-3.5-turbo");
    assert_eq!(plan.max_tokens, 512);
    assert_eq!(plan.system_prompt, "You are a helpful assistant.");
    assert_eq!(plan.user_prompt, "Why is the sky blue?");
}

#[test]
fn stream_request_streams_one_choice() {
    let plan = completion_stream_plan(&ask("hi", None));
    assert_eq!(plan.model, "gpt-3.5-turbo");
    assert_eq!(plan.n, 1);
    assert_eq!(plan.prompt, "hi");
    assert!(plan.stream);
    assert_eq!(plan.max_tokens, 512);
}

#[test]
fn azure_deployment_settings() {
    let s = azure_settings("https://x".to_string(), "dep".to_string(), "key".to_string());
    assert_eq!(s.api_base, "https://x");
    assert_eq!(s.api_version, "2023-03-15-preview");
    assert_eq!(azure_api_version(), "2023-03-15-preview");
    assert_eq!(s.deployment_id, "dep");
    assert_eq!(s.api_key, "key");
}

#[test]
fn answers_of_new_conversations_open_one() {
    assert_eq!(persist_plan(None), PersistPlan { open_new_conversation: true, record_in: None });
    assert_eq!(persist_plan(Some(0)), PersistPlan { open_new_conversation: true, record_in: Some(0) });
    assert_eq!(persist_plan(Some(12)), PersistPlan { open_new_conversation: false, record_in: Some(12) });
}

#[test]
fn answer_is_first_choice_content() {
    assert_eq!(answer_text(&vec![Some("a".to_string()), Some("b".to_string())]), "a");
    assert_eq!(answer_text(&vec![None, Some("b".to_string())]), "");
}

#[test]
fn stream_event_names() {
    assert_eq!(chat_event_type(), "chat");
    assert_eq!(vip_expire_notice(), "vip-expire");
    assert_eq!(ApiDoc::security_scheme_name(), "Token");
}

#[test]
fn completion_payload_is_a_one_choice_completion() {
    let payload = completion_payload(&"hello".to_string(), "abc123".to_string(), 5_000_000_000).unwrap();
    let v: serde_json::Value = serde_json::from_str(&payload).unwrap();
    assert_eq!(v["id"], "abc123");
    assert_eq!(v["created"], 705_032_704u64);
    assert_eq!(v["model"], "3.5-turbo");
    assert_eq!(v["object"], "");
    assert_eq!(v["choices"].as_array().unwrap().len(), 1);
    assert_eq!(v["choices"][0]["text"], "hello");
    assert_eq!(v["choices"][0]["index"], 0);
    assert_eq!(v["choices"][0]["finish_reason"], "stop");
    assert!(v["choices"][0].get("logprobs").is_none());
    assert!(v["system_fingerprint"].is_null());
    assert!(v["usage"].is_null());
}

#[test]
fn custom_payload_has_fresh_dashless_id() {
    let payload = custom_completion_payload(&"vip-expire".to_string(), 1_000).unwrap();
    let v: serde_json::Value = serde_json::from_str(&payload).unwrap();
    let id = v["id"].as_str().unwrap();
    assert_eq!(id.len(), 32);
    assert!(id.chars().all(|c| c.is_ascii_hexdigit() && !c.is_ascii_uppercase()));
    assert_eq!(v["created"], 1_000);
    assert_eq!(v["choices"][0]["text"], "vip-expire");
}

#[test]
fn chat_error_codes() {
    let e = ChatError::ExceedTheChatPerDayLimit;
    assert_eq!(e.error_code(), "0040010001");
    assert_eq!(e.error_message(), "超出每天次数限制");
    assert_eq!(e.error_code_en(), "EXCEED_THE_CHAT_PER_DAY_LIMIT");
}

#[test]
fn stream_replies_are_forwarded_skipped_or_end_the_chat() {
    assert_eq!(
        stream_step(StreamItem::Completion(Some("{\"id\":\"x\"}".to_string()))),
        StreamAction::Forward("{\"id\":\"x\"}".to_string())
    );
    assert_eq!(stream_step(StreamItem::Completion(None)), StreamAction::Stop);
    assert_eq!(stream_step(StreamItem::StreamError), StreamAction::Skip);
}
