use fiche::llm::groq::{
    accepts, article_summary_exchange, article_summary_schema, build_request,
    first_choice_content, step, tool_summary_exchange, tool_summary_schema, ExchangeAction,
    ExchangeEvent, ExchangeStage, GroqCompletionsChoice, GroqCompletionsResponse, GroqMessage,
    GroqRole, PropertyKind, ARTICLE_SUMMARY_PROMPT, GROQ_MODEL, TOOL_SUMMARY_PROMPT,
};
use fiche::llm::{ArticleSummary, LlmError};

fn response(contents: Vec<Option<&str>>) -> GroqCompletionsResponse {
    GroqCompletionsResponse {
        choices: contents
            .into_iter()
            .map(|c| GroqCompletionsChoice {
                message: GroqMessage {
                    role: GroqRole::Assistant,
                    content: c.map(|s| s.to_string()),
                },
            })
            .collect(),
    }
}

#[test]
fn requests_ask_for_strict_json() {
    let r = build_request("sys", "user text", "my_schema", tool_summary_schema());
    assert_eq!(r.model, "openai/gpt-oss-120b");
    assert_eq!(r.model, GROQ_MODEL);
    assert!(!r.stream);
    assert_eq!(r.messages.len(), 2);
    assert_eq!(r.messages[0].role, GroqRole::System);
    assert_eq!(r.messages[0].content.as_deref(), Some("sys"));
    assert_eq!(r.messages[1].role, GroqRole::User);
    assert_eq!(r.messages[1].content.as_deref(), Some("user text"));
    assert_eq!(r.response_format.response_type, "json_schema");
    assert_eq!(r.response_format.json_schema.name, "my_schema");
    assert_eq!(r.response_format.json_schema.strict, Some(true));
    let s = r.response_format.json_schema.schema.unwrap();
    assert_eq!(s.properties.len(), 1);
    assert_eq!(s.properties[0].name, "summary");
    assert_eq!(s.properties[0].kind, PropertyKind::Text);
}

#[test]
fn article_schema_has_summary_and_tags() {
    let s = article_summary_schema();
    assert_eq!(s.properties[0].name, "summary");
    assert_eq!(s.properties[1].name, "tags");
    assert_eq!(s.properties[1].kind, PropertyKind::TextList);
    assert_eq!(s.required, vec!["summary".to_string(), "tags".to_string()]);
    assert!(!s.additional_properties);
}

#[test]
fn summary_exchanges_start_by_sending() {
    let (stage, action) = article_summary_exchange::<ArticleSummary>("page");
    assert_eq!(stage, ExchangeStage::AwaitingResponse);
    match action {
        ExchangeAction::Send(r) => {
            assert_eq!(r.messages[0].content.as_deref(), Some(ARTICLE_SUMMARY_PROMPT));
            assert_eq!(r.messages[1].content.as_deref(), Some("page"));
            assert_eq!(r.response_format.json_schema.name, "article_summary");
        }
        other => panic!("unexpected {:?}", other),
    }
    match tool_summary_exchange::<()>("tool page").1 {
        ExchangeAction::Send(r) => {
            assert_eq!(r.messages[0].content.as_deref(), Some(TOOL_SUMMARY_PROMPT));
            assert_eq!(r.response_format.json_schema.name, "tool_summary");
        }
        other => panic!("unexpected {:?}", other),
    }
}

#[test]
fn first_choice_only() {
    assert_eq!(first_choice_content(response(vec![Some("a"), Some("b")])), Some("a".to_string()));
    assert_eq!(first_choice_content(response(vec![None, Some("b")])), None);
    assert_eq!(first_choice_content(response(vec![])), None);
}

#[test]
fn failed_send_is_an_http_error() {
    let (s, a) = step::<u32>(ExchangeStage::AwaitingResponse, ExchangeEvent::SendFailed("timeout".to_string()));
    assert_eq!(s, ExchangeStage::Finished);
    match a {
        ExchangeAction::Finish(Err(LlmError::HttpRequest(m))) => assert_eq!(m, "timeout"),
        other => panic!("unexpected {:?}", other),
    }
}

#[test]
fn refusal_is_an_api_error_with_its_text() {
    let (s, a) = step::<u32>(ExchangeStage::AwaitingResponse, ExchangeEvent::Responded { success: false });
    assert_eq!(s, ExchangeStage::AwaitingErrorBody);
    assert!(matches!(a, ExchangeAction::ReadErrorBody));
    let (s, a) = step::<u32>(s, ExchangeEvent::ErrorBodyRead(Some("rate limited".to_string())));
    assert_eq!(s, ExchangeStage::Finished);
    match a {
        ExchangeAction::Finish(Err(LlmError::Api(m))) => assert_eq!(m, "rate limited"),
        other => panic!("unexpected {:?}", other),
    }
    let (_, a) = step::<u32>(ExchangeStage::AwaitingErrorBody, ExchangeEvent::ErrorBodyRead(None));
    match a {
        ExchangeAction::Finish(Err(LlmError::Api(m))) => assert_eq!(m, ""),
        other => panic!("unexpected {:?}", other),
    }
}

#[test]
fn successful_exchange_decodes_first_content() {
    let (s, a) = step::<u32>(ExchangeStage::AwaitingResponse, ExchangeEvent::Responded { success: true });
    assert_eq!(s, ExchangeStage::AwaitingBody);
    assert!(matches!(a, ExchangeAction::DecodeBody));
    let (s, a) = step::<u32>(s, ExchangeEvent::BodyDecoded(Ok(response(vec![Some("42"), Some("7")]))));
    assert_eq!(s, ExchangeStage::AwaitingContent);
    match a {
        ExchangeAction::DecodeContent(c) => assert_eq!(c, "42"),
        other => panic!("unexpected {:?}", other),
    }
    let (s, a) = step::<u32>(s, ExchangeEvent::ContentDecoded(Ok(42)));
    assert_eq!(s, ExchangeStage::Finished);
    assert!(matches!(a, ExchangeAction::Finish(Ok(42))));
}

#[test]
fn missing_content_is_an_api_error() {
    let (s, a) = step::<u32>(ExchangeStage::AwaitingBody, ExchangeEvent::BodyDecoded(Ok(response(vec![]))));
    assert_eq!(s, ExchangeStage::Finished);
    match a {
        ExchangeAction::Finish(Err(LlmError::Api(m))) => assert_eq!(m, "No response content returned"),
        other => panic!("unexpected {:?}", other),
    }
    let (_, a) = step::<u32>(ExchangeStage::AwaitingBody, ExchangeEvent::BodyDecoded(Ok(response(vec![None, Some("x")]))));
    assert!(matches!(a, ExchangeAction::Finish(Err(LlmError::Api(_)))));
}

#[test]
fn undecodable_answers_are_parse_errors() {
    let (_, a) = step::<u32>(ExchangeStage::AwaitingBody, ExchangeEvent::BodyDecoded(Err("bad json".to_string())));
    match a {
        ExchangeAction::Finish(Err(LlmError::ResponseParse(m))) => assert_eq!(m, "bad json"),
        other => panic!("unexpected {:?}", other),
    }
    let (_, a) = step::<u32>(ExchangeStage::AwaitingContent, ExchangeEvent::ContentDecoded(Err("no field".to_string())));
    match a {
        ExchangeAction::Finish(Err(LlmError::ResponseParse(m))) => assert_eq!(m, "no field"),
        other => panic!("unexpected {:?}", other),
    }
}

#[test]
fn events_are_accepted_only_when_expected() {
    assert!(accepts::<u32>(ExchangeStage::AwaitingResponse, &ExchangeEvent::Responded { success: true }));
    assert!(!accepts::<u32>(ExchangeStage::AwaitingResponse, &ExchangeEvent::ErrorBodyRead(None)));
    assert!(accepts::<u32>(ExchangeStage::AwaitingContent, &ExchangeEvent::ContentDecoded(Ok(1))));
    assert!(!accepts::<u32>(ExchangeStage::Finished, &ExchangeEvent::SendFailed(String::new())));
}

#[test]
fn llm_error_messages() {
    assert_eq!(LlmError::HttpRequest("a".to_string()).message(), "HTTP request failed: a");
    assert_eq!(LlmError::ResponseParse("b".to_string()).message(), "Failed to parse response: b");
    assert_eq!(LlmError::Api("c".to_string()).message(), "API returned an error: c");
}
