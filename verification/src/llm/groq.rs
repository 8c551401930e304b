//! Structured completions from Groq's chat API: the request, and the exchange
//! that turns the service's answer into a decoded value or an error.
use vstd::prelude::*;

use super::{ArticleSummary, LlmError, ToolSummary};
use crate::text::{opt_view, owned};

verus! {

/// Endpoint of Groq's chat completions API.
pub const GROQ_API_URL: &'static str = "https://api.groq.com/openai/v1/chat/completions";

/// Model asked for every completion.
pub const GROQ_MODEL: &'static str = "openai/gpt-oss-120b";

/// Response format that makes the model answer with JSON of a given schema.
pub const GROQ_RESPONSE_FORMAT_JSON_SCHEMA: &'static str = "json_schema";

/// Instructions for summarizing an article.
pub const ARTICLE_SUMMARY_PROMPT: &'static str = "You are a helpful assistant that summarizes articles into structured JSON. Be pragmatic, brief and concise. Add keypoints if appropriated. Between 1 and 3 tags max. No spaces in tags.";

/// Instructions for summarizing a tool's presentation page.
pub const TOOL_SUMMARY_PROMPT: &'static str = "You are a helpful assistant that summarizes tool presentation page into structured JSON. Be pragmatic, brief and concise. Add keypoints if appropriated.";

/// Author of a chat message.
#[derive(Debug, Clone, Copy, PartialEq, Eq, Structural)]
pub enum GroqRole {
    System,
    User,
    Assistant,
}

/// A chat message.
#[derive(Debug)]
pub struct GroqMessage {
    pub role: GroqRole,
    pub content: Option<String>,
}

/// Type of a property of a JSON object schema.
#[derive(Debug, Clone, Copy, PartialEq, Eq, Structural)]
pub enum PropertyKind {
    /// `{"type": "string"}`
    Text,
    /// `{"type": "array", "items": {"type": "string"}}`
    TextList,
}

/// A property of a JSON object schema.
#[derive(Debug)]
pub struct SchemaProperty {
    pub name: String,
    pub kind: PropertyKind,
}

/// A JSON schema of type `object`.
#[derive(Debug)]
pub struct ObjectSchema {
    pub properties: Vec<SchemaProperty>,
    pub required: Vec<String>,
    pub additional_properties: bool,
}

/// A schema as plain values: properties (name and type), required names, and
/// whether other properties are allowed.
pub open spec fn schema_view(s: ObjectSchema) -> (Seq<(Seq<char>, PropertyKind)>, Seq<Seq<char>>, bool) {
    (
        s.properties@.map_values(|p: SchemaProperty| (p.name@, p.kind)),
        s.required@.map_values(|n: String| n@),
        s.additional_properties,
    )
}

/// The schema of an article summary: a text `summary` and a text list `tags`,
/// both required, nothing else.
pub open spec fn article_summary_schema_view() -> (Seq<(Seq<char>, PropertyKind)>, Seq<Seq<char>>, bool) {
    (
        seq![("summary"@, PropertyKind::Text), ("tags"@, PropertyKind::TextList)],
        seq!["summary"@, "tags"@],
        false,
    )
}

/// The schema of a tool summary: a required text `summary`, nothing else.
pub open spec fn tool_summary_schema_view() -> (Seq<(Seq<char>, PropertyKind)>, Seq<Seq<char>>, bool) {
    (seq![("summary"@, PropertyKind::Text)], seq!["summary"@], false)
}

/// The schema an article summary must follow.
pub fn article_summary_schema() -> (r: ObjectSchema)
    ensures
        schema_view(r) == article_summary_schema_view(),
{
    let r = ObjectSchema {
        properties: vec![
            SchemaProperty { name: owned("summary"), kind: PropertyKind::Text },
            SchemaProperty { name: owned("tags"), kind: PropertyKind::TextList },
        ],
        required: vec![owned("summary"), owned("tags")],
        additional_properties: false,
    };
    assert(schema_view(r).0 =~= article_summary_schema_view().0);
    assert(schema_view(r).1 =~= article_summary_schema_view().1);
    r
}

/// The schema a tool summary must follow.
pub fn tool_summary_schema() -> (r: ObjectSchema)
    ensures
        schema_view(r) == tool_summary_schema_view(),
{
    let r = ObjectSchema {
        properties: vec![SchemaProperty { name: owned("summary"), kind: PropertyKind::Text }],
        required: vec![owned("summary")],
        additional_properties: false,
    };
    assert(schema_view(r).0 =~= tool_summary_schema_view().0);
    assert(schema_view(r).1 =~= tool_summary_schema_view().1);
    r
}

/// The `json_schema` part of a response format.
#[derive(Debug)]
pub struct GroqRequestResponseFormatJsonSchema {
    pub name: String,
    pub schema: Option<ObjectSchema>,
    pub strict: Option<bool>,
}

/// The response format of a request.
#[derive(Debug)]
pub struct GroqRequestResponseFormat {
    /// Always `json_schema`.
    pub response_type: String,
    pub json_schema: GroqRequestResponseFormatJsonSchema,
}

/// A chat completion request.
#[derive(Debug)]
pub struct GroqCompletionsRequest {
    pub model: String,
    pub stream: bool,
    pub messages: Vec<GroqMessage>,
    pub response_format: GroqRequestResponseFormat,
}

/// One choice of a completion answer.
#[derive(Debug)]
pub struct GroqCompletionsChoice {
    pub message: GroqMessage,
}

/// A completion answer.
#[derive(Debug)]
pub struct GroqCompletionsResponse {
    pub choices: Vec<GroqCompletionsChoice>,
}

/// Whether `r` asks the model, in one non-streamed completion, to answer the
/// user message `user` under the system instructions `system`, with strict
/// JSON following the schema `schema` named `name`.
pub open spec fn is_structured_request(
    r: GroqCompletionsRequest,
    system: Seq<char>,
    user: Seq<char>,
    name: Seq<char>,
    schema: (Seq<(Seq<char>, PropertyKind)>, Seq<Seq<char>>, bool),
) -> bool {
    &&& r.model@ == GROQ_MODEL@
    &&& !r.stream
    &&& r.messages@.len() == 2
    &&& r.messages@[0].role == GroqRole::System
    &&& opt_view(r.messages@[0].content) == Some(system)
    &&& r.messages@[1].role == GroqRole::User
    &&& opt_view(r.messages@[1].content) == Some(user)
    &&& r.response_format.response_type@ == GROQ_RESPONSE_FORMAT_JSON_SCHEMA@
    &&& r.response_format.json_schema.name@ == name
    &&& r.response_format.json_schema.schema is Some
    &&& schema_view(r.response_format.json_schema.schema->Some_0) == schema
    &&& r.response_format.json_schema.strict == Some(true)
}

/// The request for a structured completion: the system instructions, the
/// user's content, and a strict JSON schema for the answer.
pub fn build_request(
    system_prompt: &str,
    user_content: &str,
    schema_name: &str,
    schema: ObjectSchema,
) -> (r: GroqCompletionsRequest)
    ensures
        is_structured_request(r, system_prompt@, user_content@, schema_name@, schema_view(schema)),
{
    GroqCompletionsRequest {
        model: owned(GROQ_MODEL),
        stream: false,
        messages: vec![
            GroqMessage { role: GroqRole::System, content: Some(owned(system_prompt)) },
            GroqMessage { role: GroqRole::User, content: Some(owned(user_content)) },
        ],
        response_format: GroqRequestResponseFormat {
            response_type: owned(GROQ_RESPONSE_FORMAT_JSON_SCHEMA),
            json_schema: GroqRequestResponseFormatJsonSchema {
                name: owned(schema_name),
                schema: Some(schema),
                strict: Some(true),
            },
        },
    }
}

/// The content of the first choice of an answer, if it has one.
pub open spec fn first_content(resp: GroqCompletionsResponse) -> Option<Seq<char>> {
    if resp.choices@.len() > 0 {
        opt_view(resp.choices@[0].message.content)
    } else {
        None
    }
}

/// The content of the first choice of an answer; later choices are not
/// looked at.
pub fn first_choice_content(resp: GroqCompletionsResponse) -> (r: Option<String>)
    ensures
        opt_view(r) == first_content(resp),
{
    let mut choices = resp.choices;
    if choices.len() == 0 {
        None
    } else {
        let first = choices.remove(0);
        first.message.content
    }
}

// ---------------------------------------------------------------------------
// The exchange with the service
// ---------------------------------------------------------------------------

/// Where an exchange stands.
#[derive(Debug, Clone, Copy, PartialEq, Eq, Structural)]
pub enum ExchangeStage {
    /// The request is being sent.
    AwaitingResponse,
    /// The service refused; its answer's text is being read.
    AwaitingErrorBody,
    /// The service accepted; its answer is being decoded.
    AwaitingBody,
    /// The first choice's content is being decoded into the result.
    AwaitingContent,
    /// The exchange is over.
    Finished,
}

/// What happened since the last action.
#[derive(Debug)]
pub enum ExchangeEvent<T> {
    /// The request could not be sent; the HTTP client's description.
    SendFailed(String),
    /// The service answered; whether its status means success.
    Responded { success: bool },
    /// The text of a refusal, or `None` when it could not be read.
    ErrorBodyRead(Option<String>),
    /// The decoded answer, or the decoder's description of its failure.
    BodyDecoded(Result<GroqCompletionsResponse, String>),
    /// The decoded content, or the decoder's description of its failure.
    ContentDecoded(Result<T, String>),
}

/// What to do next.
#[derive(Debug)]
pub enum ExchangeAction<T> {
    /// Send this request.
    Send(GroqCompletionsRequest),
    /// Read the text of the service's refusal.
    ReadErrorBody,
    /// Decode the service's answer.
    DecodeBody,
    /// Decode this text as the expected JSON value.
    DecodeContent(String),
    /// The exchange is over, with this outcome.
    Finish(Result<T, LlmError>),
}

/// How far along an exchange is; each step moves it further.
pub open spec fn stage_rank(s: ExchangeStage) -> int {
    match s {
        ExchangeStage::AwaitingResponse => 0,
        ExchangeStage::AwaitingErrorBody => 1,
        ExchangeStage::AwaitingBody => 1,
        ExchangeStage::AwaitingContent => 2,
        ExchangeStage::Finished => 3,
    }
}

/// Whether `event` can happen at `stage`.
pub open spec fn exchange_accepts<T>(stage: ExchangeStage, event: ExchangeEvent<T>) -> bool {
    match stage {
        ExchangeStage::AwaitingResponse => event is SendFailed || event is Responded,
        ExchangeStage::AwaitingErrorBody => event is ErrorBodyRead,
        ExchangeStage::AwaitingBody => event is BodyDecoded,
        ExchangeStage::AwaitingContent => event is ContentDecoded,
        ExchangeStage::Finished => false,
    }
}

/// Whether `event` can happen at `stage`.
pub fn accepts<T>(stage: ExchangeStage, event: &ExchangeEvent<T>) -> (r: bool)
    ensures
        r == exchange_accepts(stage, *event),
{
    match stage {
        ExchangeStage::AwaitingResponse => match event {
            ExchangeEvent::SendFailed(_) => true,
            ExchangeEvent::Responded { .. } => true,
            _ => false,
        },
        ExchangeStage::AwaitingErrorBody => match event {
            ExchangeEvent::ErrorBodyRead(_) => true,
            _ => false,
        },
        ExchangeStage::AwaitingBody => match event {
            ExchangeEvent::BodyDecoded(_) => true,
            _ => false,
        },
        ExchangeStage::AwaitingContent => match event {
            ExchangeEvent::ContentDecoded(_) => true,
            _ => false,
        },
        ExchangeStage::Finished => false,
    }
}


/// Law: each stage accepts the answer to the action that led to it, and
/// nothing else. While awaiting the response, a failed send or a response;
/// while awaiting a refusal's text, that text (not a decoded answer); while
/// awaiting the answer, the decoded answer (not a refusal's text); while
/// awaiting the content, the decoded content; once finished, nothing.
pub proof fn lemma_exchange_stage_answers<T>(e: ExchangeEvent<T>)
    ensures
        exchange_accepts(ExchangeStage::AwaitingResponse, e) <==> (e is SendFailed || e is Responded),
        exchange_accepts(ExchangeStage::AwaitingErrorBody, e) <==> e is ErrorBodyRead,
        exchange_accepts(ExchangeStage::AwaitingBody, e) <==> e is BodyDecoded,
        exchange_accepts(ExchangeStage::AwaitingContent, e) <==> e is ContentDecoded,
        !exchange_accepts(ExchangeStage::Finished, e),
{
}

/// Whether `a` ends the exchange with the error `e`.
pub open spec fn finishes_with_error<T>(a: ExchangeAction<T>, e: LlmError) -> bool {
    &&& a is Finish
    &&& a->Finish_0 is Err
    &&& a->Finish_0->Err_0 == e
}

/// Starts an exchange: the request to send, built from the instructions, the
/// user's content and the answer's schema.
pub fn start_exchange<T>(
    system_prompt: &str,
    user_content: &str,
    schema_name: &str,
    schema: ObjectSchema,
) -> (r: (ExchangeStage, ExchangeAction<T>))
    ensures
        r.0 == ExchangeStage::AwaitingResponse,
        r.1 is Send,
        forall|m: String| #[trigger] exchange_accepts(r.0, ExchangeEvent::<T>::SendFailed(m)),
        forall|b: bool| #[trigger] exchange_accepts(
            r.0,
            ExchangeEvent::<T>::Responded { success: b },
        ),
        is_structured_request(
            r.1->Send_0,
            system_prompt@,
            user_content@,
            schema_name@,
            schema_view(schema),
        ),
{
    (
        ExchangeStage::AwaitingResponse,
        ExchangeAction::Send(build_request(system_prompt, user_content, schema_name, schema)),
    )
}

/// Takes one step of an exchange: given where it stands and what happened,
/// where it stands next and what to do.
///
/// A failed send ends it with `HttpRequest`; a refusal has its text read and
/// ends it with `Api` (empty text when unreadable); an undecodable answer or
/// content ends it with `ResponseParse`; an answer whose first choice has no
/// content ends it with `Api("No response content returned")`; otherwise the
/// first choice's content is decoded and becomes the result.
pub fn step<T>(stage: ExchangeStage, event: ExchangeEvent<T>) -> (r: (ExchangeStage, ExchangeAction<T>))
    requires
        exchange_accepts(stage, event),
    ensures
        stage_rank(r.0) > stage_rank(stage),
        r.0 == ExchangeStage::Finished <==> r.1 is Finish,
        r.1 is ReadErrorBody ==> forall|b: Option<String>| #[trigger] exchange_accepts(
            r.0,
            ExchangeEvent::<T>::ErrorBodyRead(b),
        ),
        r.1 is DecodeBody ==> forall|d: Result<GroqCompletionsResponse, String>|
            #[trigger] exchange_accepts(r.0, ExchangeEvent::<T>::BodyDecoded(d)),
        r.1 is DecodeContent ==> forall|d: Result<T, String>| #[trigger] exchange_accepts(
            r.0,
            ExchangeEvent::<T>::ContentDecoded(d),
        ),
        r.1 is Finish ==> forall|e: ExchangeEvent<T>| !#[trigger] exchange_accepts(r.0, e),
        match event {
            ExchangeEvent::SendFailed(m) => finishes_with_error(r.1, LlmError::HttpRequest(m)),
            ExchangeEvent::Responded { success } => if success {
                r.0 == ExchangeStage::AwaitingBody && r.1 is DecodeBody
            } else {
                r.0 == ExchangeStage::AwaitingErrorBody && r.1 is ReadErrorBody
            },
            ExchangeEvent::ErrorBodyRead(body) => {
                &&& r.1 is Finish
                &&& r.1->Finish_0 is Err
                &&& r.1->Finish_0->Err_0 is Api
                &&& r.1->Finish_0->Err_0->Api_0@ == match body {
                    Some(b) => b@,
                    None => Seq::<char>::empty(),
                }
            },
            ExchangeEvent::BodyDecoded(Err(m)) => finishes_with_error(
                r.1,
                LlmError::ResponseParse(m),
            ),
            ExchangeEvent::BodyDecoded(Ok(resp)) => match first_content(resp) {
                Some(c) => r.0 == ExchangeStage::AwaitingContent && r.1 is DecodeContent
                    && r.1->DecodeContent_0@ == c,
                None => {
                    &&& r.1 is Finish
                    &&& r.1->Finish_0 is Err
                    &&& r.1->Finish_0->Err_0 is Api
                    &&& r.1->Finish_0->Err_0->Api_0@ == "No response content returned"@
                },
            },
            ExchangeEvent::ContentDecoded(Err(m)) => finishes_with_error(
                r.1,
                LlmError::ResponseParse(m),
            ),
            ExchangeEvent::ContentDecoded(Ok(v)) => r.1 is Finish && r.1->Finish_0 == Ok::<
                T,
                LlmError,
            >(v),
        },
{
    match event {
        ExchangeEvent::SendFailed(m) => (
            ExchangeStage::Finished,
            ExchangeAction::Finish(Err(LlmError::HttpRequest(m))),
        ),
        ExchangeEvent::Responded { success } => {
            if success {
                (ExchangeStage::AwaitingBody, ExchangeAction::DecodeBody)
            } else {
                (ExchangeStage::AwaitingErrorBody, ExchangeAction::ReadErrorBody)
            }
        },
        ExchangeEvent::ErrorBodyRead(body) => {
            let text = match body {
                Some(b) => b,
                None => String::new(),
            };
            (ExchangeStage::Finished, ExchangeAction::Finish(Err(LlmError::Api(text))))
        },
        ExchangeEvent::BodyDecoded(Err(m)) => (
            ExchangeStage::Finished,
            ExchangeAction::Finish(Err(LlmError::ResponseParse(m))),
        ),
        ExchangeEvent::BodyDecoded(Ok(resp)) => match first_choice_content(resp) {
            Some(c) => (ExchangeStage::AwaitingContent, ExchangeAction::DecodeContent(c)),
            None => (
                ExchangeStage::Finished,
                ExchangeAction::Finish(
                    Err(LlmError::Api(owned("No response content returned"))),
                ),
            ),
        },
        ExchangeEvent::ContentDecoded(Err(m)) => (
            ExchangeStage::Finished,
            ExchangeAction::Finish(Err(LlmError::ResponseParse(m))),
        ),
        ExchangeEvent::ContentDecoded(Ok(v)) => (
            ExchangeStage::Finished,
            ExchangeAction::Finish(Ok(v)),
        ),
    }
}

/// Starts the exchange that summarizes an article: the article instructions,
/// the page's content and the `article_summary` schema.
pub fn article_summary_exchange<T>(article_page_content: &str) -> (r: (
    ExchangeStage,
    ExchangeAction<T>,
))
    ensures
        r.0 == ExchangeStage::AwaitingResponse,
        r.1 is Send,
        is_structured_request(
            r.1->Send_0,
            ARTICLE_SUMMARY_PROMPT@,
            article_page_content@,
            "article_summary"@,
            article_summary_schema_view(),
        ),
{
    start_exchange(ARTICLE_SUMMARY_PROMPT, article_page_content, "article_summary", article_summary_schema())
}

/// Starts the exchange that summarizes a tool's page: the tool instructions,
/// the page's content and the `tool_summary` schema.
pub fn tool_summary_exchange<T>(tool_page_content: &str) -> (r: (
    ExchangeStage,
    ExchangeAction<T>,
))
    ensures
        r.0 == ExchangeStage::AwaitingResponse,
        r.1 is Send,
        is_structured_request(
            r.1->Send_0,
            TOOL_SUMMARY_PROMPT@,
            tool_page_content@,
            "tool_summary"@,
            tool_summary_schema_view(),
        ),
{
    start_exchange(TOOL_SUMMARY_PROMPT, tool_page_content, "tool_summary", tool_summary_schema())
}

} // verus!
