//! The data model of requests and responses.
//!
//! These are plain values. How they are written to and read from JSON is
//! left to the caller.

use std::collections::BTreeMap;
use vstd::prelude::*;
use vstd::string::StringExecFns;

verus! {

/// A JSON value of free form, carried through as the decoder made it.
#[verifier::external_type_specification]
#[verifier::external_body]
pub struct ExJsonValue(serde_json::Value);

/// `serde_json::Value::clone`, which the type derives: the copy is the value
/// itself once more.
pub assume_specification[ <serde_json::Value as Clone>::clone ](
    value: &serde_json::Value,
) -> (copy: serde_json::Value)
    ensures
        copy == *value,
;

/// A single-precision number, carried by its IEEE 754 bit pattern.
#[derive(Debug, Clone, Copy, PartialEq, Eq, Structural)]
pub struct Float32 {
    pub bits: u32,
}

/// The producer of the content
#[derive(Debug, Clone, Copy, PartialEq, Eq, Structural)]
pub enum Role {
    User,
    Model,
}

/// What the service answers: the result asked for, or a fault.
#[derive(Debug)]
pub enum ApiResponse<T> {
    Success(T),
    Failure(ApiError),
}

#[derive(Debug)]
pub struct ApiError {
    pub error: ErrorDetail,
}

#[derive(Debug)]
pub struct ErrorDetail {
    pub code: u16,
    pub message: String,
    pub status: Status,
    pub details: Vec<ErrorInfo>,
}

#[derive(Debug)]
pub struct ErrorInfo {
    /// The type URL that the service sends under `@type`.
    pub type_url: String,
    pub reason: Option<String>,
    pub domain: Option<String>,
    pub metadata: Option<BTreeMap<String, String>>,
}

/// Common backend error codes you may encounter
#[derive(Debug, Clone, Copy, PartialEq, Eq, Structural)]
pub enum Status {
    /// The request body is malformed
    InvalidArgument,
    /// The free tier is not available in the caller's country.
    FailedPrecondition,
    /// The API key doesn't have the required permissions.
    PermissionDenied,
    /// The requested resource wasn't found.
    NotFound,
    /// The rate limit was exceeded.
    ResourceExhausted,
    /// An unexpected error occurred on the service's side.
    Internal,
    /// The service may be temporarily overloaded or down.
    Unavailable,
    /// The service is unable to finish processing within the deadline.
    DeadlineExceeded,
}

/// A paginated list of models
#[derive(Debug)]
pub struct Models {
    pub models: Vec<Model>,
    pub next_page_token: Option<String>,
}

/// Information about a Generative Language Model
#[derive(Debug)]
pub struct Model {
    pub name: String,
    pub version: String,
    pub display_name: String,
    pub description: String,
    pub input_token_limit: i32,
    pub output_token_limit: i32,
    pub supported_generation_methods: Vec<String>,
    pub temperature: Option<Float32>,
    pub top_p: Option<Float32>,
    pub top_k: Option<i32>,
}

/// Response from the model supporting multiple candidate responses
#[derive(Debug)]
pub struct Response {
    pub candidates: Vec<Candidate>,
    pub prompt_feedback: Option<PromptFeedback>,
    pub usage_metadata: Option<UsageMetadata>,
}

/// Metadata on the generation request's token usage
#[derive(Debug)]
pub struct UsageMetadata {
    pub prompt_token_count: u64,
    pub candidates_token_count: u64,
}

/// A response candidate generated from the model
#[derive(Debug)]
pub struct Candidate {
    pub content: Content,
    pub finish_reason: Option<FinishReason>,
    pub index: Option<i32>,
    pub safety_ratings: Vec<SafetyRating>,
}

/// Feedback on the prompt of a request
#[derive(Debug)]
pub struct PromptFeedback {
    pub safety_ratings: Vec<SafetyRating>,
}

/// Safety rating for a piece of content: the category of harm and the
/// probability of harm in that category.
#[derive(Debug)]
pub struct SafetyRating {
    pub category: HarmCategory,
    pub probability: HarmProbability,
    pub blocked: bool,
}

#[derive(Debug, Clone)]
pub struct FunctionCall {
    pub id: Option<String>,
    pub name: String,
    pub args: serde_json::Value,
}

/// The base structured datatype containing multi-part content of a message
#[derive(Debug, Clone)]
pub struct Content {
    pub role: Role,
    pub parts: Vec<Part>,
}

/// A datatype containing media that is part of a multi-part Content message
#[derive(Debug, Clone)]
pub struct Part {
    pub text: Option<String>,
    pub inline_data: Option<InlineData>,
    pub file_data: Option<FileData>,
    pub video_metadata: Option<VideoMetadata>,
    pub executable_code: Option<ExecutableCode>,
    pub code_execution_result: Option<CodeExecutionResult>,
    pub function_call: Option<FunctionCall>,
}

/// Metadata for a video File
#[derive(Debug, Clone)]
pub struct VideoMetadata {
    pub start_offset: StartOffset,
    pub end_offset: EndOffset,
}

#[derive(Debug, Clone)]
pub struct EndOffset {
    pub seconds: i32,
    pub nanos: i32,
}

#[derive(Debug, Clone)]
pub struct StartOffset {
    pub seconds: i32,
    pub nanos: i32,
}

/// URI based data
#[derive(Debug, Clone)]
pub struct FileData {
    pub mime_type: String,
    pub file_uri: String,
}

/// Inline media bytes, stored as a base64 string
#[derive(Debug, Clone)]
pub struct InlineData {
    pub mime_type: String,
    pub data: String,
}

/// Defines the reason why the model stopped generating tokens
#[derive(Debug, Clone, Copy, PartialEq, Eq, Structural)]
pub enum FinishReason {
    /// Default value. This value is unused.
    FinishReasonUnspecified,
    /// Natural stop point of the model or provided stop sequence
    Stop,
    /// The maximum number of tokens as specified in the request was reached
    MaxTokens,
    /// The response candidate content was flagged for safety reasons
    Safety,
    /// The response candidate content was flagged for recitation reasons
    Recitation,
    /// The response candidate content was flagged for using an unsupported language
    Language,
    /// Unknown reason
    Other,
    /// Token generation stopped because the content contains forbidden terms
    Blocklist,
    /// Token generation stopped for potentially containing prohibited content
    ProhibitedContent,
    /// Token generation stopped because the content potentially contains
    /// sensitive personally identifiable information
    Spii,
    /// The function call generated by the model is invalid
    MalformedFunctionCall,
    /// Token generation stopped because generated images contain safety violations
    ImageSafety,
}

/// The category of a rating
#[derive(Debug, Clone, Copy, PartialEq, Eq, Structural)]
pub enum HarmCategory {
    /// Category is unspecified
    HarmCategoryUnspecified,
    /// Negative or harmful comments targeting identity or protected attribute
    HarmCategoryDerogatory,
    /// Content that is rude, disrespectful, or profane
    HarmCategoryToxicity,
    /// Scenarios depicting violence against an individual or group
    HarmCategoryViolence,
    /// References to sexual acts or other lewd content
    HarmCategorySexual,
    /// Promotes unchecked medical advice
    HarmCategoryMedical,
    /// Dangerous content that promotes, facilitates, or encourages harmful acts
    HarmCategoryDangerous,
    /// Harassment content
    HarmCategoryHarassment,
    /// Hate speech and content
    HarmCategoryHateSpeech,
    /// Sexually explicit content
    HarmCategorySexuallyExplicit,
    /// Dangerous content
    HarmCategoryDangerousContent,
    /// Content that may be used to harm civic integrity
    HarmCategoryCivicIntegrity,
}

/// Block at and beyond a specified harm probability
#[derive(Debug, Clone, Copy, PartialEq, Eq, Structural)]
pub enum HarmBlockThreshold {
    /// Threshold is unspecified
    HarmBlockThresholdUnspecified,
    /// Content with negligible probability will be allowed
    BlockLowAndAbove,
    /// Content with negligible and low probability will be allowed
    BlockMedAndAbove,
    /// Content with negligible, low and medium probability will be allowed
    BlockOnlyHigh,
    /// All content will be allowed
    BlockNone,
    /// Turn off the safety filter
    OFF,
}

/// The probability that a piece of content is harmful
#[derive(Debug, Clone, Copy, PartialEq, Eq, Structural)]
pub enum HarmProbability {
    /// Probability is unspecified
    HarmProbabilityUnspecified,
    /// Content has a negligible chance of being unsafe
    Negligible,
    /// Content has a low chance of being unsafe
    Low,
    /// Content has a medium chance of being unsafe
    Medium,
    /// Content has a high chance of being unsafe
    High,
}

/// Tool to support web search in the model
#[derive(Debug)]
pub struct GoogleSearchTool {}

/// Tool that executes code generated by the model, and automatically returns
/// the result to the model
#[derive(Debug)]
pub struct CodeExecutionTool {}

/// Tool details that the model may use to generate a response
#[derive(Debug)]
pub struct Tools {
    pub function_declarations: Option<Vec<FunctionDeclaration>>,
    pub google_search: Option<GoogleSearchTool>,
    pub code_execution: Option<CodeExecutionTool>,
}

/// Structured representation of a function declaration
#[derive(Debug)]
pub struct FunctionDeclaration {
    pub name: String,
    pub description: String,
    /// Defines the input parameters the function expects
    pub parameters: serde_json::Value,
}

/// Request to generate content from the model
#[derive(Debug)]
pub struct GenerateContent {
    pub contents: Vec<Content>,
    pub tools: Vec<Tools>,
    pub tool_config: Option<ToolConfig>,
    pub safety_settings: Vec<SafetySettings>,
    pub system_instruction: Option<SystemInstructionContent>,
    pub generation_config: Option<GenerationConfig>,
}

/// System instructions provide the model with additional context
#[derive(Debug)]
pub struct SystemInstructionContent {
    pub parts: Vec<SystemInstructionPart>,
}

/// A part of the system instruction content
#[derive(Debug)]
pub struct SystemInstructionPart {
    pub text: Option<String>,
}

/// Configuration options for model generation and outputs.
#[derive(Debug)]
pub struct GenerationConfig {
    pub temperature: Option<Float32>,
    pub top_p: Option<Float32>,
    pub top_k: Option<i32>,
    pub candidate_count: Option<i32>,
    pub max_output_tokens: Option<i32>,
    pub stop_sequences: Option<Vec<String>>,
    pub response_mime_type: Option<String>,
    pub response_schema: Option<Schema>,
    pub thinking_config: Option<ThinkingConfig>,
}

/// Config for thinking features
#[derive(Debug, Clone)]
pub struct ThinkingConfig {
    pub thinking_budget: Option<u16>,
    pub include_thoughts: Option<bool>,
}

/// Safety setting, affecting the safety-blocking behavior
#[derive(Debug, Clone)]
pub struct SafetySettings {
    pub category: HarmCategory,
    pub threshold: HarmBlockThreshold,
}

/// The definition of input and output data types: objects, primitives and
/// arrays.
#[derive(Debug)]
pub struct Schema {
    pub schema_type: Option<Type>,
    pub format: Option<String>,
    pub title: Option<String>,
    pub description: Option<String>,
    pub nullable: Option<bool>,
    pub enum_values: Option<Vec<String>>,
    pub max_items: Option<String>,
    pub min_items: Option<String>,
    pub properties: Option<BTreeMap<String, Schema>>,
    pub required: Option<Vec<String>>,
    pub property_ordering: Option<Vec<String>>,
    pub items: Option<Box<Schema>>,
}

/// The Tool configuration containing parameters for specifying tool use in
/// the request
#[derive(Debug)]
pub struct ToolConfig {
    pub function_calling_config: Option<FunctionCallingConfig>,
}

/// Configuration for specifying function calling behavior
#[derive(Debug)]
pub struct FunctionCallingConfig {
    pub mode: Option<FunctionCallingMode>,
    pub allowed_function_names: Option<Vec<String>>,
}

/// Defines the execution behavior for function calling
#[derive(Debug, Clone, Copy, PartialEq, Eq, Structural)]
pub enum FunctionCallingMode {
    /// Unspecified function calling mode. This value should not be used.
    ModeUnspecified,
    /// The model decides to predict either a function call or a natural
    /// language response.
    Auto,
    /// The model is constrained to always predicting a function call only.
    Any,
    /// The model will not predict any function call.
    Disabled,
    /// The model decides to predict either a function call or a natural
    /// language response, but will validate function calls with constrained
    /// decoding.
    Validated,
}

/// Code generated by the model that is meant to be executed
#[derive(Debug, Clone)]
pub struct ExecutableCode {
    pub language: ProgrammingLanguage,
    pub code: String,
}

/// Supported programming languages for the generated code
#[derive(Debug, Clone, Copy, PartialEq, Eq, Structural)]
pub enum ProgrammingLanguage {
    /// Unspecified language. This value should not be used.
    LanguageUnspecified,
    /// Python >= 3.10, with numpy and simpy available.
    Python,
}

/// Enumeration of possible outcomes of the code execution tool
#[derive(Debug, Clone, Copy, PartialEq, Eq, Structural)]
pub enum Outcome {
    /// Unspecified status. This value should not be used.
    OutcomeUnspecified,
    /// Code execution completed successfully.
    OutcomeOk,
    /// Code execution finished but with a failure.
    OutcomeError,
    /// Code execution ran for too long, and was cancelled.
    OutcomeDeadlineExceeded,
}

/// The result output from a function call
#[derive(Debug, Clone)]
pub struct FunctionResponse {
    pub id: Option<String>,
    pub name: String,
    pub args: Option<serde_json::Value>,
}

/// Result of executing the executable code
#[derive(Debug, Clone)]
pub struct CodeExecutionResult {
    pub outcome: Outcome,
    pub output: Option<String>,
}

/// The types of data that can be used in a schema
#[derive(Debug, Clone, Copy, PartialEq, Eq, Structural)]
pub enum Type {
    Object,
    Array,
    String,
    Integer,
    Number,
    Boolean,
}

impl Part {
    /// Whether the part holds nothing at all.
    pub open spec fn is_empty(&self) -> bool {
        &&& self.text is None
        &&& self.inline_data is None
        &&& self.file_data is None
        &&& self.video_metadata is None
        &&& self.executable_code is None
        &&& self.code_execution_result is None
        &&& self.function_call is None
    }

    /// Whether the part holds the text `text` and nothing else.
    pub open spec fn is_text(&self, text: Seq<char>) -> bool {
        &&& self.text matches Some(t) && t@ == text
        &&& self.inline_data is None
        &&& self.file_data is None
        &&& self.video_metadata is None
        &&& self.executable_code is None
        &&& self.code_execution_result is None
        &&& self.function_call is None
    }

    /// A part that holds `text` and nothing else.
    pub fn text(text: &str) -> (r: Self)
        ensures
            r.is_text(text@),
    {
        Part {
            text: Some(String::from_str(text)),
            inline_data: None,
            file_data: None,
            video_metadata: None,
            executable_code: None,
            code_execution_result: None,
            function_call: None,
        }
    }
}

impl Default for Part {
    fn default() -> (r: Self)
        ensures
            r.is_empty(),
    {
        Part {
            text: None,
            inline_data: None,
            file_data: None,
            video_metadata: None,
            executable_code: None,
            code_execution_result: None,
            function_call: None,
        }
    }
}

impl Content {
    /// Whether this is a message of the user that holds the text `text` in
    /// one part.
    pub open spec fn is_user_text(&self, text: Seq<char>) -> bool {
        &&& self.role == Role::User
        &&& self.parts@.len() == 1
        &&& self.parts@[0].is_text(text)
    }

    /// A message of the user that holds `text` in one part.
    pub fn user_text(text: &str) -> (r: Self)
        ensures
            r.is_user_text(text@),
    {
        let mut parts: Vec<Part> = Vec::new();
        parts.push(Part::text(text));
        Content { role: Role::User, parts }
    }
}

impl Response {
    /// The text that the response shows: that of the first part of the first
    /// candidate, or nothing where that part has no text.
    pub open spec fn shown(&self) -> Seq<char> {
        match self.candidates@[0].content.parts@[0].text {
            Some(t) => t@,
            None => Seq::empty(),
        }
    }

    /// The text of the first part of the first candidate, empty where that
    /// part has no text.
    pub fn to_string(&self) -> (r: String)
        requires
            self.candidates@.len() > 0,
            self.candidates@[0].content.parts@.len() > 0,
        ensures
            r@ == self.shown(),
    {
        match &self.candidates[0].content.parts[0].text {
            Some(t) => t.clone(),
            None => String::new(),
        }
    }
}

impl ThinkingConfig {
    /// Whether nothing is set.
    pub open spec fn is_unset(&self) -> bool {
        self.thinking_budget is None && self.include_thoughts is None
    }
}

impl Default for ThinkingConfig {
    fn default() -> (r: Self)
        ensures
            r.is_unset(),
    {
        ThinkingConfig { thinking_budget: None, include_thoughts: None }
    }
}

impl Schema {
    /// Whether nothing is set.
    pub open spec fn is_unset(&self) -> bool {
        &&& self.schema_type is None
        &&& self.format is None
        &&& self.title is None
        &&& self.description is None
        &&& self.nullable is None
        &&& self.enum_values is None
        &&& self.max_items is None
        &&& self.min_items is None
        &&& self.properties is None
        &&& self.required is None
        &&& self.property_ordering is None
        &&& self.items is None
    }
}

impl Default for Schema {
    fn default() -> (r: Self)
        ensures
            r.is_unset(),
    {
        Schema {
            schema_type: None,
            format: None,
            title: None,
            description: None,
            nullable: None,
            enum_values: None,
            max_items: None,
            min_items: None,
            properties: None,
            required: None,
            property_ordering: None,
            items: None,
        }
    }
}

impl GenerationConfig {
    /// Whether nothing is set.
    pub open spec fn is_unset(&self) -> bool {
        &&& self.temperature is None
        &&& self.top_p is None
        &&& self.top_k is None
        &&& self.candidate_count is None
        &&& self.max_output_tokens is None
        &&& self.stop_sequences is None
        &&& self.response_mime_type is None
        &&& self.response_schema is None
        &&& self.thinking_config is None
    }
}

impl Default for GenerationConfig {
    fn default() -> (r: Self)
        ensures
            r.is_unset(),
    {
        GenerationConfig {
            temperature: None,
            top_p: None,
            top_k: None,
            candidate_count: None,
            max_output_tokens: None,
            stop_sequences: None,
            response_mime_type: None,
            response_schema: None,
            thinking_config: None,
        }
    }
}

impl GenerateContent {
    /// Whether the request holds no content and sets nothing.
    pub open spec fn is_blank(&self) -> bool {
        &&& self.contents@.len() == 0
        &&& self.tools@.len() == 0
        &&& self.tool_config is None
        &&& self.safety_settings@.len() == 0
        &&& self.system_instruction is None
        &&& self.generation_config is None
    }
}

impl Default for GenerateContent {
    fn default() -> (r: Self)
        ensures
            r.is_blank(),
    {
        GenerateContent {
            contents: Vec::new(),
            tools: Vec::new(),
            tool_config: None,
            safety_settings: Vec::new(),
            system_instruction: None,
            generation_config: None,
        }
    }
}

impl Model {
    /// Whether all texts and lists are empty, the limits zero and the
    /// sampling settings unset.
    pub open spec fn is_blank(&self) -> bool {
        &&& self.name@.len() == 0
        &&& self.version@.len() == 0
        &&& self.display_name@.len() == 0
        &&& self.description@.len() == 0
        &&& self.input_token_limit == 0
        &&& self.output_token_limit == 0
        &&& self.supported_generation_methods@.len() == 0
        &&& self.temperature is None
        &&& self.top_p is None
        &&& self.top_k is None
    }
}

impl Default for Model {
    fn default() -> (r: Self)
        ensures
            r.is_blank(),
    {
        Model {
            name: String::new(),
            version: String::new(),
            display_name: String::new(),
            description: String::new(),
            input_token_limit: 0,
            output_token_limit: 0,
            supported_generation_methods: Vec::new(),
            temperature: None,
            top_p: None,
            top_k: None,
        }
    }
}

impl<T> ApiResponse<T> {
    /// The answer as a result: what was asked for, or the detail of the
    /// fault that the service reported.
    pub fn into_result(self) -> (r: Result<T, ErrorDetail>)
        ensures
            match self {
                ApiResponse::Success(value) => r == Ok::<T, ErrorDetail>(value),
                ApiResponse::Failure(fault) => r == Err::<T, ErrorDetail>(fault.error),
            },
    {
        match self {
            ApiResponse::Success(value) => Ok(value),
            ApiResponse::Failure(fault) => Err(fault.error),
        }
    }
}

} // verus!
