use vstd::prelude::*;

use crate::types::enums::{ErrorType, ReasoningEffort, ReasoningSummary, Truncation, Verbosity};
use crate::types::items::Item;
use crate::json::{same_text, DecodeError, JValue, Json, JsonNumber};
use crate::types::tools::{Tool, ToolChoiceParam};
use crate::wire::{
    begin, cat, ent, get_opt, get_req, get_tag, obj, opt, opt_ent, put, put_opt, put_tag, req, tag_ent,
    tag_of, Wire,
};

verus! {

/// A response as the server returns it, with the configuration it was made with.
#[derive(Debug, Clone)]
pub struct ResponseResource {
    pub id: String,
    pub object: String,
    pub created_at: i64,
    pub completed_at: Option<i64>,
    pub status: String,
    pub incomplete_details: Option<IncompleteDetails>,
    pub model: String,
    pub previous_response_id: Option<String>,
    pub instructions: Option<String>,
    pub output: Vec<Item>,
    pub error: Option<Error>,
    pub tools: Vec<Tool>,
    pub tool_choice: ToolChoiceParam,
    pub truncation: Truncation,
    pub parallel_tool_calls: bool,
    pub text: TextField,
    pub top_p: JsonNumber,
    pub presence_penalty: JsonNumber,
    pub frequency_penalty: JsonNumber,
    pub top_logprobs: i32,
    pub temperature: JsonNumber,
    pub reasoning: Option<ReasoningOutput>,
    pub usage: Option<Usage>,
    pub max_output_tokens: Option<i32>,
    pub max_tool_calls: Option<i32>,
    pub store: bool,
    pub background: bool,
    pub service_tier: String,
    pub metadata: Vec<(String, String)>,
    pub safety_identifier: Option<String>,
    pub prompt_cache_key: Option<String>,
}

impl Wire for ResponseResource {
    open spec fn wire(&self) -> JValue {
        JValue::Obj(
            begin()
                + ent("id"@, self.id)
                + ent("object"@, self.object)
                + ent("created_at"@, self.created_at)
                + opt_ent("completed_at"@, self.completed_at)
                + ent("status"@, self.status)
                + opt_ent("incomplete_details"@, self.incomplete_details)
                + ent("model"@, self.model)
                + opt_ent("previous_response_id"@, self.previous_response_id)
                + opt_ent("instructions"@, self.instructions)
                + ent("output"@, self.output)
                + opt_ent("error"@, self.error)
                + ent("tools"@, self.tools)
                + ent("tool_choice"@, self.tool_choice)
                + ent("truncation"@, self.truncation)
                + ent("parallel_tool_calls"@, self.parallel_tool_calls)
                + ent("text"@, self.text)
                + ent("top_p"@, self.top_p)
                + ent("presence_penalty"@, self.presence_penalty)
                + ent("frequency_penalty"@, self.frequency_penalty)
                + ent("top_logprobs"@, self.top_logprobs)
                + ent("temperature"@, self.temperature)
                + opt_ent("reasoning"@, self.reasoning)
                + opt_ent("usage"@, self.usage)
                + opt_ent("max_output_tokens"@, self.max_output_tokens)
                + opt_ent("max_tool_calls"@, self.max_tool_calls)
                + ent("store"@, self.store)
                + ent("background"@, self.background)
                + ent("service_tier"@, self.service_tier)
                + ent("metadata"@, self.metadata)
                + opt_ent("safety_identifier"@, self.safety_identifier)
                + opt_ent("prompt_cache_key"@, self.prompt_cache_key),
        )
    }

    open spec fn read(j: JValue) -> Option<JValue> {
        if j is Obj {
            let m = Some(begin());
            let m = cat(m, req::<String>(j, "id"@));
            let m = cat(m, req::<String>(j, "object"@));
            let m = cat(m, req::<i64>(j, "created_at"@));
            let m = cat(m, opt::<i64>(j, "completed_at"@));
            let m = cat(m, req::<String>(j, "status"@));
            let m = cat(m, opt::<IncompleteDetails>(j, "incomplete_details"@));
            let m = cat(m, req::<String>(j, "model"@));
            let m = cat(m, opt::<String>(j, "previous_response_id"@));
            let m = cat(m, opt::<String>(j, "instructions"@));
            let m = cat(m, req::<Vec<Item>>(j, "output"@));
            let m = cat(m, opt::<Error>(j, "error"@));
            let m = cat(m, req::<Vec<Tool>>(j, "tools"@));
            let m = cat(m, req::<ToolChoiceParam>(j, "tool_choice"@));
            let m = cat(m, req::<Truncation>(j, "truncation"@));
            let m = cat(m, req::<bool>(j, "parallel_tool_calls"@));
            let m = cat(m, req::<TextField>(j, "text"@));
            let m = cat(m, req::<JsonNumber>(j, "top_p"@));
            let m = cat(m, req::<JsonNumber>(j, "presence_penalty"@));
            let m = cat(m, req::<JsonNumber>(j, "frequency_penalty"@));
            let m = cat(m, req::<i32>(j, "top_logprobs"@));
            let m = cat(m, req::<JsonNumber>(j, "temperature"@));
            let m = cat(m, opt::<ReasoningOutput>(j, "reasoning"@));
            let m = cat(m, opt::<Usage>(j, "usage"@));
            let m = cat(m, opt::<i32>(j, "max_output_tokens"@));
            let m = cat(m, opt::<i32>(j, "max_tool_calls"@));
            let m = cat(m, req::<bool>(j, "store"@));
            let m = cat(m, req::<bool>(j, "background"@));
            let m = cat(m, req::<String>(j, "service_tier"@));
            let m = cat(m, req::<Vec<(String, String)>>(j, "metadata"@));
            let m = cat(m, opt::<String>(j, "safety_identifier"@));
            let m = cat(m, opt::<String>(j, "prompt_cache_key"@));
            obj(m)
        } else {
            None
        }
    }

    fn to_json(&self) -> (r: Json) {
        let mut m: Vec<(String, Json)> = Vec::new();
        put(&mut m, "id", &self.id);
        put(&mut m, "object", &self.object);
        put(&mut m, "created_at", &self.created_at);
        put_opt(&mut m, "completed_at", &self.completed_at);
        put(&mut m, "status", &self.status);
        put_opt(&mut m, "incomplete_details", &self.incomplete_details);
        put(&mut m, "model", &self.model);
        put_opt(&mut m, "previous_response_id", &self.previous_response_id);
        put_opt(&mut m, "instructions", &self.instructions);
        put(&mut m, "output", &self.output);
        put_opt(&mut m, "error", &self.error);
        put(&mut m, "tools", &self.tools);
        put(&mut m, "tool_choice", &self.tool_choice);
        put(&mut m, "truncation", &self.truncation);
        put(&mut m, "parallel_tool_calls", &self.parallel_tool_calls);
        put(&mut m, "text", &self.text);
        put(&mut m, "top_p", &self.top_p);
        put(&mut m, "presence_penalty", &self.presence_penalty);
        put(&mut m, "frequency_penalty", &self.frequency_penalty);
        put(&mut m, "top_logprobs", &self.top_logprobs);
        put(&mut m, "temperature", &self.temperature);
        put_opt(&mut m, "reasoning", &self.reasoning);
        put_opt(&mut m, "usage", &self.usage);
        put_opt(&mut m, "max_output_tokens", &self.max_output_tokens);
        put_opt(&mut m, "max_tool_calls", &self.max_tool_calls);
        put(&mut m, "store", &self.store);
        put(&mut m, "background", &self.background);
        put(&mut m, "service_tier", &self.service_tier);
        put(&mut m, "metadata", &self.metadata);
        put_opt(&mut m, "safety_identifier", &self.safety_identifier);
        put_opt(&mut m, "prompt_cache_key", &self.prompt_cache_key);
        Json::Object(m)
    }

    fn from_json(j: &Json) -> (r: Result<Self, DecodeError>) {
        if !j.is_object() {
            return Err(DecodeError::Mismatch);
        }
        let id = get_req::<String>(j, "id")?;
        let object = get_req::<String>(j, "object")?;
        let created_at = get_req::<i64>(j, "created_at")?;
        let completed_at = get_opt::<i64>(j, "completed_at")?;
        let status = get_req::<String>(j, "status")?;
        let incomplete_details = get_opt::<IncompleteDetails>(j, "incomplete_details")?;
        let model = get_req::<String>(j, "model")?;
        let previous_response_id = get_opt::<String>(j, "previous_response_id")?;
        let instructions = get_opt::<String>(j, "instructions")?;
        let output = get_req::<Vec<Item>>(j, "output")?;
        let error = get_opt::<Error>(j, "error")?;
        let tools = get_req::<Vec<Tool>>(j, "tools")?;
        let tool_choice = get_req::<ToolChoiceParam>(j, "tool_choice")?;
        let truncation = get_req::<Truncation>(j, "truncation")?;
        let parallel_tool_calls = get_req::<bool>(j, "parallel_tool_calls")?;
        let text = get_req::<TextField>(j, "text")?;
        let top_p = get_req::<JsonNumber>(j, "top_p")?;
        let presence_penalty = get_req::<JsonNumber>(j, "presence_penalty")?;
        let frequency_penalty = get_req::<JsonNumber>(j, "frequency_penalty")?;
        let top_logprobs = get_req::<i32>(j, "top_logprobs")?;
        let temperature = get_req::<JsonNumber>(j, "temperature")?;
        let reasoning = get_opt::<ReasoningOutput>(j, "reasoning")?;
        let usage = get_opt::<Usage>(j, "usage")?;
        let max_output_tokens = get_opt::<i32>(j, "max_output_tokens")?;
        let max_tool_calls = get_opt::<i32>(j, "max_tool_calls")?;
        let store = get_req::<bool>(j, "store")?;
        let background = get_req::<bool>(j, "background")?;
        let service_tier = get_req::<String>(j, "service_tier")?;
        let metadata = get_req::<Vec<(String, String)>>(j, "metadata")?;
        let safety_identifier = get_opt::<String>(j, "safety_identifier")?;
        let prompt_cache_key = get_opt::<String>(j, "prompt_cache_key")?;
        Ok(ResponseResource { id, object, created_at, completed_at, status, incomplete_details, model, previous_response_id, instructions, output, error, tools, tool_choice, truncation, parallel_tool_calls, text, top_p, presence_penalty, frequency_penalty, top_logprobs, temperature, reasoning, usage, max_output_tokens, max_tool_calls, store, background, service_tier, metadata, safety_identifier, prompt_cache_key })
    }
}

/// Why a response is incomplete.
#[derive(Debug, Clone, PartialEq)]
pub struct IncompleteDetails {
    pub reason: String,
}

impl Wire for IncompleteDetails {
    open spec fn wire(&self) -> JValue {
        JValue::Obj(begin() + ent("reason"@, self.reason))
    }

    open spec fn read(j: JValue) -> Option<JValue> {
        if j is Obj {
            let m = Some(begin());
            let m = cat(m, req::<String>(j, "reason"@));
            obj(m)
        } else {
            None
        }
    }

    fn to_json(&self) -> (r: Json) {
        let mut m: Vec<(String, Json)> = Vec::new();
        put(&mut m, "reason", &self.reason);
        Json::Object(m)
    }

    fn from_json(j: &Json) -> (r: Result<Self, DecodeError>) {
        if !j.is_object() {
            return Err(DecodeError::Mismatch);
        }
        let reason = get_req::<String>(j, "reason")?;
        Ok(IncompleteDetails { reason })
    }
}

/// The error a failed response carries.
#[derive(Debug, Clone, PartialEq)]
pub struct Error {
    pub code: String,
    pub message: String,
    pub param: Option<String>,
    pub error_type: ErrorType,
}

impl Wire for Error {
    open spec fn wire(&self) -> JValue {
        JValue::Obj(
            begin()
                + ent("code"@, self.code)
                + ent("message"@, self.message)
                + opt_ent("param"@, self.param)
                + ent("type"@, self.error_type),
        )
    }

    open spec fn read(j: JValue) -> Option<JValue> {
        if j is Obj {
            let m = Some(begin());
            let m = cat(m, req::<String>(j, "code"@));
            let m = cat(m, req::<String>(j, "message"@));
            let m = cat(m, opt::<String>(j, "param"@));
            let m = cat(m, req::<ErrorType>(j, "type"@));
            obj(m)
        } else {
            None
        }
    }

    fn to_json(&self) -> (r: Json) {
        let mut m: Vec<(String, Json)> = Vec::new();
        put(&mut m, "code", &self.code);
        put(&mut m, "message", &self.message);
        put_opt(&mut m, "param", &self.param);
        put(&mut m, "type", &self.error_type);
        Json::Object(m)
    }

    fn from_json(j: &Json) -> (r: Result<Self, DecodeError>) {
        if !j.is_object() {
            return Err(DecodeError::Mismatch);
        }
        let code = get_req::<String>(j, "code")?;
        let message = get_req::<String>(j, "message")?;
        let param = get_opt::<String>(j, "param")?;
        let error_type = get_req::<ErrorType>(j, "type")?;
        Ok(Error { code, message, param, error_type })
    }
}

/// The text format a response was made with.
#[derive(Debug, Clone)]
pub struct TextField {
    pub format: TextFormatOutput,
    pub verbosity: Option<Verbosity>,
}

impl Wire for TextField {
    open spec fn wire(&self) -> JValue {
        JValue::Obj(
            begin()
                + ent("format"@, self.format)
                + opt_ent("verbosity"@, self.verbosity),
        )
    }

    open spec fn read(j: JValue) -> Option<JValue> {
        if j is Obj {
            let m = Some(begin());
            let m = cat(m, req::<TextFormatOutput>(j, "format"@));
            let m = cat(m, opt::<Verbosity>(j, "verbosity"@));
            obj(m)
        } else {
            None
        }
    }

    fn to_json(&self) -> (r: Json) {
        let mut m: Vec<(String, Json)> = Vec::new();
        put(&mut m, "format", &self.format);
        put_opt(&mut m, "verbosity", &self.verbosity);
        Json::Object(m)
    }

    fn from_json(j: &Json) -> (r: Result<Self, DecodeError>) {
        if !j.is_object() {
            return Err(DecodeError::Mismatch);
        }
        let format = get_req::<TextFormatOutput>(j, "format")?;
        let verbosity = get_opt::<Verbosity>(j, "verbosity")?;
        Ok(TextField { format, verbosity })
    }
}

/// The format text output was given in.
#[derive(Debug, Clone)]
pub enum TextFormatOutput {
    Text,
    JsonObject,
    JsonSchema {
        name: String,
        description: String,
        schema: Json,
        strict: bool,
    },
}

/// How `j` reads as the variant `text` of `TextFormatOutput`.
pub open spec fn text_format_output_text(j: JValue) -> Option<JValue> {
    obj(Some(begin() + tag_ent("text"@)))
}

/// How `j` reads as the variant `json_object` of `TextFormatOutput`.
pub open spec fn text_format_output_json_object(j: JValue) -> Option<JValue> {
    obj(Some(begin() + tag_ent("json_object"@)))
}

/// How `j` reads as the variant `json_schema` of `TextFormatOutput`.
pub open spec fn text_format_output_json_schema(j: JValue) -> Option<JValue> {
    let m = Some(begin() + tag_ent("json_schema"@));
    let m = cat(m, req::<String>(j, "name"@));
    let m = cat(m, req::<String>(j, "description"@));
    let m = cat(m, req::<Json>(j, "schema"@));
    let m = cat(m, req::<bool>(j, "strict"@));
    obj(m)
}

impl Wire for TextFormatOutput {
    open spec fn wire(&self) -> JValue {
        match self {
            TextFormatOutput::Text => JValue::Obj(begin() + tag_ent("text"@)),
            TextFormatOutput::JsonObject => JValue::Obj(begin() + tag_ent("json_object"@)),
            TextFormatOutput::JsonSchema { name, description, schema, strict } => JValue::Obj(
                begin()
                    + tag_ent("json_schema"@)
                    + ent("name"@, *name)
                    + ent("description"@, *description)
                    + ent("schema"@, *schema)
                    + ent("strict"@, *strict),
            ),
        }
    }

    open spec fn read(j: JValue) -> Option<JValue> {
        match tag_of(j) {
            Some(t) => {
                if t == "text"@ {
                    text_format_output_text(j)
                } else if t == "json_object"@ {
                    text_format_output_json_object(j)
                } else if t == "json_schema"@ {
                    text_format_output_json_schema(j)
                } else {
                    None
                }
            },
            None => None,
        }
    }

    fn to_json(&self) -> (r: Json) {
        let mut m: Vec<(String, Json)> = Vec::new();
        match self {
            TextFormatOutput::Text => {
                put_tag(&mut m, "text");

            },
            TextFormatOutput::JsonObject => {
                put_tag(&mut m, "json_object");

            },
            TextFormatOutput::JsonSchema { name, description, schema, strict } => {
                put_tag(&mut m, "json_schema");
                put(&mut m, "name", name);
                put(&mut m, "description", description);
                put(&mut m, "schema", schema);
                put(&mut m, "strict", strict);
            },
        }
        Json::Object(m)
    }

    fn from_json(j: &Json) -> (r: Result<Self, DecodeError>) {
        Self::decode(j)
    }
}

impl TextFormatOutput {
    /// Tells whether `t` names a variant of `TextFormatOutput`.
    pub open spec fn tag_known(t: Seq<char>) -> bool {
        t == "text"@ || t == "json_object"@ || t == "json_schema"@
    }

    /// Reads a `TextFormatOutput` from JSON; a `type` that names no variant gives `UnknownVariant`
    /// with that `type`.
    pub fn decode(j: &Json) -> (r: Result<Self, DecodeError>)
        ensures
            match r {
                Ok(v) => Self::read(j@) == Some(v.wire()),
                Err(_) => Self::read(j@) is None,
            },
            match tag_of(j@) {
                Some(t) => !Self::tag_known(t) ==> (r matches Err(DecodeError::UnknownVariant { union_name, tag })
                    && union_name@ == "TextFormatOutput"@ && tag@ == t),
                None => true,
            },
    {
        let t = get_tag(j)?;
        if same_text(t.as_str(), "text") {
            Self::read_text(j)
        } else if same_text(t.as_str(), "json_object") {
            Self::read_json_object(j)
        } else if same_text(t.as_str(), "json_schema") {
            Self::read_json_schema(j)
        } else {
            Err(DecodeError::UnknownVariant { union_name: "TextFormatOutput".to_owned(), tag: t.clone() })
        }
    }
}

impl TextFormatOutput {
    #[verifier::rlimit(50)]
    fn read_text(j: &Json) -> (r: Result<TextFormatOutput, DecodeError>)
        ensures
            match r {
                Ok(v) => text_format_output_text(j@) == Some(v.wire()),
                Err(_) => text_format_output_text(j@) is None,
            },
    {

        Ok(TextFormatOutput::Text)
    }

    #[verifier::rlimit(50)]
    fn read_json_object(j: &Json) -> (r: Result<TextFormatOutput, DecodeError>)
        ensures
            match r {
                Ok(v) => text_format_output_json_object(j@) == Some(v.wire()),
                Err(_) => text_format_output_json_object(j@) is None,
            },
    {

        Ok(TextFormatOutput::JsonObject)
    }

    #[verifier::rlimit(50)]
    fn read_json_schema(j: &Json) -> (r: Result<TextFormatOutput, DecodeError>)
        ensures
            match r {
                Ok(v) => text_format_output_json_schema(j@) == Some(v.wire()),
                Err(_) => text_format_output_json_schema(j@) is None,
            },
    {
        let name = get_req::<String>(j, "name")?;
        let description = get_req::<String>(j, "description")?;
        let schema = get_req::<Json>(j, "schema")?;
        let strict = get_req::<bool>(j, "strict")?;
        Ok(TextFormatOutput::JsonSchema { name, description, schema, strict })
    }
}

/// The reasoning settings a response was made with.
#[derive(Debug, Clone, PartialEq)]
pub struct ReasoningOutput {
    pub effort: Option<ReasoningEffort>,
    pub summary: Option<ReasoningSummary>,
}

impl Wire for ReasoningOutput {
    open spec fn wire(&self) -> JValue {
        JValue::Obj(
            begin()
                + opt_ent("effort"@, self.effort)
                + opt_ent("summary"@, self.summary),
        )
    }

    open spec fn read(j: JValue) -> Option<JValue> {
        if j is Obj {
            let m = Some(begin());
            let m = cat(m, opt::<ReasoningEffort>(j, "effort"@));
            let m = cat(m, opt::<ReasoningSummary>(j, "summary"@));
            obj(m)
        } else {
            None
        }
    }

    fn to_json(&self) -> (r: Json) {
        let mut m: Vec<(String, Json)> = Vec::new();
        put_opt(&mut m, "effort", &self.effort);
        put_opt(&mut m, "summary", &self.summary);
        Json::Object(m)
    }

    fn from_json(j: &Json) -> (r: Result<Self, DecodeError>) {
        if !j.is_object() {
            return Err(DecodeError::Mismatch);
        }
        let effort = get_opt::<ReasoningEffort>(j, "effort")?;
        let summary = get_opt::<ReasoningSummary>(j, "summary")?;
        Ok(ReasoningOutput { effort, summary })
    }
}

/// The tokens a response used.
#[derive(Debug, Clone, PartialEq)]
pub struct Usage {
    pub input_tokens: i32,
    pub output_tokens: i32,
    pub total_tokens: i32,
    pub input_tokens_details: InputTokensDetails,
    pub output_tokens_details: OutputTokensDetails,
}

impl Wire for Usage {
    open spec fn wire(&self) -> JValue {
        JValue::Obj(
            begin()
                + ent("input_tokens"@, self.input_tokens)
                + ent("output_tokens"@, self.output_tokens)
                + ent("total_tokens"@, self.total_tokens)
                + ent("input_tokens_details"@, self.input_tokens_details)
                + ent("output_tokens_details"@, self.output_tokens_details),
        )
    }

    open spec fn read(j: JValue) -> Option<JValue> {
        if j is Obj {
            let m = Some(begin());
            let m = cat(m, req::<i32>(j, "input_tokens"@));
            let m = cat(m, req::<i32>(j, "output_tokens"@));
            let m = cat(m, req::<i32>(j, "total_tokens"@));
            let m = cat(m, req::<InputTokensDetails>(j, "input_tokens_details"@));
            let m = cat(m, req::<OutputTokensDetails>(j, "output_tokens_details"@));
            obj(m)
        } else {
            None
        }
    }

    fn to_json(&self) -> (r: Json) {
        let mut m: Vec<(String, Json)> = Vec::new();
        put(&mut m, "input_tokens", &self.input_tokens);
        put(&mut m, "output_tokens", &self.output_tokens);
        put(&mut m, "total_tokens", &self.total_tokens);
        put(&mut m, "input_tokens_details", &self.input_tokens_details);
        put(&mut m, "output_tokens_details", &self.output_tokens_details);
        Json::Object(m)
    }

    fn from_json(j: &Json) -> (r: Result<Self, DecodeError>) {
        if !j.is_object() {
            return Err(DecodeError::Mismatch);
        }
        let input_tokens = get_req::<i32>(j, "input_tokens")?;
        let output_tokens = get_req::<i32>(j, "output_tokens")?;
        let total_tokens = get_req::<i32>(j, "total_tokens")?;
        let input_tokens_details = get_req::<InputTokensDetails>(j, "input_tokens_details")?;
        let output_tokens_details = get_req::<OutputTokensDetails>(j, "output_tokens_details")?;
        Ok(Usage { input_tokens, output_tokens, total_tokens, input_tokens_details, output_tokens_details })
    }
}

/// How many input tokens came from the cache.
#[derive(Debug, Clone, PartialEq)]
pub struct InputTokensDetails {
    pub cached_tokens: i32,
}

impl Wire for InputTokensDetails {
    open spec fn wire(&self) -> JValue {
        JValue::Obj(begin() + ent("cached_tokens"@, self.cached_tokens))
    }

    open spec fn read(j: JValue) -> Option<JValue> {
        if j is Obj {
            let m = Some(begin());
            let m = cat(m, req::<i32>(j, "cached_tokens"@));
            obj(m)
        } else {
            None
        }
    }

    fn to_json(&self) -> (r: Json) {
        let mut m: Vec<(String, Json)> = Vec::new();
        put(&mut m, "cached_tokens", &self.cached_tokens);
        Json::Object(m)
    }

    fn from_json(j: &Json) -> (r: Result<Self, DecodeError>) {
        if !j.is_object() {
            return Err(DecodeError::Mismatch);
        }
        let cached_tokens = get_req::<i32>(j, "cached_tokens")?;
        Ok(InputTokensDetails { cached_tokens })
    }
}

/// How many output tokens went to reasoning.
#[derive(Debug, Clone, PartialEq)]
pub struct OutputTokensDetails {
    pub reasoning_tokens: i32,
}

impl Wire for OutputTokensDetails {
    open spec fn wire(&self) -> JValue {
        JValue::Obj(begin() + ent("reasoning_tokens"@, self.reasoning_tokens))
    }

    open spec fn read(j: JValue) -> Option<JValue> {
        if j is Obj {
            let m = Some(begin());
            let m = cat(m, req::<i32>(j, "reasoning_tokens"@));
            obj(m)
        } else {
            None
        }
    }

    fn to_json(&self) -> (r: Json) {
        let mut m: Vec<(String, Json)> = Vec::new();
        put(&mut m, "reasoning_tokens", &self.reasoning_tokens);
        Json::Object(m)
    }

    fn from_json(j: &Json) -> (r: Result<Self, DecodeError>) {
        if !j.is_object() {
            return Err(DecodeError::Mismatch);
        }
        let reasoning_tokens = get_req::<i32>(j, "reasoning_tokens")?;
        Ok(OutputTokensDetails { reasoning_tokens })
    }
}

} // verus!
