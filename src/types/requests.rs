use vstd::prelude::*;

use crate::types::enums::{IncludeOption, ReasoningEffort, ReasoningSummary, ServiceTier, Truncation, Verbosity};
use crate::types::items::Item;
use crate::json::{field, same_text, DecodeError, JValue, Json, JsonNumber};
use crate::types::tools::{Tool, ToolChoiceParam};
use crate::wire::{
    begin, cat, dflt, ent, get_dflt, get_opt, get_req, get_tag, obj,
    opt, opt_ent, put, put_opt, put_tag, req, tag_ent, tag_of, Wire,
};

verus! {

/// What a request gives the model: one string, or a list of items.
///
/// A JSON string reads as the string; a JSON array as the list; nothing else reads.
#[derive(Debug, Clone, PartialEq)]
pub enum Input {
    Single(String),
    Items(Vec<Item>),
}

impl Wire for Input {
    open spec fn wire(&self) -> JValue {
        match self {
            Input::Single(s) => s.wire(),
            Input::Items(v) => v.wire(),
        }
    }

    open spec fn read(j: JValue) -> Option<JValue> {
        match j {
            JValue::Str(s) => Some(JValue::Str(s)),
            JValue::Arr(_) => <Vec<Item> as Wire>::read(j),
            _ => None,
        }
    }

    fn to_json(&self) -> (r: Json) {
        match self {
            Input::Single(s) => s.to_json(),
            Input::Items(v) => v.to_json(),
        }
    }

    fn from_json(j: &Json) -> (r: Result<Self, DecodeError>) {
        match j {
            Json::Str(s) => Ok(Input::Single(s.clone())),
            Json::Array(_) => match <Vec<Item> as Wire>::from_json(j) {
                Ok(v) => Ok(Input::Items(v)),
                Err(e) => Err(e),
            },
            _ => Err(DecodeError::Mismatch),
        }
    }
}

impl Default for Input {
    fn default() -> (r: Input)
        ensures
            r is Items,
            r->Items_0@.len() == 0,
    {
        Input::Items(Vec::new())
    }
}

/// The body of a request that asks for a response.
#[derive(Debug, Clone)]
pub struct CreateResponseBody {
    pub model: Option<String>,
    pub input: Option<Input>,
    pub previous_response_id: Option<String>,
    pub includes: Option<Vec<IncludeOption>>,
    pub tools: Option<Vec<Tool>>,
    pub tool_choice: Option<ToolChoiceParam>,
    pub metadata: Option<Vec<(String, String)>>,
    pub text: Option<TextParam>,
    pub temperature: Option<JsonNumber>,
    pub top_p: Option<JsonNumber>,
    pub presence_penalty: Option<JsonNumber>,
    pub frequency_penalty: Option<JsonNumber>,
    pub parallel_tool_calls: Option<bool>,
    pub stream: Option<bool>,
    pub stream_options: Option<StreamOptions>,
    pub background: Option<bool>,
    pub max_output_tokens: Option<i32>,
    pub max_tool_calls: Option<i32>,
    pub reasoning: Option<ReasoningConfig>,
    pub safety_identifier: Option<String>,
    pub prompt_cache_key: Option<String>,
    pub truncation: Truncation,
    pub instructions: Option<String>,
    pub store: Option<bool>,
    pub service_tier: ServiceTier,
    pub top_logprobs: Option<i32>,
}

impl Wire for CreateResponseBody {
    open spec fn wire(&self) -> JValue {
        JValue::Obj(
            begin()
                + opt_ent("model"@, self.model)
                + opt_ent("input"@, self.input)
                + opt_ent("previous_response_id"@, self.previous_response_id)
                + opt_ent("\x69nclude"@, self.includes)
                + opt_ent("tools"@, self.tools)
                + opt_ent("tool_choice"@, self.tool_choice)
                + opt_ent("metadata"@, self.metadata)
                + opt_ent("text"@, self.text)
                + opt_ent("temperature"@, self.temperature)
                + opt_ent("top_p"@, self.top_p)
                + opt_ent("presence_penalty"@, self.presence_penalty)
                + opt_ent("frequency_penalty"@, self.frequency_penalty)
                + opt_ent("parallel_tool_calls"@, self.parallel_tool_calls)
                + opt_ent("stream"@, self.stream)
                + opt_ent("stream_options"@, self.stream_options)
                + opt_ent("background"@, self.background)
                + opt_ent("max_output_tokens"@, self.max_output_tokens)
                + opt_ent("max_tool_calls"@, self.max_tool_calls)
                + opt_ent("reasoning"@, self.reasoning)
                + opt_ent("safety_identifier"@, self.safety_identifier)
                + opt_ent("prompt_cache_key"@, self.prompt_cache_key)
                + ent("truncation"@, self.truncation)
                + opt_ent("instructions"@, self.instructions)
                + opt_ent("store"@, self.store)
                + ent("service_tier"@, self.service_tier)
                + opt_ent("top_logprobs"@, self.top_logprobs),
        )
    }

    open spec fn read(j: JValue) -> Option<JValue> {
        if j is Obj {
            let m = Some(begin());
            let m = cat(m, opt::<String>(j, "model"@));
            let m = cat(m, opt::<Input>(j, "input"@));
            let m = cat(m, opt::<String>(j, "previous_response_id"@));
            let m = cat(m, opt::<Vec<IncludeOption>>(j, "\x69nclude"@));
            let m = cat(m, opt::<Vec<Tool>>(j, "tools"@));
            let m = cat(m, opt::<ToolChoiceParam>(j, "tool_choice"@));
            let m = cat(m, opt::<Vec<(String, String)>>(j, "metadata"@));
            let m = cat(m, opt::<TextParam>(j, "text"@));
            let m = cat(m, opt::<JsonNumber>(j, "temperature"@));
            let m = cat(m, opt::<JsonNumber>(j, "top_p"@));
            let m = cat(m, opt::<JsonNumber>(j, "presence_penalty"@));
            let m = cat(m, opt::<JsonNumber>(j, "frequency_penalty"@));
            let m = cat(m, opt::<bool>(j, "parallel_tool_calls"@));
            let m = cat(m, opt::<bool>(j, "stream"@));
            let m = cat(m, opt::<StreamOptions>(j, "stream_options"@));
            let m = cat(m, opt::<bool>(j, "background"@));
            let m = cat(m, opt::<i32>(j, "max_output_tokens"@));
            let m = cat(m, opt::<i32>(j, "max_tool_calls"@));
            let m = cat(m, opt::<ReasoningConfig>(j, "reasoning"@));
            let m = cat(m, opt::<String>(j, "safety_identifier"@));
            let m = cat(m, opt::<String>(j, "prompt_cache_key"@));
            let m = cat(m, dflt::<Truncation>(j, "truncation"@, Truncation::Auto.wire()));
            let m = cat(m, opt::<String>(j, "instructions"@));
            let m = cat(m, opt::<bool>(j, "store"@));
            let m = cat(m, dflt::<ServiceTier>(j, "service_tier"@, ServiceTier::Auto.wire()));
            let m = cat(m, opt::<i32>(j, "top_logprobs"@));
            obj(m)
        } else {
            None
        }
    }

    fn to_json(&self) -> (r: Json) {
        let mut m: Vec<(String, Json)> = Vec::new();
        put_opt(&mut m, "model", &self.model);
        put_opt(&mut m, "input", &self.input);
        put_opt(&mut m, "previous_response_id", &self.previous_response_id);
        put_opt(&mut m, "\x69nclude", &self.includes);
        put_opt(&mut m, "tools", &self.tools);
        put_opt(&mut m, "tool_choice", &self.tool_choice);
        put_opt(&mut m, "metadata", &self.metadata);
        put_opt(&mut m, "text", &self.text);
        put_opt(&mut m, "temperature", &self.temperature);
        put_opt(&mut m, "top_p", &self.top_p);
        put_opt(&mut m, "presence_penalty", &self.presence_penalty);
        put_opt(&mut m, "frequency_penalty", &self.frequency_penalty);
        put_opt(&mut m, "parallel_tool_calls", &self.parallel_tool_calls);
        put_opt(&mut m, "stream", &self.stream);
        put_opt(&mut m, "stream_options", &self.stream_options);
        put_opt(&mut m, "background", &self.background);
        put_opt(&mut m, "max_output_tokens", &self.max_output_tokens);
        put_opt(&mut m, "max_tool_calls", &self.max_tool_calls);
        put_opt(&mut m, "reasoning", &self.reasoning);
        put_opt(&mut m, "safety_identifier", &self.safety_identifier);
        put_opt(&mut m, "prompt_cache_key", &self.prompt_cache_key);
        put(&mut m, "truncation", &self.truncation);
        put_opt(&mut m, "instructions", &self.instructions);
        put_opt(&mut m, "store", &self.store);
        put(&mut m, "service_tier", &self.service_tier);
        put_opt(&mut m, "top_logprobs", &self.top_logprobs);
        Json::Object(m)
    }

    fn from_json(j: &Json) -> (r: Result<Self, DecodeError>) {
        Self::decode(j)
    }
}

impl CreateResponseBody {
    /// Reads a `CreateResponseBody` from JSON; a missing member with a default takes that default.
    pub fn decode(j: &Json) -> (r: Result<Self, DecodeError>)
        ensures
            match r {
                Ok(v) => Self::read(j@) == Some(v.wire()),
                Err(_) => Self::read(j@) is None,
            },
            field(j@, "truncation"@) is None && r is Ok ==> r->Ok_0.truncation == Truncation::Auto,
            field(j@, "service_tier"@) is None && r is Ok ==> r->Ok_0.service_tier == ServiceTier::Auto,
    {
        if !j.is_object() {
            return Err(DecodeError::Mismatch);
        }
        let model = get_opt::<String>(j, "model")?;
        let input = get_opt::<Input>(j, "input")?;
        let previous_response_id = get_opt::<String>(j, "previous_response_id")?;
        let includes = get_opt::<Vec<IncludeOption>>(j, "\x69nclude")?;
        let tools = get_opt::<Vec<Tool>>(j, "tools")?;
        let tool_choice = get_opt::<ToolChoiceParam>(j, "tool_choice")?;
        let metadata = get_opt::<Vec<(String, String)>>(j, "metadata")?;
        let text = get_opt::<TextParam>(j, "text")?;
        let temperature = get_opt::<JsonNumber>(j, "temperature")?;
        let top_p = get_opt::<JsonNumber>(j, "top_p")?;
        let presence_penalty = get_opt::<JsonNumber>(j, "presence_penalty")?;
        let frequency_penalty = get_opt::<JsonNumber>(j, "frequency_penalty")?;
        let parallel_tool_calls = get_opt::<bool>(j, "parallel_tool_calls")?;
        let stream = get_opt::<bool>(j, "stream")?;
        let stream_options = get_opt::<StreamOptions>(j, "stream_options")?;
        let background = get_opt::<bool>(j, "background")?;
        let max_output_tokens = get_opt::<i32>(j, "max_output_tokens")?;
        let max_tool_calls = get_opt::<i32>(j, "max_tool_calls")?;
        let reasoning = get_opt::<ReasoningConfig>(j, "reasoning")?;
        let safety_identifier = get_opt::<String>(j, "safety_identifier")?;
        let prompt_cache_key = get_opt::<String>(j, "prompt_cache_key")?;
        let truncation = get_dflt::<Truncation>(j, "truncation", Truncation::Auto)?;
        let instructions = get_opt::<String>(j, "instructions")?;
        let store = get_opt::<bool>(j, "store")?;
        let service_tier = get_dflt::<ServiceTier>(j, "service_tier", ServiceTier::Auto)?;
        let top_logprobs = get_opt::<i32>(j, "top_logprobs")?;
        Ok(CreateResponseBody { model, input, previous_response_id, includes, tools, tool_choice, metadata, text, temperature, top_p, presence_penalty, frequency_penalty, parallel_tool_calls, stream, stream_options, background, max_output_tokens, max_tool_calls, reasoning, safety_identifier, prompt_cache_key, truncation, instructions, store, service_tier, top_logprobs })
    }
}

impl Default for CreateResponseBody {
    fn default() -> (r: CreateResponseBody)
        ensures
            r.model is None,
            r.input is None,
            r.previous_response_id is None,
            r.includes is None,
            r.tools is None,
            r.tool_choice is None,
            r.metadata is None,
            r.text is None,
            r.temperature is None,
            r.top_p is None,
            r.presence_penalty is None,
            r.frequency_penalty is None,
            r.parallel_tool_calls is None,
            r.stream is None,
            r.stream_options is None,
            r.background is None,
            r.max_output_tokens is None,
            r.max_tool_calls is None,
            r.reasoning is None,
            r.safety_identifier is None,
            r.prompt_cache_key is None,
            r.truncation == Truncation::Auto,
            r.instructions is None,
            r.store is None,
            r.service_tier == ServiceTier::Auto,
            r.top_logprobs is None,
    {
        CreateResponseBody {
            model: None,
            input: None,
            previous_response_id: None,
            includes: None,
            tools: None,
            tool_choice: None,
            metadata: None,
            text: None,
            temperature: None,
            top_p: None,
            presence_penalty: None,
            frequency_penalty: None,
            parallel_tool_calls: None,
            stream: None,
            stream_options: None,
            background: None,
            max_output_tokens: None,
            max_tool_calls: None,
            reasoning: None,
            safety_identifier: None,
            prompt_cache_key: None,
            truncation: Truncation::Auto,
            instructions: None,
            store: None,
            service_tier: ServiceTier::Auto,
            top_logprobs: None,
        }
    }
}

/// How a request wants its text output shaped.
#[derive(Debug, Clone)]
pub struct TextParam {
    pub format: Option<TextFormat>,
    pub verbosity: Verbosity,
}

impl Wire for TextParam {
    open spec fn wire(&self) -> JValue {
        JValue::Obj(
            begin()
                + opt_ent("format"@, self.format)
                + ent("verbosity"@, self.verbosity),
        )
    }

    open spec fn read(j: JValue) -> Option<JValue> {
        if j is Obj {
            let m = Some(begin());
            let m = cat(m, opt::<TextFormat>(j, "format"@));
            let m = cat(m, dflt::<Verbosity>(j, "verbosity"@, Verbosity::Medium.wire()));
            obj(m)
        } else {
            None
        }
    }

    fn to_json(&self) -> (r: Json) {
        let mut m: Vec<(String, Json)> = Vec::new();
        put_opt(&mut m, "format", &self.format);
        put(&mut m, "verbosity", &self.verbosity);
        Json::Object(m)
    }

    fn from_json(j: &Json) -> (r: Result<Self, DecodeError>) {
        Self::decode(j)
    }
}

impl TextParam {
    /// Reads a `TextParam` from JSON; a missing member with a default takes that default.
    pub fn decode(j: &Json) -> (r: Result<Self, DecodeError>)
        ensures
            match r {
                Ok(v) => Self::read(j@) == Some(v.wire()),
                Err(_) => Self::read(j@) is None,
            },
            field(j@, "verbosity"@) is None && r is Ok ==> r->Ok_0.verbosity == Verbosity::Medium,
    {
        if !j.is_object() {
            return Err(DecodeError::Mismatch);
        }
        let format = get_opt::<TextFormat>(j, "format")?;
        let verbosity = get_dflt::<Verbosity>(j, "verbosity", Verbosity::Medium)?;
        Ok(TextParam { format, verbosity })
    }
}

impl Default for TextParam {
    fn default() -> (r: TextParam)
        ensures
            r.format is None,
            r.verbosity == Verbosity::Medium,
    {
        TextParam {
            format: None,
            verbosity: Verbosity::Medium,
        }
    }
}

/// The format a request wants text output in.
#[derive(Debug, Clone)]
pub enum TextFormat {
    Text,
    JsonObject,
    JsonSchema {
        name: String,
        description: Option<String>,
        schema: Option<Json>,
        strict: Option<bool>,
    },
}

/// How `j` reads as the variant `text` of `TextFormat`.
pub open spec fn text_format_text(j: JValue) -> Option<JValue> {
    obj(Some(begin() + tag_ent("text"@)))
}

/// How `j` reads as the variant `json_object` of `TextFormat`.
pub open spec fn text_format_json_object(j: JValue) -> Option<JValue> {
    obj(Some(begin() + tag_ent("json_object"@)))
}

/// How `j` reads as the variant `json_schema` of `TextFormat`.
pub open spec fn text_format_json_schema(j: JValue) -> Option<JValue> {
    let m = Some(begin() + tag_ent("json_schema"@));
    let m = cat(m, req::<String>(j, "name"@));
    let m = cat(m, opt::<String>(j, "description"@));
    let m = cat(m, opt::<Json>(j, "schema"@));
    let m = cat(m, opt::<bool>(j, "strict"@));
    obj(m)
}

impl Wire for TextFormat {
    open spec fn wire(&self) -> JValue {
        match self {
            TextFormat::Text => JValue::Obj(begin() + tag_ent("text"@)),
            TextFormat::JsonObject => JValue::Obj(begin() + tag_ent("json_object"@)),
            TextFormat::JsonSchema { name, description, schema, strict } => JValue::Obj(
                begin()
                    + tag_ent("json_schema"@)
                    + ent("name"@, *name)
                    + opt_ent("description"@, *description)
                    + opt_ent("schema"@, *schema)
                    + opt_ent("strict"@, *strict),
            ),
        }
    }

    open spec fn read(j: JValue) -> Option<JValue> {
        match tag_of(j) {
            Some(t) => {
                if t == "text"@ {
                    text_format_text(j)
                } else if t == "json_object"@ {
                    text_format_json_object(j)
                } else if t == "json_schema"@ {
                    text_format_json_schema(j)
                } else {
                    None
                }
            },
            None => None,
        }
    }

    fn to_json(&self) -> (r: Json) {
        let mut m: Vec<(String, Json)> = Vec::new();
        match self {
            TextFormat::Text => {
                put_tag(&mut m, "text");

            },
            TextFormat::JsonObject => {
                put_tag(&mut m, "json_object");

            },
            TextFormat::JsonSchema { name, description, schema, strict } => {
                put_tag(&mut m, "json_schema");
                put(&mut m, "name", name);
                put_opt(&mut m, "description", description);
                put_opt(&mut m, "schema", schema);
                put_opt(&mut m, "strict", strict);
            },
        }
        Json::Object(m)
    }

    fn from_json(j: &Json) -> (r: Result<Self, DecodeError>) {
        Self::decode(j)
    }
}

impl TextFormat {
    /// Tells whether `t` names a variant of `TextFormat`.
    pub open spec fn tag_known(t: Seq<char>) -> bool {
        t == "text"@ || t == "json_object"@ || t == "json_schema"@
    }

    /// Reads a `TextFormat` from JSON; a `type` that names no variant gives `UnknownVariant`
    /// with that `type`.
    pub fn decode(j: &Json) -> (r: Result<Self, DecodeError>)
        ensures
            match r {
                Ok(v) => Self::read(j@) == Some(v.wire()),
                Err(_) => Self::read(j@) is None,
            },
            match tag_of(j@) {
                Some(t) => !Self::tag_known(t) ==> (r matches Err(DecodeError::UnknownVariant { union_name, tag })
                    && union_name@ == "TextFormat"@ && tag@ == t),
                None => true,
            },
    {
        let t = get_tag(j)?;
        if same_text(t.as_str(), "text") {
            Self::read_text(j)
        } else if same_text(t.as_str(), "json_object") {
            Self::read_json_object(j)
        } else if same_text(t.as_str(), "json_schema") {
            Self::read_json_schema(j)
        } else {
            Err(DecodeError::UnknownVariant { union_name: "TextFormat".to_owned(), tag: t.clone() })
        }
    }
}

impl TextFormat {
    #[verifier::rlimit(50)]
    fn read_text(j: &Json) -> (r: Result<TextFormat, DecodeError>)
        ensures
            match r {
                Ok(v) => text_format_text(j@) == Some(v.wire()),
                Err(_) => text_format_text(j@) is None,
            },
    {

        Ok(TextFormat::Text)
    }

    #[verifier::rlimit(50)]
    fn read_json_object(j: &Json) -> (r: Result<TextFormat, DecodeError>)
        ensures
            match r {
                Ok(v) => text_format_json_object(j@) == Some(v.wire()),
                Err(_) => text_format_json_object(j@) is None,
            },
    {

        Ok(TextFormat::JsonObject)
    }

    #[verifier::rlimit(50)]
    fn read_json_schema(j: &Json) -> (r: Result<TextFormat, DecodeError>)
        ensures
            match r {
                Ok(v) => text_format_json_schema(j@) == Some(v.wire()),
                Err(_) => text_format_json_schema(j@) is None,
            },
    {
        let name = get_req::<String>(j, "name")?;
        let description = get_opt::<String>(j, "description")?;
        let schema = get_opt::<Json>(j, "schema")?;
        let strict = get_opt::<bool>(j, "strict")?;
        Ok(TextFormat::JsonSchema { name, description, schema, strict })
    }
}

/// Options for a streamed response.
#[derive(Debug, Clone, PartialEq)]
pub struct StreamOptions {
    pub include_obfuscation: Option<bool>,
}

impl Wire for StreamOptions {
    open spec fn wire(&self) -> JValue {
        JValue::Obj(begin() + opt_ent("include_obfuscation"@, self.include_obfuscation))
    }

    open spec fn read(j: JValue) -> Option<JValue> {
        if j is Obj {
            let m = Some(begin());
            let m = cat(m, opt::<bool>(j, "include_obfuscation"@));
            obj(m)
        } else {
            None
        }
    }

    fn to_json(&self) -> (r: Json) {
        let mut m: Vec<(String, Json)> = Vec::new();
        put_opt(&mut m, "include_obfuscation", &self.include_obfuscation);
        Json::Object(m)
    }

    fn from_json(j: &Json) -> (r: Result<Self, DecodeError>) {
        if !j.is_object() {
            return Err(DecodeError::Mismatch);
        }
        let include_obfuscation = get_opt::<bool>(j, "include_obfuscation")?;
        Ok(StreamOptions { include_obfuscation })
    }
}

impl Default for StreamOptions {
    fn default() -> (r: StreamOptions)
        ensures
            r.include_obfuscation is None,
    {
        StreamOptions {
            include_obfuscation: None,
        }
    }
}

/// How much reasoning a request asks for, and how it is summarised.
#[derive(Debug, Clone, PartialEq)]
pub struct ReasoningConfig {
    pub effort: Option<ReasoningEffort>,
    pub summary: Option<ReasoningSummary>,
}

impl Wire for ReasoningConfig {
    open spec fn wire(&self) -> JValue {
        JValue::Obj(
            begin()
                + opt_ent("effort"@, self.effort)
                + opt_ent("summary"@, self.summary),
        )
    }

    open spec fn read(j: JValue) -> Option<JValue> {
        if j is Obj {
            let m = Some(begin());
            let m = cat(m, opt::<ReasoningEffort>(j, "effort"@));
            let m = cat(m, opt::<ReasoningSummary>(j, "summary"@));
            obj(m)
        } else {
            None
        }
    }

    fn to_json(&self) -> (r: Json) {
        let mut m: Vec<(String, Json)> = Vec::new();
        put_opt(&mut m, "effort", &self.effort);
        put_opt(&mut m, "summary", &self.summary);
        Json::Object(m)
    }

    fn from_json(j: &Json) -> (r: Result<Self, DecodeError>) {
        if !j.is_object() {
            return Err(DecodeError::Mismatch);
        }
        let effort = get_opt::<ReasoningEffort>(j, "effort")?;
        let summary = get_opt::<ReasoningSummary>(j, "summary")?;
        Ok(ReasoningConfig { effort, summary })
    }
}

impl Default for ReasoningConfig {
    fn default() -> (r: ReasoningConfig)
        ensures
            r.effort is None,
            r.summary is None,
    {
        ReasoningConfig {
            effort: None,
            summary: None,
        }
    }
}

} // verus!
