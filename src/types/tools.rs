use vstd::prelude::*;

use crate::types::enums::ToolChoice;
use crate::json::{field, same_text, DecodeError, JValue, Json};
use crate::wire::{
    begin, cat, ent, get_opt, get_req, get_tag, obj, opt, opt_ent, put, put_opt, put_tag, req,
    tag_ent, tag_of, Wire,
};

verus! {

/// A tool the model may call: a function, or a remote tool server.
#[derive(Debug, Clone)]
pub enum Tool {
    Function {
        name: String,
        description: Option<String>,
        parameters: Option<Json>,
        strict: Option<bool>,
    },
    Mcp {
        server_label: String,
        server_url: String,
        allowed_tools: Option<Vec<String>>,
    },
}

/// How `j` reads as the variant `function` of `Tool`.
pub open spec fn tool_function(j: JValue) -> Option<JValue> {
    let m = Some(begin() + tag_ent("function"@));
    let m = cat(m, req::<String>(j, "name"@));
    let m = cat(m, opt::<String>(j, "description"@));
    let m = cat(m, opt::<Json>(j, "parameters"@));
    let m = cat(m, opt::<bool>(j, "strict"@));
    obj(m)
}

/// How `j` reads as the variant `mcp` of `Tool`.
pub open spec fn tool_mcp(j: JValue) -> Option<JValue> {
    let m = Some(begin() + tag_ent("mcp"@));
    let m = cat(m, req::<String>(j, "server_label"@));
    let m = cat(m, req::<String>(j, "server_url"@));
    let m = cat(m, opt::<Vec<String>>(j, "allowed_tools"@));
    obj(m)
}

impl Wire for Tool {
    open spec fn wire(&self) -> JValue {
        match self {
            Tool::Function { name, description, parameters, strict } => JValue::Obj(
                begin()
                    + tag_ent("function"@)
                    + ent("name"@, *name)
                    + opt_ent("description"@, *description)
                    + opt_ent("parameters"@, *parameters)
                    + opt_ent("strict"@, *strict),
            ),
            Tool::Mcp { server_label, server_url, allowed_tools } => JValue::Obj(
                begin()
                    + tag_ent("mcp"@)
                    + ent("server_label"@, *server_label)
                    + ent("server_url"@, *server_url)
                    + opt_ent("allowed_tools"@, *allowed_tools),
            ),
        }
    }

    open spec fn read(j: JValue) -> Option<JValue> {
        match tag_of(j) {
            Some(t) => {
                if t == "function"@ {
                    tool_function(j)
                } else if t == "mcp"@ {
                    tool_mcp(j)
                } else {
                    None
                }
            },
            None => None,
        }
    }

    fn to_json(&self) -> (r: Json) {
        let mut m: Vec<(String, Json)> = Vec::new();
        match self {
            Tool::Function { name, description, parameters, strict } => {
                put_tag(&mut m, "function");
                put(&mut m, "name", name);
                put_opt(&mut m, "description", description);
                put_opt(&mut m, "parameters", parameters);
                put_opt(&mut m, "strict", strict);
            },
            Tool::Mcp { server_label, server_url, allowed_tools } => {
                put_tag(&mut m, "mcp");
                put(&mut m, "server_label", server_label);
                put(&mut m, "server_url", server_url);
                put_opt(&mut m, "allowed_tools", allowed_tools);
            },
        }
        Json::Object(m)
    }

    fn from_json(j: &Json) -> (r: Result<Self, DecodeError>) {
        Self::decode(j)
    }
}

impl Tool {
    /// Tells whether `t` names a variant of `Tool`.
    pub open spec fn tag_known(t: Seq<char>) -> bool {
        t == "function"@ || t == "mcp"@
    }

    /// Reads a `Tool` from JSON; a `type` that names no variant gives `UnknownVariant`
    /// with that `type`.
    pub fn decode(j: &Json) -> (r: Result<Self, DecodeError>)
        ensures
            match r {
                Ok(v) => Self::read(j@) == Some(v.wire()),
                Err(_) => Self::read(j@) is None,
            },
            match tag_of(j@) {
                Some(t) => !Self::tag_known(t) ==> (r matches Err(DecodeError::UnknownVariant { union_name, tag })
                    && union_name@ == "Tool"@ && tag@ == t),
                None => true,
            },
    {
        let t = get_tag(j)?;
        if same_text(t.as_str(), "function") {
            Self::read_function(j)
        } else if same_text(t.as_str(), "mcp") {
            Self::read_mcp(j)
        } else {
            Err(DecodeError::UnknownVariant { union_name: "Tool".to_owned(), tag: t.clone() })
        }
    }
}

impl Tool {
    #[verifier::rlimit(50)]
    fn read_function(j: &Json) -> (r: Result<Tool, DecodeError>)
        ensures
            match r {
                Ok(v) => tool_function(j@) == Some(v.wire()),
                Err(_) => tool_function(j@) is None,
            },
    {
        let name = get_req::<String>(j, "name")?;
        let description = get_opt::<String>(j, "description")?;
        let parameters = get_opt::<Json>(j, "parameters")?;
        let strict = get_opt::<bool>(j, "strict")?;
        Ok(Tool::Function { name, description, parameters, strict })
    }

    #[verifier::rlimit(50)]
    fn read_mcp(j: &Json) -> (r: Result<Tool, DecodeError>)
        ensures
            match r {
                Ok(v) => tool_mcp(j@) == Some(v.wire()),
                Err(_) => tool_mcp(j@) is None,
            },
    {
        let server_label = get_req::<String>(j, "server_label")?;
        let server_url = get_req::<String>(j, "server_url")?;
        let allowed_tools = get_opt::<Vec<String>>(j, "allowed_tools")?;
        Ok(Tool::Mcp { server_label, server_url, allowed_tools })
    }
}

impl Tool {
    /// A function tool with only its name set.
    pub fn function(name: &str) -> (r: Self)
        ensures
            r is Function,
            r->Function_name@ == name@,
            r->Function_description is None,
            r->Function_parameters is None,
            r->Function_strict is None,
    {
        Tool::Function { name: name.to_owned(), description: None, parameters: None, strict: None }
    }

    /// A tool server with its label and URL, allowing all of its tools.
    pub fn mcp(label: &str, url: &str) -> (r: Self)
        ensures
            r is Mcp,
            r->Mcp_server_label@ == label@,
            r->Mcp_server_url@ == url@,
            r->Mcp_allowed_tools is None,
    {
        Tool::Mcp { server_label: label.to_owned(), server_url: url.to_owned(), allowed_tools: None }
    }

    /// Limits a tool server to the named tools; a function tool is returned as it is.
    pub fn with_allowed_tools(self, tools: Vec<String>) -> (r: Self)
        ensures
            match self {
                Tool::Mcp { server_label, server_url, .. } => r == (Tool::Mcp {
                    server_label,
                    server_url,
                    allowed_tools: Some(tools),
                }),
                _ => r == self,
            },
    {
        match self {
            Tool::Mcp { server_label, server_url, allowed_tools: _ } => Tool::Mcp {
                server_label,
                server_url,
                allowed_tools: Some(tools),
            },
            other => other,
        }
    }

    /// Sets the description of a function tool; a tool server is returned as it is.
    pub fn with_description(self, desc: &str) -> (r: Self)
        ensures
            match self {
                Tool::Function { name, parameters, strict, .. } => r is Function
                    && r->Function_name == name && r->Function_parameters == parameters
                    && r->Function_strict == strict && r->Function_description is Some
                    && r->Function_description->0@ == desc@,
                _ => r == self,
            },
    {
        match self {
            Tool::Function { name, description: _, parameters, strict } => Tool::Function {
                name,
                description: Some(desc.to_owned()),
                parameters,
                strict,
            },
            other => other,
        }
    }

    /// Sets the JSON schema of a function tool's parameters; a tool server is returned as it is.
    pub fn with_parameters(self, params: Json) -> (r: Self)
        ensures
            match self {
                Tool::Function { name, description, strict, .. } => r == (Tool::Function {
                    name,
                    description,
                    parameters: Some(params),
                    strict,
                }),
                _ => r == self,
            },
    {
        match self {
            Tool::Function { name, description, parameters: _, strict } => Tool::Function {
                name,
                description,
                parameters: Some(params),
                strict,
            },
            other => other,
        }
    }

    /// Sets whether a function tool's arguments must follow its schema exactly;
    /// a tool server is returned as it is.
    pub fn strict(self, strict: bool) -> (r: Self)
        ensures
            match self {
                Tool::Function { name, description, parameters, .. } => r == (Tool::Function {
                    name,
                    description,
                    parameters,
                    strict: Some(strict),
                }),
                _ => r == self,
            },
    {
        match self {
            Tool::Function { name, description, parameters, strict: _ } => Tool::Function {
                name,
                description,
                parameters,
                strict: Some(strict),
            },
            other => other,
        }
    }
}

/// Which tools the model may call: a plain choice, one named tool, or a list of allowed tools.
///
/// A JSON string reads as the plain choice; an object with a `tools` member as the
/// list of allowed tools; any other object as the one named tool.
#[derive(Debug, Clone, PartialEq)]
pub enum ToolChoiceParam {
    Simple(ToolChoice),
    Specific { tool_type: String, name: String },
    Allowed { allowed_type: String, tools: Vec<SpecificTool>, mode: ToolChoice },
}

/// How an object reads as one named tool.
pub open spec fn tool_choice_specific(j: JValue) -> Option<JValue> {
    obj(cat(cat(Some(begin()), req::<String>(j, "type"@)), req::<String>(j, "name"@)))
}

/// How an object reads as a list of allowed tools.
pub open spec fn tool_choice_allowed(j: JValue) -> Option<JValue> {
    obj(
        cat(
            cat(cat(Some(begin()), req::<String>(j, "type"@)), req::<Vec<SpecificTool>>(j, "tools"@)),
            req::<ToolChoice>(j, "mode"@),
        ),
    )
}

impl Wire for ToolChoiceParam {
    open spec fn wire(&self) -> JValue {
        match self {
            ToolChoiceParam::Simple(c) => c.wire(),
            ToolChoiceParam::Specific { tool_type, name } => JValue::Obj(
                begin() + ent("type"@, *tool_type) + ent("name"@, *name),
            ),
            ToolChoiceParam::Allowed { allowed_type, tools, mode } => JValue::Obj(
                begin() + ent("type"@, *allowed_type) + ent("tools"@, *tools) + ent("mode"@, *mode),
            ),
        }
    }

    open spec fn read(j: JValue) -> Option<JValue> {
        match j {
            JValue::Str(_) => ToolChoice::read(j),
            JValue::Obj(_) => if field(j, "tools"@) is Some {
                tool_choice_allowed(j)
            } else {
                tool_choice_specific(j)
            },
            _ => None,
        }
    }

    fn to_json(&self) -> (r: Json) {
        match self {
            ToolChoiceParam::Simple(c) => c.to_json(),
            ToolChoiceParam::Specific { tool_type, name } => {
                let mut m: Vec<(String, Json)> = Vec::new();
                put(&mut m, "type", tool_type);
                put(&mut m, "name", name);
                Json::Object(m)
            },
            ToolChoiceParam::Allowed { allowed_type, tools, mode } => {
                let mut m: Vec<(String, Json)> = Vec::new();
                put(&mut m, "type", allowed_type);
                put(&mut m, "tools", tools);
                put(&mut m, "mode", mode);
                Json::Object(m)
            },
        }
    }

    fn from_json(j: &Json) -> (r: Result<Self, DecodeError>) {
        match j {
            Json::Str(_) => match ToolChoice::from_json(j) {
                Ok(c) => Ok(ToolChoiceParam::Simple(c)),
                Err(e) => Err(e),
            },
            Json::Object(_) => if j.get("tools").is_some() {
                let allowed_type = get_req::<String>(j, "type")?;
                let tools = get_req::<Vec<SpecificTool>>(j, "tools")?;
                let mode = get_req::<ToolChoice>(j, "mode")?;
                Ok(ToolChoiceParam::Allowed { allowed_type, tools, mode })
            } else {
                let tool_type = get_req::<String>(j, "type")?;
                let name = get_req::<String>(j, "name")?;
                Ok(ToolChoiceParam::Specific { tool_type, name })
            },
            _ => Err(DecodeError::Mismatch),
        }
    }
}

impl Default for ToolChoiceParam {
    fn default() -> (r: ToolChoiceParam)
        ensures
            r == ToolChoiceParam::Simple(ToolChoice::Auto),
    {
        ToolChoiceParam::Simple(ToolChoice::Auto)
    }
}

/// A tool named by its kind and name.
#[derive(Debug, Clone, PartialEq)]
pub struct SpecificTool {
    pub tool_type: String,
    pub name: String,
}

impl Wire for SpecificTool {
    open spec fn wire(&self) -> JValue {
        JValue::Obj(
            begin()
                + ent("type"@, self.tool_type)
                + ent("name"@, self.name),
        )
    }

    open spec fn read(j: JValue) -> Option<JValue> {
        if j is Obj {
            let m = Some(begin());
            let m = cat(m, req::<String>(j, "type"@));
            let m = cat(m, req::<String>(j, "name"@));
            obj(m)
        } else {
            None
        }
    }

    fn to_json(&self) -> (r: Json) {
        let mut m: Vec<(String, Json)> = Vec::new();
        put(&mut m, "type", &self.tool_type);
        put(&mut m, "name", &self.name);
        Json::Object(m)
    }

    fn from_json(j: &Json) -> (r: Result<Self, DecodeError>) {
        if !j.is_object() {
            return Err(DecodeError::Mismatch);
        }
        let tool_type = get_req::<String>(j, "type")?;
        let name = get_req::<String>(j, "name")?;
        Ok(SpecificTool { tool_type, name })
    }
}

/// A function tool described as a plain object.
#[derive(Debug, Clone)]
pub struct FunctionToolParam {
    pub name: String,
    pub description: Option<String>,
    pub parameters: Option<Json>,
    pub strict: Option<bool>,
    pub tool_type: String,
}

impl Wire for FunctionToolParam {
    open spec fn wire(&self) -> JValue {
        JValue::Obj(
            begin()
                + ent("name"@, self.name)
                + opt_ent("description"@, self.description)
                + opt_ent("parameters"@, self.parameters)
                + opt_ent("strict"@, self.strict)
                + ent("type"@, self.tool_type),
        )
    }

    open spec fn read(j: JValue) -> Option<JValue> {
        if j is Obj {
            let m = Some(begin());
            let m = cat(m, req::<String>(j, "name"@));
            let m = cat(m, opt::<String>(j, "description"@));
            let m = cat(m, opt::<Json>(j, "parameters"@));
            let m = cat(m, opt::<bool>(j, "strict"@));
            let m = cat(m, req::<String>(j, "type"@));
            obj(m)
        } else {
            None
        }
    }

    fn to_json(&self) -> (r: Json) {
        let mut m: Vec<(String, Json)> = Vec::new();
        put(&mut m, "name", &self.name);
        put_opt(&mut m, "description", &self.description);
        put_opt(&mut m, "parameters", &self.parameters);
        put_opt(&mut m, "strict", &self.strict);
        put(&mut m, "type", &self.tool_type);
        Json::Object(m)
    }

    fn from_json(j: &Json) -> (r: Result<Self, DecodeError>) {
        if !j.is_object() {
            return Err(DecodeError::Mismatch);
        }
        let name = get_req::<String>(j, "name")?;
        let description = get_opt::<String>(j, "description")?;
        let parameters = get_opt::<Json>(j, "parameters")?;
        let strict = get_opt::<bool>(j, "strict")?;
        let tool_type = get_req::<String>(j, "type")?;
        Ok(FunctionToolParam { name, description, parameters, strict, tool_type })
    }
}

} // verus!
