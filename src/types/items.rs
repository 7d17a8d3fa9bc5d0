use vstd::prelude::*;

use crate::types::content::MessageContent;
use crate::types::enums::{FunctionCallOutputStatus, FunctionCallStatus, MessageRole, MessageStatus};
use crate::json::{same_text, DecodeError, JValue, Json};
use crate::wire::{
    begin, cat, ent, get_opt, get_req, get_tag, obj, opt, opt_ent, put, put_opt, put_tag, req,
    tag_ent, tag_of, Wire,
};

verus! {

/// A unit of a conversation: a message, a function call or its output, reasoning, or a reference to an earlier item.
#[derive(Debug, Clone, PartialEq)]
pub enum Item {
    Message {
        id: Option<String>,
        status: Option<MessageStatus>,
        role: MessageRole,
        content: Vec<MessageContent>,
    },
    FunctionCall {
        id: Option<String>,
        call_id: String,
        name: String,
        arguments: String,
        status: FunctionCallStatus,
    },
    FunctionCallOutput {
        id: Option<String>,
        call_id: String,
        output: FunctionOutput,
        status: FunctionCallOutputStatus,
    },
    Reasoning {
        id: Option<String>,
        content: Option<Vec<MessageContent>>,
        summary: Vec<MessageContent>,
        encrypted_content: Option<String>,
    },
    ItemReference {
        id: String,
    },
}

/// How `j` reads as the variant `message` of `Item`.
pub open spec fn item_message(j: JValue) -> Option<JValue> {
    let m = Some(begin() + tag_ent("message"@));
    let m = cat(m, opt::<String>(j, "id"@));
    let m = cat(m, opt::<MessageStatus>(j, "status"@));
    let m = cat(m, req::<MessageRole>(j, "role"@));
    let m = cat(m, req::<Vec<MessageContent>>(j, "content"@));
    obj(m)
}

/// How `j` reads as the variant `function_call` of `Item`.
pub open spec fn item_function_call(j: JValue) -> Option<JValue> {
    let m = Some(begin() + tag_ent("function_call"@));
    let m = cat(m, opt::<String>(j, "id"@));
    let m = cat(m, req::<String>(j, "call_id"@));
    let m = cat(m, req::<String>(j, "name"@));
    let m = cat(m, req::<String>(j, "arguments"@));
    let m = cat(m, req::<FunctionCallStatus>(j, "status"@));
    obj(m)
}

/// How `j` reads as the variant `function_call_output` of `Item`.
pub open spec fn item_function_call_output(j: JValue) -> Option<JValue> {
    let m = Some(begin() + tag_ent("function_call_output"@));
    let m = cat(m, opt::<String>(j, "id"@));
    let m = cat(m, req::<String>(j, "call_id"@));
    let m = cat(m, req::<FunctionOutput>(j, "output"@));
    let m = cat(m, req::<FunctionCallOutputStatus>(j, "status"@));
    obj(m)
}

/// How `j` reads as the variant `reasoning` of `Item`.
pub open spec fn item_reasoning(j: JValue) -> Option<JValue> {
    let m = Some(begin() + tag_ent("reasoning"@));
    let m = cat(m, opt::<String>(j, "id"@));
    let m = cat(m, opt::<Vec<MessageContent>>(j, "content"@));
    let m = cat(m, req::<Vec<MessageContent>>(j, "summary"@));
    let m = cat(m, opt::<String>(j, "encrypted_content"@));
    obj(m)
}

/// How `j` reads as the variant `item_reference` of `Item`.
pub open spec fn item_item_reference(j: JValue) -> Option<JValue> {
    let m = Some(begin() + tag_ent("item_reference"@));
    let m = cat(m, req::<String>(j, "id"@));
    obj(m)
}

impl Wire for Item {
    open spec fn wire(&self) -> JValue {
        match self {
            Item::Message { id, status, role, content } => JValue::Obj(
                begin()
                    + tag_ent("message"@)
                    + opt_ent("id"@, *id)
                    + opt_ent("status"@, *status)
                    + ent("role"@, *role)
                    + ent("content"@, *content),
            ),
            Item::FunctionCall { id, call_id, name, arguments, status } => JValue::Obj(
                begin()
                    + tag_ent("function_call"@)
                    + opt_ent("id"@, *id)
                    + ent("call_id"@, *call_id)
                    + ent("name"@, *name)
                    + ent("arguments"@, *arguments)
                    + ent("status"@, *status),
            ),
            Item::FunctionCallOutput { id, call_id, output, status } => JValue::Obj(
                begin()
                    + tag_ent("function_call_output"@)
                    + opt_ent("id"@, *id)
                    + ent("call_id"@, *call_id)
                    + ent("output"@, *output)
                    + ent("status"@, *status),
            ),
            Item::Reasoning { id, content, summary, encrypted_content } => JValue::Obj(
                begin()
                    + tag_ent("reasoning"@)
                    + opt_ent("id"@, *id)
                    + opt_ent("content"@, *content)
                    + ent("summary"@, *summary)
                    + opt_ent("encrypted_content"@, *encrypted_content),
            ),
            Item::ItemReference { id } => JValue::Obj(
                begin()
                    + tag_ent("item_reference"@)
                    + ent("id"@, *id),
            ),
        }
    }

    open spec fn read(j: JValue) -> Option<JValue> {
        match tag_of(j) {
            Some(t) => {
                if t == "message"@ {
                    item_message(j)
                } else if t == "function_call"@ {
                    item_function_call(j)
                } else if t == "function_call_output"@ {
                    item_function_call_output(j)
                } else if t == "reasoning"@ {
                    item_reasoning(j)
                } else if t == "item_reference"@ {
                    item_item_reference(j)
                } else {
                    None
                }
            },
            None => None,
        }
    }

    fn to_json(&self) -> (r: Json) {
        let mut m: Vec<(String, Json)> = Vec::new();
        match self {
            Item::Message { id, status, role, content } => {
                put_tag(&mut m, "message");
                put_opt(&mut m, "id", id);
                put_opt(&mut m, "status", status);
                put(&mut m, "role", role);
                put(&mut m, "content", content);
            },
            Item::FunctionCall { id, call_id, name, arguments, status } => {
                put_tag(&mut m, "function_call");
                put_opt(&mut m, "id", id);
                put(&mut m, "call_id", call_id);
                put(&mut m, "name", name);
                put(&mut m, "arguments", arguments);
                put(&mut m, "status", status);
            },
            Item::FunctionCallOutput { id, call_id, output, status } => {
                put_tag(&mut m, "function_call_output");
                put_opt(&mut m, "id", id);
                put(&mut m, "call_id", call_id);
                put(&mut m, "output", output);
                put(&mut m, "status", status);
            },
            Item::Reasoning { id, content, summary, encrypted_content } => {
                put_tag(&mut m, "reasoning");
                put_opt(&mut m, "id", id);
                put_opt(&mut m, "content", content);
                put(&mut m, "summary", summary);
                put_opt(&mut m, "encrypted_content", encrypted_content);
            },
            Item::ItemReference { id } => {
                put_tag(&mut m, "item_reference");
                put(&mut m, "id", id);
            },
        }
        Json::Object(m)
    }

    fn from_json(j: &Json) -> (r: Result<Self, DecodeError>) {
        Self::decode(j)
    }
}

impl Item {
    /// Tells whether `t` names a variant of `Item`.
    pub open spec fn tag_known(t: Seq<char>) -> bool {
        t == "message"@ || t == "function_call"@ || t == "function_call_output"@ || t == "reasoning"@ || t == "item_reference"@
    }

    /// Reads a `Item` from JSON; a `type` that names no variant gives `UnknownVariant`
    /// with that `type`.
    pub fn decode(j: &Json) -> (r: Result<Self, DecodeError>)
        ensures
            match r {
                Ok(v) => Self::read(j@) == Some(v.wire()),
                Err(_) => Self::read(j@) is None,
            },
            match tag_of(j@) {
                Some(t) => !Self::tag_known(t) ==> (r matches Err(DecodeError::UnknownVariant { union_name, tag })
                    && union_name@ == "Item"@ && tag@ == t),
                None => true,
            },
    {
        let t = get_tag(j)?;
        if same_text(t.as_str(), "message") {
            Self::read_message(j)
        } else if same_text(t.as_str(), "function_call") {
            Self::read_function_call(j)
        } else if same_text(t.as_str(), "function_call_output") {
            Self::read_function_call_output(j)
        } else if same_text(t.as_str(), "reasoning") {
            Self::read_reasoning(j)
        } else if same_text(t.as_str(), "item_reference") {
            Self::read_item_reference(j)
        } else {
            Err(DecodeError::UnknownVariant { union_name: "Item".to_owned(), tag: t.clone() })
        }
    }
}

impl Item {
    #[verifier::rlimit(50)]
    fn read_message(j: &Json) -> (r: Result<Item, DecodeError>)
        ensures
            match r {
                Ok(v) => item_message(j@) == Some(v.wire()),
                Err(_) => item_message(j@) is None,
            },
    {
        let id = get_opt::<String>(j, "id")?;
        let status = get_opt::<MessageStatus>(j, "status")?;
        let role = get_req::<MessageRole>(j, "role")?;
        let content = get_req::<Vec<MessageContent>>(j, "content")?;
        Ok(Item::Message { id, status, role, content })
    }

    #[verifier::rlimit(50)]
    fn read_function_call(j: &Json) -> (r: Result<Item, DecodeError>)
        ensures
            match r {
                Ok(v) => item_function_call(j@) == Some(v.wire()),
                Err(_) => item_function_call(j@) is None,
            },
    {
        let id = get_opt::<String>(j, "id")?;
        let call_id = get_req::<String>(j, "call_id")?;
        let name = get_req::<String>(j, "name")?;
        let arguments = get_req::<String>(j, "arguments")?;
        let status = get_req::<FunctionCallStatus>(j, "status")?;
        Ok(Item::FunctionCall { id, call_id, name, arguments, status })
    }

    #[verifier::rlimit(50)]
    fn read_function_call_output(j: &Json) -> (r: Result<Item, DecodeError>)
        ensures
            match r {
                Ok(v) => item_function_call_output(j@) == Some(v.wire()),
                Err(_) => item_function_call_output(j@) is None,
            },
    {
        let id = get_opt::<String>(j, "id")?;
        let call_id = get_req::<String>(j, "call_id")?;
        let output = get_req::<FunctionOutput>(j, "output")?;
        let status = get_req::<FunctionCallOutputStatus>(j, "status")?;
        Ok(Item::FunctionCallOutput { id, call_id, output, status })
    }

    #[verifier::rlimit(50)]
    fn read_reasoning(j: &Json) -> (r: Result<Item, DecodeError>)
        ensures
            match r {
                Ok(v) => item_reasoning(j@) == Some(v.wire()),
                Err(_) => item_reasoning(j@) is None,
            },
    {
        let id = get_opt::<String>(j, "id")?;
        let content = get_opt::<Vec<MessageContent>>(j, "content")?;
        let summary = get_req::<Vec<MessageContent>>(j, "summary")?;
        let encrypted_content = get_opt::<String>(j, "encrypted_content")?;
        Ok(Item::Reasoning { id, content, summary, encrypted_content })
    }

    #[verifier::rlimit(50)]
    fn read_item_reference(j: &Json) -> (r: Result<Item, DecodeError>)
        ensures
            match r {
                Ok(v) => item_item_reference(j@) == Some(v.wire()),
                Err(_) => item_item_reference(j@) is None,
            },
    {
        let id = get_req::<String>(j, "id")?;
        Ok(Item::ItemReference { id })
    }
}

/// What a function call returned: a string, or a list of content parts.
///
/// A JSON string reads as the string; a JSON array as the list; nothing else reads.
#[derive(Debug, Clone, PartialEq)]
pub enum FunctionOutput {
    Text(String),
    Content(Vec<MessageContent>),
}

impl Wire for FunctionOutput {
    open spec fn wire(&self) -> JValue {
        match self {
            FunctionOutput::Text(s) => s.wire(),
            FunctionOutput::Content(v) => v.wire(),
        }
    }

    open spec fn read(j: JValue) -> Option<JValue> {
        match j {
            JValue::Str(s) => Some(JValue::Str(s)),
            JValue::Arr(_) => <Vec<MessageContent> as Wire>::read(j),
            _ => None,
        }
    }

    fn to_json(&self) -> (r: Json) {
        match self {
            FunctionOutput::Text(s) => s.to_json(),
            FunctionOutput::Content(v) => v.to_json(),
        }
    }

    fn from_json(j: &Json) -> (r: Result<Self, DecodeError>) {
        match j {
            Json::Str(s) => Ok(FunctionOutput::Text(s.clone())),
            Json::Array(_) => match <Vec<MessageContent> as Wire>::from_json(j) {
                Ok(v) => Ok(FunctionOutput::Content(v)),
                Err(e) => Err(e),
            },
            _ => Err(DecodeError::Mismatch),
        }
    }
}

impl Item {
    /// A message from the user holding one text part.
    pub fn user_message(content: &str) -> (r: Self)
        ensures
            r is Message,
            r->Message_id is None,
            r->Message_status is None,
            r->Message_role == MessageRole::User,
            r->Message_content@.len() == 1,
            r->Message_content@[0] is InputText,
            r->Message_content@[0]->InputText_text@ == content@,
    {
        let mut parts: Vec<MessageContent> = Vec::new();
        parts.push(MessageContent::input_text(content));
        Item::Message { id: None, status: None, role: MessageRole::User, content: parts }
    }

    /// A message from the user holding the given parts.
    pub fn user_message_with_content(content: Vec<MessageContent>) -> (r: Self)
        ensures
            r == (Item::Message { id: None, status: None, role: MessageRole::User, content }),
    {
        Item::Message { id: None, status: None, role: MessageRole::User, content }
    }

    /// A message from the assistant holding one output text part.
    pub fn assistant_message(content: &str) -> (r: Self)
        ensures
            r is Message,
            r->Message_id is None,
            r->Message_status is None,
            r->Message_role == MessageRole::Assistant,
            r->Message_content@.len() == 1,
            r->Message_content@[0] is OutputText,
            r->Message_content@[0]->OutputText_text@ == content@,
            r->Message_content@[0]->OutputText_annotations@.len() == 0,
            r->Message_content@[0]->OutputText_logprobs is None,
    {
        let mut parts: Vec<MessageContent> = Vec::new();
        parts.push(MessageContent::output_text(content));
        Item::Message { id: None, status: None, role: MessageRole::Assistant, content: parts }
    }

    /// A system message holding one text part.
    pub fn system_message(content: &str) -> (r: Self)
        ensures
            r is Message,
            r->Message_id is None,
            r->Message_status is None,
            r->Message_role == MessageRole::System,
            r->Message_content@.len() == 1,
            r->Message_content@[0] is InputText,
            r->Message_content@[0]->InputText_text@ == content@,
    {
        let mut parts: Vec<MessageContent> = Vec::new();
        parts.push(MessageContent::input_text(content));
        Item::Message { id: None, status: None, role: MessageRole::System, content: parts }
    }

    /// A developer message holding one text part.
    pub fn developer_message(content: &str) -> (r: Self)
        ensures
            r is Message,
            r->Message_id is None,
            r->Message_status is None,
            r->Message_role == MessageRole::Developer,
            r->Message_content@.len() == 1,
            r->Message_content@[0] is InputText,
            r->Message_content@[0]->InputText_text@ == content@,
    {
        let mut parts: Vec<MessageContent> = Vec::new();
        parts.push(MessageContent::input_text(content));
        Item::Message { id: None, status: None, role: MessageRole::Developer, content: parts }
    }

    /// A reference to an earlier item by its id.
    pub fn reference(id: &str) -> (r: Self)
        ensures
            r is ItemReference,
            r->ItemReference_id@ == id@,
    {
        Item::ItemReference { id: id.to_owned() }
    }
}

} // verus!
