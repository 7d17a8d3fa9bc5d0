use vstd::prelude::*;

use crate::json::{same_text, DecodeError, JValue, Json};
use crate::wire::Wire;

verus! {

/// Who authored a message.
#[derive(Debug, Clone, Copy, PartialEq, Eq)]
pub enum MessageRole {
    User,
    Assistant,
    System,
    Developer,
}

impl Wire for MessageRole {
    open spec fn wire(&self) -> JValue {
        match self {
            MessageRole::User => JValue::Str("user"@),
            MessageRole::Assistant => JValue::Str("assistant"@),
            MessageRole::System => JValue::Str("system"@),
            MessageRole::Developer => JValue::Str("developer"@),
        }
    }

    open spec fn read(j: JValue) -> Option<JValue> {
        match j {
            JValue::Str(s) => {
                if s == "user"@ {
                    Some(JValue::Str(s))
                } else if s == "assistant"@ {
                    Some(JValue::Str(s))
                } else if s == "system"@ {
                    Some(JValue::Str(s))
                } else if s == "developer"@ {
                    Some(JValue::Str(s))
                } else {
                    None
                }
            },
            _ => None,
        }
    }

    fn to_json(&self) -> (r: Json) {
        match self {
            MessageRole::User => Json::Str("user".to_owned()),
            MessageRole::Assistant => Json::Str("assistant".to_owned()),
            MessageRole::System => Json::Str("system".to_owned()),
            MessageRole::Developer => Json::Str("developer".to_owned()),
        }
    }

    fn from_json(j: &Json) -> (r: Result<Self, DecodeError>) {
        Self::decode(j)
    }
}

impl MessageRole {
    /// Tells whether `s` names a value of `MessageRole`.
    pub open spec fn name_known(s: Seq<char>) -> bool {
        s == "user"@ || s == "assistant"@ || s == "system"@ || s == "developer"@
    }

    /// Reads a `MessageRole` from JSON; a string that names no value gives `UnknownVariant`
    /// with that string.
    pub fn decode(j: &Json) -> (r: Result<Self, DecodeError>)
        ensures
            match r {
                Ok(v) => Self::read(j@) == Some(v.wire()),
                Err(_) => Self::read(j@) is None,
            },
            match j@ {
                JValue::Str(s) => !Self::name_known(s) ==> (r matches Err(DecodeError::UnknownVariant { union_name, tag })
                    && union_name@ == "MessageRole"@ && tag@ == s),
                _ => true,
            },
    {
        match j {
            Json::Str(s) => {
                if same_text(s.as_str(), "user") {
                    Ok(MessageRole::User)
                } else if same_text(s.as_str(), "assistant") {
                    Ok(MessageRole::Assistant)
                } else if same_text(s.as_str(), "system") {
                    Ok(MessageRole::System)
                } else if same_text(s.as_str(), "developer") {
                    Ok(MessageRole::Developer)
                } else {
                    Err(DecodeError::UnknownVariant { union_name: "MessageRole".to_owned(), tag: s.clone() })
                }
            },
            _ => Err(DecodeError::Mismatch),
        }
    }
}

/// The progress of a message item.
#[derive(Debug, Clone, Copy, PartialEq, Eq)]
pub enum MessageStatus {
    InProgress,
    Completed,
    Incomplete,
}

impl Wire for MessageStatus {
    open spec fn wire(&self) -> JValue {
        match self {
            MessageStatus::InProgress => JValue::Str("in_progress"@),
            MessageStatus::Completed => JValue::Str("completed"@),
            MessageStatus::Incomplete => JValue::Str("incomplete"@),
        }
    }

    open spec fn read(j: JValue) -> Option<JValue> {
        match j {
            JValue::Str(s) => {
                if s == "in_progress"@ {
                    Some(JValue::Str(s))
                } else if s == "completed"@ {
                    Some(JValue::Str(s))
                } else if s == "incomplete"@ {
                    Some(JValue::Str(s))
                } else {
                    None
                }
            },
            _ => None,
        }
    }

    fn to_json(&self) -> (r: Json) {
        match self {
            MessageStatus::InProgress => Json::Str("in_progress".to_owned()),
            MessageStatus::Completed => Json::Str("completed".to_owned()),
            MessageStatus::Incomplete => Json::Str("incomplete".to_owned()),
        }
    }

    fn from_json(j: &Json) -> (r: Result<Self, DecodeError>) {
        Self::decode(j)
    }
}

impl MessageStatus {
    /// Tells whether `s` names a value of `MessageStatus`.
    pub open spec fn name_known(s: Seq<char>) -> bool {
        s == "in_progress"@ || s == "completed"@ || s == "incomplete"@
    }

    /// Reads a `MessageStatus` from JSON; a string that names no value gives `UnknownVariant`
    /// with that string.
    pub fn decode(j: &Json) -> (r: Result<Self, DecodeError>)
        ensures
            match r {
                Ok(v) => Self::read(j@) == Some(v.wire()),
                Err(_) => Self::read(j@) is None,
            },
            match j@ {
                JValue::Str(s) => !Self::name_known(s) ==> (r matches Err(DecodeError::UnknownVariant { union_name, tag })
                    && union_name@ == "MessageStatus"@ && tag@ == s),
                _ => true,
            },
    {
        match j {
            Json::Str(s) => {
                if same_text(s.as_str(), "in_progress") {
                    Ok(MessageStatus::InProgress)
                } else if same_text(s.as_str(), "completed") {
                    Ok(MessageStatus::Completed)
                } else if same_text(s.as_str(), "incomplete") {
                    Ok(MessageStatus::Incomplete)
                } else {
                    Err(DecodeError::UnknownVariant { union_name: "MessageStatus".to_owned(), tag: s.clone() })
                }
            },
            _ => Err(DecodeError::Mismatch),
        }
    }
}

/// The progress of a function call item.
#[derive(Debug, Clone, Copy, PartialEq, Eq)]
pub enum FunctionCallStatus {
    InProgress,
    Completed,
    Incomplete,
}

impl Wire for FunctionCallStatus {
    open spec fn wire(&self) -> JValue {
        match self {
            FunctionCallStatus::InProgress => JValue::Str("in_progress"@),
            FunctionCallStatus::Completed => JValue::Str("completed"@),
            FunctionCallStatus::Incomplete => JValue::Str("incomplete"@),
        }
    }

    open spec fn read(j: JValue) -> Option<JValue> {
        match j {
            JValue::Str(s) => {
                if s == "in_progress"@ {
                    Some(JValue::Str(s))
                } else if s == "completed"@ {
                    Some(JValue::Str(s))
                } else if s == "incomplete"@ {
                    Some(JValue::Str(s))
                } else {
                    None
                }
            },
            _ => None,
        }
    }

    fn to_json(&self) -> (r: Json) {
        match self {
            FunctionCallStatus::InProgress => Json::Str("in_progress".to_owned()),
            FunctionCallStatus::Completed => Json::Str("completed".to_owned()),
            FunctionCallStatus::Incomplete => Json::Str("incomplete".to_owned()),
        }
    }

    fn from_json(j: &Json) -> (r: Result<Self, DecodeError>) {
        Self::decode(j)
    }
}

impl FunctionCallStatus {
    /// Tells whether `s` names a value of `FunctionCallStatus`.
    pub open spec fn name_known(s: Seq<char>) -> bool {
        s == "in_progress"@ || s == "completed"@ || s == "incomplete"@
    }

    /// Reads a `FunctionCallStatus` from JSON; a string that names no value gives `UnknownVariant`
    /// with that string.
    pub fn decode(j: &Json) -> (r: Result<Self, DecodeError>)
        ensures
            match r {
                Ok(v) => Self::read(j@) == Some(v.wire()),
                Err(_) => Self::read(j@) is None,
            },
            match j@ {
                JValue::Str(s) => !Self::name_known(s) ==> (r matches Err(DecodeError::UnknownVariant { union_name, tag })
                    && union_name@ == "FunctionCallStatus"@ && tag@ == s),
                _ => true,
            },
    {
        match j {
            Json::Str(s) => {
                if same_text(s.as_str(), "in_progress") {
                    Ok(FunctionCallStatus::InProgress)
                } else if same_text(s.as_str(), "completed") {
                    Ok(FunctionCallStatus::Completed)
                } else if same_text(s.as_str(), "incomplete") {
                    Ok(FunctionCallStatus::Incomplete)
                } else {
                    Err(DecodeError::UnknownVariant { union_name: "FunctionCallStatus".to_owned(), tag: s.clone() })
                }
            },
            _ => Err(DecodeError::Mismatch),
        }
    }
}

/// The progress of a function call output item.
#[derive(Debug, Clone, Copy, PartialEq, Eq)]
pub enum FunctionCallOutputStatus {
    InProgress,
    Completed,
    Incomplete,
}

impl Wire for FunctionCallOutputStatus {
    open spec fn wire(&self) -> JValue {
        match self {
            FunctionCallOutputStatus::InProgress => JValue::Str("in_progress"@),
            FunctionCallOutputStatus::Completed => JValue::Str("completed"@),
            FunctionCallOutputStatus::Incomplete => JValue::Str("incomplete"@),
        }
    }

    open spec fn read(j: JValue) -> Option<JValue> {
        match j {
            JValue::Str(s) => {
                if s == "in_progress"@ {
                    Some(JValue::Str(s))
                } else if s == "completed"@ {
                    Some(JValue::Str(s))
                } else if s == "incomplete"@ {
                    Some(JValue::Str(s))
                } else {
                    None
                }
            },
            _ => None,
        }
    }

    fn to_json(&self) -> (r: Json) {
        match self {
            FunctionCallOutputStatus::InProgress => Json::Str("in_progress".to_owned()),
            FunctionCallOutputStatus::Completed => Json::Str("completed".to_owned()),
            FunctionCallOutputStatus::Incomplete => Json::Str("incomplete".to_owned()),
        }
    }

    fn from_json(j: &Json) -> (r: Result<Self, DecodeError>) {
        Self::decode(j)
    }
}

impl FunctionCallOutputStatus {
    /// Tells whether `s` names a value of `FunctionCallOutputStatus`.
    pub open spec fn name_known(s: Seq<char>) -> bool {
        s == "in_progress"@ || s == "completed"@ || s == "incomplete"@
    }

    /// Reads a `FunctionCallOutputStatus` from JSON; a string that names no value gives `UnknownVariant`
    /// with that string.
    pub fn decode(j: &Json) -> (r: Result<Self, DecodeError>)
        ensures
            match r {
                Ok(v) => Self::read(j@) == Some(v.wire()),
                Err(_) => Self::read(j@) is None,
            },
            match j@ {
                JValue::Str(s) => !Self::name_known(s) ==> (r matches Err(DecodeError::UnknownVariant { union_name, tag })
                    && union_name@ == "FunctionCallOutputStatus"@ && tag@ == s),
                _ => true,
            },
    {
        match j {
            Json::Str(s) => {
                if same_text(s.as_str(), "in_progress") {
                    Ok(FunctionCallOutputStatus::InProgress)
                } else if same_text(s.as_str(), "completed") {
                    Ok(FunctionCallOutputStatus::Completed)
                } else if same_text(s.as_str(), "incomplete") {
                    Ok(FunctionCallOutputStatus::Incomplete)
                } else {
                    Err(DecodeError::UnknownVariant { union_name: "FunctionCallOutputStatus".to_owned(), tag: s.clone() })
                }
            },
            _ => Err(DecodeError::Mismatch),
        }
    }
}

/// The resolution at which an image is looked at.
#[derive(Debug, Clone, Copy, PartialEq, Eq)]
pub enum ImageDetail {
    Low,
    High,
    Auto,
}

impl Wire for ImageDetail {
    open spec fn wire(&self) -> JValue {
        match self {
            ImageDetail::Low => JValue::Str("low"@),
            ImageDetail::High => JValue::Str("high"@),
            ImageDetail::Auto => JValue::Str("auto"@),
        }
    }

    open spec fn read(j: JValue) -> Option<JValue> {
        match j {
            JValue::Str(s) => {
                if s == "low"@ {
                    Some(JValue::Str(s))
                } else if s == "high"@ {
                    Some(JValue::Str(s))
                } else if s == "auto"@ {
                    Some(JValue::Str(s))
                } else {
                    None
                }
            },
            _ => None,
        }
    }

    fn to_json(&self) -> (r: Json) {
        match self {
            ImageDetail::Low => Json::Str("low".to_owned()),
            ImageDetail::High => Json::Str("high".to_owned()),
            ImageDetail::Auto => Json::Str("auto".to_owned()),
        }
    }

    fn from_json(j: &Json) -> (r: Result<Self, DecodeError>) {
        Self::decode(j)
    }
}

impl ImageDetail {
    /// Tells whether `s` names a value of `ImageDetail`.
    pub open spec fn name_known(s: Seq<char>) -> bool {
        s == "low"@ || s == "high"@ || s == "auto"@
    }

    /// Reads a `ImageDetail` from JSON; a string that names no value gives `UnknownVariant`
    /// with that string.
    pub fn decode(j: &Json) -> (r: Result<Self, DecodeError>)
        ensures
            match r {
                Ok(v) => Self::read(j@) == Some(v.wire()),
                Err(_) => Self::read(j@) is None,
            },
            match j@ {
                JValue::Str(s) => !Self::name_known(s) ==> (r matches Err(DecodeError::UnknownVariant { union_name, tag })
                    && union_name@ == "ImageDetail"@ && tag@ == s),
                _ => true,
            },
    {
        match j {
            Json::Str(s) => {
                if same_text(s.as_str(), "low") {
                    Ok(ImageDetail::Low)
                } else if same_text(s.as_str(), "high") {
                    Ok(ImageDetail::High)
                } else if same_text(s.as_str(), "auto") {
                    Ok(ImageDetail::Auto)
                } else {
                    Err(DecodeError::UnknownVariant { union_name: "ImageDetail".to_owned(), tag: s.clone() })
                }
            },
            _ => Err(DecodeError::Mismatch),
        }
    }
}

impl Default for ImageDetail {
    fn default() -> (r: ImageDetail)
        ensures
            r == ImageDetail::Auto,
    {
        ImageDetail::Auto
    }
}

/// How much reasoning the model is asked for.
#[derive(Debug, Clone, Copy, PartialEq, Eq)]
pub enum ReasoningEffort {
    Off,
    Low,
    Medium,
    High,
    Xhigh,
}

impl Wire for ReasoningEffort {
    open spec fn wire(&self) -> JValue {
        match self {
            ReasoningEffort::Off => JValue::Str("none"@),
            ReasoningEffort::Low => JValue::Str("low"@),
            ReasoningEffort::Medium => JValue::Str("medium"@),
            ReasoningEffort::High => JValue::Str("high"@),
            ReasoningEffort::Xhigh => JValue::Str("xhigh"@),
        }
    }

    open spec fn read(j: JValue) -> Option<JValue> {
        match j {
            JValue::Str(s) => {
                if s == "none"@ {
                    Some(JValue::Str(s))
                } else if s == "low"@ {
                    Some(JValue::Str(s))
                } else if s == "medium"@ {
                    Some(JValue::Str(s))
                } else if s == "high"@ {
                    Some(JValue::Str(s))
                } else if s == "xhigh"@ {
                    Some(JValue::Str(s))
                } else {
                    None
                }
            },
            _ => None,
        }
    }

    fn to_json(&self) -> (r: Json) {
        match self {
            ReasoningEffort::Off => Json::Str("none".to_owned()),
            ReasoningEffort::Low => Json::Str("low".to_owned()),
            ReasoningEffort::Medium => Json::Str("medium".to_owned()),
            ReasoningEffort::High => Json::Str("high".to_owned()),
            ReasoningEffort::Xhigh => Json::Str("xhigh".to_owned()),
        }
    }

    fn from_json(j: &Json) -> (r: Result<Self, DecodeError>) {
        Self::decode(j)
    }
}

impl ReasoningEffort {
    /// Tells whether `s` names a value of `ReasoningEffort`.
    pub open spec fn name_known(s: Seq<char>) -> bool {
        s == "none"@ || s == "low"@ || s == "medium"@ || s == "high"@ || s == "xhigh"@
    }

    /// Reads a `ReasoningEffort` from JSON; a string that names no value gives `UnknownVariant`
    /// with that string.
    pub fn decode(j: &Json) -> (r: Result<Self, DecodeError>)
        ensures
            match r {
                Ok(v) => Self::read(j@) == Some(v.wire()),
                Err(_) => Self::read(j@) is None,
            },
            match j@ {
                JValue::Str(s) => !Self::name_known(s) ==> (r matches Err(DecodeError::UnknownVariant { union_name, tag })
                    && union_name@ == "ReasoningEffort"@ && tag@ == s),
                _ => true,
            },
    {
        match j {
            Json::Str(s) => {
                if same_text(s.as_str(), "none") {
                    Ok(ReasoningEffort::Off)
                } else if same_text(s.as_str(), "low") {
                    Ok(ReasoningEffort::Low)
                } else if same_text(s.as_str(), "medium") {
                    Ok(ReasoningEffort::Medium)
                } else if same_text(s.as_str(), "high") {
                    Ok(ReasoningEffort::High)
                } else if same_text(s.as_str(), "xhigh") {
                    Ok(ReasoningEffort::Xhigh)
                } else {
                    Err(DecodeError::UnknownVariant { union_name: "ReasoningEffort".to_owned(), tag: s.clone() })
                }
            },
            _ => Err(DecodeError::Mismatch),
        }
    }
}

/// How reasoning is summarised.
#[derive(Debug, Clone, Copy, PartialEq, Eq)]
pub enum ReasoningSummary {
    Concise,
    Detailed,
    Auto,
}

impl Wire for ReasoningSummary {
    open spec fn wire(&self) -> JValue {
        match self {
            ReasoningSummary::Concise => JValue::Str("concise"@),
            ReasoningSummary::Detailed => JValue::Str("detailed"@),
            ReasoningSummary::Auto => JValue::Str("auto"@),
        }
    }

    open spec fn read(j: JValue) -> Option<JValue> {
        match j {
            JValue::Str(s) => {
                if s == "concise"@ {
                    Some(JValue::Str(s))
                } else if s == "detailed"@ {
                    Some(JValue::Str(s))
                } else if s == "auto"@ {
                    Some(JValue::Str(s))
                } else {
                    None
                }
            },
            _ => None,
        }
    }

    fn to_json(&self) -> (r: Json) {
        match self {
            ReasoningSummary::Concise => Json::Str("concise".to_owned()),
            ReasoningSummary::Detailed => Json::Str("detailed".to_owned()),
            ReasoningSummary::Auto => Json::Str("auto".to_owned()),
        }
    }

    fn from_json(j: &Json) -> (r: Result<Self, DecodeError>) {
        Self::decode(j)
    }
}

impl ReasoningSummary {
    /// Tells whether `s` names a value of `ReasoningSummary`.
    pub open spec fn name_known(s: Seq<char>) -> bool {
        s == "concise"@ || s == "detailed"@ || s == "auto"@
    }

    /// Reads a `ReasoningSummary` from JSON; a string that names no value gives `UnknownVariant`
    /// with that string.
    pub fn decode(j: &Json) -> (r: Result<Self, DecodeError>)
        ensures
            match r {
                Ok(v) => Self::read(j@) == Some(v.wire()),
                Err(_) => Self::read(j@) is None,
            },
            match j@ {
                JValue::Str(s) => !Self::name_known(s) ==> (r matches Err(DecodeError::UnknownVariant { union_name, tag })
                    && union_name@ == "ReasoningSummary"@ && tag@ == s),
                _ => true,
            },
    {
        match j {
            Json::Str(s) => {
                if same_text(s.as_str(), "concise") {
                    Ok(ReasoningSummary::Concise)
                } else if same_text(s.as_str(), "detailed") {
                    Ok(ReasoningSummary::Detailed)
                } else if same_text(s.as_str(), "auto") {
                    Ok(ReasoningSummary::Auto)
                } else {
                    Err(DecodeError::UnknownVariant { union_name: "ReasoningSummary".to_owned(), tag: s.clone() })
                }
            },
            _ => Err(DecodeError::Mismatch),
        }
    }
}

impl Default for ReasoningSummary {
    fn default() -> (r: ReasoningSummary)
        ensures
            r == ReasoningSummary::Auto,
    {
        ReasoningSummary::Auto
    }
}

/// The processing tier a request asks for.
#[derive(Debug, Clone, Copy, PartialEq, Eq)]
pub enum ServiceTier {
    Auto,
    Default,
    Flex,
    Priority,
}

impl Wire for ServiceTier {
    open spec fn wire(&self) -> JValue {
        match self {
            ServiceTier::Auto => JValue::Str("auto"@),
            ServiceTier::Default => JValue::Str("default"@),
            ServiceTier::Flex => JValue::Str("flex"@),
            ServiceTier::Priority => JValue::Str("priority"@),
        }
    }

    open spec fn read(j: JValue) -> Option<JValue> {
        match j {
            JValue::Str(s) => {
                if s == "auto"@ {
                    Some(JValue::Str(s))
                } else if s == "default"@ {
                    Some(JValue::Str(s))
                } else if s == "flex"@ {
                    Some(JValue::Str(s))
                } else if s == "priority"@ {
                    Some(JValue::Str(s))
                } else {
                    None
                }
            },
            _ => None,
        }
    }

    fn to_json(&self) -> (r: Json) {
        match self {
            ServiceTier::Auto => Json::Str("auto".to_owned()),
            ServiceTier::Default => Json::Str("default".to_owned()),
            ServiceTier::Flex => Json::Str("flex".to_owned()),
            ServiceTier::Priority => Json::Str("priority".to_owned()),
        }
    }

    fn from_json(j: &Json) -> (r: Result<Self, DecodeError>) {
        Self::decode(j)
    }
}

impl ServiceTier {
    /// Tells whether `s` names a value of `ServiceTier`.
    pub open spec fn name_known(s: Seq<char>) -> bool {
        s == "auto"@ || s == "default"@ || s == "flex"@ || s == "priority"@
    }

    /// Reads a `ServiceTier` from JSON; a string that names no value gives `UnknownVariant`
    /// with that string.
    pub fn decode(j: &Json) -> (r: Result<Self, DecodeError>)
        ensures
            match r {
                Ok(v) => Self::read(j@) == Some(v.wire()),
                Err(_) => Self::read(j@) is None,
            },
            match j@ {
                JValue::Str(s) => !Self::name_known(s) ==> (r matches Err(DecodeError::UnknownVariant { union_name, tag })
                    && union_name@ == "ServiceTier"@ && tag@ == s),
                _ => true,
            },
    {
        match j {
            Json::Str(s) => {
                if same_text(s.as_str(), "auto") {
                    Ok(ServiceTier::Auto)
                } else if same_text(s.as_str(), "default") {
                    Ok(ServiceTier::Default)
                } else if same_text(s.as_str(), "flex") {
                    Ok(ServiceTier::Flex)
                } else if same_text(s.as_str(), "priority") {
                    Ok(ServiceTier::Priority)
                } else {
                    Err(DecodeError::UnknownVariant { union_name: "ServiceTier".to_owned(), tag: s.clone() })
                }
            },
            _ => Err(DecodeError::Mismatch),
        }
    }
}

impl Default for ServiceTier {
    fn default() -> (r: ServiceTier)
        ensures
            r == ServiceTier::Auto,
    {
        ServiceTier::Auto
    }
}

/// Whether and how the model calls tools.
#[derive(Debug, Clone, Copy, PartialEq, Eq)]
pub enum ToolChoice {
    Off,
    Auto,
    Required,
}

impl Wire for ToolChoice {
    open spec fn wire(&self) -> JValue {
        match self {
            ToolChoice::Off => JValue::Str("none"@),
            ToolChoice::Auto => JValue::Str("auto"@),
            ToolChoice::Required => JValue::Str("required"@),
        }
    }

    open spec fn read(j: JValue) -> Option<JValue> {
        match j {
            JValue::Str(s) => {
                if s == "none"@ {
                    Some(JValue::Str(s))
                } else if s == "auto"@ {
                    Some(JValue::Str(s))
                } else if s == "required"@ {
                    Some(JValue::Str(s))
                } else {
                    None
                }
            },
            _ => None,
        }
    }

    fn to_json(&self) -> (r: Json) {
        match self {
            ToolChoice::Off => Json::Str("none".to_owned()),
            ToolChoice::Auto => Json::Str("auto".to_owned()),
            ToolChoice::Required => Json::Str("required".to_owned()),
        }
    }

    fn from_json(j: &Json) -> (r: Result<Self, DecodeError>) {
        Self::decode(j)
    }
}

impl ToolChoice {
    /// Tells whether `s` names a value of `ToolChoice`.
    pub open spec fn name_known(s: Seq<char>) -> bool {
        s == "none"@ || s == "auto"@ || s == "required"@
    }

    /// Reads a `ToolChoice` from JSON; a string that names no value gives `UnknownVariant`
    /// with that string.
    pub fn decode(j: &Json) -> (r: Result<Self, DecodeError>)
        ensures
            match r {
                Ok(v) => Self::read(j@) == Some(v.wire()),
                Err(_) => Self::read(j@) is None,
            },
            match j@ {
                JValue::Str(s) => !Self::name_known(s) ==> (r matches Err(DecodeError::UnknownVariant { union_name, tag })
                    && union_name@ == "ToolChoice"@ && tag@ == s),
                _ => true,
            },
    {
        match j {
            Json::Str(s) => {
                if same_text(s.as_str(), "none") {
                    Ok(ToolChoice::Off)
                } else if same_text(s.as_str(), "auto") {
                    Ok(ToolChoice::Auto)
                } else if same_text(s.as_str(), "required") {
                    Ok(ToolChoice::Required)
                } else {
                    Err(DecodeError::UnknownVariant { union_name: "ToolChoice".to_owned(), tag: s.clone() })
                }
            },
            _ => Err(DecodeError::Mismatch),
        }
    }
}

impl Default for ToolChoice {
    fn default() -> (r: ToolChoice)
        ensures
            r == ToolChoice::Auto,
    {
        ToolChoice::Auto
    }
}

/// What happens when the context overflows.
#[derive(Debug, Clone, Copy, PartialEq, Eq)]
pub enum Truncation {
    Auto,
    Disabled,
}

impl Wire for Truncation {
    open spec fn wire(&self) -> JValue {
        match self {
            Truncation::Auto => JValue::Str("auto"@),
            Truncation::Disabled => JValue::Str("disabled"@),
        }
    }

    open spec fn read(j: JValue) -> Option<JValue> {
        match j {
            JValue::Str(s) => {
                if s == "auto"@ {
                    Some(JValue::Str(s))
                } else if s == "disabled"@ {
                    Some(JValue::Str(s))
                } else {
                    None
                }
            },
            _ => None,
        }
    }

    fn to_json(&self) -> (r: Json) {
        match self {
            Truncation::Auto => Json::Str("auto".to_owned()),
            Truncation::Disabled => Json::Str("disabled".to_owned()),
        }
    }

    fn from_json(j: &Json) -> (r: Result<Self, DecodeError>) {
        Self::decode(j)
    }
}

impl Truncation {
    /// Tells whether `s` names a value of `Truncation`.
    pub open spec fn name_known(s: Seq<char>) -> bool {
        s == "auto"@ || s == "disabled"@
    }

    /// Reads a `Truncation` from JSON; a string that names no value gives `UnknownVariant`
    /// with that string.
    pub fn decode(j: &Json) -> (r: Result<Self, DecodeError>)
        ensures
            match r {
                Ok(v) => Self::read(j@) == Some(v.wire()),
                Err(_) => Self::read(j@) is None,
            },
            match j@ {
                JValue::Str(s) => !Self::name_known(s) ==> (r matches Err(DecodeError::UnknownVariant { union_name, tag })
                    && union_name@ == "Truncation"@ && tag@ == s),
                _ => true,
            },
    {
        match j {
            Json::Str(s) => {
                if same_text(s.as_str(), "auto") {
                    Ok(Truncation::Auto)
                } else if same_text(s.as_str(), "disabled") {
                    Ok(Truncation::Disabled)
                } else {
                    Err(DecodeError::UnknownVariant { union_name: "Truncation".to_owned(), tag: s.clone() })
                }
            },
            _ => Err(DecodeError::Mismatch),
        }
    }
}

impl Default for Truncation {
    fn default() -> (r: Truncation)
        ensures
            r == Truncation::Auto,
    {
        Truncation::Auto
    }
}

/// How long text answers should be.
#[derive(Debug, Clone, Copy, PartialEq, Eq)]
pub enum Verbosity {
    Low,
    Medium,
    High,
}

impl Wire for Verbosity {
    open spec fn wire(&self) -> JValue {
        match self {
            Verbosity::Low => JValue::Str("low"@),
            Verbosity::Medium => JValue::Str("medium"@),
            Verbosity::High => JValue::Str("high"@),
        }
    }

    open spec fn read(j: JValue) -> Option<JValue> {
        match j {
            JValue::Str(s) => {
                if s == "low"@ {
                    Some(JValue::Str(s))
                } else if s == "medium"@ {
                    Some(JValue::Str(s))
                } else if s == "high"@ {
                    Some(JValue::Str(s))
                } else {
                    None
                }
            },
            _ => None,
        }
    }

    fn to_json(&self) -> (r: Json) {
        match self {
            Verbosity::Low => Json::Str("low".to_owned()),
            Verbosity::Medium => Json::Str("medium".to_owned()),
            Verbosity::High => Json::Str("high".to_owned()),
        }
    }

    fn from_json(j: &Json) -> (r: Result<Self, DecodeError>) {
        Self::decode(j)
    }
}

impl Verbosity {
    /// Tells whether `s` names a value of `Verbosity`.
    pub open spec fn name_known(s: Seq<char>) -> bool {
        s == "low"@ || s == "medium"@ || s == "high"@
    }

    /// Reads a `Verbosity` from JSON; a string that names no value gives `UnknownVariant`
    /// with that string.
    pub fn decode(j: &Json) -> (r: Result<Self, DecodeError>)
        ensures
            match r {
                Ok(v) => Self::read(j@) == Some(v.wire()),
                Err(_) => Self::read(j@) is None,
            },
            match j@ {
                JValue::Str(s) => !Self::name_known(s) ==> (r matches Err(DecodeError::UnknownVariant { union_name, tag })
                    && union_name@ == "Verbosity"@ && tag@ == s),
                _ => true,
            },
    {
        match j {
            Json::Str(s) => {
                if same_text(s.as_str(), "low") {
                    Ok(Verbosity::Low)
                } else if same_text(s.as_str(), "medium") {
                    Ok(Verbosity::Medium)
                } else if same_text(s.as_str(), "high") {
                    Ok(Verbosity::High)
                } else {
                    Err(DecodeError::UnknownVariant { union_name: "Verbosity".to_owned(), tag: s.clone() })
                }
            },
            _ => Err(DecodeError::Mismatch),
        }
    }
}

impl Default for Verbosity {
    fn default() -> (r: Verbosity)
        ensures
            r == Verbosity::Medium,
    {
        Verbosity::Medium
    }
}

/// Extra output a request asks to include.
#[derive(Debug, Clone, Copy, PartialEq, Eq)]
pub enum IncludeOption {
    ReasoningEncryptedContent,
    MessageOutputTextLogprobs,
}

impl Wire for IncludeOption {
    open spec fn wire(&self) -> JValue {
        match self {
            IncludeOption::ReasoningEncryptedContent => JValue::Str("reasoning.encrypted_content"@),
            IncludeOption::MessageOutputTextLogprobs => JValue::Str("message.output_text.logprobs"@),
        }
    }

    open spec fn read(j: JValue) -> Option<JValue> {
        match j {
            JValue::Str(s) => {
                if s == "reasoning.encrypted_content"@ {
                    Some(JValue::Str(s))
                } else if s == "message.output_text.logprobs"@ {
                    Some(JValue::Str(s))
                } else {
                    None
                }
            },
            _ => None,
        }
    }

    fn to_json(&self) -> (r: Json) {
        match self {
            IncludeOption::ReasoningEncryptedContent => Json::Str("reasoning.encrypted_content".to_owned()),
            IncludeOption::MessageOutputTextLogprobs => Json::Str("message.output_text.logprobs".to_owned()),
        }
    }

    fn from_json(j: &Json) -> (r: Result<Self, DecodeError>) {
        Self::decode(j)
    }
}

impl IncludeOption {
    /// Tells whether `s` names a value of `IncludeOption`.
    pub open spec fn name_known(s: Seq<char>) -> bool {
        s == "reasoning.encrypted_content"@ || s == "message.output_text.logprobs"@
    }

    /// Reads a `IncludeOption` from JSON; a string that names no value gives `UnknownVariant`
    /// with that string.
    pub fn decode(j: &Json) -> (r: Result<Self, DecodeError>)
        ensures
            match r {
                Ok(v) => Self::read(j@) == Some(v.wire()),
                Err(_) => Self::read(j@) is None,
            },
            match j@ {
                JValue::Str(s) => !Self::name_known(s) ==> (r matches Err(DecodeError::UnknownVariant { union_name, tag })
                    && union_name@ == "IncludeOption"@ && tag@ == s),
                _ => true,
            },
    {
        match j {
            Json::Str(s) => {
                if same_text(s.as_str(), "reasoning.encrypted_content") {
                    Ok(IncludeOption::ReasoningEncryptedContent)
                } else if same_text(s.as_str(), "message.output_text.logprobs") {
                    Ok(IncludeOption::MessageOutputTextLogprobs)
                } else {
                    Err(DecodeError::UnknownVariant { union_name: "IncludeOption".to_owned(), tag: s.clone() })
                }
            },
            _ => Err(DecodeError::Mismatch),
        }
    }
}

/// The kinds of text format.
#[derive(Debug, Clone, Copy, PartialEq, Eq)]
pub enum TextFormatType {
    Text,
    JsonObject,
    JsonSchema,
}

impl Wire for TextFormatType {
    open spec fn wire(&self) -> JValue {
        match self {
            TextFormatType::Text => JValue::Str("text"@),
            TextFormatType::JsonObject => JValue::Str("json_object"@),
            TextFormatType::JsonSchema => JValue::Str("json_schema"@),
        }
    }

    open spec fn read(j: JValue) -> Option<JValue> {
        match j {
            JValue::Str(s) => {
                if s == "text"@ {
                    Some(JValue::Str(s))
                } else if s == "json_object"@ {
                    Some(JValue::Str(s))
                } else if s == "json_schema"@ {
                    Some(JValue::Str(s))
                } else {
                    None
                }
            },
            _ => None,
        }
    }

    fn to_json(&self) -> (r: Json) {
        match self {
            TextFormatType::Text => Json::Str("text".to_owned()),
            TextFormatType::JsonObject => Json::Str("json_object".to_owned()),
            TextFormatType::JsonSchema => Json::Str("json_schema".to_owned()),
        }
    }

    fn from_json(j: &Json) -> (r: Result<Self, DecodeError>) {
        Self::decode(j)
    }
}

impl TextFormatType {
    /// Tells whether `s` names a value of `TextFormatType`.
    pub open spec fn name_known(s: Seq<char>) -> bool {
        s == "text"@ || s == "json_object"@ || s == "json_schema"@
    }

    /// Reads a `TextFormatType` from JSON; a string that names no value gives `UnknownVariant`
    /// with that string.
    pub fn decode(j: &Json) -> (r: Result<Self, DecodeError>)
        ensures
            match r {
                Ok(v) => Self::read(j@) == Some(v.wire()),
                Err(_) => Self::read(j@) is None,
            },
            match j@ {
                JValue::Str(s) => !Self::name_known(s) ==> (r matches Err(DecodeError::UnknownVariant { union_name, tag })
                    && union_name@ == "TextFormatType"@ && tag@ == s),
                _ => true,
            },
    {
        match j {
            Json::Str(s) => {
                if same_text(s.as_str(), "text") {
                    Ok(TextFormatType::Text)
                } else if same_text(s.as_str(), "json_object") {
                    Ok(TextFormatType::JsonObject)
                } else if same_text(s.as_str(), "json_schema") {
                    Ok(TextFormatType::JsonSchema)
                } else {
                    Err(DecodeError::UnknownVariant { union_name: "TextFormatType".to_owned(), tag: s.clone() })
                }
            },
            _ => Err(DecodeError::Mismatch),
        }
    }
}

/// The kinds of error a response can carry.
#[derive(Debug, Clone, Copy, PartialEq, Eq)]
pub enum ErrorType {
    ServerError,
    InvalidRequest,
    NotFound,
    ModelError,
    TooManyRequests,
}

impl Wire for ErrorType {
    open spec fn wire(&self) -> JValue {
        match self {
            ErrorType::ServerError => JValue::Str("server_error"@),
            ErrorType::InvalidRequest => JValue::Str("invalid_request"@),
            ErrorType::NotFound => JValue::Str("not_found"@),
            ErrorType::ModelError => JValue::Str("model_error"@),
            ErrorType::TooManyRequests => JValue::Str("too_many_requests"@),
        }
    }

    open spec fn read(j: JValue) -> Option<JValue> {
        match j {
            JValue::Str(s) => {
                if s == "server_error"@ {
                    Some(JValue::Str(s))
                } else if s == "invalid_request"@ {
                    Some(JValue::Str(s))
                } else if s == "not_found"@ {
                    Some(JValue::Str(s))
                } else if s == "model_error"@ {
                    Some(JValue::Str(s))
                } else if s == "too_many_requests"@ {
                    Some(JValue::Str(s))
                } else {
                    None
                }
            },
            _ => None,
        }
    }

    fn to_json(&self) -> (r: Json) {
        match self {
            ErrorType::ServerError => Json::Str("server_error".to_owned()),
            ErrorType::InvalidRequest => Json::Str("invalid_request".to_owned()),
            ErrorType::NotFound => Json::Str("not_found".to_owned()),
            ErrorType::ModelError => Json::Str("model_error".to_owned()),
            ErrorType::TooManyRequests => Json::Str("too_many_requests".to_owned()),
        }
    }

    fn from_json(j: &Json) -> (r: Result<Self, DecodeError>) {
        Self::decode(j)
    }
}

impl ErrorType {
    /// Tells whether `s` names a value of `ErrorType`.
    pub open spec fn name_known(s: Seq<char>) -> bool {
        s == "server_error"@ || s == "invalid_request"@ || s == "not_found"@ || s == "model_error"@ || s == "too_many_requests"@
    }

    /// Reads a `ErrorType` from JSON; a string that names no value gives `UnknownVariant`
    /// with that string.
    pub fn decode(j: &Json) -> (r: Result<Self, DecodeError>)
        ensures
            match r {
                Ok(v) => Self::read(j@) == Some(v.wire()),
                Err(_) => Self::read(j@) is None,
            },
            match j@ {
                JValue::Str(s) => !Self::name_known(s) ==> (r matches Err(DecodeError::UnknownVariant { union_name, tag })
                    && union_name@ == "ErrorType"@ && tag@ == s),
                _ => true,
            },
    {
        match j {
            Json::Str(s) => {
                if same_text(s.as_str(), "server_error") {
                    Ok(ErrorType::ServerError)
                } else if same_text(s.as_str(), "invalid_request") {
                    Ok(ErrorType::InvalidRequest)
                } else if same_text(s.as_str(), "not_found") {
                    Ok(ErrorType::NotFound)
                } else if same_text(s.as_str(), "model_error") {
                    Ok(ErrorType::ModelError)
                } else if same_text(s.as_str(), "too_many_requests") {
                    Ok(ErrorType::TooManyRequests)
                } else {
                    Err(DecodeError::UnknownVariant { union_name: "ErrorType".to_owned(), tag: s.clone() })
                }
            },
            _ => Err(DecodeError::Mismatch),
        }
    }
}

} // verus!
