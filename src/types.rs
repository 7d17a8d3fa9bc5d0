//! The protocol's values: requests, responses, conversation items and their
//! content, tools, and streamed events.

use vstd::prelude::*;

pub mod content;
pub mod enums;
pub mod events;
pub mod items;
pub mod requests;
pub mod responses;
pub mod tools;

pub use content::{
    Annotation, Content, ContentParam, InputContent, LogProb, MessageContent, OutputContent,
    TopLogProb,
};
pub use enums::{
    ErrorType, FunctionCallOutputStatus, FunctionCallStatus, ImageDetail, IncludeOption,
    MessageRole, MessageStatus, ReasoningEffort, ReasoningSummary, ServiceTier, TextFormatType,
    ToolChoice, Truncation, Verbosity,
};
pub use events::{ErrorPayload, StreamingEvent};
pub use items::{FunctionOutput, Item};
pub use requests::{CreateResponseBody, Input, ReasoningConfig, StreamOptions, TextFormat, TextParam};
pub use responses::{
    Error, IncompleteDetails, InputTokensDetails, OutputTokensDetails, ReasoningOutput,
    ResponseResource, TextField, TextFormatOutput, Usage,
};
pub use tools::{FunctionToolParam, SpecificTool, Tool, ToolChoiceParam};

verus! {

} // verus!
