use vstd::prelude::*;

use crate::types::content::{Annotation, LogProb, MessageContent};
use crate::types::items::Item;
use crate::json::{same_text, DecodeError, JValue, Json};
use crate::types::responses::ResponseResource;
use crate::wire::{
    begin, cat, ent, get_opt, get_req, get_tag, obj, opt, opt_ent, put,
    put_opt, put_tag, req, tag_ent, tag_of, Wire,
};

verus! {

/// One event of a streamed response, told apart by its dotted `type`.
#[derive(Debug, Clone)]
pub enum StreamingEvent {
    ResponseCreated {
        sequence_number: i32,
        response: ResponseResource,
    },
    ResponseQueued {
        sequence_number: i32,
        response: ResponseResource,
    },
    ResponseInProgress {
        sequence_number: i32,
        response: ResponseResource,
    },
    ResponseCompleted {
        sequence_number: i32,
        response: ResponseResource,
    },
    ResponseFailed {
        sequence_number: i32,
        response: ResponseResource,
    },
    ResponseIncomplete {
        sequence_number: i32,
        response: ResponseResource,
    },
    OutputItemAdded {
        sequence_number: i32,
        output_index: i32,
        item: Item,
    },
    OutputItemDone {
        sequence_number: i32,
        output_index: i32,
        item: Item,
    },
    ContentPartAdded {
        sequence_number: i32,
        item_id: String,
        output_index: i32,
        content_index: i32,
        part: MessageContent,
    },
    ContentPartDone {
        sequence_number: i32,
        item_id: String,
        output_index: i32,
        content_index: i32,
        part: MessageContent,
    },
    OutputTextDelta {
        sequence_number: i32,
        item_id: String,
        output_index: i32,
        content_index: i32,
        delta: String,
        logprobs: Option<Vec<LogProb>>,
        obfuscation: Option<String>,
    },
    OutputTextDone {
        sequence_number: i32,
        item_id: String,
        output_index: i32,
        content_index: i32,
        text: String,
        logprobs: Option<Vec<LogProb>>,
    },
    RefusalDelta {
        sequence_number: i32,
        item_id: String,
        output_index: i32,
        content_index: i32,
        delta: String,
    },
    RefusalDone {
        sequence_number: i32,
        item_id: String,
        output_index: i32,
        content_index: i32,
        refusal: String,
    },
    ReasoningDelta {
        sequence_number: i32,
        item_id: String,
        output_index: i32,
        content_index: i32,
        delta: String,
        obfuscation: Option<String>,
    },
    ReasoningDone {
        sequence_number: i32,
        item_id: String,
        output_index: i32,
        content_index: i32,
        text: String,
    },
    ReasoningSummaryDelta {
        sequence_number: i32,
        item_id: String,
        output_index: i32,
        summary_index: i32,
        delta: String,
        obfuscation: Option<String>,
    },
    ReasoningSummaryDone {
        sequence_number: i32,
        item_id: String,
        output_index: i32,
        summary_index: i32,
        text: String,
    },
    ReasoningSummaryPartAdded {
        sequence_number: i32,
        item_id: String,
        output_index: i32,
        summary_index: i32,
        part: MessageContent,
    },
    ReasoningSummaryPartDone {
        sequence_number: i32,
        item_id: String,
        output_index: i32,
        summary_index: i32,
        part: MessageContent,
    },
    OutputTextAnnotationAdded {
        sequence_number: i32,
        item_id: String,
        output_index: i32,
        content_index: i32,
        annotation_index: i32,
        annotation: Annotation,
    },
    FunctionCallArgumentsDelta {
        sequence_number: i32,
        item_id: String,
        output_index: i32,
        delta: String,
        obfuscation: Option<String>,
    },
    FunctionCallArgumentsDone {
        sequence_number: i32,
        item_id: String,
        output_index: i32,
        arguments: String,
    },
    Error {
        sequence_number: i32,
        error: ErrorPayload,
    },
    Done,
}

/// How `j` reads as the variant `response.created` of `StreamingEvent`.
pub open spec fn streaming_event_response_created(j: JValue) -> Option<JValue> {
    let m = Some(begin() + tag_ent("response.created"@));
    let m = cat(m, req::<i32>(j, "sequence_number"@));
    let m = cat(m, req::<ResponseResource>(j, "response"@));
    obj(m)
}

/// How `j` reads as the variant `response.queued` of `StreamingEvent`.
pub open spec fn streaming_event_response_queued(j: JValue) -> Option<JValue> {
    let m = Some(begin() + tag_ent("response.queued"@));
    let m = cat(m, req::<i32>(j, "sequence_number"@));
    let m = cat(m, req::<ResponseResource>(j, "response"@));
    obj(m)
}

/// How `j` reads as the variant `response.in_progress` of `StreamingEvent`.
pub open spec fn streaming_event_response_in_progress(j: JValue) -> Option<JValue> {
    let m = Some(begin() + tag_ent("response.in_progress"@));
    let m = cat(m, req::<i32>(j, "sequence_number"@));
    let m = cat(m, req::<ResponseResource>(j, "response"@));
    obj(m)
}

/// How `j` reads as the variant `response.completed` of `StreamingEvent`.
pub open spec fn streaming_event_response_completed(j: JValue) -> Option<JValue> {
    let m = Some(begin() + tag_ent("response.completed"@));
    let m = cat(m, req::<i32>(j, "sequence_number"@));
    let m = cat(m, req::<ResponseResource>(j, "response"@));
    obj(m)
}

/// How `j` reads as the variant `response.failed` of `StreamingEvent`.
pub open spec fn streaming_event_response_failed(j: JValue) -> Option<JValue> {
    let m = Some(begin() + tag_ent("response.failed"@));
    let m = cat(m, req::<i32>(j, "sequence_number"@));
    let m = cat(m, req::<ResponseResource>(j, "response"@));
    obj(m)
}

/// How `j` reads as the variant `response.incomplete` of `StreamingEvent`.
pub open spec fn streaming_event_response_incomplete(j: JValue) -> Option<JValue> {
    let m = Some(begin() + tag_ent("response.incomplete"@));
    let m = cat(m, req::<i32>(j, "sequence_number"@));
    let m = cat(m, req::<ResponseResource>(j, "response"@));
    obj(m)
}

/// How `j` reads as the variant `response.output_item.added` of `StreamingEvent`.
pub open spec fn streaming_event_output_item_added(j: JValue) -> Option<JValue> {
    let m = Some(begin() + tag_ent("response.output_item.added"@));
    let m = cat(m, req::<i32>(j, "sequence_number"@));
    let m = cat(m, req::<i32>(j, "output_index"@));
    let m = cat(m, req::<Item>(j, "item"@));
    obj(m)
}

/// How `j` reads as the variant `response.output_item.done` of `StreamingEvent`.
pub open spec fn streaming_event_output_item_done(j: JValue) -> Option<JValue> {
    let m = Some(begin() + tag_ent("response.output_item.done"@));
    let m = cat(m, req::<i32>(j, "sequence_number"@));
    let m = cat(m, req::<i32>(j, "output_index"@));
    let m = cat(m, req::<Item>(j, "item"@));
    obj(m)
}

/// How `j` reads as the variant `response.content_part.added` of `StreamingEvent`.
pub open spec fn streaming_event_content_part_added(j: JValue) -> Option<JValue> {
    let m = Some(begin() + tag_ent("response.content_part.added"@));
    let m = cat(m, req::<i32>(j, "sequence_number"@));
    let m = cat(m, req::<String>(j, "item_id"@));
    let m = cat(m, req::<i32>(j, "output_index"@));
    let m = cat(m, req::<i32>(j, "content_index"@));
    let m = cat(m, req::<MessageContent>(j, "part"@));
    obj(m)
}

/// How `j` reads as the variant `response.content_part.done` of `StreamingEvent`.
pub open spec fn streaming_event_content_part_done(j: JValue) -> Option<JValue> {
    let m = Some(begin() + tag_ent("response.content_part.done"@));
    let m = cat(m, req::<i32>(j, "sequence_number"@));
    let m = cat(m, req::<String>(j, "item_id"@));
    let m = cat(m, req::<i32>(j, "output_index"@));
    let m = cat(m, req::<i32>(j, "content_index"@));
    let m = cat(m, req::<MessageContent>(j, "part"@));
    obj(m)
}

/// How `j` reads as the variant `response.output_text.delta` of `StreamingEvent`.
pub open spec fn streaming_event_output_text_delta(j: JValue) -> Option<JValue> {
    let m = Some(begin() + tag_ent("response.output_text.delta"@));
    let m = cat(m, req::<i32>(j, "sequence_number"@));
    let m = cat(m, req::<String>(j, "item_id"@));
    let m = cat(m, req::<i32>(j, "output_index"@));
    let m = cat(m, req::<i32>(j, "content_index"@));
    let m = cat(m, req::<String>(j, "delta"@));
    let m = cat(m, opt::<Vec<LogProb>>(j, "logprobs"@));
    let m = cat(m, opt::<String>(j, "obfuscation"@));
    obj(m)
}

/// How `j` reads as the variant `response.output_text.done` of `StreamingEvent`.
pub open spec fn streaming_event_output_text_done(j: JValue) -> Option<JValue> {
    let m = Some(begin() + tag_ent("response.output_text.done"@));
    let m = cat(m, req::<i32>(j, "sequence_number"@));
    let m = cat(m, req::<String>(j, "item_id"@));
    let m = cat(m, req::<i32>(j, "output_index"@));
    let m = cat(m, req::<i32>(j, "content_index"@));
    let m = cat(m, req::<String>(j, "text"@));
    let m = cat(m, opt::<Vec<LogProb>>(j, "logprobs"@));
    obj(m)
}

/// How `j` reads as the variant `response.refusal.delta` of `StreamingEvent`.
pub open spec fn streaming_event_refusal_delta(j: JValue) -> Option<JValue> {
    let m = Some(begin() + tag_ent("response.refusal.delta"@));
    let m = cat(m, req::<i32>(j, "sequence_number"@));
    let m = cat(m, req::<String>(j, "item_id"@));
    let m = cat(m, req::<i32>(j, "output_index"@));
    let m = cat(m, req::<i32>(j, "content_index"@));
    let m = cat(m, req::<String>(j, "delta"@));
    obj(m)
}

/// How `j` reads as the variant `response.refusal.done` of `StreamingEvent`.
pub open spec fn streaming_event_refusal_done(j: JValue) -> Option<JValue> {
    let m = Some(begin() + tag_ent("response.refusal.done"@));
    let m = cat(m, req::<i32>(j, "sequence_number"@));
    let m = cat(m, req::<String>(j, "item_id"@));
    let m = cat(m, req::<i32>(j, "output_index"@));
    let m = cat(m, req::<i32>(j, "content_index"@));
    let m = cat(m, req::<String>(j, "refusal"@));
    obj(m)
}

/// How `j` reads as the variant `response.reasoning.delta` of `StreamingEvent`.
pub open spec fn streaming_event_reasoning_delta(j: JValue) -> Option<JValue> {
    let m = Some(begin() + tag_ent("response.reasoning.delta"@));
    let m = cat(m, req::<i32>(j, "sequence_number"@));
    let m = cat(m, req::<String>(j, "item_id"@));
    let m = cat(m, req::<i32>(j, "output_index"@));
    let m = cat(m, req::<i32>(j, "content_index"@));
    let m = cat(m, req::<String>(j, "delta"@));
    let m = cat(m, opt::<String>(j, "obfuscation"@));
    obj(m)
}

/// How `j` reads as the variant `response.reasoning.done` of `StreamingEvent`.
pub open spec fn streaming_event_reasoning_done(j: JValue) -> Option<JValue> {
    let m = Some(begin() + tag_ent("response.reasoning.done"@));
    let m = cat(m, req::<i32>(j, "sequence_number"@));
    let m = cat(m, req::<String>(j, "item_id"@));
    let m = cat(m, req::<i32>(j, "output_index"@));
    let m = cat(m, req::<i32>(j, "content_index"@));
    let m = cat(m, req::<String>(j, "text"@));
    obj(m)
}

/// How `j` reads as the variant `response.reasoning_summary_text.delta` of `StreamingEvent`.
pub open spec fn streaming_event_reasoning_summary_delta(j: JValue) -> Option<JValue> {
    let m = Some(begin() + tag_ent("response.reasoning_summary_text.delta"@));
    let m = cat(m, req::<i32>(j, "sequence_number"@));
    let m = cat(m, req::<String>(j, "item_id"@));
    let m = cat(m, req::<i32>(j, "output_index"@));
    let m = cat(m, req::<i32>(j, "summary_index"@));
    let m = cat(m, req::<String>(j, "delta"@));
    let m = cat(m, opt::<String>(j, "obfuscation"@));
    obj(m)
}

/// How `j` reads as the variant `response.reasoning_summary_text.done` of `StreamingEvent`.
pub open spec fn streaming_event_reasoning_summary_done(j: JValue) -> Option<JValue> {
    let m = Some(begin() + tag_ent("response.reasoning_summary_text.done"@));
    let m = cat(m, req::<i32>(j, "sequence_number"@));
    let m = cat(m, req::<String>(j, "item_id"@));
    let m = cat(m, req::<i32>(j, "output_index"@));
    let m = cat(m, req::<i32>(j, "summary_index"@));
    let m = cat(m, req::<String>(j, "text"@));
    obj(m)
}

/// How `j` reads as the variant `response.reasoning_summary_part.added` of `StreamingEvent`.
pub open spec fn streaming_event_reasoning_summary_part_added(j: JValue) -> Option<JValue> {
    let m = Some(begin() + tag_ent("response.reasoning_summary_part.added"@));
    let m = cat(m, req::<i32>(j, "sequence_number"@));
    let m = cat(m, req::<String>(j, "item_id"@));
    let m = cat(m, req::<i32>(j, "output_index"@));
    let m = cat(m, req::<i32>(j, "summary_index"@));
    let m = cat(m, req::<MessageContent>(j, "part"@));
    obj(m)
}

/// How `j` reads as the variant `response.reasoning_summary_part.done` of `StreamingEvent`.
pub open spec fn streaming_event_reasoning_summary_part_done(j: JValue) -> Option<JValue> {
    let m = Some(begin() + tag_ent("response.reasoning_summary_part.done"@));
    let m = cat(m, req::<i32>(j, "sequence_number"@));
    let m = cat(m, req::<String>(j, "item_id"@));
    let m = cat(m, req::<i32>(j, "output_index"@));
    let m = cat(m, req::<i32>(j, "summary_index"@));
    let m = cat(m, req::<MessageContent>(j, "part"@));
    obj(m)
}

/// How `j` reads as the variant `response.output_text.annotation.added` of `StreamingEvent`.
pub open spec fn streaming_event_output_text_annotation_added(j: JValue) -> Option<JValue> {
    let m = Some(begin() + tag_ent("response.output_text.annotation.added"@));
    let m = cat(m, req::<i32>(j, "sequence_number"@));
    let m = cat(m, req::<String>(j, "item_id"@));
    let m = cat(m, req::<i32>(j, "output_index"@));
    let m = cat(m, req::<i32>(j, "content_index"@));
    let m = cat(m, req::<i32>(j, "annotation_index"@));
    let m = cat(m, req::<Annotation>(j, "annotation"@));
    obj(m)
}

/// How `j` reads as the variant `response.function_call_arguments.delta` of `StreamingEvent`.
pub open spec fn streaming_event_function_call_arguments_delta(j: JValue) -> Option<JValue> {
    let m = Some(begin() + tag_ent("response.function_call_arguments.delta"@));
    let m = cat(m, req::<i32>(j, "sequence_number"@));
    let m = cat(m, req::<String>(j, "item_id"@));
    let m = cat(m, req::<i32>(j, "output_index"@));
    let m = cat(m, req::<String>(j, "delta"@));
    let m = cat(m, opt::<String>(j, "obfuscation"@));
    obj(m)
}

/// How `j` reads as the variant `response.function_call_arguments.done` of `StreamingEvent`.
pub open spec fn streaming_event_function_call_arguments_done(j: JValue) -> Option<JValue> {
    let m = Some(begin() + tag_ent("response.function_call_arguments.done"@));
    let m = cat(m, req::<i32>(j, "sequence_number"@));
    let m = cat(m, req::<String>(j, "item_id"@));
    let m = cat(m, req::<i32>(j, "output_index"@));
    let m = cat(m, req::<String>(j, "arguments"@));
    obj(m)
}

/// How `j` reads as the variant `error` of `StreamingEvent`.
pub open spec fn streaming_event_error(j: JValue) -> Option<JValue> {
    let m = Some(begin() + tag_ent("error"@));
    let m = cat(m, req::<i32>(j, "sequence_number"@));
    let m = cat(m, req::<ErrorPayload>(j, "error"@));
    obj(m)
}

/// How `j` reads as the variant `[DONE]` of `StreamingEvent`.
pub open spec fn streaming_event_done(j: JValue) -> Option<JValue> {
    obj(Some(begin() + tag_ent("[DONE]"@)))
}

impl Wire for StreamingEvent {
    open spec fn wire(&self) -> JValue {
        match self {
            StreamingEvent::ResponseCreated { sequence_number, response } => JValue::Obj(
                begin()
                    + tag_ent("response.created"@)
                    + ent("sequence_number"@, *sequence_number)
                    + ent("response"@, *response),
            ),
            StreamingEvent::ResponseQueued { sequence_number, response } => JValue::Obj(
                begin()
                    + tag_ent("response.queued"@)
                    + ent("sequence_number"@, *sequence_number)
                    + ent("response"@, *response),
            ),
            StreamingEvent::ResponseInProgress { sequence_number, response } => JValue::Obj(
                begin()
                    + tag_ent("response.in_progress"@)
                    + ent("sequence_number"@, *sequence_number)
                    + ent("response"@, *response),
            ),
            StreamingEvent::ResponseCompleted { sequence_number, response } => JValue::Obj(
                begin()
                    + tag_ent("response.completed"@)
                    + ent("sequence_number"@, *sequence_number)
                    + ent("response"@, *response),
            ),
            StreamingEvent::ResponseFailed { sequence_number, response } => JValue::Obj(
                begin()
                    + tag_ent("response.failed"@)
                    + ent("sequence_number"@, *sequence_number)
                    + ent("response"@, *response),
            ),
            StreamingEvent::ResponseIncomplete { sequence_number, response } => JValue::Obj(
                begin()
                    + tag_ent("response.incomplete"@)
                    + ent("sequence_number"@, *sequence_number)
                    + ent("response"@, *response),
            ),
            StreamingEvent::OutputItemAdded { sequence_number, output_index, item } => JValue::Obj(
                begin()
                    + tag_ent("response.output_item.added"@)
                    + ent("sequence_number"@, *sequence_number)
                    + ent("output_index"@, *output_index)
                    + ent("item"@, *item),
            ),
            StreamingEvent::OutputItemDone { sequence_number, output_index, item } => JValue::Obj(
                begin()
                    + tag_ent("response.output_item.done"@)
                    + ent("sequence_number"@, *sequence_number)
                    + ent("output_index"@, *output_index)
                    + ent("item"@, *item),
            ),
            StreamingEvent::ContentPartAdded { sequence_number, item_id, output_index, content_index, part } => JValue::Obj(
                begin()
                    + tag_ent("response.content_part.added"@)
                    + ent("sequence_number"@, *sequence_number)
                    + ent("item_id"@, *item_id)
                    + ent("output_index"@, *output_index)
                    + ent("content_index"@, *content_index)
                    + ent("part"@, *part),
            ),
            StreamingEvent::ContentPartDone { sequence_number, item_id, output_index, content_index, part } => JValue::Obj(
                begin()
                    + tag_ent("response.content_part.done"@)
                    + ent("sequence_number"@, *sequence_number)
                    + ent("item_id"@, *item_id)
                    + ent("output_index"@, *output_index)
                    + ent("content_index"@, *content_index)
                    + ent("part"@, *part),
            ),
            StreamingEvent::OutputTextDelta { sequence_number, item_id, output_index, content_index, delta, logprobs, obfuscation } => JValue::Obj(
                begin()
                    + tag_ent("response.output_text.delta"@)
                    + ent("sequence_number"@, *sequence_number)
                    + ent("item_id"@, *item_id)
                    + ent("output_index"@, *output_index)
                    + ent("content_index"@, *content_index)
                    + ent("delta"@, *delta)
                    + opt_ent("logprobs"@, *logprobs)
                    + opt_ent("obfuscation"@, *obfuscation),
            ),
            StreamingEvent::OutputTextDone { sequence_number, item_id, output_index, content_index, text, logprobs } => JValue::Obj(
                begin()
                    + tag_ent("response.output_text.done"@)
                    + ent("sequence_number"@, *sequence_number)
                    + ent("item_id"@, *item_id)
                    + ent("output_index"@, *output_index)
                    + ent("content_index"@, *content_index)
                    + ent("text"@, *text)
                    + opt_ent("logprobs"@, *logprobs),
            ),
            StreamingEvent::RefusalDelta { sequence_number, item_id, output_index, content_index, delta } => JValue::Obj(
                begin()
                    + tag_ent("response.refusal.delta"@)
                    + ent("sequence_number"@, *sequence_number)
                    + ent("item_id"@, *item_id)
                    + ent("output_index"@, *output_index)
                    + ent("content_index"@, *content_index)
                    + ent("delta"@, *delta),
            ),
            StreamingEvent::RefusalDone { sequence_number, item_id, output_index, content_index, refusal } => JValue::Obj(
                begin()
                    + tag_ent("response.refusal.done"@)
                    + ent("sequence_number"@, *sequence_number)
                    + ent("item_id"@, *item_id)
                    + ent("output_index"@, *output_index)
                    + ent("content_index"@, *content_index)
                    + ent("refusal"@, *refusal),
            ),
            StreamingEvent::ReasoningDelta { sequence_number, item_id, output_index, content_index, delta, obfuscation } => JValue::Obj(
                begin()
                    + tag_ent("response.reasoning.delta"@)
                    + ent("sequence_number"@, *sequence_number)
                    + ent("item_id"@, *item_id)
                    + ent("output_index"@, *output_index)
                    + ent("content_index"@, *content_index)
                    + ent("delta"@, *delta)
                    + opt_ent("obfuscation"@, *obfuscation),
            ),
            StreamingEvent::ReasoningDone { sequence_number, item_id, output_index, content_index, text } => JValue::Obj(
                begin()
                    + tag_ent("response.reasoning.done"@)
                    + ent("sequence_number"@, *sequence_number)
                    + ent("item_id"@, *item_id)
                    + ent("output_index"@, *output_index)
                    + ent("content_index"@, *content_index)
                    + ent("text"@, *text),
            ),
            StreamingEvent::ReasoningSummaryDelta { sequence_number, item_id, output_index, summary_index, delta, obfuscation } => JValue::Obj(
                begin()
                    + tag_ent("response.reasoning_summary_text.delta"@)
                    + ent("sequence_number"@, *sequence_number)
                    + ent("item_id"@, *item_id)
                    + ent("output_index"@, *output_index)
                    + ent("summary_index"@, *summary_index)
                    + ent("delta"@, *delta)
                    + opt_ent("obfuscation"@, *obfuscation),
            ),
            StreamingEvent::ReasoningSummaryDone { sequence_number, item_id, output_index, summary_index, text } => JValue::Obj(
                begin()
                    + tag_ent("response.reasoning_summary_text.done"@)
                    + ent("sequence_number"@, *sequence_number)
                    + ent("item_id"@, *item_id)
                    + ent("output_index"@, *output_index)
                    + ent("summary_index"@, *summary_index)
                    + ent("text"@, *text),
            ),
            StreamingEvent::ReasoningSummaryPartAdded { sequence_number, item_id, output_index, summary_index, part } => JValue::Obj(
                begin()
                    + tag_ent("response.reasoning_summary_part.added"@)
                    + ent("sequence_number"@, *sequence_number)
                    + ent("item_id"@, *item_id)
                    + ent("output_index"@, *output_index)
                    + ent("summary_index"@, *summary_index)
                    + ent("part"@, *part),
            ),
            StreamingEvent::ReasoningSummaryPartDone { sequence_number, item_id, output_index, summary_index, part } => JValue::Obj(
                begin()
                    + tag_ent("response.reasoning_summary_part.done"@)
                    + ent("sequence_number"@, *sequence_number)
                    + ent("item_id"@, *item_id)
                    + ent("output_index"@, *output_index)
                    + ent("summary_index"@, *summary_index)
                    + ent("part"@, *part),
            ),
            StreamingEvent::OutputTextAnnotationAdded { sequence_number, item_id, output_index, content_index, annotation_index, annotation } => JValue::Obj(
                begin()
                    + tag_ent("response.output_text.annotation.added"@)
                    + ent("sequence_number"@, *sequence_number)
                    + ent("item_id"@, *item_id)
                    + ent("output_index"@, *output_index)
                    + ent("content_index"@, *content_index)
                    + ent("annotation_index"@, *annotation_index)
                    + ent("annotation"@, *annotation),
            ),
            StreamingEvent::FunctionCallArgumentsDelta { sequence_number, item_id, output_index, delta, obfuscation } => JValue::Obj(
                begin()
                    + tag_ent("response.function_call_arguments.delta"@)
                    + ent("sequence_number"@, *sequence_number)
                    + ent("item_id"@, *item_id)
                    + ent("output_index"@, *output_index)
                    + ent("delta"@, *delta)
                    + opt_ent("obfuscation"@, *obfuscation),
            ),
            StreamingEvent::FunctionCallArgumentsDone { sequence_number, item_id, output_index, arguments } => JValue::Obj(
                begin()
                    + tag_ent("response.function_call_arguments.done"@)
                    + ent("sequence_number"@, *sequence_number)
                    + ent("item_id"@, *item_id)
                    + ent("output_index"@, *output_index)
                    + ent("arguments"@, *arguments),
            ),
            StreamingEvent::Error { sequence_number, error } => JValue::Obj(
                begin()
                    + tag_ent("error"@)
                    + ent("sequence_number"@, *sequence_number)
                    + ent("error"@, *error),
            ),
            StreamingEvent::Done => JValue::Obj(begin() + tag_ent("[DONE]"@)),
        }
    }

    open spec fn read(j: JValue) -> Option<JValue> {
        match tag_of(j) {
            Some(t) => {
                if t == "response.created"@ {
                    streaming_event_response_created(j)
                } else if t == "response.queued"@ {
                    streaming_event_response_queued(j)
                } else if t == "response.in_progress"@ {
                    streaming_event_response_in_progress(j)
                } else if t == "response.completed"@ {
                    streaming_event_response_completed(j)
                } else if t == "response.failed"@ {
                    streaming_event_response_failed(j)
                } else if t == "response.incomplete"@ {
                    streaming_event_response_incomplete(j)
                } else if t == "response.output_item.added"@ {
                    streaming_event_output_item_added(j)
                } else if t == "response.output_item.done"@ {
                    streaming_event_output_item_done(j)
                } else if t == "response.content_part.added"@ {
                    streaming_event_content_part_added(j)
                } else if t == "response.content_part.done"@ {
                    streaming_event_content_part_done(j)
                } else if t == "response.output_text.delta"@ {
                    streaming_event_output_text_delta(j)
                } else if t == "response.output_text.done"@ {
                    streaming_event_output_text_done(j)
                } else if t == "response.refusal.delta"@ {
                    streaming_event_refusal_delta(j)
                } else if t == "response.refusal.done"@ {
                    streaming_event_refusal_done(j)
                } else if t == "response.reasoning.delta"@ {
                    streaming_event_reasoning_delta(j)
                } else if t == "response.reasoning.done"@ {
                    streaming_event_reasoning_done(j)
                } else if t == "response.reasoning_summary_text.delta"@ {
                    streaming_event_reasoning_summary_delta(j)
                } else if t == "response.reasoning_summary_text.done"@ {
                    streaming_event_reasoning_summary_done(j)
                } else if t == "response.reasoning_summary_part.added"@ {
                    streaming_event_reasoning_summary_part_added(j)
                } else if t == "response.reasoning_summary_part.done"@ {
                    streaming_event_reasoning_summary_part_done(j)
                } else if t == "response.output_text.annotation.added"@ {
                    streaming_event_output_text_annotation_added(j)
                } else if t == "response.function_call_arguments.delta"@ {
                    streaming_event_function_call_arguments_delta(j)
                } else if t == "response.function_call_arguments.done"@ {
                    streaming_event_function_call_arguments_done(j)
                } else if t == "error"@ {
                    streaming_event_error(j)
                } else if t == "[DONE]"@ {
                    streaming_event_done(j)
                } else {
                    None
                }
            },
            None => None,
        }
    }

    fn to_json(&self) -> (r: Json) {
        let mut m: Vec<(String, Json)> = Vec::new();
        match self {
            StreamingEvent::ResponseCreated { sequence_number, response } => {
                put_tag(&mut m, "response.created");
                put(&mut m, "sequence_number", sequence_number);
                put(&mut m, "response", response);
            },
            StreamingEvent::ResponseQueued { sequence_number, response } => {
                put_tag(&mut m, "response.queued");
                put(&mut m, "sequence_number", sequence_number);
                put(&mut m, "response", response);
            },
            StreamingEvent::ResponseInProgress { sequence_number, response } => {
                put_tag(&mut m, "response.in_progress");
                put(&mut m, "sequence_number", sequence_number);
                put(&mut m, "response", response);
            },
            StreamingEvent::ResponseCompleted { sequence_number, response } => {
                put_tag(&mut m, "response.completed");
                put(&mut m, "sequence_number", sequence_number);
                put(&mut m, "response", response);
            },
            StreamingEvent::ResponseFailed { sequence_number, response } => {
                put_tag(&mut m, "response.failed");
                put(&mut m, "sequence_number", sequence_number);
                put(&mut m, "response", response);
            },
            StreamingEvent::ResponseIncomplete { sequence_number, response } => {
                put_tag(&mut m, "response.incomplete");
                put(&mut m, "sequence_number", sequence_number);
                put(&mut m, "response", response);
            },
            StreamingEvent::OutputItemAdded { sequence_number, output_index, item } => {
                put_tag(&mut m, "response.output_item.added");
                put(&mut m, "sequence_number", sequence_number);
                put(&mut m, "output_index", output_index);
                put(&mut m, "item", item);
            },
            StreamingEvent::OutputItemDone { sequence_number, output_index, item } => {
                put_tag(&mut m, "response.output_item.done");
                put(&mut m, "sequence_number", sequence_number);
                put(&mut m, "output_index", output_index);
                put(&mut m, "item", item);
            },
            StreamingEvent::ContentPartAdded { sequence_number, item_id, output_index, content_index, part } => {
                put_tag(&mut m, "response.content_part.added");
                put(&mut m, "sequence_number", sequence_number);
                put(&mut m, "item_id", item_id);
                put(&mut m, "output_index", output_index);
                put(&mut m, "content_index", content_index);
                put(&mut m, "part", part);
            },
            StreamingEvent::ContentPartDone { sequence_number, item_id, output_index, content_index, part } => {
                put_tag(&mut m, "response.content_part.done");
                put(&mut m, "sequence_number", sequence_number);
                put(&mut m, "item_id", item_id);
                put(&mut m, "output_index", output_index);
                put(&mut m, "content_index", content_index);
                put(&mut m, "part", part);
            },
            StreamingEvent::OutputTextDelta { sequence_number, item_id, output_index, content_index, delta, logprobs, obfuscation } => {
                put_tag(&mut m, "response.output_text.delta");
                put(&mut m, "sequence_number", sequence_number);
                put(&mut m, "item_id", item_id);
                put(&mut m, "output_index", output_index);
                put(&mut m, "content_index", content_index);
                put(&mut m, "delta", delta);
                put_opt(&mut m, "logprobs", logprobs);
                put_opt(&mut m, "obfuscation", obfuscation);
            },
            StreamingEvent::OutputTextDone { sequence_number, item_id, output_index, content_index, text, logprobs } => {
                put_tag(&mut m, "response.output_text.done");
                put(&mut m, "sequence_number", sequence_number);
                put(&mut m, "item_id", item_id);
                put(&mut m, "output_index", output_index);
                put(&mut m, "content_index", content_index);
                put(&mut m, "text", text);
                put_opt(&mut m, "logprobs", logprobs);
            },
            StreamingEvent::RefusalDelta { sequence_number, item_id, output_index, content_index, delta } => {
                put_tag(&mut m, "response.refusal.delta");
                put(&mut m, "sequence_number", sequence_number);
                put(&mut m, "item_id", item_id);
                put(&mut m, "output_index", output_index);
                put(&mut m, "content_index", content_index);
                put(&mut m, "delta", delta);
            },
            StreamingEvent::RefusalDone { sequence_number, item_id, output_index, content_index, refusal } => {
                put_tag(&mut m, "response.refusal.done");
                put(&mut m, "sequence_number", sequence_number);
                put(&mut m, "item_id", item_id);
                put(&mut m, "output_index", output_index);
                put(&mut m, "content_index", content_index);
                put(&mut m, "refusal", refusal);
            },
            StreamingEvent::ReasoningDelta { sequence_number, item_id, output_index, content_index, delta, obfuscation } => {
                put_tag(&mut m, "response.reasoning.delta");
                put(&mut m, "sequence_number", sequence_number);
                put(&mut m, "item_id", item_id);
                put(&mut m, "output_index", output_index);
                put(&mut m, "content_index", content_index);
                put(&mut m, "delta", delta);
                put_opt(&mut m, "obfuscation", obfuscation);
            },
            StreamingEvent::ReasoningDone { sequence_number, item_id, output_index, content_index, text } => {
                put_tag(&mut m, "response.reasoning.done");
                put(&mut m, "sequence_number", sequence_number);
                put(&mut m, "item_id", item_id);
                put(&mut m, "output_index", output_index);
                put(&mut m, "content_index", content_index);
                put(&mut m, "text", text);
            },
            StreamingEvent::ReasoningSummaryDelta { sequence_number, item_id, output_index, summary_index, delta, obfuscation } => {
                put_tag(&mut m, "response.reasoning_summary_text.delta");
                put(&mut m, "sequence_number", sequence_number);
                put(&mut m, "item_id", item_id);
                put(&mut m, "output_index", output_index);
                put(&mut m, "summary_index", summary_index);
                put(&mut m, "delta", delta);
                put_opt(&mut m, "obfuscation", obfuscation);
            },
            StreamingEvent::ReasoningSummaryDone { sequence_number, item_id, output_index, summary_index, text } => {
                put_tag(&mut m, "response.reasoning_summary_text.done");
                put(&mut m, "sequence_number", sequence_number);
                put(&mut m, "item_id", item_id);
                put(&mut m, "output_index", output_index);
                put(&mut m, "summary_index", summary_index);
                put(&mut m, "text", text);
            },
            StreamingEvent::ReasoningSummaryPartAdded { sequence_number, item_id, output_index, summary_index, part } => {
                put_tag(&mut m, "response.reasoning_summary_part.added");
                put(&mut m, "sequence_number", sequence_number);
                put(&mut m, "item_id", item_id);
                put(&mut m, "output_index", output_index);
                put(&mut m, "summary_index", summary_index);
                put(&mut m, "part", part);
            },
            StreamingEvent::ReasoningSummaryPartDone { sequence_number, item_id, output_index, summary_index, part } => {
                put_tag(&mut m, "response.reasoning_summary_part.done");
                put(&mut m, "sequence_number", sequence_number);
                put(&mut m, "item_id", item_id);
                put(&mut m, "output_index", output_index);
                put(&mut m, "summary_index", summary_index);
                put(&mut m, "part", part);
            },
            StreamingEvent::OutputTextAnnotationAdded { sequence_number, item_id, output_index, content_index, annotation_index, annotation } => {
                put_tag(&mut m, "response.output_text.annotation.added");
                put(&mut m, "sequence_number", sequence_number);
                put(&mut m, "item_id", item_id);
                put(&mut m, "output_index", output_index);
                put(&mut m, "content_index", content_index);
                put(&mut m, "annotation_index", annotation_index);
                put(&mut m, "annotation", annotation);
            },
            StreamingEvent::FunctionCallArgumentsDelta { sequence_number, item_id, output_index, delta, obfuscation } => {
                put_tag(&mut m, "response.function_call_arguments.delta");
                put(&mut m, "sequence_number", sequence_number);
                put(&mut m, "item_id", item_id);
                put(&mut m, "output_index", output_index);
                put(&mut m, "delta", delta);
                put_opt(&mut m, "obfuscation", obfuscation);
            },
            StreamingEvent::FunctionCallArgumentsDone { sequence_number, item_id, output_index, arguments } => {
                put_tag(&mut m, "response.function_call_arguments.done");
                put(&mut m, "sequence_number", sequence_number);
                put(&mut m, "item_id", item_id);
                put(&mut m, "output_index", output_index);
                put(&mut m, "arguments", arguments);
            },
            StreamingEvent::Error { sequence_number, error } => {
                put_tag(&mut m, "error");
                put(&mut m, "sequence_number", sequence_number);
                put(&mut m, "error", error);
            },
            StreamingEvent::Done => {
                put_tag(&mut m, "[DONE]");

            },
        }
        Json::Object(m)
    }

    fn from_json(j: &Json) -> (r: Result<Self, DecodeError>) {
        Self::decode(j)
    }
}

impl StreamingEvent {
    /// Tells whether `t` names a variant of `StreamingEvent`.
    pub open spec fn tag_known(t: Seq<char>) -> bool {
        t == "response.created"@ || t == "response.queued"@ || t == "response.in_progress"@ || t == "response.completed"@ || t == "response.failed"@ || t == "response.incomplete"@ || t == "response.output_item.added"@ || t == "response.output_item.done"@ || t == "response.content_part.added"@ || t == "response.content_part.done"@ || t == "response.output_text.delta"@ || t == "response.output_text.done"@ || t == "response.refusal.delta"@ || t == "response.refusal.done"@ || t == "response.reasoning.delta"@ || t == "response.reasoning.done"@ || t == "response.reasoning_summary_text.delta"@ || t == "response.reasoning_summary_text.done"@ || t == "response.reasoning_summary_part.added"@ || t == "response.reasoning_summary_part.done"@ || t == "response.output_text.annotation.added"@ || t == "response.function_call_arguments.delta"@ || t == "response.function_call_arguments.done"@ || t == "error"@ || t == "[DONE]"@
    }

    /// Reads a `StreamingEvent` from JSON; a `type` that names no variant gives `UnknownVariant`
    /// with that `type`.
    pub fn decode(j: &Json) -> (r: Result<Self, DecodeError>)
        ensures
            match r {
                Ok(v) => Self::read(j@) == Some(v.wire()),
                Err(_) => Self::read(j@) is None,
            },
            match tag_of(j@) {
                Some(t) => !Self::tag_known(t) ==> (r matches Err(DecodeError::UnknownVariant { union_name, tag })
                    && union_name@ == "StreamingEvent"@ && tag@ == t),
                None => true,
            },
    {
        let t = get_tag(j)?;
        if same_text(t.as_str(), "response.created") {
            Self::read_response_created(j)
        } else if same_text(t.as_str(), "response.queued") {
            Self::read_response_queued(j)
        } else if same_text(t.as_str(), "response.in_progress") {
            Self::read_response_in_progress(j)
        } else if same_text(t.as_str(), "response.completed") {
            Self::read_response_completed(j)
        } else if same_text(t.as_str(), "response.failed") {
            Self::read_response_failed(j)
        } else if same_text(t.as_str(), "response.incomplete") {
            Self::read_response_incomplete(j)
        } else if same_text(t.as_str(), "response.output_item.added") {
            Self::read_output_item_added(j)
        } else if same_text(t.as_str(), "response.output_item.done") {
            Self::read_output_item_done(j)
        } else if same_text(t.as_str(), "response.content_part.added") {
            Self::read_content_part_added(j)
        } else if same_text(t.as_str(), "response.content_part.done") {
            Self::read_content_part_done(j)
        } else if same_text(t.as_str(), "response.output_text.delta") {
            Self::read_output_text_delta(j)
        } else if same_text(t.as_str(), "response.output_text.done") {
            Self::read_output_text_done(j)
        } else if same_text(t.as_str(), "response.refusal.delta") {
            Self::read_refusal_delta(j)
        } else if same_text(t.as_str(), "response.refusal.done") {
            Self::read_refusal_done(j)
        } else if same_text(t.as_str(), "response.reasoning.delta") {
            Self::read_reasoning_delta(j)
        } else if same_text(t.as_str(), "response.reasoning.done") {
            Self::read_reasoning_done(j)
        } else if same_text(t.as_str(), "response.reasoning_summary_text.delta") {
            Self::read_reasoning_summary_delta(j)
        } else if same_text(t.as_str(), "response.reasoning_summary_text.done") {
            Self::read_reasoning_summary_done(j)
        } else if same_text(t.as_str(), "response.reasoning_summary_part.added") {
            Self::read_reasoning_summary_part_added(j)
        } else if same_text(t.as_str(), "response.reasoning_summary_part.done") {
            Self::read_reasoning_summary_part_done(j)
        } else if same_text(t.as_str(), "response.output_text.annotation.added") {
            Self::read_output_text_annotation_added(j)
        } else if same_text(t.as_str(), "response.function_call_arguments.delta") {
            Self::read_function_call_arguments_delta(j)
        } else if same_text(t.as_str(), "response.function_call_arguments.done") {
            Self::read_function_call_arguments_done(j)
        } else if same_text(t.as_str(), "error") {
            Self::read_error(j)
        } else if same_text(t.as_str(), "[DONE]") {
            Self::read_done(j)
        } else {
            Err(DecodeError::UnknownVariant { union_name: "StreamingEvent".to_owned(), tag: t.clone() })
        }
    }
}

impl StreamingEvent {
    #[verifier::rlimit(50)]
    fn read_response_created(j: &Json) -> (r: Result<StreamingEvent, DecodeError>)
        ensures
            match r {
                Ok(v) => streaming_event_response_created(j@) == Some(v.wire()),
                Err(_) => streaming_event_response_created(j@) is None,
            },
    {
        let sequence_number = get_req::<i32>(j, "sequence_number")?;
        let response = get_req::<ResponseResource>(j, "response")?;
        Ok(StreamingEvent::ResponseCreated { sequence_number, response })
    }

    #[verifier::rlimit(50)]
    fn read_response_queued(j: &Json) -> (r: Result<StreamingEvent, DecodeError>)
        ensures
            match r {
                Ok(v) => streaming_event_response_queued(j@) == Some(v.wire()),
                Err(_) => streaming_event_response_queued(j@) is None,
            },
    {
        let sequence_number = get_req::<i32>(j, "sequence_number")?;
        let response = get_req::<ResponseResource>(j, "response")?;
        Ok(StreamingEvent::ResponseQueued { sequence_number, response })
    }

    #[verifier::rlimit(50)]
    fn read_response_in_progress(j: &Json) -> (r: Result<StreamingEvent, DecodeError>)
        ensures
            match r {
                Ok(v) => streaming_event_response_in_progress(j@) == Some(v.wire()),
                Err(_) => streaming_event_response_in_progress(j@) is None,
            },
    {
        let sequence_number = get_req::<i32>(j, "sequence_number")?;
        let response = get_req::<ResponseResource>(j, "response")?;
        Ok(StreamingEvent::ResponseInProgress { sequence_number, response })
    }

    #[verifier::rlimit(50)]
    fn read_response_completed(j: &Json) -> (r: Result<StreamingEvent, DecodeError>)
        ensures
            match r {
                Ok(v) => streaming_event_response_completed(j@) == Some(v.wire()),
                Err(_) => streaming_event_response_completed(j@) is None,
            },
    {
        let sequence_number = get_req::<i32>(j, "sequence_number")?;
        let response = get_req::<ResponseResource>(j, "response")?;
        Ok(StreamingEvent::ResponseCompleted { sequence_number, response })
    }

    #[verifier::rlimit(50)]
    fn read_response_failed(j: &Json) -> (r: Result<StreamingEvent, DecodeError>)
        ensures
            match r {
                Ok(v) => streaming_event_response_failed(j@) == Some(v.wire()),
                Err(_) => streaming_event_response_failed(j@) is None,
            },
    {
        let sequence_number = get_req::<i32>(j, "sequence_number")?;
        let response = get_req::<ResponseResource>(j, "response")?;
        Ok(StreamingEvent::ResponseFailed { sequence_number, response })
    }

    #[verifier::rlimit(50)]
    fn read_response_incomplete(j: &Json) -> (r: Result<StreamingEvent, DecodeError>)
        ensures
            match r {
                Ok(v) => streaming_event_response_incomplete(j@) == Some(v.wire()),
                Err(_) => streaming_event_response_incomplete(j@) is None,
            },
    {
        let sequence_number = get_req::<i32>(j, "sequence_number")?;
        let response = get_req::<ResponseResource>(j, "response")?;
        Ok(StreamingEvent::ResponseIncomplete { sequence_number, response })
    }

    #[verifier::rlimit(50)]
    fn read_output_item_added(j: &Json) -> (r: Result<StreamingEvent, DecodeError>)
        ensures
            match r {
                Ok(v) => streaming_event_output_item_added(j@) == Some(v.wire()),
                Err(_) => streaming_event_output_item_added(j@) is None,
            },
    {
        let sequence_number = get_req::<i32>(j, "sequence_number")?;
        let output_index = get_req::<i32>(j, "output_index")?;
        let item = get_req::<Item>(j, "item")?;
        Ok(StreamingEvent::OutputItemAdded { sequence_number, output_index, item })
    }

    #[verifier::rlimit(50)]
    fn read_output_item_done(j: &Json) -> (r: Result<StreamingEvent, DecodeError>)
        ensures
            match r {
                Ok(v) => streaming_event_output_item_done(j@) == Some(v.wire()),
                Err(_) => streaming_event_output_item_done(j@) is None,
            },
    {
        let sequence_number = get_req::<i32>(j, "sequence_number")?;
        let output_index = get_req::<i32>(j, "output_index")?;
        let item = get_req::<Item>(j, "item")?;
        Ok(StreamingEvent::OutputItemDone { sequence_number, output_index, item })
    }

    #[verifier::rlimit(50)]
    fn read_content_part_added(j: &Json) -> (r: Result<StreamingEvent, DecodeError>)
        ensures
            match r {
                Ok(v) => streaming_event_content_part_added(j@) == Some(v.wire()),
                Err(_) => streaming_event_content_part_added(j@) is None,
            },
    {
        let sequence_number = get_req::<i32>(j, "sequence_number")?;
        let item_id = get_req::<String>(j, "item_id")?;
        let output_index = get_req::<i32>(j, "output_index")?;
        let content_index = get_req::<i32>(j, "content_index")?;
        let part = get_req::<MessageContent>(j, "part")?;
        Ok(StreamingEvent::ContentPartAdded { sequence_number, item_id, output_index, content_index, part })
    }

    #[verifier::rlimit(50)]
    fn read_content_part_done(j: &Json) -> (r: Result<StreamingEvent, DecodeError>)
        ensures
            match r {
                Ok(v) => streaming_event_content_part_done(j@) == Some(v.wire()),
                Err(_) => streaming_event_content_part_done(j@) is None,
            },
    {
        let sequence_number = get_req::<i32>(j, "sequence_number")?;
        let item_id = get_req::<String>(j, "item_id")?;
        let output_index = get_req::<i32>(j, "output_index")?;
        let content_index = get_req::<i32>(j, "content_index")?;
        let part = get_req::<MessageContent>(j, "part")?;
        Ok(StreamingEvent::ContentPartDone { sequence_number, item_id, output_index, content_index, part })
    }

    #[verifier::rlimit(50)]
    fn read_output_text_delta(j: &Json) -> (r: Result<StreamingEvent, DecodeError>)
        ensures
            match r {
                Ok(v) => streaming_event_output_text_delta(j@) == Some(v.wire()),
                Err(_) => streaming_event_output_text_delta(j@) is None,
            },
    {
        let sequence_number = get_req::<i32>(j, "sequence_number")?;
        let item_id = get_req::<String>(j, "item_id")?;
        let output_index = get_req::<i32>(j, "output_index")?;
        let content_index = get_req::<i32>(j, "content_index")?;
        let delta = get_req::<String>(j, "delta")?;
        let logprobs = get_opt::<Vec<LogProb>>(j, "logprobs")?;
        let obfuscation = get_opt::<String>(j, "obfuscation")?;
        Ok(StreamingEvent::OutputTextDelta { sequence_number, item_id, output_index, content_index, delta, logprobs, obfuscation })
    }

    #[verifier::rlimit(50)]
    fn read_output_text_done(j: &Json) -> (r: Result<StreamingEvent, DecodeError>)
        ensures
            match r {
                Ok(v) => streaming_event_output_text_done(j@) == Some(v.wire()),
                Err(_) => streaming_event_output_text_done(j@) is None,
            },
    {
        let sequence_number = get_req::<i32>(j, "sequence_number")?;
        let item_id = get_req::<String>(j, "item_id")?;
        let output_index = get_req::<i32>(j, "output_index")?;
        let content_index = get_req::<i32>(j, "content_index")?;
        let text = get_req::<String>(j, "text")?;
        let logprobs = get_opt::<Vec<LogProb>>(j, "logprobs")?;
        Ok(StreamingEvent::OutputTextDone { sequence_number, item_id, output_index, content_index, text, logprobs })
    }

    #[verifier::rlimit(50)]
    fn read_refusal_delta(j: &Json) -> (r: Result<StreamingEvent, DecodeError>)
        ensures
            match r {
                Ok(v) => streaming_event_refusal_delta(j@) == Some(v.wire()),
                Err(_) => streaming_event_refusal_delta(j@) is None,
            },
    {
        let sequence_number = get_req::<i32>(j, "sequence_number")?;
        let item_id = get_req::<String>(j, "item_id")?;
        let output_index = get_req::<i32>(j, "output_index")?;
        let content_index = get_req::<i32>(j, "content_index")?;
        let delta = get_req::<String>(j, "delta")?;
        Ok(StreamingEvent::RefusalDelta { sequence_number, item_id, output_index, content_index, delta })
    }

    #[verifier::rlimit(50)]
    fn read_refusal_done(j: &Json) -> (r: Result<StreamingEvent, DecodeError>)
        ensures
            match r {
                Ok(v) => streaming_event_refusal_done(j@) == Some(v.wire()),
                Err(_) => streaming_event_refusal_done(j@) is None,
            },
    {
        let sequence_number = get_req::<i32>(j, "sequence_number")?;
        let item_id = get_req::<String>(j, "item_id")?;
        let output_index = get_req::<i32>(j, "output_index")?;
        let content_index = get_req::<i32>(j, "content_index")?;
        let refusal = get_req::<String>(j, "refusal")?;
        Ok(StreamingEvent::RefusalDone { sequence_number, item_id, output_index, content_index, refusal })
    }

    #[verifier::rlimit(50)]
    fn read_reasoning_delta(j: &Json) -> (r: Result<StreamingEvent, DecodeError>)
        ensures
            match r {
                Ok(v) => streaming_event_reasoning_delta(j@) == Some(v.wire()),
                Err(_) => streaming_event_reasoning_delta(j@) is None,
            },
    {
        let sequence_number = get_req::<i32>(j, "sequence_number")?;
        let item_id = get_req::<String>(j, "item_id")?;
        let output_index = get_req::<i32>(j, "output_index")?;
        let content_index = get_req::<i32>(j, "content_index")?;
        let delta = get_req::<String>(j, "delta")?;
        let obfuscation = get_opt::<String>(j, "obfuscation")?;
        Ok(StreamingEvent::ReasoningDelta { sequence_number, item_id, output_index, content_index, delta, obfuscation })
    }

    #[verifier::rlimit(50)]
    fn read_reasoning_done(j: &Json) -> (r: Result<StreamingEvent, DecodeError>)
        ensures
            match r {
                Ok(v) => streaming_event_reasoning_done(j@) == Some(v.wire()),
                Err(_) => streaming_event_reasoning_done(j@) is None,
            },
    {
        let sequence_number = get_req::<i32>(j, "sequence_number")?;
        let item_id = get_req::<String>(j, "item_id")?;
        let output_index = get_req::<i32>(j, "output_index")?;
        let content_index = get_req::<i32>(j, "content_index")?;
        let text = get_req::<String>(j, "text")?;
        Ok(StreamingEvent::ReasoningDone { sequence_number, item_id, output_index, content_index, text })
    }

    #[verifier::rlimit(50)]
    fn read_reasoning_summary_delta(j: &Json) -> (r: Result<StreamingEvent, DecodeError>)
        ensures
            match r {
                Ok(v) => streaming_event_reasoning_summary_delta(j@) == Some(v.wire()),
                Err(_) => streaming_event_reasoning_summary_delta(j@) is None,
            },
    {
        let sequence_number = get_req::<i32>(j, "sequence_number")?;
        let item_id = get_req::<String>(j, "item_id")?;
        let output_index = get_req::<i32>(j, "output_index")?;
        let summary_index = get_req::<i32>(j, "summary_index")?;
        let delta = get_req::<String>(j, "delta")?;
        let obfuscation = get_opt::<String>(j, "obfuscation")?;
        Ok(StreamingEvent::ReasoningSummaryDelta { sequence_number, item_id, output_index, summary_index, delta, obfuscation })
    }

    #[verifier::rlimit(50)]
    fn read_reasoning_summary_done(j: &Json) -> (r: Result<StreamingEvent, DecodeError>)
        ensures
            match r {
                Ok(v) => streaming_event_reasoning_summary_done(j@) == Some(v.wire()),
                Err(_) => streaming_event_reasoning_summary_done(j@) is None,
            },
    {
        let sequence_number = get_req::<i32>(j, "sequence_number")?;
        let item_id = get_req::<String>(j, "item_id")?;
        let output_index = get_req::<i32>(j, "output_index")?;
        let summary_index = get_req::<i32>(j, "summary_index")?;
        let text = get_req::<String>(j, "text")?;
        Ok(StreamingEvent::ReasoningSummaryDone { sequence_number, item_id, output_index, summary_index, text })
    }

    #[verifier::rlimit(50)]
    fn read_reasoning_summary_part_added(j: &Json) -> (r: Result<StreamingEvent, DecodeError>)
        ensures
            match r {
                Ok(v) => streaming_event_reasoning_summary_part_added(j@) == Some(v.wire()),
                Err(_) => streaming_event_reasoning_summary_part_added(j@) is None,
            },
    {
        let sequence_number = get_req::<i32>(j, "sequence_number")?;
        let item_id = get_req::<String>(j, "item_id")?;
        let output_index = get_req::<i32>(j, "output_index")?;
        let summary_index = get_req::<i32>(j, "summary_index")?;
        let part = get_req::<MessageContent>(j, "part")?;
        Ok(StreamingEvent::ReasoningSummaryPartAdded { sequence_number, item_id, output_index, summary_index, part })
    }

    #[verifier::rlimit(50)]
    fn read_reasoning_summary_part_done(j: &Json) -> (r: Result<StreamingEvent, DecodeError>)
        ensures
            match r {
                Ok(v) => streaming_event_reasoning_summary_part_done(j@) == Some(v.wire()),
                Err(_) => streaming_event_reasoning_summary_part_done(j@) is None,
            },
    {
        let sequence_number = get_req::<i32>(j, "sequence_number")?;
        let item_id = get_req::<String>(j, "item_id")?;
        let output_index = get_req::<i32>(j, "output_index")?;
        let summary_index = get_req::<i32>(j, "summary_index")?;
        let part = get_req::<MessageContent>(j, "part")?;
        Ok(StreamingEvent::ReasoningSummaryPartDone { sequence_number, item_id, output_index, summary_index, part })
    }

    #[verifier::rlimit(50)]
    fn read_output_text_annotation_added(j: &Json) -> (r: Result<StreamingEvent, DecodeError>)
        ensures
            match r {
                Ok(v) => streaming_event_output_text_annotation_added(j@) == Some(v.wire()),
                Err(_) => streaming_event_output_text_annotation_added(j@) is None,
            },
    {
        let sequence_number = get_req::<i32>(j, "sequence_number")?;
        let item_id = get_req::<String>(j, "item_id")?;
        let output_index = get_req::<i32>(j, "output_index")?;
        let content_index = get_req::<i32>(j, "content_index")?;
        let annotation_index = get_req::<i32>(j, "annotation_index")?;
        let annotation = get_req::<Annotation>(j, "annotation")?;
        Ok(StreamingEvent::OutputTextAnnotationAdded { sequence_number, item_id, output_index, content_index, annotation_index, annotation })
    }

    #[verifier::rlimit(50)]
    fn read_function_call_arguments_delta(j: &Json) -> (r: Result<StreamingEvent, DecodeError>)
        ensures
            match r {
                Ok(v) => streaming_event_function_call_arguments_delta(j@) == Some(v.wire()),
                Err(_) => streaming_event_function_call_arguments_delta(j@) is None,
            },
    {
        let sequence_number = get_req::<i32>(j, "sequence_number")?;
        let item_id = get_req::<String>(j, "item_id")?;
        let output_index = get_req::<i32>(j, "output_index")?;
        let delta = get_req::<String>(j, "delta")?;
        let obfuscation = get_opt::<String>(j, "obfuscation")?;
        Ok(StreamingEvent::FunctionCallArgumentsDelta { sequence_number, item_id, output_index, delta, obfuscation })
    }

    #[verifier::rlimit(50)]
    fn read_function_call_arguments_done(j: &Json) -> (r: Result<StreamingEvent, DecodeError>)
        ensures
            match r {
                Ok(v) => streaming_event_function_call_arguments_done(j@) == Some(v.wire()),
                Err(_) => streaming_event_function_call_arguments_done(j@) is None,
            },
    {
        let sequence_number = get_req::<i32>(j, "sequence_number")?;
        let item_id = get_req::<String>(j, "item_id")?;
        let output_index = get_req::<i32>(j, "output_index")?;
        let arguments = get_req::<String>(j, "arguments")?;
        Ok(StreamingEvent::FunctionCallArgumentsDone { sequence_number, item_id, output_index, arguments })
    }

    #[verifier::rlimit(50)]
    fn read_error(j: &Json) -> (r: Result<StreamingEvent, DecodeError>)
        ensures
            match r {
                Ok(v) => streaming_event_error(j@) == Some(v.wire()),
                Err(_) => streaming_event_error(j@) is None,
            },
    {
        let sequence_number = get_req::<i32>(j, "sequence_number")?;
        let error = get_req::<ErrorPayload>(j, "error")?;
        Ok(StreamingEvent::Error { sequence_number, error })
    }

    #[verifier::rlimit(50)]
    fn read_done(j: &Json) -> (r: Result<StreamingEvent, DecodeError>)
        ensures
            match r {
                Ok(v) => streaming_event_done(j@) == Some(v.wire()),
                Err(_) => streaming_event_done(j@) is None,
            },
    {

        Ok(StreamingEvent::Done)
    }
}

/// The error an in-band error event carries.
#[derive(Debug, Clone, PartialEq)]
pub struct ErrorPayload {
    pub error_type: String,
    pub code: Option<String>,
    pub message: String,
    pub param: Option<String>,
    pub headers: Option<Vec<(String, String)>>,
}

impl Wire for ErrorPayload {
    open spec fn wire(&self) -> JValue {
        JValue::Obj(
            begin()
                + ent("type"@, self.error_type)
                + opt_ent("code"@, self.code)
                + ent("message"@, self.message)
                + opt_ent("param"@, self.param)
                + opt_ent("headers"@, self.headers),
        )
    }

    open spec fn read(j: JValue) -> Option<JValue> {
        if j is Obj {
            let m = Some(begin());
            let m = cat(m, req::<String>(j, "type"@));
            let m = cat(m, opt::<String>(j, "code"@));
            let m = cat(m, req::<String>(j, "message"@));
            let m = cat(m, opt::<String>(j, "param"@));
            let m = cat(m, opt::<Vec<(String, String)>>(j, "headers"@));
            obj(m)
        } else {
            None
        }
    }

    fn to_json(&self) -> (r: Json) {
        let mut m: Vec<(String, Json)> = Vec::new();
        put(&mut m, "type", &self.error_type);
        put_opt(&mut m, "code", &self.code);
        put(&mut m, "message", &self.message);
        put_opt(&mut m, "param", &self.param);
        put_opt(&mut m, "headers", &self.headers);
        Json::Object(m)
    }

    fn from_json(j: &Json) -> (r: Result<Self, DecodeError>) {
        if !j.is_object() {
            return Err(DecodeError::Mismatch);
        }
        let error_type = get_req::<String>(j, "type")?;
        let code = get_opt::<String>(j, "code")?;
        let message = get_req::<String>(j, "message")?;
        let param = get_opt::<String>(j, "param")?;
        let headers = get_opt::<Vec<(String, String)>>(j, "headers")?;
        Ok(ErrorPayload { error_type, code, message, param, headers })
    }
}

} // verus!
