//! Properties of the protocol model that relate several functions, proved over
//! the canonical forms and readings of its values.

use vstd::prelude::*;

use crate::types::content::{Annotation, LogProb, MessageContent, TopLogProb};
use crate::types::enums::{FunctionCallOutputStatus, FunctionCallStatus, ImageDetail, MessageRole, MessageStatus};
use crate::types::items::{FunctionOutput, Item};
use crate::json::{field, lemma_lookup_concat, lemma_lookup_single, JValue};
use crate::types::tools::ToolChoiceParam;
use crate::types::requests::Input;
use crate::wire::{lemma_vec_round_trip, Wire};

verus! {

/// The canonical form of a `MessageRole` reads back as itself.
pub proof fn lemma_message_role_round_trip(v: MessageRole)
    ensures
        MessageRole::read(v.wire()) == Some(v.wire()),
{
    reveal_strlit("assistant");
    reveal_strlit("developer");
    reveal_strlit("system");
    reveal_strlit("user");
    assert("assistant"@.len() == 9);
    assert("assistant"@[0] == 'a');
    assert("developer"@.len() == 9);
    assert("developer"@[0] == 'd');
    assert("system"@.len() == 6);
    assert("user"@.len() == 4);
}

/// The canonical form of a `MessageStatus` reads back as itself.
pub proof fn lemma_message_status_round_trip(v: MessageStatus)
    ensures
        MessageStatus::read(v.wire()) == Some(v.wire()),
{
    reveal_strlit("completed");
    reveal_strlit("in_progress");
    reveal_strlit("incomplete");
    assert("completed"@.len() == 9);
    assert("in_progress"@.len() == 11);
    assert("incomplete"@.len() == 10);
}

/// The canonical form of a `FunctionCallStatus` reads back as itself.
pub proof fn lemma_function_call_status_round_trip(v: FunctionCallStatus)
    ensures
        FunctionCallStatus::read(v.wire()) == Some(v.wire()),
{
    reveal_strlit("completed");
    reveal_strlit("in_progress");
    reveal_strlit("incomplete");
    assert("completed"@.len() == 9);
    assert("in_progress"@.len() == 11);
    assert("incomplete"@.len() == 10);
}

/// The canonical form of a `FunctionCallOutputStatus` reads back as itself.
pub proof fn lemma_function_call_output_status_round_trip(v: FunctionCallOutputStatus)
    ensures
        FunctionCallOutputStatus::read(v.wire()) == Some(v.wire()),
{
    reveal_strlit("completed");
    reveal_strlit("in_progress");
    reveal_strlit("incomplete");
    assert("completed"@.len() == 9);
    assert("in_progress"@.len() == 11);
    assert("incomplete"@.len() == 10);
}

/// The canonical form of an `ImageDetail` reads back as itself.
pub proof fn lemma_image_detail_round_trip(v: ImageDetail)
    ensures
        ImageDetail::read(v.wire()) == Some(v.wire()),
{
    reveal_strlit("auto");
    reveal_strlit("high");
    reveal_strlit("low");
    assert("auto"@.len() == 4);
    assert("auto"@[0] == 'a');
    assert("high"@.len() == 4);
    assert("high"@[0] == 'h');
    assert("low"@.len() == 3);
}

/// The canonical form of a `LogProb` reads back as itself.
pub proof fn lemma_log_prob_round_trip(v: LogProb)
    ensures
        LogProb::read(v.wire()) == Some(v.wire()),
{
    broadcast use lemma_lookup_concat, lemma_lookup_single;

    reveal_strlit("bytes");
    reveal_strlit("logprob");
    reveal_strlit("token");
    reveal_strlit("top_logprobs");
    assert("bytes"@.len() == 5);
    assert("bytes"@[0] == 'b');
    assert("logprob"@.len() == 7);
    assert("token"@.len() == 5);
    assert("token"@[0] == 't');
    assert("top_logprobs"@.len() == 12);
    assert forall|x: u8| #[trigger] <u8 as Wire>::read(x.wire()) == Some(x.wire()) by {};
    lemma_vec_round_trip::<u8>(v.bytes);
    assert forall|x: TopLogProb| #[trigger] TopLogProb::read(x.wire()) == Some(x.wire()) by { lemma_top_log_prob_round_trip(x); };
    lemma_vec_round_trip::<TopLogProb>(v.top_logprobs);
}

/// The canonical form of a `TopLogProb` reads back as itself.
pub proof fn lemma_top_log_prob_round_trip(v: TopLogProb)
    ensures
        TopLogProb::read(v.wire()) == Some(v.wire()),
{
    broadcast use lemma_lookup_concat, lemma_lookup_single;

    reveal_strlit("bytes");
    reveal_strlit("logprob");
    reveal_strlit("token");
    assert("bytes"@.len() == 5);
    assert("bytes"@[0] == 'b');
    assert("logprob"@.len() == 7);
    assert("token"@.len() == 5);
    assert("token"@[0] == 't');
    assert forall|x: u8| #[trigger] <u8 as Wire>::read(x.wire()) == Some(x.wire()) by {};
    lemma_vec_round_trip::<u8>(v.bytes);
}

/// The canonical form of an `Annotation` reads back as itself.
pub proof fn lemma_annotation_round_trip(v: Annotation)
    ensures
        Annotation::read(v.wire()) == Some(v.wire()),
{
    broadcast use lemma_lookup_concat, lemma_lookup_single;

    reveal_strlit("end_index");
    reveal_strlit("start_index");
    reveal_strlit("title");
    reveal_strlit("type");
    reveal_strlit("url");
    reveal_strlit("url_citation");
    assert("end_index"@.len() == 9);
    assert("start_index"@.len() == 11);
    assert("title"@.len() == 5);
    assert("type"@.len() == 4);
    assert("url"@.len() == 3);
    assert("url_citation"@.len() == 12);
    match v {
        Annotation::UrlCitation { url, title, start_index, end_index } => {
        },
    }
}

/// The canonical form of a `MessageContent` reads back as itself.
pub proof fn lemma_message_content_round_trip(v: MessageContent)
    ensures
        MessageContent::read(v.wire()) == Some(v.wire()),
{
    broadcast use lemma_lookup_concat, lemma_lookup_single;

    reveal_strlit("annotations");
    reveal_strlit("detail");
    reveal_strlit("file_data");
    reveal_strlit("file_url");
    reveal_strlit("filename");
    reveal_strlit("image_url");
    reveal_strlit("input_file");
    reveal_strlit("input_image");
    reveal_strlit("input_text");
    reveal_strlit("input_video");
    reveal_strlit("logprobs");
    reveal_strlit("output_text");
    reveal_strlit("reasoning_text");
    reveal_strlit("refusal");
    reveal_strlit("summary_text");
    reveal_strlit("text");
    reveal_strlit("type");
    reveal_strlit("video_url");
    assert("annotations"@.len() == 11);
    assert("annotations"@[0] == 'a');
    assert("detail"@.len() == 6);
    assert("file_data"@.len() == 9);
    assert("file_data"@[0] == 'f');
    assert("file_url"@.len() == 8);
    assert("file_url"@[0] == 'f');
    assert("file_url"@[4] == '_');
    assert("filename"@.len() == 8);
    assert("filename"@[0] == 'f');
    assert("filename"@[4] == 'n');
    assert("image_url"@.len() == 9);
    assert("image_url"@[0] == 'i');
    assert("input_file"@.len() == 10);
    assert("input_file"@[6] == 'f');
    assert("input_image"@.len() == 11);
    assert("input_image"@[0] == 'i');
    assert("input_image"@[6] == 'i');
    assert("input_text"@.len() == 10);
    assert("input_text"@[6] == 't');
    assert("input_video"@.len() == 11);
    assert("input_video"@[0] == 'i');
    assert("input_video"@[6] == 'v');
    assert("logprobs"@.len() == 8);
    assert("logprobs"@[0] == 'l');
    assert("output_text"@.len() == 11);
    assert("output_text"@[0] == 'o');
    assert("reasoning_text"@.len() == 14);
    assert("refusal"@.len() == 7);
    assert("summary_text"@.len() == 12);
    assert("text"@.len() == 4);
    assert("text"@[1] == 'e');
    assert("type"@.len() == 4);
    assert("type"@[1] == 'y');
    assert("video_url"@.len() == 9);
    assert("video_url"@[0] == 'v');
    match v {
        MessageContent::InputText { text } => {
        },
        MessageContent::InputImage { image_url, detail } => {
            lemma_image_detail_round_trip(detail);
        },
        MessageContent::InputFile { filename, file_data, file_url } => {
        },
        MessageContent::InputVideo { video_url } => {
        },
        MessageContent::OutputText { text, annotations, logprobs } => {
            assert forall|x: Annotation| #[trigger] Annotation::read(x.wire()) == Some(x.wire()) by { lemma_annotation_round_trip(x); };
            lemma_vec_round_trip::<Annotation>(annotations);
            match logprobs {
                Some(x) => {
                    assert forall|x: LogProb| #[trigger] LogProb::read(x.wire()) == Some(x.wire()) by { lemma_log_prob_round_trip(x); };
                    lemma_vec_round_trip::<LogProb>(x);
                },
                None => {},
            }
        },
        MessageContent::Refusal { refusal } => {
        },
        MessageContent::PlainText { text } => {
        },
        MessageContent::SummaryText { text } => {
        },
        MessageContent::ReasoningText { text } => {
        },
    }
}

/// Every item survives a round trip: its JSON form reads back as the same item,
/// whatever its variant. With the contracts of `to_json` and `from_json`, decoding
/// what `to_json` wrote gives a value whose form equals the item's.
pub proof fn lemma_item_round_trip(v: Item)
    ensures
        Item::read(v.wire()) == Some(v.wire()),
{
    broadcast use lemma_lookup_concat, lemma_lookup_single;

    reveal_strlit("arguments");
    reveal_strlit("call_id");
    reveal_strlit("content");
    reveal_strlit("encrypted_content");
    reveal_strlit("function_call");
    reveal_strlit("function_call_output");
    reveal_strlit("id");
    reveal_strlit("item_reference");
    reveal_strlit("message");
    reveal_strlit("name");
    reveal_strlit("output");
    reveal_strlit("reasoning");
    reveal_strlit("role");
    reveal_strlit("status");
    reveal_strlit("summary");
    reveal_strlit("type");
    assert("arguments"@.len() == 9);
    assert("arguments"@[0] == 'a');
    assert("call_id"@.len() == 7);
    assert("call_id"@[0] == 'c');
    assert("call_id"@[1] == 'a');
    assert("content"@.len() == 7);
    assert("content"@[0] == 'c');
    assert("content"@[1] == 'o');
    assert("encrypted_content"@.len() == 17);
    assert("function_call"@.len() == 13);
    assert("function_call_output"@.len() == 20);
    assert("id"@.len() == 2);
    assert("item_reference"@.len() == 14);
    assert("message"@.len() == 7);
    assert("message"@[0] == 'm');
    assert("name"@.len() == 4);
    assert("name"@[0] == 'n');
    assert("output"@.len() == 6);
    assert("output"@[0] == 'o');
    assert("reasoning"@.len() == 9);
    assert("reasoning"@[0] == 'r');
    assert("role"@.len() == 4);
    assert("role"@[0] == 'r');
    assert("status"@.len() == 6);
    assert("status"@[0] == 's');
    assert("summary"@.len() == 7);
    assert("summary"@[0] == 's');
    assert("type"@.len() == 4);
    assert("type"@[0] == 't');
    match v {
        Item::Message { id, status, role, content } => {
            match status {
                Some(x) => {
                    lemma_message_status_round_trip(x);
                },
                None => {},
            }
            lemma_message_role_round_trip(role);
            assert forall|x: MessageContent| #[trigger] MessageContent::read(x.wire()) == Some(x.wire()) by { lemma_message_content_round_trip(x); };
            lemma_vec_round_trip::<MessageContent>(content);
        },
        Item::FunctionCall { id, call_id, name, arguments, status } => {
            lemma_function_call_status_round_trip(status);
        },
        Item::FunctionCallOutput { id, call_id, output, status } => {
            lemma_function_output_round_trip(output);
            lemma_function_call_output_status_round_trip(status);
        },
        Item::Reasoning { id, content, summary, encrypted_content } => {
            match content {
                Some(x) => {
                    assert forall|x: MessageContent| #[trigger] MessageContent::read(x.wire()) == Some(x.wire()) by { lemma_message_content_round_trip(x); };
                    lemma_vec_round_trip::<MessageContent>(x);
                },
                None => {},
            }
            assert forall|x: MessageContent| #[trigger] MessageContent::read(x.wire()) == Some(x.wire()) by { lemma_message_content_round_trip(x); };
            lemma_vec_round_trip::<MessageContent>(summary);
        },
        Item::ItemReference { id } => {
        },
    }
}

/// The canonical form of a `FunctionOutput` reads back as itself.
pub proof fn lemma_function_output_round_trip(v: FunctionOutput)
    ensures
        FunctionOutput::read(v.wire()) == Some(v.wire()),
{
    match v {
        FunctionOutput::Text(_) => {},
        FunctionOutput::Content(c) => {
            assert forall|x: MessageContent| #[trigger] MessageContent::read(x.wire()) == Some(x.wire()) by {
                lemma_message_content_round_trip(x);
            };
            lemma_vec_round_trip::<MessageContent>(c);
        },
    }
}

/// An `Input` is written as a bare JSON string when it is one string and as a JSON
/// array when it is a list of items; a JSON string reads only as the one string, and
/// a JSON array only as the list.
pub proof fn lemma_input_forms(v: Input, j: JValue)
    requires
        Input::read(j) == Some(v.wire()),
    ensures
        v is Single <==> j is Str,
        v is Items <==> j is Arr,
        v is Single ==> j == JValue::Str(v->Single_0@),
{
}

/// How an `Input` is written: one string as a bare JSON string, a list of items as
/// a JSON array.
pub proof fn lemma_input_written(v: Input)
    ensures
        v is Single ==> v.wire() == JValue::Str(v->Single_0@),
        v is Items ==> v.wire() is Arr,
{
}

/// A `FunctionOutput` reads from a JSON string as the string form and from a JSON
/// array as the content form, and from nothing else.
pub proof fn lemma_function_output_forms(v: FunctionOutput, j: JValue)
    requires
        FunctionOutput::read(j) == Some(v.wire()),
    ensures
        v is Text <==> j is Str,
        v is Content <==> j is Arr,
{
}

/// A JSON value that is neither a string nor an array does not read as a `FunctionOutput`.
pub proof fn lemma_function_output_rejects(j: JValue)
    requires
        !(j is Str),
        !(j is Arr),
    ensures
        FunctionOutput::read(j) is None,
{
}

/// A `ToolChoiceParam` reads from a JSON string as the plain choice, from an object
/// with a `tools` member as the list of allowed tools, and from any other object as
/// the one named tool.
pub proof fn lemma_tool_choice_forms(v: ToolChoiceParam, j: JValue)
    requires
        ToolChoiceParam::read(j) == Some(v.wire()),
    ensures
        v is Simple <==> j is Str,
        v is Allowed <==> (j is Obj && field(j, "tools"@) is Some),
        v is Specific <==> (j is Obj && field(j, "tools"@) is None),
{
    assert(v.wire() is Str <==> v is Simple);
    if j is Obj {
        if field(j, "tools"@) is Some {
            assert(v.wire()->Obj_0.len() == 3);
        } else {
            assert(v.wire()->Obj_0.len() == 2);
        }
    }
}

/// Two function outputs with the same JSON form are the same kind of output: a
/// string output never reads back as content, nor content as a string, and a string
/// output keeps its characters.
pub proof fn lemma_function_output_form_keeps_variant(v: FunctionOutput, w: FunctionOutput)
    requires
        v.wire() == w.wire(),
    ensures
        v is Text <==> w is Text,
        v is Content <==> w is Content,
        v is Text ==> v->Text_0@ == w->Text_0@,
{
}

/// Two items with the same JSON form are the same variant, and two function call
/// outputs with the same JSON form carry the same kind of output.
pub proof fn lemma_item_form_keeps_variant(v: Item, w: Item)
    requires
        v.wire() == w.wire(),
    ensures
        v is Message <==> w is Message,
        v is FunctionCall <==> w is FunctionCall,
        v is FunctionCallOutput <==> w is FunctionCallOutput,
        v is Reasoning <==> w is Reasoning,
        v is ItemReference <==> w is ItemReference,
        v is FunctionCallOutput ==> (v->FunctionCallOutput_output is Text
            <==> w->FunctionCallOutput_output is Text),
{
    broadcast use lemma_lookup_concat, lemma_lookup_single;

    reveal_strlit("type");
    reveal_strlit("message");
    reveal_strlit("function_call");
    reveal_strlit("function_call_output");
    reveal_strlit("reasoning");
    reveal_strlit("item_reference");
    reveal_strlit("output");
    reveal_strlit("id");
    reveal_strlit("call_id");
    assert("type"@.len() == 4);
    assert("message"@.len() == 7);
    assert("function_call"@.len() == 13);
    assert("function_call_output"@.len() == 20);
    assert("reasoning"@.len() == 9);
    assert("item_reference"@.len() == 14);
    assert("output"@.len() == 6);
    assert("id"@.len() == 2);
    assert("call_id"@.len() == 7);
    assert(field(v.wire(), "type"@) == field(w.wire(), "type"@));
    if v is FunctionCallOutput && w is FunctionCallOutput {
        assert(field(v.wire(), "output"@) == Some(v->FunctionCallOutput_output.wire()));
        assert(field(w.wire(), "output"@) == Some(w->FunctionCallOutput_output.wire()));
        lemma_function_output_form_keeps_variant(
            v->FunctionCallOutput_output,
            w->FunctionCallOutput_output,
        );
    }
}

} // verus!
