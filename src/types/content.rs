use vstd::prelude::*;

use crate::types::enums::ImageDetail;
use crate::json::{same_text, DecodeError, JValue, Json, JsonNumber};
use crate::wire::{
    begin, cat, dflt, ent, get_dflt, get_opt, get_req, get_tag, obj, opt, opt_ent, put, put_opt,
    put_tag, req, tag_ent, tag_of, wires, Wire,
};

verus! {

/// One part of the content of a message, written by the caller or produced by the model.
#[derive(Debug, Clone, PartialEq)]
pub enum MessageContent {
    InputText {
        text: String,
    },
    InputImage {
        image_url: Option<String>,
        detail: ImageDetail,
    },
    InputFile {
        filename: Option<String>,
        file_data: Option<String>,
        file_url: Option<String>,
    },
    InputVideo {
        video_url: String,
    },
    OutputText {
        text: String,
        annotations: Vec<Annotation>,
        logprobs: Option<Vec<LogProb>>,
    },
    Refusal {
        refusal: String,
    },
    PlainText {
        text: String,
    },
    SummaryText {
        text: String,
    },
    ReasoningText {
        text: String,
    },
}

/// How `j` reads as the variant `input_text` of `MessageContent`.
pub open spec fn message_content_input_text(j: JValue) -> Option<JValue> {
    let m = Some(begin() + tag_ent("input_text"@));
    let m = cat(m, req::<String>(j, "text"@));
    obj(m)
}

/// How `j` reads as the variant `input_image` of `MessageContent`.
pub open spec fn message_content_input_image(j: JValue) -> Option<JValue> {
    let m = Some(begin() + tag_ent("input_image"@));
    let m = cat(m, opt::<String>(j, "image_url"@));
    let m = cat(m, dflt::<ImageDetail>(j, "detail"@, ImageDetail::Auto.wire()));
    obj(m)
}

/// How `j` reads as the variant `input_file` of `MessageContent`.
pub open spec fn message_content_input_file(j: JValue) -> Option<JValue> {
    let m = Some(begin() + tag_ent("input_file"@));
    let m = cat(m, opt::<String>(j, "filename"@));
    let m = cat(m, opt::<String>(j, "file_data"@));
    let m = cat(m, opt::<String>(j, "file_url"@));
    obj(m)
}

/// How `j` reads as the variant `input_video` of `MessageContent`.
pub open spec fn message_content_input_video(j: JValue) -> Option<JValue> {
    let m = Some(begin() + tag_ent("input_video"@));
    let m = cat(m, req::<String>(j, "video_url"@));
    obj(m)
}

/// How `j` reads as the variant `output_text` of `MessageContent`.
pub open spec fn message_content_output_text(j: JValue) -> Option<JValue> {
    let m = Some(begin() + tag_ent("output_text"@));
    let m = cat(m, req::<String>(j, "text"@));
    let m = cat(m, dflt::<Vec<Annotation>>(j, "annotations"@, JValue::Arr(wires(Seq::<Annotation>::empty()))));
    let m = cat(m, opt::<Vec<LogProb>>(j, "logprobs"@));
    obj(m)
}

/// How `j` reads as the variant `refusal` of `MessageContent`.
pub open spec fn message_content_refusal(j: JValue) -> Option<JValue> {
    let m = Some(begin() + tag_ent("refusal"@));
    let m = cat(m, req::<String>(j, "refusal"@));
    obj(m)
}

/// How `j` reads as the variant `text` of `MessageContent`.
pub open spec fn message_content_plain_text(j: JValue) -> Option<JValue> {
    let m = Some(begin() + tag_ent("text"@));
    let m = cat(m, req::<String>(j, "text"@));
    obj(m)
}

/// How `j` reads as the variant `summary_text` of `MessageContent`.
pub open spec fn message_content_summary_text(j: JValue) -> Option<JValue> {
    let m = Some(begin() + tag_ent("summary_text"@));
    let m = cat(m, req::<String>(j, "text"@));
    obj(m)
}

/// How `j` reads as the variant `reasoning_text` of `MessageContent`.
pub open spec fn message_content_reasoning_text(j: JValue) -> Option<JValue> {
    let m = Some(begin() + tag_ent("reasoning_text"@));
    let m = cat(m, req::<String>(j, "text"@));
    obj(m)
}

impl Wire for MessageContent {
    open spec fn wire(&self) -> JValue {
        match self {
            MessageContent::InputText { text } => JValue::Obj(
                begin()
                    + tag_ent("input_text"@)
                    + ent("text"@, *text),
            ),
            MessageContent::InputImage { image_url, detail } => JValue::Obj(
                begin()
                    + tag_ent("input_image"@)
                    + opt_ent("image_url"@, *image_url)
                    + ent("detail"@, *detail),
            ),
            MessageContent::InputFile { filename, file_data, file_url } => JValue::Obj(
                begin()
                    + tag_ent("input_file"@)
                    + opt_ent("filename"@, *filename)
                    + opt_ent("file_data"@, *file_data)
                    + opt_ent("file_url"@, *file_url),
            ),
            MessageContent::InputVideo { video_url } => JValue::Obj(
                begin()
                    + tag_ent("input_video"@)
                    + ent("video_url"@, *video_url),
            ),
            MessageContent::OutputText { text, annotations, logprobs } => JValue::Obj(
                begin()
                    + tag_ent("output_text"@)
                    + ent("text"@, *text)
                    + ent("annotations"@, *annotations)
                    + opt_ent("logprobs"@, *logprobs),
            ),
            MessageContent::Refusal { refusal } => JValue::Obj(
                begin()
                    + tag_ent("refusal"@)
                    + ent("refusal"@, *refusal),
            ),
            MessageContent::PlainText { text } => JValue::Obj(
                begin()
                    + tag_ent("text"@)
                    + ent("text"@, *text),
            ),
            MessageContent::SummaryText { text } => JValue::Obj(
                begin()
                    + tag_ent("summary_text"@)
                    + ent("text"@, *text),
            ),
            MessageContent::ReasoningText { text } => JValue::Obj(
                begin()
                    + tag_ent("reasoning_text"@)
                    + ent("text"@, *text),
            ),
        }
    }

    open spec fn read(j: JValue) -> Option<JValue> {
        match tag_of(j) {
            Some(t) => {
                if t == "input_text"@ {
                    message_content_input_text(j)
                } else if t == "input_image"@ {
                    message_content_input_image(j)
                } else if t == "input_file"@ {
                    message_content_input_file(j)
                } else if t == "input_video"@ {
                    message_content_input_video(j)
                } else if t == "output_text"@ {
                    message_content_output_text(j)
                } else if t == "refusal"@ {
                    message_content_refusal(j)
                } else if t == "text"@ {
                    message_content_plain_text(j)
                } else if t == "summary_text"@ {
                    message_content_summary_text(j)
                } else if t == "reasoning_text"@ {
                    message_content_reasoning_text(j)
                } else {
                    None
                }
            },
            None => None,
        }
    }

    fn to_json(&self) -> (r: Json) {
        let mut m: Vec<(String, Json)> = Vec::new();
        match self {
            MessageContent::InputText { text } => {
                put_tag(&mut m, "input_text");
                put(&mut m, "text", text);
            },
            MessageContent::InputImage { image_url, detail } => {
                put_tag(&mut m, "input_image");
                put_opt(&mut m, "image_url", image_url);
                put(&mut m, "detail", detail);
            },
            MessageContent::InputFile { filename, file_data, file_url } => {
                put_tag(&mut m, "input_file");
                put_opt(&mut m, "filename", filename);
                put_opt(&mut m, "file_data", file_data);
                put_opt(&mut m, "file_url", file_url);
            },
            MessageContent::InputVideo { video_url } => {
                put_tag(&mut m, "input_video");
                put(&mut m, "video_url", video_url);
            },
            MessageContent::OutputText { text, annotations, logprobs } => {
                put_tag(&mut m, "output_text");
                put(&mut m, "text", text);
                put(&mut m, "annotations", annotations);
                put_opt(&mut m, "logprobs", logprobs);
            },
            MessageContent::Refusal { refusal } => {
                put_tag(&mut m, "refusal");
                put(&mut m, "refusal", refusal);
            },
            MessageContent::PlainText { text } => {
                put_tag(&mut m, "text");
                put(&mut m, "text", text);
            },
            MessageContent::SummaryText { text } => {
                put_tag(&mut m, "summary_text");
                put(&mut m, "text", text);
            },
            MessageContent::ReasoningText { text } => {
                put_tag(&mut m, "reasoning_text");
                put(&mut m, "text", text);
            },
        }
        Json::Object(m)
    }

    fn from_json(j: &Json) -> (r: Result<Self, DecodeError>) {
        Self::decode(j)
    }
}

impl MessageContent {
    /// Tells whether `t` names a variant of `MessageContent`.
    pub open spec fn tag_known(t: Seq<char>) -> bool {
        t == "input_text"@ || t == "input_image"@ || t == "input_file"@ || t == "input_video"@ || t == "output_text"@ || t == "refusal"@ || t == "text"@ || t == "summary_text"@ || t == "reasoning_text"@
    }

    /// Reads a `MessageContent` from JSON; a `type` that names no variant gives `UnknownVariant`
    /// with that `type`.
    pub fn decode(j: &Json) -> (r: Result<Self, DecodeError>)
        ensures
            match r {
                Ok(v) => Self::read(j@) == Some(v.wire()),
                Err(_) => Self::read(j@) is None,
            },
            match tag_of(j@) {
                Some(t) => !Self::tag_known(t) ==> (r matches Err(DecodeError::UnknownVariant { union_name, tag })
                    && union_name@ == "MessageContent"@ && tag@ == t),
                None => true,
            },
    {
        let t = get_tag(j)?;
        if same_text(t.as_str(), "input_text") {
            Self::read_input_text(j)
        } else if same_text(t.as_str(), "input_image") {
            Self::read_input_image(j)
        } else if same_text(t.as_str(), "input_file") {
            Self::read_input_file(j)
        } else if same_text(t.as_str(), "input_video") {
            Self::read_input_video(j)
        } else if same_text(t.as_str(), "output_text") {
            Self::read_output_text(j)
        } else if same_text(t.as_str(), "refusal") {
            Self::read_refusal(j)
        } else if same_text(t.as_str(), "text") {
            Self::read_plain_text(j)
        } else if same_text(t.as_str(), "summary_text") {
            Self::read_summary_text(j)
        } else if same_text(t.as_str(), "reasoning_text") {
            Self::read_reasoning_text(j)
        } else {
            Err(DecodeError::UnknownVariant { union_name: "MessageContent".to_owned(), tag: t.clone() })
        }
    }
}

impl MessageContent {
    #[verifier::rlimit(50)]
    fn read_input_text(j: &Json) -> (r: Result<MessageContent, DecodeError>)
        ensures
            match r {
                Ok(v) => message_content_input_text(j@) == Some(v.wire()),
                Err(_) => message_content_input_text(j@) is None,
            },
    {
        let text = get_req::<String>(j, "text")?;
        Ok(MessageContent::InputText { text })
    }

    #[verifier::rlimit(50)]
    fn read_input_image(j: &Json) -> (r: Result<MessageContent, DecodeError>)
        ensures
            match r {
                Ok(v) => message_content_input_image(j@) == Some(v.wire()),
                Err(_) => message_content_input_image(j@) is None,
            },
    {
        let image_url = get_opt::<String>(j, "image_url")?;
        let detail = get_dflt::<ImageDetail>(j, "detail", ImageDetail::Auto)?;
        Ok(MessageContent::InputImage { image_url, detail })
    }

    #[verifier::rlimit(50)]
    fn read_input_file(j: &Json) -> (r: Result<MessageContent, DecodeError>)
        ensures
            match r {
                Ok(v) => message_content_input_file(j@) == Some(v.wire()),
                Err(_) => message_content_input_file(j@) is None,
            },
    {
        let filename = get_opt::<String>(j, "filename")?;
        let file_data = get_opt::<String>(j, "file_data")?;
        let file_url = get_opt::<String>(j, "file_url")?;
        Ok(MessageContent::InputFile { filename, file_data, file_url })
    }

    #[verifier::rlimit(50)]
    fn read_input_video(j: &Json) -> (r: Result<MessageContent, DecodeError>)
        ensures
            match r {
                Ok(v) => message_content_input_video(j@) == Some(v.wire()),
                Err(_) => message_content_input_video(j@) is None,
            },
    {
        let video_url = get_req::<String>(j, "video_url")?;
        Ok(MessageContent::InputVideo { video_url })
    }

    #[verifier::rlimit(50)]
    fn read_output_text(j: &Json) -> (r: Result<MessageContent, DecodeError>)
        ensures
            match r {
                Ok(v) => message_content_output_text(j@) == Some(v.wire()),
                Err(_) => message_content_output_text(j@) is None,
            },
    {
        let text = get_req::<String>(j, "text")?;
        let annotations = get_dflt::<Vec<Annotation>>(j, "annotations", Vec::new())?;
        let logprobs = get_opt::<Vec<LogProb>>(j, "logprobs")?;
        Ok(MessageContent::OutputText { text, annotations, logprobs })
    }

    #[verifier::rlimit(50)]
    fn read_refusal(j: &Json) -> (r: Result<MessageContent, DecodeError>)
        ensures
            match r {
                Ok(v) => message_content_refusal(j@) == Some(v.wire()),
                Err(_) => message_content_refusal(j@) is None,
            },
    {
        let refusal = get_req::<String>(j, "refusal")?;
        Ok(MessageContent::Refusal { refusal })
    }

    #[verifier::rlimit(50)]
    fn read_plain_text(j: &Json) -> (r: Result<MessageContent, DecodeError>)
        ensures
            match r {
                Ok(v) => message_content_plain_text(j@) == Some(v.wire()),
                Err(_) => message_content_plain_text(j@) is None,
            },
    {
        let text = get_req::<String>(j, "text")?;
        Ok(MessageContent::PlainText { text })
    }

    #[verifier::rlimit(50)]
    fn read_summary_text(j: &Json) -> (r: Result<MessageContent, DecodeError>)
        ensures
            match r {
                Ok(v) => message_content_summary_text(j@) == Some(v.wire()),
                Err(_) => message_content_summary_text(j@) is None,
            },
    {
        let text = get_req::<String>(j, "text")?;
        Ok(MessageContent::SummaryText { text })
    }

    #[verifier::rlimit(50)]
    fn read_reasoning_text(j: &Json) -> (r: Result<MessageContent, DecodeError>)
        ensures
            match r {
                Ok(v) => message_content_reasoning_text(j@) == Some(v.wire()),
                Err(_) => message_content_reasoning_text(j@) is None,
            },
    {
        let text = get_req::<String>(j, "text")?;
        Ok(MessageContent::ReasoningText { text })
    }
}

/// Content written by the caller.
pub type InputContent = MessageContent;

/// Content produced by the model.
pub type OutputContent = MessageContent;

impl MessageContent {
    /// Text written by the caller.
    pub fn input_text(text: &str) -> (r: Self)
        ensures
            r is InputText,
            r->InputText_text@ == text@,
    {
        MessageContent::InputText { text: text.to_owned() }
    }

    /// Text produced by the model, without annotations or log probabilities.
    pub fn output_text(text: &str) -> (r: Self)
        ensures
            r is OutputText,
            r->OutputText_text@ == text@,
            r->OutputText_annotations@.len() == 0,
            r->OutputText_logprobs is None,
    {
        MessageContent::OutputText { text: text.to_owned(), annotations: Vec::new(), logprobs: None }
    }

    /// A refusal produced by the model.
    pub fn refusal(text: &str) -> (r: Self)
        ensures
            r is Refusal,
            r->Refusal_refusal@ == text@,
    {
        MessageContent::Refusal { refusal: text.to_owned() }
    }

    /// Text written by the caller; the same as `input_text`.
    pub fn text(text: &str) -> (r: Self)
        ensures
            r is InputText,
            r->InputText_text@ == text@,
    {
        Self::input_text(text)
    }

    /// An image given by its URL, looked at in automatic detail.
    pub fn image_url(url: &str) -> (r: Self)
        ensures
            r is InputImage,
            r->InputImage_image_url is Some,
            r->InputImage_image_url->0@ == url@,
            r->InputImage_detail == ImageDetail::Auto,
    {
        MessageContent::InputImage { image_url: Some(url.to_owned()), detail: ImageDetail::Auto }
    }

    /// An image given by its URL, looked at in the given detail.
    pub fn image_url_with_detail(url: &str, detail: ImageDetail) -> (r: Self)
        ensures
            r is InputImage,
            r->InputImage_image_url is Some,
            r->InputImage_image_url->0@ == url@,
            r->InputImage_detail == detail,
    {
        MessageContent::InputImage { image_url: Some(url.to_owned()), detail }
    }

    /// A file given by its URL.
    pub fn file_url(url: &str) -> (r: Self)
        ensures
            r is InputFile,
            r->InputFile_filename is None,
            r->InputFile_file_data is None,
            r->InputFile_file_url is Some,
            r->InputFile_file_url->0@ == url@,
    {
        MessageContent::InputFile { filename: None, file_data: None, file_url: Some(url.to_owned()) }
    }

    /// A file given inline as base64 data, with an optional name.
    pub fn file_data(data: &str, filename: Option<String>) -> (r: Self)
        ensures
            r is InputFile,
            r->InputFile_filename == filename,
            r->InputFile_file_data is Some,
            r->InputFile_file_data->0@ == data@,
            r->InputFile_file_url is None,
    {
        MessageContent::InputFile { filename, file_data: Some(data.to_owned()), file_url: None }
    }

    /// A video given by its URL.
    pub fn video_url(url: &str) -> (r: Self)
        ensures
            r is InputVideo,
            r->InputVideo_video_url@ == url@,
    {
        MessageContent::InputVideo { video_url: url.to_owned() }
    }

    /// A piece of a reasoning summary.
    pub fn summary(text: &str) -> (r: Self)
        ensures
            r is SummaryText,
            r->SummaryText_text@ == text@,
    {
        MessageContent::SummaryText { text: text.to_owned() }
    }

    /// A piece of reasoning text.
    pub fn reasoning(text: &str) -> (r: Self)
        ensures
            r is ReasoningText,
            r->ReasoningText_text@ == text@,
    {
        MessageContent::ReasoningText { text: text.to_owned() }
    }
}

/// A note attached to a span of output text.
#[derive(Debug, Clone, PartialEq)]
pub enum Annotation {
    UrlCitation {
        url: String,
        title: String,
        start_index: i32,
        end_index: i32,
    },
}

/// How `j` reads as the variant `url_citation` of `Annotation`.
pub open spec fn annotation_url_citation(j: JValue) -> Option<JValue> {
    let m = Some(begin() + tag_ent("url_citation"@));
    let m = cat(m, req::<String>(j, "url"@));
    let m = cat(m, req::<String>(j, "title"@));
    let m = cat(m, req::<i32>(j, "start_index"@));
    let m = cat(m, req::<i32>(j, "end_index"@));
    obj(m)
}

impl Wire for Annotation {
    open spec fn wire(&self) -> JValue {
        match self {
            Annotation::UrlCitation { url, title, start_index, end_index } => JValue::Obj(
                begin()
                    + tag_ent("url_citation"@)
                    + ent("url"@, *url)
                    + ent("title"@, *title)
                    + ent("start_index"@, *start_index)
                    + ent("end_index"@, *end_index),
            ),
        }
    }

    open spec fn read(j: JValue) -> Option<JValue> {
        match tag_of(j) {
            Some(t) => {
                if t == "url_citation"@ {
                    annotation_url_citation(j)
                } else {
                    None
                }
            },
            None => None,
        }
    }

    fn to_json(&self) -> (r: Json) {
        let mut m: Vec<(String, Json)> = Vec::new();
        match self {
            Annotation::UrlCitation { url, title, start_index, end_index } => {
                put_tag(&mut m, "url_citation");
                put(&mut m, "url", url);
                put(&mut m, "title", title);
                put(&mut m, "start_index", start_index);
                put(&mut m, "end_index", end_index);
            },
        }
        Json::Object(m)
    }

    fn from_json(j: &Json) -> (r: Result<Self, DecodeError>) {
        Self::decode(j)
    }
}

impl Annotation {
    /// Tells whether `t` names a variant of `Annotation`.
    pub open spec fn tag_known(t: Seq<char>) -> bool {
        t == "url_citation"@
    }

    /// Reads a `Annotation` from JSON; a `type` that names no variant gives `UnknownVariant`
    /// with that `type`.
    pub fn decode(j: &Json) -> (r: Result<Self, DecodeError>)
        ensures
            match r {
                Ok(v) => Self::read(j@) == Some(v.wire()),
                Err(_) => Self::read(j@) is None,
            },
            match tag_of(j@) {
                Some(t) => !Self::tag_known(t) ==> (r matches Err(DecodeError::UnknownVariant { union_name, tag })
                    && union_name@ == "Annotation"@ && tag@ == t),
                None => true,
            },
    {
        let t = get_tag(j)?;
        if same_text(t.as_str(), "url_citation") {
            Self::read_url_citation(j)
        } else {
            Err(DecodeError::UnknownVariant { union_name: "Annotation".to_owned(), tag: t.clone() })
        }
    }
}

impl Annotation {
    #[verifier::rlimit(50)]
    fn read_url_citation(j: &Json) -> (r: Result<Annotation, DecodeError>)
        ensures
            match r {
                Ok(v) => annotation_url_citation(j@) == Some(v.wire()),
                Err(_) => annotation_url_citation(j@) is None,
            },
    {
        let url = get_req::<String>(j, "url")?;
        let title = get_req::<String>(j, "title")?;
        let start_index = get_req::<i32>(j, "start_index")?;
        let end_index = get_req::<i32>(j, "end_index")?;
        Ok(Annotation::UrlCitation { url, title, start_index, end_index })
    }
}

/// The log probability of one output token, with its most likely alternatives.
#[derive(Debug, Clone, PartialEq)]
pub struct LogProb {
    pub token: String,
    pub logprob: JsonNumber,
    pub bytes: Vec<u8>,
    pub top_logprobs: Vec<TopLogProb>,
}

impl Wire for LogProb {
    open spec fn wire(&self) -> JValue {
        JValue::Obj(
            begin()
                + ent("token"@, self.token)
                + ent("logprob"@, self.logprob)
                + ent("bytes"@, self.bytes)
                + ent("top_logprobs"@, self.top_logprobs),
        )
    }

    open spec fn read(j: JValue) -> Option<JValue> {
        if j is Obj {
            let m = Some(begin());
            let m = cat(m, req::<String>(j, "token"@));
            let m = cat(m, req::<JsonNumber>(j, "logprob"@));
            let m = cat(m, req::<Vec<u8>>(j, "bytes"@));
            let m = cat(m, req::<Vec<TopLogProb>>(j, "top_logprobs"@));
            obj(m)
        } else {
            None
        }
    }

    fn to_json(&self) -> (r: Json) {
        let mut m: Vec<(String, Json)> = Vec::new();
        put(&mut m, "token", &self.token);
        put(&mut m, "logprob", &self.logprob);
        put(&mut m, "bytes", &self.bytes);
        put(&mut m, "top_logprobs", &self.top_logprobs);
        Json::Object(m)
    }

    fn from_json(j: &Json) -> (r: Result<Self, DecodeError>) {
        if !j.is_object() {
            return Err(DecodeError::Mismatch);
        }
        let token = get_req::<String>(j, "token")?;
        let logprob = get_req::<JsonNumber>(j, "logprob")?;
        let bytes = get_req::<Vec<u8>>(j, "bytes")?;
        let top_logprobs = get_req::<Vec<TopLogProb>>(j, "top_logprobs")?;
        Ok(LogProb { token, logprob, bytes, top_logprobs })
    }
}

/// One likely alternative for an output token.
#[derive(Debug, Clone, PartialEq)]
pub struct TopLogProb {
    pub token: String,
    pub logprob: JsonNumber,
    pub bytes: Vec<u8>,
}

impl Wire for TopLogProb {
    open spec fn wire(&self) -> JValue {
        JValue::Obj(
            begin()
                + ent("token"@, self.token)
                + ent("logprob"@, self.logprob)
                + ent("bytes"@, self.bytes),
        )
    }

    open spec fn read(j: JValue) -> Option<JValue> {
        if j is Obj {
            let m = Some(begin());
            let m = cat(m, req::<String>(j, "token"@));
            let m = cat(m, req::<JsonNumber>(j, "logprob"@));
            let m = cat(m, req::<Vec<u8>>(j, "bytes"@));
            obj(m)
        } else {
            None
        }
    }

    fn to_json(&self) -> (r: Json) {
        let mut m: Vec<(String, Json)> = Vec::new();
        put(&mut m, "token", &self.token);
        put(&mut m, "logprob", &self.logprob);
        put(&mut m, "bytes", &self.bytes);
        Json::Object(m)
    }

    fn from_json(j: &Json) -> (r: Result<Self, DecodeError>) {
        if !j.is_object() {
            return Err(DecodeError::Mismatch);
        }
        let token = get_req::<String>(j, "token")?;
        let logprob = get_req::<JsonNumber>(j, "logprob")?;
        let bytes = get_req::<Vec<u8>>(j, "bytes")?;
        Ok(TopLogProb { token, logprob, bytes })
    }
}

/// Content written with no tag of its own around it.
#[derive(Debug, Clone, PartialEq)]
pub enum Content {
    Part(MessageContent),
}

impl Wire for Content {
    open spec fn wire(&self) -> JValue {
        match self {
            Content::Part(c) => c.wire(),
        }
    }

    open spec fn read(j: JValue) -> Option<JValue> {
        MessageContent::read(j)
    }

    fn to_json(&self) -> (r: Json) {
        match self {
            Content::Part(c) => c.to_json(),
        }
    }

    fn from_json(j: &Json) -> (r: Result<Self, DecodeError>) {
        match MessageContent::from_json(j) {
            Ok(c) => Ok(Content::Part(c)),
            Err(e) => Err(e),
        }
    }
}

/// Message content given either as a list of parts or as one string.
///
/// A JSON array reads as the list; a JSON string as the string.
#[derive(Debug, Clone, PartialEq)]
pub enum ContentParam {
    Array(Vec<MessageContent>),
    Single(String),
}

impl Wire for ContentParam {
    open spec fn wire(&self) -> JValue {
        match self {
            ContentParam::Array(v) => v.wire(),
            ContentParam::Single(s) => s.wire(),
        }
    }

    open spec fn read(j: JValue) -> Option<JValue> {
        match j {
            JValue::Arr(_) => <Vec<MessageContent> as Wire>::read(j),
            JValue::Str(s) => Some(JValue::Str(s)),
            _ => None,
        }
    }

    fn to_json(&self) -> (r: Json) {
        match self {
            ContentParam::Array(v) => v.to_json(),
            ContentParam::Single(s) => s.to_json(),
        }
    }

    fn from_json(j: &Json) -> (r: Result<Self, DecodeError>) {
        match j {
            Json::Array(_) => match <Vec<MessageContent> as Wire>::from_json(j) {
                Ok(v) => Ok(ContentParam::Array(v)),
                Err(e) => Err(e),
            },
            Json::Str(s) => Ok(ContentParam::Single(s.clone())),
            _ => Err(DecodeError::Mismatch),
        }
    }
}

} // verus!
