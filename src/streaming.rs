use vstd::prelude::*;

use crate::types::events::StreamingEvent;
use crate::json::{same_text, DecodeError, JValue};
use crate::text::{parse_json, parsed_json};
use crate::wire::{tag_of, Wire};

verus! {

/// Why a streamed response could not give an event.
#[derive(Debug, Clone, PartialEq)]
pub enum StreamingError {
    /// The request could not be sent, or its answer not received.
    HttpError(String),
    /// The event stream failed while a frame was awaited.
    StreamError(String),
    /// A frame's data could not be read as an event.
    JsonError(DecodeError),
    /// The server refused the request; the message is its answer, verbatim.
    ApiError { message: String },
}

/// What the answer to a streaming request means before any frame is read: a status
/// in the 2xx range lets the stream start, and the body is not looked at; any other
/// status refuses the request with the body verbatim.
pub fn stream_opening(status: u16, body: String) -> (r: Result<(), StreamingError>)
    ensures
        200 <= status <= 299 ==> r is Ok,
        !(200 <= status <= 299) ==> r == Err::<(), StreamingError>(
            StreamingError::ApiError { message: body },
        ),
{
    if 200 <= status && status <= 299 {
        Ok(())
    } else {
        Err(StreamingError::ApiError { message: body })
    }
}

/// What the event-stream transport hands over when the next frame is asked for.
#[derive(Debug, Clone, PartialEq)]
pub enum Frame {
    /// The data of one frame.
    Data(String),
    /// The transport failed.
    Failure(String),
    /// The transport has no more frames.
    End,
}

/// Where a decoder stands.
#[derive(Debug, Clone, Copy, PartialEq, Eq)]
pub enum DecoderState {
    /// Frames are still read.
    Streaming,
    /// The `[DONE]` sentinel was seen, or the transport ended.
    Done,
    /// The transport failed.
    Failed,
}

/// What the data of one frame gives, apart from the `[DONE]` sentinel.
pub open spec fn frame_result(data: Seq<char>, r: Result<StreamingEvent, StreamingError>) -> bool {
    match parsed_json(data) {
        None => r == Err::<StreamingEvent, StreamingError>(StreamingError::JsonError(DecodeError::Syntax)),
        Some(j) => (match r {
            Ok(e) => StreamingEvent::read(j) == Some(e.wire()),
            Err(StreamingError::JsonError(_)) => StreamingEvent::read(j) is None,
            Err(_) => false,
        }) && match tag_of(j) {
            Some(t) => !StreamingEvent::tag_known(t) ==> (r matches Err(
                StreamingError::JsonError(DecodeError::UnknownVariant { union_name, tag }),
            ) && union_name@ == "StreamingEvent"@ && tag@ == t),
            None => true,
        },
    }
}

/// Reads the data of one frame as an event: the `[DONE]` sentinel is the `Done`
/// event, anything else is read as JSON, an in-band `error` event included.
pub fn decode_frame(data: &str) -> (r: Result<StreamingEvent, StreamingError>)
    ensures
        data@ == "[DONE]"@ ==> r matches Ok(StreamingEvent::Done),
        data@ != "[DONE]"@ ==> frame_result(data@, r),
{
    if same_text(data, "[DONE]") {
        Ok(StreamingEvent::Done)
    } else {
        match parse_json(data) {
            None => Err(StreamingError::JsonError(DecodeError::Syntax)),
            Some(j) => match StreamingEvent::decode(&j) {
                Ok(e) => Ok(e),
                Err(e) => Err(StreamingError::JsonError(e)),
            },
        }
    }
}

/// Turns the frames of an event stream into events, one frame at a time, in the
/// order they come.
///
/// A frame whose data cannot be read gives an error and the stream goes on; the
/// `[DONE]` sentinel, the end of the transport and a transport failure end it, and
/// no frame is read after that.
#[derive(Debug)]
pub struct EventDecoder {
    state: DecoderState,
}

impl EventDecoder {
    pub closed spec fn spec_state(&self) -> DecoderState {
        self.state
    }

    /// A decoder that has read no frame yet.
    pub fn new() -> (r: Self)
        ensures
            r.spec_state() == DecoderState::Streaming,
    {
        EventDecoder { state: DecoderState::Streaming }
    }

    /// Where the decoder stands.
    pub fn state(&self) -> (r: DecoderState)
        ensures
            r == self.spec_state(),
    {
        self.state
    }

    /// Tells whether no more frames are to be read.
    pub fn is_finished(&self) -> (r: bool)
        ensures
            r == (self.spec_state() != DecoderState::Streaming),
    {
        match self.state {
            DecoderState::Streaming => false,
            _ => true,
        }
    }

    /// Takes the next frame and gives what it yields.
    ///
    /// Once the decoder is finished it takes no frame and yields nothing.
    pub fn next_event(&mut self, frame: Frame) -> (r: Option<Result<StreamingEvent, StreamingError>>)
        ensures
            old(self).spec_state() != DecoderState::Streaming ==> r is None && final(self).spec_state()
                == old(self).spec_state(),
            old(self).spec_state() == DecoderState::Streaming ==> match frame {
                Frame::Data(d) => r is Some && if d@ == "[DONE]"@ {
                    r->0 matches Ok(StreamingEvent::Done) && final(self).spec_state()
                        == DecoderState::Done
                } else {
                    frame_result(d@, r->0) && final(self).spec_state() == DecoderState::Streaming
                },
                Frame::Failure(m) => r == Some(
                    Err::<StreamingEvent, StreamingError>(StreamingError::StreamError(m)),
                ) && final(self).spec_state() == DecoderState::Failed,
                Frame::End => r is None && final(self).spec_state() == DecoderState::Done,
            },
    {
        match self.state {
            DecoderState::Streaming => {},
            _ => {
                return None;
            },
        }
        match frame {
            Frame::Data(d) => {
                let r = decode_frame(d.as_str());
                if same_text(d.as_str(), "[DONE]") {
                    self.state = DecoderState::Done;
                }
                Some(r)
            },
            Frame::Failure(m) => {
                self.state = DecoderState::Failed;
                Some(Err(StreamingError::StreamError(m)))
            },
            Frame::End => {
                self.state = DecoderState::Done;
                None
            },
        }
    }
}

} // verus!
