//! Server-sent events: the line format, the events and the accumulator
//! that rebuilds a response from them.
//!
//! A stream is a sequence of text lines. [`parse_sse_line`] turns one line
//! into at most one [`StreamEvent`]; [`StreamAccumulator::process_event`]
//! folds the events, in the order of their arrival, into the text, the
//! content blocks and the final metadata of the response. What a line
//! decodes to is [`decoded`], what an event does to the accumulator is
//! [`AccumulatorView::apply`]; the laws at the end of this file are proved
//! of these two.

use crate::common::errors::{AnthropicToolError, ErrorDetail, ErrorDetailView};
use crate::common::json::{
    json_error, json_of_text, members_view, put, put_optional, with_optional_member, Json, JsonView,
};
use crate::common::text::{
    is_blank, lemma_trimmed_empty_iff_blank, starts_with, str_eq, strip_prefix, trim, trimmed,
};
use crate::common::usage::Usage;
use crate::messages::request::content::{ContentBlock, ContentBlockView};
use crate::messages::response::{Response, ResponseView};
use vstd::hash_map::StringHashMap;
use vstd::prelude::*;
use vstd::string::StringExecFns;

verus! {

/// An addition to one content block.
#[derive(Debug)]
pub enum Delta {
    /// More text for a text block.
    TextDelta { text: String },
    /// More of the JSON text of a tool request's input.
    InputJsonDelta { partial_json: String },
    /// More reasoning.
    ThinkingDelta { thinking: String },
    /// More of the signature of a thinking block.
    SignatureDelta { signature: String },
}

/// The mathematical form of a [`Delta`].
pub enum DeltaView {
    TextDelta { text: Seq<char> },
    InputJsonDelta { partial_json: Seq<char> },
    ThinkingDelta { thinking: Seq<char> },
    SignatureDelta { signature: Seq<char> },
}

impl View for Delta {
    type V = DeltaView;

    open spec fn view(&self) -> DeltaView {
        match self {
            Delta::TextDelta { text } => DeltaView::TextDelta { text: text@ },
            Delta::InputJsonDelta { partial_json } => DeltaView::InputJsonDelta {
                partial_json: partial_json@,
            },
            Delta::ThinkingDelta { thinking } => DeltaView::ThinkingDelta { thinking: thinking@ },
            Delta::SignatureDelta { signature } => DeltaView::SignatureDelta {
                signature: signature@,
            },
        }
    }
}

impl DeepView for Delta {
    type V = DeltaView;

    open spec fn deep_view(&self) -> DeltaView {
        self@
    }
}

impl Clone for Delta {
    fn clone(&self) -> (copy: Self)
        ensures
            copy@ == self@,
    {
        match self {
            Delta::TextDelta { text } => Delta::TextDelta { text: text.clone() },
            Delta::InputJsonDelta { partial_json } => Delta::InputJsonDelta {
                partial_json: partial_json.clone(),
            },
            Delta::ThinkingDelta { thinking } => Delta::ThinkingDelta { thinking: thinking.clone() },
            Delta::SignatureDelta { signature } => Delta::SignatureDelta {
                signature: signature.clone(),
            },
        }
    }
}

impl DeltaView {
    /// The JSON form: an object whose member `type` names the variant,
    /// followed by the variant's one field.
    pub open spec fn to_json(self) -> JsonView {
        match self {
            DeltaView::TextDelta { text } => JsonView::Object(
                seq![("type"@, JsonView::Str("text_delta"@)), ("text"@, JsonView::Str(text))],
            ),
            DeltaView::InputJsonDelta { partial_json } => JsonView::Object(
                seq![
                    ("type"@, JsonView::Str("input_json_delta"@)),
                    ("partial_json"@, JsonView::Str(partial_json)),
                ],
            ),
            DeltaView::ThinkingDelta { thinking } => JsonView::Object(
                seq![
                    ("type"@, JsonView::Str("thinking_delta"@)),
                    ("thinking"@, JsonView::Str(thinking)),
                ],
            ),
            DeltaView::SignatureDelta { signature } => JsonView::Object(
                seq![
                    ("type"@, JsonView::Str("signature_delta"@)),
                    ("signature"@, JsonView::Str(signature)),
                ],
            ),
        }
    }

    /// Reading the JSON form of a delta gives the delta back.
    pub proof fn lemma_json_round_trip(self)
        ensures
            Self::from_json(self.to_json()) == Some(self),
    {
        broadcast use {JsonView::lemma_member_of_none, JsonView::lemma_member_after_push};

        reveal_strlit("type");
        reveal_strlit("text");
        reveal_strlit("partial_json");
        reveal_strlit("thinking");
        reveal_strlit("signature");
        reveal_strlit("text_delta");
        reveal_strlit("input_json_delta");
        reveal_strlit("thinking_delta");
        reveal_strlit("signature_delta");
        assert("type"@.len() == 4 && "type"@[1] == 'y');
        assert("text"@.len() == 4 && "text"@[1] == 'e');
        assert("partial_json"@.len() == 12);
        assert("thinking"@.len() == 8);
        assert("signature"@.len() == 9);
        assert("text_delta"@.len() == 10);
        assert("input_json_delta"@.len() == 16);
        assert("thinking_delta"@.len() == 14);
        assert("signature_delta"@.len() == 15);
        let empty = Seq::<(Seq<char>, JsonView)>::empty();
        match self {
            DeltaView::TextDelta { text } => {
                let first = ("type"@, JsonView::Str("text_delta"@));
                let second = ("text"@, JsonView::Str(text));
                assert(seq![first, second] =~= empty.push(first).push(second));
            },
            DeltaView::InputJsonDelta { partial_json } => {
                let first = ("type"@, JsonView::Str("input_json_delta"@));
                let second = ("partial_json"@, JsonView::Str(partial_json));
                assert(seq![first, second] =~= empty.push(first).push(second));
            },
            DeltaView::ThinkingDelta { thinking } => {
                let first = ("type"@, JsonView::Str("thinking_delta"@));
                let second = ("thinking"@, JsonView::Str(thinking));
                assert(seq![first, second] =~= empty.push(first).push(second));
            },
            DeltaView::SignatureDelta { signature } => {
                let first = ("type"@, JsonView::Str("signature_delta"@));
                let second = ("signature"@, JsonView::Str(signature));
                assert(seq![first, second] =~= empty.push(first).push(second));
            },
        }
    }

    /// What a JSON object stands for: its string member `type` names the
    /// variant, and the variant's one field is a string member of the same
    /// object.
    pub open spec fn from_json(json: JsonView) -> Option<DeltaView> {
        match json.string_member("type"@) {
            Some(tag) => if tag == "text_delta"@ {
                match json.string_member("text"@) {
                    Some(text) => Some(DeltaView::TextDelta { text }),
                    None => None,
                }
            } else if tag == "input_json_delta"@ {
                match json.string_member("partial_json"@) {
                    Some(partial_json) => Some(DeltaView::InputJsonDelta { partial_json }),
                    None => None,
                }
            } else if tag == "thinking_delta"@ {
                match json.string_member("thinking"@) {
                    Some(thinking) => Some(DeltaView::ThinkingDelta { thinking }),
                    None => None,
                }
            } else if tag == "signature_delta"@ {
                match json.string_member("signature"@) {
                    Some(signature) => Some(DeltaView::SignatureDelta { signature }),
                    None => None,
                }
            } else {
                None
            },
            None => None,
        }
    }
}

impl Delta {
    /// The JSON form of the delta.
    pub fn to_json(&self) -> (json: Json)
        ensures
            json@ == self@.to_json(),
    {
        let mut members: Vec<(String, Json)> = Vec::new();
        match self {
            Delta::TextDelta { text } => {
                put(&mut members, "type", Json::string("text_delta"));
                put(&mut members, "text", Json::string(text.as_str()));
            },
            Delta::InputJsonDelta { partial_json } => {
                put(&mut members, "type", Json::string("input_json_delta"));
                put(&mut members, "partial_json", Json::string(partial_json.as_str()));
            },
            Delta::ThinkingDelta { thinking } => {
                put(&mut members, "type", Json::string("thinking_delta"));
                put(&mut members, "thinking", Json::string(thinking.as_str()));
            },
            Delta::SignatureDelta { signature } => {
                put(&mut members, "type", Json::string("signature_delta"));
                put(&mut members, "signature", Json::string(signature.as_str()));
            },
        }
        assert(members_view(members) =~= self@.to_json()->Object_0);
        Json::object(members)
    }

    /// Reads a delta from its JSON form.
    pub fn from_json(json: &Json) -> (delta: Option<Delta>)
        ensures
            delta.deep_view() == DeltaView::from_json(json@),
    {
        let tag = match json.string_member("type") {
            Some(tag) => tag,
            None => {
                return None;
            },
        };
        let tag = tag.as_str();
        if str_eq(tag, "text_delta") {
            match json.string_member("text") {
                Some(text) => Some(Delta::TextDelta { text }),
                None => None,
            }
        } else if str_eq(tag, "input_json_delta") {
            match json.string_member("partial_json") {
                Some(partial_json) => Some(Delta::InputJsonDelta { partial_json }),
                None => None,
            }
        } else if str_eq(tag, "thinking_delta") {
            match json.string_member("thinking") {
                Some(thinking) => Some(Delta::ThinkingDelta { thinking }),
                None => None,
            }
        } else if str_eq(tag, "signature_delta") {
            match json.string_member("signature") {
                Some(signature) => Some(Delta::SignatureDelta { signature }),
                None => None,
            }
        } else {
            None
        }
    }
}

/// What the last update of a message says of its end.
#[derive(Debug)]
pub struct MessageDelta {
    /// Why the model stopped.
    pub stop_reason: Option<String>,
    /// The stop sequence that was written, if one was.
    pub stop_sequence: Option<String>,
}

/// The mathematical form of a [`MessageDelta`].
pub struct MessageDeltaView {
    pub stop_reason: Option<Seq<char>>,
    pub stop_sequence: Option<Seq<char>>,
}

impl View for MessageDelta {
    type V = MessageDeltaView;

    open spec fn view(&self) -> MessageDeltaView {
        MessageDeltaView {
            stop_reason: self.stop_reason.deep_view(),
            stop_sequence: self.stop_sequence.deep_view(),
        }
    }
}

impl DeepView for MessageDelta {
    type V = MessageDeltaView;

    open spec fn deep_view(&self) -> MessageDeltaView {
        self@
    }
}

impl Clone for MessageDelta {
    fn clone(&self) -> (copy: Self)
        ensures
            copy@ == self@,
    {
        MessageDelta {
            stop_reason: self.stop_reason.clone(),
            stop_sequence: self.stop_sequence.clone(),
        }
    }
}

impl MessageDeltaView {
    /// The JSON form: an object with the members `stop_reason` and
    /// `stop_sequence`, each where it is given.
    pub open spec fn to_json(self) -> JsonView {
        let members = with_optional_member(
            Seq::empty(),
            "stop_reason"@,
            match self.stop_reason {
                Some(reason) => Some(JsonView::Str(reason)),
                None => None,
            },
        );
        JsonView::Object(
            with_optional_member(
                members,
                "stop_sequence"@,
                match self.stop_sequence {
                    Some(sequence) => Some(JsonView::Str(sequence)),
                    None => None,
                },
            ),
        )
    }

    /// Reading the JSON form of a message delta gives it back.
    pub proof fn lemma_json_round_trip(self)
        ensures
            Self::from_json(self.to_json()) == Some(self),
    {
        broadcast use {JsonView::lemma_member_of_none, JsonView::lemma_member_after_push};

        reveal_strlit("stop_reason");
        reveal_strlit("stop_sequence");
        assert("stop_reason"@.len() == 11);
        assert("stop_sequence"@.len() == 13);
    }

    /// What an object with the optional string members `stop_reason` and
    /// `stop_sequence` stands for.
    pub open spec fn from_json(json: JsonView) -> Option<MessageDeltaView> {
        match (
            json is Object,
            json.optional_string_member("stop_reason"@),
            json.optional_string_member("stop_sequence"@),
        ) {
            (true, Some(stop_reason), Some(stop_sequence)) => Some(
                MessageDeltaView { stop_reason, stop_sequence },
            ),
            _ => None,
        }
    }
}

impl MessageDelta {
    /// The JSON form of the message delta.
    pub fn to_json(&self) -> (json: Json)
        ensures
            json@ == self@.to_json(),
    {
        let mut members: Vec<(String, Json)> = Vec::new();
        assert(members_view(members) =~= Seq::empty());
        put_optional(&mut members, "stop_reason", Json::optional_string(&self.stop_reason));
        put_optional(&mut members, "stop_sequence", Json::optional_string(&self.stop_sequence));
        Json::object(members)
    }

    /// Reads a message delta from its JSON form.
    pub fn from_json(json: &Json) -> (delta: Option<MessageDelta>)
        ensures
            delta.deep_view() == MessageDeltaView::from_json(json@),
    {
        let is_object = match json {
            Json::Object(_) => true,
            _ => false,
        };
        let stop_reason = json.optional_string_member("stop_reason");
        let stop_sequence = json.optional_string_member("stop_sequence");
        match (is_object, stop_reason, stop_sequence) {
            (true, Some(stop_reason), Some(stop_sequence)) => Some(
                MessageDelta { stop_reason, stop_sequence },
            ),
            _ => None,
        }
    }
}

/// One event of the stream.
#[derive(Debug)]
#[allow(inconsistent_fields)]
pub enum StreamEvent {
    /// The response begins; `message` is its envelope.
    MessageStart { message: Response },
    /// The content block at `index` begins as `content_block`.
    ContentBlockStart { index: usize, content_block: ContentBlock },
    /// The connection is alive.
    Ping,
    /// The content block at `index` grows by `delta`.
    ContentBlockDelta { index: usize, delta: Delta },
    /// The content block at `index` is complete.
    ContentBlockStop { index: usize },
    /// The response ends: why, and what it cost.
    MessageDelta { delta: MessageDelta, usage: Usage },
    /// The stream is over.
    MessageStop,
    /// The service reports a failure.
    Error { error: ErrorDetail },
}

/// The mathematical form of a [`StreamEvent`].
#[allow(inconsistent_fields)]
pub enum StreamEventView {
    MessageStart { message: ResponseView },
    ContentBlockStart { index: usize, content_block: ContentBlockView },
    Ping,
    ContentBlockDelta { index: usize, delta: DeltaView },
    ContentBlockStop { index: usize },
    MessageDelta { delta: MessageDeltaView, usage: Usage },
    MessageStop,
    Error { error: ErrorDetailView },
}

impl View for StreamEvent {
    type V = StreamEventView;

    open spec fn view(&self) -> StreamEventView {
        match self {
            StreamEvent::MessageStart { message } => StreamEventView::MessageStart {
                message: message@,
            },
            StreamEvent::ContentBlockStart { index, content_block } => {
                StreamEventView::ContentBlockStart { index: *index, content_block: content_block@ }
            },
            StreamEvent::Ping => StreamEventView::Ping,
            StreamEvent::ContentBlockDelta { index, delta } => StreamEventView::ContentBlockDelta {
                index: *index,
                delta: delta@,
            },
            StreamEvent::ContentBlockStop { index } => StreamEventView::ContentBlockStop {
                index: *index,
            },
            StreamEvent::MessageDelta { delta, usage } => StreamEventView::MessageDelta {
                delta: delta@,
                usage: *usage,
            },
            StreamEvent::MessageStop => StreamEventView::MessageStop,
            StreamEvent::Error { error } => StreamEventView::Error { error: error@ },
        }
    }
}

impl DeepView for StreamEvent {
    type V = StreamEventView;

    open spec fn deep_view(&self) -> StreamEventView {
        self@
    }
}

impl StreamEventView {
    /// The JSON form: an object whose member `type` names the variant,
    /// followed by the variant's fields.
    pub open spec fn to_json(self) -> JsonView {
        match self {
            StreamEventView::MessageStart { message } => JsonView::Object(
                seq![("type"@, JsonView::Str("message_start"@)), ("message"@, message.to_json())],
            ),
            StreamEventView::ContentBlockStart { index, content_block } => JsonView::Object(
                seq![
                    ("type"@, JsonView::Str("content_block_start"@)),
                    ("index"@, JsonView::Unsigned(index as u64)),
                    ("content_block"@, content_block.to_json()),
                ],
            ),
            StreamEventView::Ping => JsonView::Object(seq![("type"@, JsonView::Str("ping"@))]),
            StreamEventView::ContentBlockDelta { index, delta } => JsonView::Object(
                seq![
                    ("type"@, JsonView::Str("content_block_delta"@)),
                    ("index"@, JsonView::Unsigned(index as u64)),
                    ("delta"@, delta.to_json()),
                ],
            ),
            StreamEventView::ContentBlockStop { index } => JsonView::Object(
                seq![
                    ("type"@, JsonView::Str("content_block_stop"@)),
                    ("index"@, JsonView::Unsigned(index as u64)),
                ],
            ),
            StreamEventView::MessageDelta { delta, usage } => JsonView::Object(
                seq![
                    ("type"@, JsonView::Str("message_delta"@)),
                    ("delta"@, delta.to_json()),
                    ("usage"@, usage.spec_to_json()),
                ],
            ),
            StreamEventView::MessageStop => JsonView::Object(
                seq![("type"@, JsonView::Str("message_stop"@))],
            ),
            StreamEventView::Error { error } => JsonView::Object(
                seq![("type"@, JsonView::Str("error"@)), ("error"@, error.to_json())],
            ),
        }
    }

    /// The names of the events differ from one another, and so do the
    /// names of their fields.
    pub proof fn lemma_names_differ()
        ensures
            "message_start"@ != "content_block_start"@,
            "message_start"@ != "ping"@,
            "message_start"@ != "content_block_delta"@,
            "message_start"@ != "content_block_stop"@,
            "message_start"@ != "message_delta"@,
            "message_start"@ != "message_stop"@,
            "message_start"@ != "error"@,
            "content_block_start"@ != "ping"@,
            "content_block_start"@ != "content_block_delta"@,
            "content_block_start"@ != "content_block_stop"@,
            "content_block_start"@ != "message_delta"@,
            "content_block_start"@ != "message_stop"@,
            "content_block_start"@ != "error"@,
            "ping"@ != "content_block_delta"@,
            "ping"@ != "content_block_stop"@,
            "ping"@ != "message_delta"@,
            "ping"@ != "message_stop"@,
            "ping"@ != "error"@,
            "content_block_delta"@ != "content_block_stop"@,
            "content_block_delta"@ != "message_delta"@,
            "content_block_delta"@ != "message_stop"@,
            "content_block_delta"@ != "error"@,
            "content_block_stop"@ != "message_delta"@,
            "content_block_stop"@ != "message_stop"@,
            "content_block_stop"@ != "error"@,
            "message_delta"@ != "message_stop"@,
            "message_delta"@ != "error"@,
            "message_stop"@ != "error"@,
            "type"@ != "message"@,
            "type"@ != "index"@,
            "type"@ != "content_block"@,
            "type"@ != "delta"@,
            "type"@ != "usage"@,
            "type"@ != "error"@,
            "index"@ != "content_block"@,
            "index"@ != "delta"@,
            "delta"@ != "usage"@,
    {
        reveal_strlit("message_start");
        reveal_strlit("content_block_start");
        reveal_strlit("ping");
        reveal_strlit("content_block_delta");
        reveal_strlit("content_block_stop");
        reveal_strlit("message_delta");
        reveal_strlit("message_stop");
        reveal_strlit("error");
        reveal_strlit("type");
        reveal_strlit("message");
        reveal_strlit("index");
        reveal_strlit("content_block");
        reveal_strlit("delta");
        reveal_strlit("usage");
        assert("message_start"@.len() == 13 && "message_start"@[8] == 's');
        assert("content_block_start"@.len() == 19 && "content_block_start"@[14] == 's');
        assert("ping"@.len() == 4 && "ping"@[0] == 'p');
        assert("content_block_delta"@.len() == 19 && "content_block_delta"@[14] == 'd');
        assert("content_block_stop"@.len() == 18);
        assert("message_delta"@.len() == 13 && "message_delta"@[8] == 'd');
        assert("message_stop"@.len() == 12);
        assert("error"@.len() == 5 && "error"@[0] == 'e');
        assert("type"@.len() == 4 && "type"@[0] == 't');
        assert("message"@.len() == 7);
        assert("index"@.len() == 5 && "index"@[0] == 'i');
        assert("content_block"@.len() == 13);
        assert("delta"@.len() == 5 && "delta"@[0] == 'd');
        assert("usage"@.len() == 5 && "usage"@[0] == 'u');
    }

    /// Reading the JSON form of an event gives the event back.
    pub proof fn lemma_json_round_trip(self)
        ensures
            Self::from_json(self.to_json()) == Some(self),
    {
        broadcast use {JsonView::lemma_member_of_none, JsonView::lemma_member_after_push};

        Self::lemma_names_differ();
        let empty = Seq::<(Seq<char>, JsonView)>::empty();
        match self {
            StreamEventView::MessageStart { message } => {
                let first = ("type"@, JsonView::Str("message_start"@));
                let second = ("message"@, message.to_json());
                assert(seq![first, second] =~= empty.push(first).push(second));
                message.lemma_json_round_trip();
            },
            StreamEventView::ContentBlockStart { index, content_block } => {
                let first = ("type"@, JsonView::Str("content_block_start"@));
                let second = ("index"@, JsonView::Unsigned(index as u64));
                let third = ("content_block"@, content_block.to_json());
                assert(seq![first, second, third] =~= empty.push(first).push(second).push(third));
                content_block.lemma_json_round_trip();
            },
            StreamEventView::Ping => {
                let first = ("type"@, JsonView::Str("ping"@));
                assert(seq![first] =~= empty.push(first));
            },
            StreamEventView::ContentBlockDelta { index, delta } => {
                let first = ("type"@, JsonView::Str("content_block_delta"@));
                let second = ("index"@, JsonView::Unsigned(index as u64));
                let third = ("delta"@, delta.to_json());
                assert(seq![first, second, third] =~= empty.push(first).push(second).push(third));
                delta.lemma_json_round_trip();
            },
            StreamEventView::ContentBlockStop { index } => {
                let first = ("type"@, JsonView::Str("content_block_stop"@));
                let second = ("index"@, JsonView::Unsigned(index as u64));
                assert(seq![first, second] =~= empty.push(first).push(second));
            },
            StreamEventView::MessageDelta { delta, usage } => {
                let first = ("type"@, JsonView::Str("message_delta"@));
                let second = ("delta"@, delta.to_json());
                let third = ("usage"@, usage.spec_to_json());
                assert(seq![first, second, third] =~= empty.push(first).push(second).push(third));
                delta.lemma_json_round_trip();
                usage.lemma_json_round_trip();
            },
            StreamEventView::MessageStop => {
                let first = ("type"@, JsonView::Str("message_stop"@));
                assert(seq![first] =~= empty.push(first));
            },
            StreamEventView::Error { error } => {
                let first = ("type"@, JsonView::Str("error"@));
                let second = ("error"@, error.to_json());
                assert(seq![first, second] =~= empty.push(first).push(second));
                error.lemma_json_round_trip();
            },
        }
    }

    /// What a JSON object stands for: its string member `type` names the
    /// variant, and the variant's fields are members of the same object.
    /// `None` where `type` is missing or names no variant, where a field is
    /// missing, or where a member has the wrong form. Members that the
    /// variant does not know are passed over.
    pub open spec fn from_json(json: JsonView) -> Option<StreamEventView> {
        match json.string_member("type"@) {
            Some(tag) => if tag == "message_start"@ {
                match json.member("message"@) {
                    Some(message) => match ResponseView::from_json(message) {
                        Some(message) => Some(StreamEventView::MessageStart { message }),
                        None => None,
                    },
                    None => None,
                }
            } else if tag == "content_block_start"@ {
                match (json.usize_member("index"@), json.member("content_block"@)) {
                    (Some(index), Some(block)) => match ContentBlockView::from_json(block) {
                        Some(content_block) => Some(
                            StreamEventView::ContentBlockStart { index, content_block },
                        ),
                        None => None,
                    },
                    _ => None,
                }
            } else if tag == "ping"@ {
                Some(StreamEventView::Ping)
            } else if tag == "content_block_delta"@ {
                match (json.usize_member("index"@), json.member("delta"@)) {
                    (Some(index), Some(delta)) => match DeltaView::from_json(delta) {
                        Some(delta) => Some(StreamEventView::ContentBlockDelta { index, delta }),
                        None => None,
                    },
                    _ => None,
                }
            } else if tag == "content_block_stop"@ {
                match json.usize_member("index"@) {
                    Some(index) => Some(StreamEventView::ContentBlockStop { index }),
                    None => None,
                }
            } else if tag == "message_delta"@ {
                match (json.member("delta"@), json.member("usage"@)) {
                    (Some(delta), Some(usage)) => match (
                        MessageDeltaView::from_json(delta),
                        Usage::spec_from_json(usage),
                    ) {
                        (Some(delta), Some(usage)) => Some(
                            StreamEventView::MessageDelta { delta, usage },
                        ),
                        _ => None,
                    },
                    _ => None,
                }
            } else if tag == "message_stop"@ {
                Some(StreamEventView::MessageStop)
            } else if tag == "error"@ {
                match json.member("error"@) {
                    Some(error) => match ErrorDetailView::from_json(error) {
                        Some(error) => Some(StreamEventView::Error { error }),
                        None => None,
                    },
                    None => None,
                }
            } else {
                None
            },
            None => None,
        }
    }
}

impl StreamEvent {
    /// The JSON form of the event.
    pub fn to_json(&self) -> (json: Json)
        ensures
            json@ == self@.to_json(),
    {
        let mut members: Vec<(String, Json)> = Vec::new();
        match self {
            StreamEvent::MessageStart { message } => {
                put(&mut members, "type", Json::string("message_start"));
                put(&mut members, "message", message.to_json());
            },
            StreamEvent::ContentBlockStart { index, content_block } => {
                put(&mut members, "type", Json::string("content_block_start"));
                put(&mut members, "index", Json::number(*index));
                put(&mut members, "content_block", content_block.to_json());
            },
            StreamEvent::Ping => {
                put(&mut members, "type", Json::string("ping"));
            },
            StreamEvent::ContentBlockDelta { index, delta } => {
                put(&mut members, "type", Json::string("content_block_delta"));
                put(&mut members, "index", Json::number(*index));
                put(&mut members, "delta", delta.to_json());
            },
            StreamEvent::ContentBlockStop { index } => {
                put(&mut members, "type", Json::string("content_block_stop"));
                put(&mut members, "index", Json::number(*index));
            },
            StreamEvent::MessageDelta { delta, usage } => {
                put(&mut members, "type", Json::string("message_delta"));
                put(&mut members, "delta", delta.to_json());
                put(&mut members, "usage", usage.to_json());
            },
            StreamEvent::MessageStop => {
                put(&mut members, "type", Json::string("message_stop"));
            },
            StreamEvent::Error { error } => {
                put(&mut members, "type", Json::string("error"));
                put(&mut members, "error", error.to_json());
            },
        }
        assert(members_view(members) =~= self@.to_json()->Object_0);
        Json::object(members)
    }

    /// Reads an event from its JSON form.
    pub fn from_json(json: &Json) -> (event: Option<StreamEvent>)
        ensures
            event.deep_view() == StreamEventView::from_json(json@),
    {
        let tag = match json.string_member("type") {
            Some(tag) => tag,
            None => {
                return None;
            },
        };
        let tag = tag.as_str();
        if str_eq(tag, "message_start") {
            match json.member("message") {
                Some(message) => match Response::from_json(message) {
                    Some(message) => Some(StreamEvent::MessageStart { message }),
                    None => None,
                },
                None => None,
            }
        } else if str_eq(tag, "content_block_start") {
            match (json.usize_member("index"), json.member("content_block")) {
                (Some(index), Some(block)) => match ContentBlock::from_json(block) {
                    Some(content_block) => Some(StreamEvent::ContentBlockStart { index, content_block }),
                    None => None,
                },
                _ => None,
            }
        } else if str_eq(tag, "ping") {
            Some(StreamEvent::Ping)
        } else if str_eq(tag, "content_block_delta") {
            match (json.usize_member("index"), json.member("delta")) {
                (Some(index), Some(delta)) => match Delta::from_json(delta) {
                    Some(delta) => Some(StreamEvent::ContentBlockDelta { index, delta }),
                    None => None,
                },
                _ => None,
            }
        } else if str_eq(tag, "content_block_stop") {
            match json.usize_member("index") {
                Some(index) => Some(StreamEvent::ContentBlockStop { index }),
                None => None,
            }
        } else if str_eq(tag, "message_delta") {
            match (json.member("delta"), json.member("usage")) {
                (Some(delta), Some(usage)) => match (
                    MessageDelta::from_json(delta),
                    Usage::from_json(usage),
                ) {
                    (Some(delta), Some(usage)) => Some(StreamEvent::MessageDelta { delta, usage }),
                    _ => None,
                },
                _ => None,
            }
        } else if str_eq(tag, "message_stop") {
            Some(StreamEvent::MessageStop)
        } else if str_eq(tag, "error") {
            match json.member("error") {
                Some(error) => match ErrorDetail::from_json(error) {
                    Some(error) => Some(StreamEvent::Error { error }),
                    None => None,
                },
                None => None,
            }
        } else {
            None
        }
    }
}

/// Rebuilds a response from the events of its stream.
pub struct StreamAccumulator {
    /// The text of every text delta seen, in the order of arrival.
    pub text: String,
    /// For each tool request, by its identifier, the JSON text of its input
    /// as far as it has arrived.
    pub tool_inputs: StringHashMap<String>,
    /// The text of every thinking delta seen, in the order of arrival.
    pub thinking: String,
    /// The content blocks, each at its index.
    pub content_blocks: Vec<ContentBlock>,
    /// What the response cost, once the message delta has said so.
    pub usage: Option<Usage>,
    /// Why the model stopped, once the message delta has said so.
    pub stop_reason: Option<String>,
    /// The model that writes the response; set once, by the first start of
    /// a message.
    pub model: Option<String>,
    /// The identifier of the response; set once, by the first start of a
    /// message.
    pub id: Option<String>,
}

/// The mathematical form of a [`StreamAccumulator`].
pub struct AccumulatorView {
    pub text: Seq<char>,
    pub tool_inputs: Map<Seq<char>, Seq<char>>,
    pub thinking: Seq<char>,
    pub content_blocks: Seq<ContentBlockView>,
    pub usage: Option<Usage>,
    pub stop_reason: Option<Seq<char>>,
    pub model: Option<Seq<char>>,
    pub id: Option<Seq<char>>,
}

impl View for StreamAccumulator {
    type V = AccumulatorView;

    open spec fn view(&self) -> AccumulatorView {
        AccumulatorView {
            text: self.text@,
            tool_inputs: self.tool_inputs@.map_values(|input: String| input@),
            thinking: self.thinking@,
            content_blocks: self.content_blocks.deep_view(),
            usage: self.usage,
            stop_reason: self.stop_reason.deep_view(),
            model: self.model.deep_view(),
            id: self.id.deep_view(),
        }
    }
}

impl AccumulatorView {
    /// The accumulator before any event.
    pub open spec fn empty() -> AccumulatorView {
        AccumulatorView {
            text: Seq::empty(),
            tool_inputs: Map::empty(),
            thinking: Seq::empty(),
            content_blocks: Seq::empty(),
            usage: None,
            stop_reason: None,
            model: None,
            id: None,
        }
    }

    /// Whether a stop reason has been recorded.
    pub open spec fn is_complete(self) -> bool {
        self.stop_reason is Some
    }

    /// `blocks`, grown by empty text blocks until it has a slot `index`.
    pub open spec fn padded(blocks: Seq<ContentBlockView>, index: int) -> Seq<ContentBlockView> {
        if index < blocks.len() {
            blocks
        } else {
            blocks + Seq::new(
                (index + 1 - blocks.len()) as nat,
                |i: int| ContentBlockView::empty_text(),
            )
        }
    }

    /// The start of a block: the slots are padded up to `index`, and slot
    /// `index` becomes `block`, whatever it held.
    pub open spec fn start_block(self, index: int, block: ContentBlockView) -> AccumulatorView {
        AccumulatorView {
            content_blocks: Self::padded(self.content_blocks, index).update(index, block),
            ..self
        }
    }

    /// More text: it is added to the text of the whole response and, where
    /// slot `index` holds a text block, to that block's text.
    pub open spec fn append_text(self, index: int, text: Seq<char>) -> AccumulatorView {
        AccumulatorView {
            text: self.text + text,
            content_blocks: if 0 <= index < self.content_blocks.len() {
                match self.content_blocks[index] {
                    ContentBlockView::Text { text: so_far, cache_control } => {
                        self.content_blocks.update(
                            index,
                            ContentBlockView::Text { text: so_far + text, cache_control },
                        )
                    },
                    _ => self.content_blocks,
                }
            } else {
                self.content_blocks
            },
            ..self
        }
    }

    /// The identifier of the tool request in slot `index`; `None` where
    /// there is no such slot or it holds something else.
    pub open spec fn request_at(self, index: int) -> Option<Seq<char>> {
        if 0 <= index < self.content_blocks.len() {
            match self.content_blocks[index] {
                ContentBlockView::ToolUse { id, .. } => Some(id),
                _ => None,
            }
        } else {
            None
        }
    }

    /// The input that has arrived for the tool request `id`; empty where
    /// none has.
    pub open spec fn tool_input(self, id: Seq<char>) -> Seq<char> {
        if self.tool_inputs.contains_key(id) {
            self.tool_inputs[id]
        } else {
            Seq::empty()
        }
    }

    /// More input for a tool: where slot `index` holds a tool request, the
    /// fragment is added to the input kept for the request's identifier.
    /// Else nothing changes.
    pub open spec fn append_tool_input(self, index: int, partial_json: Seq<char>) -> AccumulatorView {
        match self.request_at(index) {
            Some(id) => AccumulatorView {
                tool_inputs: self.tool_inputs.insert(id, self.tool_input(id) + partial_json),
                ..self
            },
            None => self,
        }
    }

    /// More reasoning: it is added to the reasoning of the whole response.
    pub open spec fn append_thinking(self, thinking: Seq<char>) -> AccumulatorView {
        AccumulatorView { thinking: self.thinking + thinking, ..self }
    }

    /// What a delta for slot `index` does. A signature delta does nothing.
    pub open spec fn apply_delta(self, index: int, delta: DeltaView) -> AccumulatorView {
        match delta {
            DeltaView::TextDelta { text } => self.append_text(index, text),
            DeltaView::InputJsonDelta { partial_json } => self.append_tool_input(
                index,
                partial_json,
            ),
            DeltaView::ThinkingDelta { thinking } => self.append_thinking(thinking),
            DeltaView::SignatureDelta { .. } => self,
        }
    }

    /// `kept` where it is set, and else `offered`: a value that is set
    /// once is never written over.
    pub open spec fn set_once(kept: Option<Seq<char>>, offered: Seq<char>) -> Option<Seq<char>> {
        if kept is Some {
            kept
        } else {
            Some(offered)
        }
    }

    /// What one event does. The start of the message sets identifier and
    /// model, each where it is not set yet; the message delta sets stop
    /// reason and usage; the events for content blocks act on the slots.
    /// The end of a block, the end of the message, a ping and an error
    /// change nothing.
    pub open spec fn apply(self, event: StreamEventView) -> AccumulatorView {
        match event {
            StreamEventView::MessageStart { message } => AccumulatorView {
                id: Self::set_once(self.id, message.id),
                model: Self::set_once(self.model, message.model),
                ..self
            },
            StreamEventView::ContentBlockStart { index, content_block } => self.start_block(
                index as int,
                content_block,
            ),
            StreamEventView::ContentBlockDelta { index, delta } => self.apply_delta(
                index as int,
                delta,
            ),
            StreamEventView::MessageDelta { delta, usage } => AccumulatorView {
                stop_reason: delta.stop_reason,
                usage: Some(usage),
                ..self
            },
            StreamEventView::ContentBlockStop { .. } => self,
            StreamEventView::MessageStop => self,
            StreamEventView::Ping => self,
            StreamEventView::Error { .. } => self,
        }
    }

    /// What a sequence of events does, the first event first.
    pub open spec fn apply_all(self, events: Seq<StreamEventView>) -> AccumulatorView
        decreases events.len(),
    {
        if events.len() == 0 {
            self
        } else {
            self.apply_all(events.drop_last()).apply(events.last())
        }
    }
}

impl StreamAccumulator {
    /// An accumulator that has seen no event.
    pub fn new() -> (accumulator: Self)
        ensures
            accumulator@ == AccumulatorView::empty(),
    {
        let accumulator = StreamAccumulator {
            text: String::new(),
            tool_inputs: StringHashMap::new(),
            thinking: String::new(),
            content_blocks: Vec::new(),
            usage: None,
            stop_reason: None,
            model: None,
            id: None,
        };
        proof {
            assert(accumulator@.tool_inputs =~= Map::empty());
            assert(accumulator@.content_blocks =~= Seq::empty());
        }
        accumulator
    }

    /// Takes in one event.
    pub fn process_event(&mut self, event: StreamEvent)
        ensures
            final(self)@ == old(self)@.apply(event@),
    {
        match event {
            StreamEvent::MessageStart { message } => {
                if self.id.is_none() {
                    self.id = Some(message.id);
                }
                if self.model.is_none() {
                    self.model = Some(message.model);
                }
            },
            StreamEvent::ContentBlockStart { content_block, index } => {
                self.start_block(index, content_block);
            },
            StreamEvent::ContentBlockDelta { index, delta } => match delta {
                Delta::TextDelta { text } => {
                    self.append_text(index, text.as_str());
                },
                Delta::InputJsonDelta { partial_json } => {
                    self.append_tool_input(index, partial_json.as_str());
                },
                Delta::ThinkingDelta { thinking } => {
                    self.thinking.append(thinking.as_str());
                },
                Delta::SignatureDelta { .. } => {},
            },
            StreamEvent::ContentBlockStop { .. } => {},
            StreamEvent::MessageDelta { delta, usage } => {
                self.stop_reason = delta.stop_reason;
                self.usage = Some(usage);
            },
            StreamEvent::MessageStop => {},
            StreamEvent::Ping => {},
            StreamEvent::Error { .. } => {},
        }
    }

    /// Pads the slots up to `index` and puts `block` into slot `index`.
    fn start_block(&mut self, index: usize, block: ContentBlock)
        ensures
            final(self)@ == old(self)@.start_block(index as int, block@),
    {
        let ghost before = self.content_blocks.deep_view();
        proof {
            ContentBlock::lemma_models(self.content_blocks);
        }
        while self.content_blocks.len() <= index
            invariant
                self.text == old(self).text,
                self.tool_inputs == old(self).tool_inputs,
                self.thinking == old(self).thinking,
                self.usage == old(self).usage,
                self.stop_reason == old(self).stop_reason,
                self.model == old(self).model,
                self.id == old(self).id,
                before == old(self).content_blocks.deep_view(),
                before.len() <= self.content_blocks.len(),
                self.content_blocks.len() <= before.len() || self.content_blocks.len() <= index + 1,
                forall|i: int|
                    0 <= i < before.len() ==> (#[trigger] self.content_blocks[i])@ == before[i],
                forall|i: int|
                    before.len() <= i < self.content_blocks.len() ==> (
                    #[trigger] self.content_blocks[i])@ == ContentBlockView::empty_text(),
            decreases index + 1 - self.content_blocks.len(),
        {
            let placeholder = ContentBlock::Text { text: String::new(), cache_control: None };
            self.content_blocks.push(placeholder);
        }
        self.content_blocks[index] = block;
        proof {
            ContentBlock::lemma_models(self.content_blocks);
            assert(self.content_blocks.deep_view() =~= AccumulatorView::padded(
                before,
                index as int,
            ).update(index as int, block@));
        }
    }

    /// Adds `text` to the text of the response and to the text block at
    /// `index`, if there is one.
    fn append_text(&mut self, index: usize, text: &str)
        ensures
            final(self)@ == old(self)@.append_text(index as int, text@),
    {
        let ghost before = self.content_blocks.deep_view();
        proof {
            ContentBlock::lemma_models(self.content_blocks);
        }
        self.text.append(text);
        if index < self.content_blocks.len() {
            match &mut self.content_blocks[index] {
                ContentBlock::Text { text: block_text, .. } => {
                    block_text.append(text);
                },
                _ => {},
            }
        }
        proof {
            ContentBlock::lemma_models(self.content_blocks);
            assert(self.content_blocks.deep_view() =~= old(self)@.append_text(
                index as int,
                text@,
            ).content_blocks);
        }
    }

    /// Adds `partial_json` to the input kept for the tool request at
    /// `index`, if there is one.
    fn append_tool_input(&mut self, index: usize, partial_json: &str)
        ensures
            final(self)@ == old(self)@.append_tool_input(index as int, partial_json@),
    {
        proof {
            ContentBlock::lemma_models(self.content_blocks);
        }
        if index < self.content_blocks.len() {
            match &self.content_blocks[index] {
                ContentBlock::ToolUse { id, .. } => {
                    let so_far = match self.tool_inputs.get(id.as_str()) {
                        Some(input) => input.clone(),
                        None => String::new(),
                    };
                    let joined = so_far.concat(partial_json);
                    self.tool_inputs.insert(id.clone(), joined);
                    proof {
                        assert(self@.tool_inputs =~= old(self)@.append_tool_input(
                            index as int,
                            partial_json@,
                        ).tool_inputs);
                    }
                },
                _ => {},
            }
        }
    }

    /// The text of every text delta seen so far, in the order of arrival.
    pub fn get_text(&self) -> (text: &str)
        ensures
            text@ == self@.text,
    {
        self.text.as_str()
    }

    /// Whether the response is complete: whether a stop reason has been
    /// recorded.
    pub fn is_complete(&self) -> (complete: bool)
        ensures
            complete == self@.is_complete(),
    {
        self.stop_reason.is_some()
    }
}

impl Default for StreamAccumulator {
    fn default() -> (accumulator: Self)
        ensures
            accumulator@ == AccumulatorView::empty(),
    {
        StreamAccumulator::new()
    }
}

/// The texts of `pieces`, one after the other.
pub open spec fn concatenated(pieces: Seq<Seq<char>>) -> Seq<char>
    decreases pieces.len(),
{
    if pieces.len() == 0 {
        Seq::empty()
    } else {
        concatenated(pieces.drop_last()) + pieces.last()
    }
}

/// The events that add each of `pieces`, in their order, as text to slot
/// `index`.
pub open spec fn text_deltas(index: usize, pieces: Seq<Seq<char>>) -> Seq<StreamEventView> {
    Seq::new(
        pieces.len(),
        |i: int|
            StreamEventView::ContentBlockDelta {
                index,
                delta: DeltaView::TextDelta { text: pieces[i] },
            },
    )
}

/// Whether none of `events` is a message delta.
pub open spec fn no_message_delta(events: Seq<StreamEventView>) -> bool {
    forall|i: int| 0 <= i < events.len() ==> !((#[trigger] events[i]) is MessageDelta)
}

impl AccumulatorView {
    /// Two additions of text to one slot are one addition of the two texts
    /// joined.
    pub proof fn lemma_append_text_twice(self, index: int, first: Seq<char>, second: Seq<char>)
        ensures
            self.append_text(index, first).append_text(index, second) == self.append_text(
                index,
                first + second,
            ),
    {
        let once = self.append_text(index, first);
        let twice = once.append_text(index, second);
        let joined = self.append_text(index, first + second);
        assert(twice.text =~= joined.text);
        assert(twice.content_blocks =~= joined.content_blocks) by {
            if 0 <= index < self.content_blocks.len() {
                match self.content_blocks[index] {
                    ContentBlockView::Text { text: so_far, cache_control } => {
                        assert((so_far + first) + second =~= so_far + (first + second));
                    },
                    _ => {},
                }
            }
        }
    }

    /// Text deltas for one slot, taken in one after the other, leave the
    /// accumulator as one delta with all their texts joined in the order
    /// of arrival would: the text of the response is what it was, followed
    /// by every piece in order, and so is the text of the block in that
    /// slot. Nothing is dropped and nothing changes places.
    pub proof fn lemma_text_deltas_concatenate(self, index: usize, pieces: Seq<Seq<char>>)
        ensures
            self.apply_all(text_deltas(index, pieces)) == self.append_text(
                index as int,
                concatenated(pieces),
            ),
            self.apply_all(text_deltas(index, pieces)).text == self.text + concatenated(pieces),
        decreases pieces.len(),
    {
        let events = text_deltas(index, pieces);
        if pieces.len() == 0 {
            let same = self.append_text(index as int, Seq::empty());
            assert(same.text =~= self.text);
            assert(same.content_blocks =~= self.content_blocks) by {
                if 0 <= index < self.content_blocks.len() {
                    match self.content_blocks[index as int] {
                        ContentBlockView::Text { text: so_far, cache_control } => {
                            assert(so_far + Seq::<char>::empty() =~= so_far);
                        },
                        _ => {},
                    }
                }
            }
        } else {
            let earlier = pieces.drop_last();
            self.lemma_text_deltas_concatenate(index, earlier);
            assert(events.drop_last() =~= text_deltas(index, earlier));
            assert(events.last() == StreamEventView::ContentBlockDelta {
                index,
                delta: DeltaView::TextDelta { text: pieces.last() },
            });
            self.lemma_append_text_twice(index as int, concatenated(earlier), pieces.last());
        }
    }

    /// The start of a block at an index that has no slot yet does not fail:
    /// the slots grow to `index + 1`, the new slots below `index` hold
    /// empty text, slot `index` holds the block, and the slots that were
    /// there keep what they held. Nothing but the slots changes.
    pub proof fn lemma_start_block_pads(self, index: usize, block: ContentBlockView)
        ensures
            ({
                let after = self.apply(
                    StreamEventView::ContentBlockStart { index, content_block: block },
                );
                let before = self.content_blocks;
                &&& after.content_blocks.len() == if index < before.len() {
                    before.len() as int
                } else {
                    index + 1
                }
                &&& after.content_blocks[index as int] == block
                &&& forall|i: int|
                    0 <= i < before.len() && i != index ==> #[trigger] after.content_blocks[i]
                        == before[i]
                &&& forall|i: int|
                    before.len() <= i < index ==> #[trigger] after.content_blocks[i]
                        == ContentBlockView::empty_text()
                &&& after == AccumulatorView { content_blocks: after.content_blocks, ..self }
            }),
    {
    }

    /// A fragment of tool input for a slot that holds no tool request, or
    /// for an index without a slot, is dropped: the accumulator stays as
    /// it is.
    pub proof fn lemma_stray_tool_input_is_dropped(self, index: usize, partial_json: Seq<char>)
        requires
            !(index < self.content_blocks.len() && self.content_blocks[index as int] is ToolUse),
        ensures
            self.apply(
                StreamEventView::ContentBlockDelta {
                    index,
                    delta: DeltaView::InputJsonDelta { partial_json },
                },
            ) == self,
    {
    }

    /// A fragment of tool input changes no content block, and of the
    /// inputs kept only the one of the request that it is for.
    pub proof fn lemma_tool_input_touches_one_entry(self, index: usize, partial_json: Seq<char>)
        ensures
            ({
                let after = self.apply(
                    StreamEventView::ContentBlockDelta {
                        index,
                        delta: DeltaView::InputJsonDelta { partial_json },
                    },
                );
                &&& after == AccumulatorView { tool_inputs: after.tool_inputs, ..self }
                &&& forall|id: Seq<char>|
                    self.request_at(index as int) != Some(id) ==> #[trigger] after.tool_input(id)
                        == self.tool_input(id) && after.tool_inputs.contains_key(id)
                        == self.tool_inputs.contains_key(id)
            }),
    {
    }

    /// Before any event the response is not complete.
    pub proof fn lemma_empty_is_incomplete()
        ensures
            !Self::empty().is_complete(),
    {
    }

    /// Only a message delta changes whether the response is complete.
    pub proof fn lemma_completion_needs_message_delta(self, event: StreamEventView)
        requires
            !(event is MessageDelta),
        ensures
            self.apply(event).is_complete() == self.is_complete(),
            self.apply(event).stop_reason == self.stop_reason,
    {
    }

    /// As long as no message delta has arrived the response is not
    /// complete.
    pub proof fn lemma_incomplete_before_message_delta(events: Seq<StreamEventView>)
        requires
            no_message_delta(events),
        ensures
            !Self::empty().apply_all(events).is_complete(),
        decreases events.len(),
    {
        if events.len() > 0 {
            let earlier = events.drop_last();
            assert forall|i: int| 0 <= i < earlier.len() implies !((#[trigger] earlier[i])
                is MessageDelta) by {
                assert(earlier[i] == events[i]);
            }
            Self::lemma_incomplete_before_message_delta(earlier);
            Self::empty().apply_all(earlier).lemma_completion_needs_message_delta(events.last());
        }
    }

    /// A message delta that carries a stop reason completes the response
    /// at once, whatever came before, and the response stays complete
    /// through the events that follow as long as none of them is another
    /// message delta. The end of the message is not needed.
    pub proof fn lemma_complete_after_message_delta(
        self,
        delta: MessageDeltaView,
        usage: Usage,
        later: Seq<StreamEventView>,
    )
        requires
            delta.stop_reason is Some,
            no_message_delta(later),
        ensures
            self.apply(StreamEventView::MessageDelta { delta, usage }).is_complete(),
            self.apply(StreamEventView::MessageDelta { delta, usage }).apply_all(
                later,
            ).is_complete(),
        decreases later.len(),
    {
        if later.len() > 0 {
            let earlier = later.drop_last();
            assert forall|i: int| 0 <= i < earlier.len() implies !((#[trigger] earlier[i])
                is MessageDelta) by {
                assert(earlier[i] == later[i]);
            }
            self.lemma_complete_after_message_delta(delta, usage, earlier);
            self.apply(StreamEventView::MessageDelta { delta, usage }).apply_all(
                earlier,
            ).lemma_completion_needs_message_delta(later.last());
        }
    }

    /// No event takes anything back from the text of the response or from
    /// its reasoning: what was there stays in front.
    pub proof fn lemma_text_only_grows(self, event: StreamEventView)
        ensures
            self.text.is_prefix_of(self.apply(event).text),
            self.thinking.is_prefix_of(self.apply(event).thinking),
    {
        let after = self.apply(event);
        assert(after.text.subrange(0, self.text.len() as int) =~= self.text);
        assert(after.thinking.subrange(0, self.thinking.len() as int) =~= self.thinking);
    }

    /// Identifier and model are written by the start of the message and by
    /// no other event.
    pub proof fn lemma_only_message_start_names(self, event: StreamEventView)
        requires
            !(event is MessageStart),
        ensures
            self.apply(event).id == self.id,
            self.apply(event).model == self.model,
    {
    }

    /// The first start of a message sets identifier and model to those of
    /// its envelope and changes nothing else.
    pub proof fn lemma_first_message_start_names(self, message: ResponseView)
        requires
            self.id is None,
            self.model is None,
        ensures
            self.apply(StreamEventView::MessageStart { message }) == (AccumulatorView {
                id: Some(message.id),
                model: Some(message.model),
                ..self
            }),
    {
    }

    /// Once set, the identifier stays as it is through every event, a
    /// later start of a message included; and so does the model.
    pub proof fn lemma_names_are_set_once(self, event: StreamEventView)
        ensures
            self.id is Some ==> self.apply(event).id == self.id,
            self.model is Some ==> self.apply(event).model == self.model,
    {
    }

    /// Once set, identifier and model stay as they are through every
    /// sequence of events.
    pub proof fn lemma_names_stay(self, events: Seq<StreamEventView>)
        ensures
            self.id is Some ==> self.apply_all(events).id == self.id,
            self.model is Some ==> self.apply_all(events).model == self.model,
        decreases events.len(),
    {
        if events.len() > 0 {
            self.lemma_names_stay(events.drop_last());
            self.apply_all(events.drop_last()).lemma_names_are_set_once(events.last());
        }
    }
}

/// What a line of the stream is.
pub enum SseLine {
    /// A line that carries no event: blank, an event name, the end
    /// sentinel, or anything that is no data line.
    Skip,
    /// A data line, with the text that follows its marker.
    Payload(Seq<char>),
}

/// The kind of `line`. A blank line is skipped, and so is a line that
/// starts with `event: `. Of a line that starts with `data: ` the rest is
/// the payload, unless that rest, trimmed, is the sentinel `[DONE]`. Every
/// other line is skipped.
pub open spec fn classify_line(line: Seq<char>) -> SseLine {
    if is_blank(line) {
        SseLine::Skip
    } else if "event: "@.is_prefix_of(line) {
        SseLine::Skip
    } else if "data: "@.is_prefix_of(line) {
        let data = line.skip("data: "@.len() as int);
        if trimmed(data) == "[DONE]"@ {
            SseLine::Skip
        } else {
            SseLine::Payload(data)
        }
    } else {
        SseLine::Skip
    }
}

/// What `line` decodes to: `Some(None)` where it carries no event,
/// `Some(Some(event))` where its payload is the JSON form of `event`, and
/// `None` where its payload is no JSON or the JSON form of no event.
pub open spec fn decoded(line: Seq<char>) -> Option<Option<StreamEventView>> {
    match classify_line(line) {
        SseLine::Skip => Some(None),
        SseLine::Payload(data) => match json_of_text(data) {
            Some(json) => match StreamEventView::from_json(json) {
                Some(event) => Some(Some(event)),
                None => None,
            },
            None => None,
        },
    }
}

/// A line fails to decode exactly when it is a data line whose payload is
/// no JSON or the JSON form of no event. A blank line, a line with an
/// event name, the end sentinel and a line of any other shape never fail:
/// they decode to no event.
pub proof fn lemma_only_malformed_payloads_fail(line: Seq<char>)
    ensures
        decoded(line) is None <==> (classify_line(line) matches SseLine::Payload(data) && (
            json_of_text(data) matches Some(json) ==> StreamEventView::from_json(json) is None)),
        classify_line(line) is Skip ==> decoded(line) == Some(None::<StreamEventView>),
        is_blank(line) ==> classify_line(line) is Skip,
        "event: "@.is_prefix_of(line) ==> classify_line(line) is Skip,
        !"data: "@.is_prefix_of(line) ==> classify_line(line) is Skip,
{
}

/// Decodes one line of the stream. A line that carries no event gives
/// `Ok(None)`; a data line gives its event, or the error
/// `SerdeJsonError` where its payload is malformed.
pub fn parse_sse_line(line: &str) -> (event: Result<Option<StreamEvent>, AnthropicToolError>)
    ensures
        match event {
            Ok(event) => decoded(line@) == Some(event.deep_view()),
            Err(error) => decoded(line@) is None && error is SerdeJsonError,
        },
{
    proof {
        lemma_trimmed_empty_iff_blank(line@);
    }
    if trim(line).is_empty() {
        return Ok(None);
    }
    if starts_with(line, "event: ") {
        return Ok(None);
    }
    match strip_prefix(line, "data: ") {
        Some(data) => {
            if str_eq(trim(data), "[DONE]") {
                return Ok(None);
            }
            match Json::parse(data) {
                Ok(json) => match StreamEvent::from_json(&json) {
                    Some(event) => Ok(Some(event)),
                    None => Err(
                        AnthropicToolError::SerdeJsonError(
                            json_error("the data is not the JSON form of a stream event"),
                        ),
                    ),
                },
                Err(error) => Err(AnthropicToolError::from(error)),
            }
        },
        None => Ok(None),
    }
}

} // verus!
