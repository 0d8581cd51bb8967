//! The answer to a request.

use crate::common::errors::{AnthropicToolError, ErrorResponse, ErrorResponseView, ErrorView};
use crate::common::json::{
    json_error, json_of_text, members_view, put, put_optional, with_member, with_optional_member,
    Json, JsonView,
};
use crate::common::text::str_eq;
use crate::common::usage::Usage;
use crate::messages::request::content::{ContentBlock, ContentBlockView};
use crate::messages::request::role::Role;
use vstd::prelude::*;
use vstd::string::StringExecFns;

verus! {

/// Why the model stopped writing.
#[derive(Debug, Clone, Copy, PartialEq, Eq, Structural)]
pub enum StopReason {
    /// The answer was complete.
    EndTurn,
    /// The token limit of the request was reached.
    MaxTokens,
    /// One of the request's stop sequences was written.
    StopSequence,
    /// The model wants a tool to be run.
    ToolUse,
    /// The model declined to answer.
    Refusal,
}

impl StopReason {
    /// The name of the reason on the wire.
    pub open spec fn name(self) -> Seq<char> {
        match self {
            StopReason::EndTurn => "end_turn"@,
            StopReason::MaxTokens => "max_tokens"@,
            StopReason::StopSequence => "stop_sequence"@,
            StopReason::ToolUse => "tool_use"@,
            StopReason::Refusal => "refusal"@,
        }
    }

    /// The reason with the wire name `name`, if there is one.
    pub open spec fn named(name: Seq<char>) -> Option<StopReason> {
        if name == "end_turn"@ {
            Some(StopReason::EndTurn)
        } else if name == "max_tokens"@ {
            Some(StopReason::MaxTokens)
        } else if name == "stop_sequence"@ {
            Some(StopReason::StopSequence)
        } else if name == "tool_use"@ {
            Some(StopReason::ToolUse)
        } else if name == "refusal"@ {
            Some(StopReason::Refusal)
        } else {
            None
        }
    }

    /// What a member that may be left out stands for, where it must else be
    /// the wire name of a reason. The outer `None` says that it is there and
    /// names no reason.
    pub open spec fn from_optional_json(member: Option<JsonView>) -> Option<Option<StopReason>> {
        match member {
            Some(JsonView::Str(name)) => match Self::named(name) {
                Some(reason) => Some(Some(reason)),
                None => None,
            },
            Some(_) => None,
            None => Some(None),
        }
    }

    /// The wire name of a reason names that reason.
    pub proof fn lemma_name_round_trip(self)
        ensures
            Self::named(self.name()) == Some(self),
    {
        reveal_strlit("end_turn");
        reveal_strlit("max_tokens");
        reveal_strlit("stop_sequence");
        reveal_strlit("tool_use");
        reveal_strlit("refusal");
        assert("end_turn"@.len() == 8 && "end_turn"@[0] == 'e');
        assert("max_tokens"@.len() == 10);
        assert("stop_sequence"@.len() == 13);
        assert("tool_use"@.len() == 8 && "tool_use"@[0] == 't');
        assert("refusal"@.len() == 7);
    }

    /// The name of the reason on the wire.
    pub fn as_str(&self) -> (name: &'static str)
        ensures
            name@ == self.name(),
    {
        match self {
            StopReason::EndTurn => "end_turn",
            StopReason::MaxTokens => "max_tokens",
            StopReason::StopSequence => "stop_sequence",
            StopReason::ToolUse => "tool_use",
            StopReason::Refusal => "refusal",
        }
    }

    /// The JSON form of the reason: its wire name as a string.
    pub fn to_json(&self) -> (json: Json)
        ensures
            json@ == JsonView::Str(self.name()),
    {
        Json::string(self.as_str())
    }

    /// The reason with the wire name `name`.
    pub fn from_name(name: &str) -> (reason: Option<StopReason>)
        ensures
            reason == Self::named(name@),
    {
        if str_eq(name, "end_turn") {
            Some(StopReason::EndTurn)
        } else if str_eq(name, "max_tokens") {
            Some(StopReason::MaxTokens)
        } else if str_eq(name, "stop_sequence") {
            Some(StopReason::StopSequence)
        } else if str_eq(name, "tool_use") {
            Some(StopReason::ToolUse)
        } else if str_eq(name, "refusal") {
            Some(StopReason::Refusal)
        } else {
            None
        }
    }
}

/// A complete answer of the service.
#[derive(Debug)]
pub struct Response {
    /// The identifier of the answer.
    pub id: String,
    /// The kind of object; always `"message"`.
    pub kind: String,
    /// The author; always the assistant.
    pub role: Role,
    /// The blocks of the answer.
    pub content: Vec<ContentBlock>,
    /// The model that wrote the answer.
    pub model: String,
    /// Why the model stopped.
    pub stop_reason: Option<StopReason>,
    /// The stop sequence that was written, if one was.
    pub stop_sequence: Option<String>,
    /// The tokens that the request used.
    pub usage: Usage,
}

/// The mathematical form of a [`Response`].
pub struct ResponseView {
    pub id: Seq<char>,
    pub kind: Seq<char>,
    pub role: Role,
    pub content: Seq<ContentBlockView>,
    pub model: Seq<char>,
    pub stop_reason: Option<StopReason>,
    pub stop_sequence: Option<Seq<char>>,
    pub usage: Usage,
}

impl View for Response {
    type V = ResponseView;

    open spec fn view(&self) -> ResponseView {
        ResponseView {
            id: self.id@,
            kind: self.kind@,
            role: self.role,
            content: self.content.deep_view(),
            model: self.model@,
            stop_reason: self.stop_reason,
            stop_sequence: self.stop_sequence.deep_view(),
            usage: self.usage,
        }
    }
}

impl DeepView for Response {
    type V = ResponseView;

    open spec fn deep_view(&self) -> ResponseView {
        self@
    }
}

/// The texts of the text blocks among `blocks`, one after the other.
pub open spec fn joined_text(blocks: Seq<ContentBlockView>) -> Seq<char>
    decreases blocks.len(),
{
    if blocks.len() == 0 {
        Seq::empty()
    } else {
        joined_text(blocks.drop_last()) + match blocks.last() {
            ContentBlockView::Text { text, .. } => text,
            _ => Seq::empty(),
        }
    }
}

/// The texts of the thinking blocks among `blocks`, one after the other.
pub open spec fn joined_thinking(blocks: Seq<ContentBlockView>) -> Seq<char>
    decreases blocks.len(),
{
    if blocks.len() == 0 {
        Seq::empty()
    } else {
        joined_thinking(blocks.drop_last()) + match blocks.last() {
            ContentBlockView::Thinking { thinking, .. } => thinking,
            _ => Seq::empty(),
        }
    }
}

/// Whether `block` asks for a tool to be run.
pub open spec fn is_tool_use(block: ContentBlockView) -> bool {
    block is ToolUse
}

impl ResponseView {
    /// Whether one of the blocks asks for a tool to be run.
    pub open spec fn has_tool_use(self) -> bool {
        exists|i: int| 0 <= i < self.content.len() && (#[trigger] self.content[i]) is ToolUse
    }

    /// Whether one of the blocks holds reasoning.
    pub open spec fn has_thinking(self) -> bool {
        exists|i: int| 0 <= i < self.content.len() && (#[trigger] self.content[i]) is Thinking
    }

    /// Whether the block at `i` is the request with the identifier `id`.
    pub open spec fn is_request(self, i: int, id: Seq<char>) -> bool {
        &&& 0 <= i < self.content.len()
        &&& self.content[i] matches ContentBlockView::ToolUse { id: found, .. } && found == id
    }

    /// The JSON form: an object with the members `id`, `type`, `role`,
    /// `content` and `model`, then `stop_reason` and `stop_sequence`, each
    /// where it is given, and `usage`.
    pub open spec fn to_json(self) -> JsonView {
        let members = seq![
            ("id"@, JsonView::Str(self.id)),
            ("type"@, JsonView::Str(self.kind)),
            ("role"@, JsonView::Str(self.role.name())),
            ("content"@, ContentBlockView::list_to_json(self.content)),
            ("model"@, JsonView::Str(self.model)),
        ];
        let members = with_optional_member(
            members,
            "stop_reason"@,
            match self.stop_reason {
                Some(reason) => Some(JsonView::Str(reason.name())),
                None => None,
            },
        );
        let members = with_optional_member(
            members,
            "stop_sequence"@,
            match self.stop_sequence {
                Some(sequence) => Some(JsonView::Str(sequence)),
                None => None,
            },
        );
        JsonView::Object(with_member(members, "usage"@, self.usage.spec_to_json()))
    }

    /// Reading the JSON form of a response gives the response back.
    pub proof fn lemma_json_round_trip(self)
        ensures
            Self::from_json(self.to_json()) == Some(self),
    {
        broadcast use {JsonView::lemma_member_of_none, JsonView::lemma_member_after_push};

        reveal_strlit("id");
        reveal_strlit("type");
        reveal_strlit("role");
        reveal_strlit("content");
        reveal_strlit("model");
        reveal_strlit("stop_reason");
        reveal_strlit("stop_sequence");
        reveal_strlit("usage");
        assert("id"@.len() == 2);
        assert("type"@.len() == 4 && "type"@[0] == 't');
        assert("role"@.len() == 4 && "role"@[0] == 'r');
        assert("content"@.len() == 7);
        assert("model"@.len() == 5 && "model"@[0] == 'm');
        assert("stop_reason"@.len() == 11);
        assert("stop_sequence"@.len() == 13);
        assert("usage"@.len() == 5 && "usage"@[0] == 'u');
        let a = ("id"@, JsonView::Str(self.id));
        let b = ("type"@, JsonView::Str(self.kind));
        let c = ("role"@, JsonView::Str(self.role.name()));
        let d = ("content"@, ContentBlockView::list_to_json(self.content));
        let e = ("model"@, JsonView::Str(self.model));
        assert(seq![a, b, c, d, e] =~= Seq::empty().push(a).push(b).push(c).push(d).push(e));
        self.role.lemma_name_round_trip();
        if self.stop_reason is Some {
            self.stop_reason->Some_0.lemma_name_round_trip();
        }
        ContentBlockView::lemma_list_json_round_trip(self.content);
        self.usage.lemma_json_round_trip();
    }

    /// What an object with the members `id`, `type`, `role`, `content`,
    /// `model` and `usage`, and optionally `stop_reason` and
    /// `stop_sequence`, stands for.
    pub open spec fn from_json(json: JsonView) -> Option<ResponseView> {
        let role = match json.string_member("role"@) {
            Some(name) => Role::named(name),
            None => None,
        };
        let content = match json.member("content"@) {
            Some(JsonView::Array(items)) => ContentBlockView::list_from_json(items),
            _ => None,
        };
        let usage = match json.member("usage"@) {
            Some(usage) => Usage::spec_from_json(usage),
            None => None,
        };
        match (
            json.string_member("id"@),
            json.string_member("type"@),
            role,
            content,
            json.string_member("model"@),
            StopReason::from_optional_json(json.optional_member("stop_reason"@)),
            json.optional_string_member("stop_sequence"@),
            usage,
        ) {
            (
                Some(id),
                Some(kind),
                Some(role),
                Some(content),
                Some(model),
                Some(stop_reason),
                Some(stop_sequence),
                Some(usage),
            ) => Some(
                ResponseView { id, kind, role, content, model, stop_reason, stop_sequence, usage },
            ),
            _ => None,
        }
    }
}

/// What the body of a reply means, given whether the service reported
/// success. After success the body is the JSON form of a response. After
/// failure it is the JSON form of an error body, and the reply means the
/// failure that this body reports. `None` where the body has neither
/// form.
pub open spec fn reply_meaning(success: bool, body: JsonView) -> Option<
    Result<ResponseView, ErrorView>,
> {
    if success {
        match ResponseView::from_json(body) {
            Some(response) => Some(Ok(response)),
            None => None,
        }
    } else {
        match ErrorResponseView::from_json(body) {
            Some(error) => Some(Err(error.to_error())),
            None => None,
        }
    }
}

impl Response {
    /// Reads a reply from the JSON document in its body. A body that has
    /// not the expected form gives the error `SerdeJsonError`.
    pub fn from_reply_json(success: bool, body: &Json) -> (reply: Result<
        Response,
        AnthropicToolError,
    >)
        ensures
            match reply_meaning(success, body@) {
                Some(Ok(response)) => reply matches Ok(made) && made@ == response,
                Some(Err(error)) => reply matches Err(made) && made@ == error,
                None => reply matches Err(made) && made is SerdeJsonError,
            },
    {
        if success {
            match Response::from_json(body) {
                Some(response) => Ok(response),
                None => Err(
                    AnthropicToolError::SerdeJsonError(
                        json_error("the body is not the JSON form of a response"),
                    ),
                ),
            }
        } else {
            match ErrorResponse::from_json(body) {
                Some(error) => Err(error.into_error()),
                None => Err(
                    AnthropicToolError::SerdeJsonError(
                        json_error("the body is not the JSON form of an error"),
                    ),
                ),
            }
        }
    }

    /// Reads a reply from the text of its body. A body that is no JSON, or
    /// has not the expected form, gives the error `SerdeJsonError`.
    pub fn from_reply(success: bool, body: &str) -> (reply: Result<Response, AnthropicToolError>)
        ensures
            match json_of_text(body@) {
                Some(json) => match reply_meaning(success, json) {
                    Some(Ok(response)) => reply matches Ok(made) && made@ == response,
                    Some(Err(error)) => reply matches Err(made) && made@ == error,
                    None => reply matches Err(made) && made is SerdeJsonError,
                },
                None => reply matches Err(made) && made is SerdeJsonError,
            },
    {
        match Json::parse(body) {
            Ok(json) => Response::from_reply_json(success, &json),
            Err(error) => Err(AnthropicToolError::from(error)),
        }
    }

    /// The texts of the text blocks, one after the other.
    pub fn get_text(&self) -> (text: String)
        ensures
            text@ == joined_text(self@.content),
    {
        let ghost blocks = self@.content;
        proof {
            ContentBlock::lemma_models(self.content);
        }
        let mut text = String::new();
        let mut i: usize = 0;
        while i < self.content.len()
            invariant
                i <= self.content.len(),
                blocks == self.content.deep_view(),
                blocks.len() == self.content.len(),
                forall|j: int| 0 <= j < blocks.len() ==> #[trigger] blocks[j] == self.content[j]@,
                text@ == joined_text(blocks.take(i as int)),
            decreases self.content.len() - i,
        {
            proof {
                assert(blocks.take(i + 1).drop_last() =~= blocks.take(i as int));
                assert(blocks.take(i + 1).last() == self.content[i as int]@);
            }
            match &self.content[i] {
                ContentBlock::Text { text: piece, .. } => {
                    text.append(piece.as_str());
                },
                _ => {
                    assert(text@ + Seq::<char>::empty() =~= text@);
                },
            }
            i += 1;
        }
        assert(blocks.take(i as int) =~= blocks);
        text
    }

    /// The texts of the text blocks, one after the other. Never `None`.
    pub fn text(&self) -> (text: Option<String>)
        ensures
            text.deep_view() == Some(joined_text(self@.content)),
    {
        Some(self.get_text())
    }

    /// Whether one of the blocks asks for a tool to be run.
    pub fn has_tool_use(&self) -> (found: bool)
        ensures
            found == self@.has_tool_use(),
    {
        proof {
            ContentBlock::lemma_models(self.content);
        }
        let mut i: usize = 0;
        while i < self.content.len()
            invariant
                i <= self.content.len(),
                self@.content.len() == self.content.len(),
                forall|j: int|
                    0 <= j < self.content.len() ==> #[trigger] self@.content[j]
                        == self.content[j]@,
                forall|j: int| 0 <= j < i ==> !((#[trigger] self@.content[j]) is ToolUse),
            decreases self.content.len() - i,
        {
            match &self.content[i] {
                ContentBlock::ToolUse { .. } => {
                    assert(self@.content[i as int] is ToolUse);
                    return true;
                },
                _ => {},
            }
            i += 1;
        }
        false
    }

    /// The blocks that ask for a tool to be run, in their order.
    pub fn get_tool_uses(&self) -> (requests: Vec<&ContentBlock>)
        ensures
            requests.deep_view() == self@.content.filter(|block: ContentBlockView| is_tool_use(block)),
    {
        let ghost blocks = self@.content;
        let ghost wanted = |block: ContentBlockView| is_tool_use(block);
        proof {
            ContentBlock::lemma_models(self.content);
        }
        let mut requests: Vec<&ContentBlock> = Vec::new();
        let mut i: usize = 0;
        while i < self.content.len()
            invariant
                i <= self.content.len(),
                blocks == self@.content,
                blocks.len() == self.content.len(),
                wanted == |block: ContentBlockView| is_tool_use(block),
                forall|j: int| 0 <= j < blocks.len() ==> #[trigger] blocks[j] == self.content[j]@,
                requests.deep_view() == blocks.take(i as int).filter(wanted),
            decreases self.content.len() - i,
        {
            let ghost before = requests.deep_view();
            proof {
                assert(blocks.take(i + 1).drop_last() =~= blocks.take(i as int));
                assert(blocks.take(i + 1).last() == self.content[i as int]@);
                reveal(Seq::filter);
            }
            match &self.content[i] {
                ContentBlock::ToolUse { .. } => {
                    requests.push(&self.content[i]);
                    assert(requests.deep_view() =~= before.push(self.content[i as int]@));
                },
                _ => {},
            }
            i += 1;
        }
        assert(blocks.take(i as int) =~= blocks);
        requests
    }

    /// The first block that is the request with the identifier `id`.
    pub fn get_tool_use_by_id(&self, id: &str) -> (request: Option<&ContentBlock>)
        ensures
            match request {
                Some(block) => exists|i: int|
                    #![trigger self@.content[i]]
                    self@.is_request(i, id@) && block@ == self@.content[i] && forall|j: int|
                        0 <= j < i ==> !self@.is_request(j, id@),
                None => forall|i: int| !self@.is_request(i, id@),
            },
    {
        proof {
            ContentBlock::lemma_models(self.content);
        }
        let wanted = id.to_owned();
        let mut i: usize = 0;
        while i < self.content.len()
            invariant
                i <= self.content.len(),
                wanted@ == id@,
                self@.content.len() == self.content.len(),
                forall|j: int|
                    0 <= j < self.content.len() ==> #[trigger] self@.content[j]
                        == self.content[j]@,
                forall|j: int| 0 <= j < i ==> !self@.is_request(j, id@),
            decreases self.content.len() - i,
        {
            match &self.content[i] {
                ContentBlock::ToolUse { id: found, .. } => {
                    if *found == wanted {
                        assert(self@.is_request(i as int, id@));
                        return Some(&self.content[i]);
                    }
                },
                _ => {},
            }
            i += 1;
        }
        None
    }

    /// Whether one of the blocks holds reasoning.
    pub fn has_thinking(&self) -> (found: bool)
        ensures
            found == self@.has_thinking(),
    {
        proof {
            ContentBlock::lemma_models(self.content);
        }
        let mut i: usize = 0;
        while i < self.content.len()
            invariant
                i <= self.content.len(),
                self@.content.len() == self.content.len(),
                forall|j: int|
                    0 <= j < self.content.len() ==> #[trigger] self@.content[j]
                        == self.content[j]@,
                forall|j: int| 0 <= j < i ==> !((#[trigger] self@.content[j]) is Thinking),
            decreases self.content.len() - i,
        {
            match &self.content[i] {
                ContentBlock::Thinking { .. } => {
                    assert(self@.content[i as int] is Thinking);
                    return true;
                },
                _ => {},
            }
            i += 1;
        }
        false
    }

    /// The texts of the thinking blocks, one after the other. Never `None`.
    pub fn get_thinking(&self) -> (thinking: Option<String>)
        ensures
            thinking.deep_view() == Some(joined_thinking(self@.content)),
    {
        let ghost blocks = self@.content;
        proof {
            ContentBlock::lemma_models(self.content);
        }
        let mut text = String::new();
        let mut i: usize = 0;
        while i < self.content.len()
            invariant
                i <= self.content.len(),
                blocks == self.content.deep_view(),
                blocks.len() == self.content.len(),
                forall|j: int| 0 <= j < blocks.len() ==> #[trigger] blocks[j] == self.content[j]@,
                text@ == joined_thinking(blocks.take(i as int)),
            decreases self.content.len() - i,
        {
            proof {
                assert(blocks.take(i + 1).drop_last() =~= blocks.take(i as int));
                assert(blocks.take(i + 1).last() == self.content[i as int]@);
            }
            match &self.content[i] {
                ContentBlock::Thinking { thinking: piece, .. } => {
                    text.append(piece.as_str());
                },
                _ => {
                    assert(text@ + Seq::<char>::empty() =~= text@);
                },
            }
            i += 1;
        }
        assert(blocks.take(i as int) =~= blocks);
        Some(text)
    }

    /// Whether the model stopped because it wants a tool to be run.
    pub fn stopped_for_tool_use(&self) -> (yes: bool)
        ensures
            yes == (self.stop_reason == Some(StopReason::ToolUse)),
    {
        match self.stop_reason {
            Some(StopReason::ToolUse) => true,
            _ => false,
        }
    }

    /// Whether the model stopped because the answer was complete.
    pub fn stopped_naturally(&self) -> (yes: bool)
        ensures
            yes == (self.stop_reason == Some(StopReason::EndTurn)),
    {
        match self.stop_reason {
            Some(StopReason::EndTurn) => true,
            _ => false,
        }
    }

    /// Whether the model stopped because the token limit was reached.
    pub fn hit_max_tokens(&self) -> (yes: bool)
        ensures
            yes == (self.stop_reason == Some(StopReason::MaxTokens)),
    {
        match self.stop_reason {
            Some(StopReason::MaxTokens) => true,
            _ => false,
        }
    }

    /// The JSON form of the response.
    pub fn to_json(&self) -> (json: Json)
        ensures
            json@ == self@.to_json(),
    {
        let mut members: Vec<(String, Json)> = Vec::new();
        put(&mut members, "id", Json::string(self.id.as_str()));
        put(&mut members, "type", Json::string(self.kind.as_str()));
        put(&mut members, "role", Json::string(self.role.as_str()));
        put(&mut members, "content", ContentBlock::list_to_json(&self.content));
        put(&mut members, "model", Json::string(self.model.as_str()));
        assert(members_view(members) =~= seq![
            ("id"@, JsonView::Str(self.id@)),
            ("type"@, JsonView::Str(self.kind@)),
            ("role"@, JsonView::Str(self.role.name())),
            ("content"@, ContentBlockView::list_to_json(self.content.deep_view())),
            ("model"@, JsonView::Str(self.model@)),
        ]);
        let stop_reason = match &self.stop_reason {
            Some(reason) => Some(reason.to_json()),
            None => None,
        };
        put_optional(&mut members, "stop_reason", stop_reason);
        put_optional(&mut members, "stop_sequence", Json::optional_string(&self.stop_sequence));
        put(&mut members, "usage", self.usage.to_json());
        Json::object(members)
    }

    /// Reads an answer from its JSON form.
    pub fn from_json(json: &Json) -> (response: Option<Response>)
        ensures
            response.deep_view() == ResponseView::from_json(json@),
    {
        let role = match json.string_member("role") {
            Some(name) => Role::from_name(name.as_str()),
            None => None,
        };
        let content = match json.member("content") {
            Some(member) => match member.as_array() {
                Some(items) => ContentBlock::list_from_json(items),
                None => None,
            },
            None => None,
        };
        let usage = match json.member("usage") {
            Some(usage) => Usage::from_json(usage),
            None => None,
        };
        let stop_reason = match json.optional_member("stop_reason") {
            Some(member) => match member.as_str() {
                Some(name) => match StopReason::from_name(name) {
                    Some(reason) => Some(Some(reason)),
                    None => None,
                },
                None => None,
            },
            None => Some(None),
        };
        let id = json.string_member("id");
        let kind = json.string_member("type");
        let model = json.string_member("model");
        let stop_sequence = json.optional_string_member("stop_sequence");
        match (id, kind, role, content, model, stop_reason, stop_sequence, usage) {
            (
                Some(id),
                Some(kind),
                Some(role),
                Some(content),
                Some(model),
                Some(stop_reason),
                Some(stop_sequence),
                Some(usage),
            ) => Some(Response { id, kind, role, content, model, stop_reason, stop_sequence, usage }),
            _ => None,
        }
    }
}

} // verus!
