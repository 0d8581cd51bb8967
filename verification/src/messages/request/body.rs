//! The body of a request and the rules that it must meet.

use crate::common::errors::{AnthropicToolError, ErrorView};
use crate::common::json::{
    members_view, put, put_optional, string_array, with_optional_member, Json, JsonView,
};
use crate::messages::request::mcp::{McpServer, McpServerView};
use crate::messages::request::message::{Message, MessageView, SystemPrompt, SystemPromptView};
use vstd::prelude::*;

verus! {

/// A sampling parameter: a single-precision number as the library holds
/// it, by the bits of its IEEE 754 encoding, by which it is compared, and
/// by its decimal text, by which it is printed. The library computes with
/// neither; whoever makes the value sees to it that the two agree.
#[derive(Debug, Clone, PartialEq, Eq)]
pub struct Sample {
    /// Sign, exponent and fraction, as `to_bits` gives them.
    pub bits: u32,
    /// The number in decimal notation, as a JSON document shows it.
    pub text: String,
}

/// The mathematical form of a [`Sample`].
pub struct SampleView {
    pub bits: u32,
    pub text: Seq<char>,
}

impl View for Sample {
    type V = SampleView;

    open spec fn view(&self) -> SampleView {
        SampleView { bits: self.bits, text: self.text@ }
    }
}

impl DeepView for Sample {
    type V = SampleView;

    open spec fn deep_view(&self) -> SampleView {
        self@
    }
}

impl SampleView {
    /// Whether the number lies between 0 and 1, both included. The
    /// encodings from `+0` up to `1` are the bit patterns up to
    /// `0x3F80_0000`; `-0`, which equals `+0`, is `0x8000_0000`. Every other
    /// pattern is a number above 1, a number below 0, an infinity or no
    /// number at all.
    pub open spec fn in_unit_interval(self) -> bool {
        self.bits <= 0x3F80_0000 || self.bits == 0x8000_0000
    }

    /// The JSON form of a number that may be absent: its decimal text as
    /// a JSON number.
    pub open spec fn optional_to_json(number: Option<SampleView>) -> Option<JsonView> {
        match number {
            Some(number) => Some(JsonView::Real(number.text)),
            None => None,
        }
    }
}

impl Sample {
    /// The number with the encoding `bits` and the decimal text `text`.
    pub fn new(bits: u32, text: &str) -> (number: Self)
        ensures
            number@ == (SampleView { bits, text: text@ }),
    {
        Sample { bits, text: text.to_owned() }
    }

    /// The encoding of the number.
    pub fn to_bits(&self) -> (bits: u32)
        ensures
            bits == self.bits,
    {
        self.bits
    }

    /// Whether the number lies between 0 and 1, both included.
    pub fn is_in_unit_interval(&self) -> (inside: bool)
        ensures
            inside == self@.in_unit_interval(),
    {
        self.bits <= 0x3F80_0000 || self.bits == 0x8000_0000
    }

    /// The JSON form of a number that may be absent.
    pub fn optional_to_json(number: &Option<Sample>) -> (json: Option<Json>)
        ensures
            json.deep_view() == SampleView::optional_to_json(number.deep_view()),
    {
        match number {
            Some(number) => Some(Json::Real(number.text.clone())),
            None => None,
        }
    }
}

/// How the model is to choose among the tools.
#[derive(Debug, Clone)]
pub enum ToolChoice {
    /// The model decides whether to use a tool.
    Auto,
    /// The model must use the tool `name`.
    Tool { name: String },
    /// The model must use some tool.
    Any,
    /// The model must not use a tool.
    Disabled,
}

/// The mathematical form of a [`ToolChoice`].
pub enum ToolChoiceView {
    Auto,
    Tool { name: Seq<char> },
    Any,
    Disabled,
}

impl View for ToolChoice {
    type V = ToolChoiceView;

    open spec fn view(&self) -> ToolChoiceView {
        match self {
            ToolChoice::Auto => ToolChoiceView::Auto,
            ToolChoice::Tool { name } => ToolChoiceView::Tool { name: name@ },
            ToolChoice::Any => ToolChoiceView::Any,
            ToolChoice::Disabled => ToolChoiceView::Disabled,
        }
    }
}

impl ToolChoiceView {
    /// The JSON form: an object whose member `type` names the variant, and
    /// for the choice of one tool its `name`.
    pub open spec fn to_json(self) -> JsonView {
        match self {
            ToolChoiceView::Auto => JsonView::Object(seq![("type"@, JsonView::Str("auto"@))]),
            ToolChoiceView::Tool { name } => JsonView::Object(
                seq![("type"@, JsonView::Str("tool"@)), ("name"@, JsonView::Str(name))],
            ),
            ToolChoiceView::Any => JsonView::Object(seq![("type"@, JsonView::Str("any"@))]),
            ToolChoiceView::Disabled => JsonView::Object(seq![("type"@, JsonView::Str("none"@))]),
        }
    }
}

impl ToolChoice {
    /// The JSON form of the choice.
    pub fn to_json(&self) -> (json: Json)
        ensures
            json@ == self@.to_json(),
    {
        let mut members: Vec<(String, Json)> = Vec::new();
        match self {
            ToolChoice::Auto => {
                put(&mut members, "type", Json::string("auto"));
            },
            ToolChoice::Tool { name } => {
                put(&mut members, "type", Json::string("tool"));
                put(&mut members, "name", Json::string(name.as_str()));
            },
            ToolChoice::Any => {
                put(&mut members, "type", Json::string("any"));
            },
            ToolChoice::Disabled => {
                put(&mut members, "type", Json::string("none"));
            },
        }
        assert(members_view(members) =~= self@.to_json()->Object_0);
        Json::object(members)
    }
}

impl DeepView for ToolChoice {
    type V = ToolChoiceView;

    open spec fn deep_view(&self) -> ToolChoiceView {
        self@
    }
}

/// What a request says of its sender.
#[derive(Debug, Clone)]
pub struct Metadata {
    /// An identifier of the end user.
    pub user_id: Option<String>,
}

/// The mathematical form of a [`Metadata`].
pub struct MetadataView {
    pub user_id: Option<Seq<char>>,
}

impl View for Metadata {
    type V = MetadataView;

    open spec fn view(&self) -> MetadataView {
        MetadataView { user_id: self.user_id.deep_view() }
    }
}

impl DeepView for Metadata {
    type V = MetadataView;

    open spec fn deep_view(&self) -> MetadataView {
        self@
    }
}

impl MetadataView {
    /// The JSON form: an object with the member `user_id` where it is
    /// given.
    pub open spec fn to_json(self) -> JsonView {
        JsonView::Object(
            with_optional_member(
                Seq::empty(),
                "user_id"@,
                match self.user_id {
                    Some(id) => Some(JsonView::Str(id)),
                    None => None,
                },
            ),
        )
    }
}

impl Metadata {
    /// The JSON form of the metadata.
    pub fn to_json(&self) -> (json: Json)
        ensures
            json@ == self@.to_json(),
    {
        let mut members: Vec<(String, Json)> = Vec::new();
        assert(members_view(members) =~= Seq::empty());
        put_optional(&mut members, "user_id", Json::optional_string(&self.user_id));
        Json::object(members)
    }
}

impl Default for Metadata {
    fn default() -> (metadata: Self)
        ensures
            metadata@ == (MetadataView { user_id: None }),
    {
        Metadata { user_id: None }
    }
}

/// The body of a request to the Messages API.
#[derive(Debug, Clone)]
pub struct Body {
    /// The model that is to answer.
    pub model: String,
    /// The conversation so far.
    pub messages: Vec<Message>,
    /// The most tokens that the answer may have.
    pub max_tokens: usize,
    /// The system prompt.
    pub system: Option<SystemPrompt>,
    /// The sampling temperature, between 0 and 1.
    pub temperature: Option<Sample>,
    /// The nucleus sampling threshold, between 0 and 1.
    pub top_p: Option<Sample>,
    /// The number of candidates to sample from.
    pub top_k: Option<u32>,
    /// Texts at which the model is to stop.
    pub stop_sequences: Option<Vec<String>>,
    /// Whether the answer is to come as a stream of events.
    pub stream: Option<bool>,
    /// The tools that the model may use, each in its JSON form.
    pub tools: Option<Vec<Json>>,
    /// How the model is to choose among the tools.
    pub tool_choice: Option<ToolChoice>,
    /// What the request says of its sender.
    pub metadata: Option<Metadata>,
    /// The container in which code is to run.
    pub container: Option<String>,
    /// Servers that offer tools.
    pub mcp_servers: Option<Vec<McpServer>>,
}

/// The mathematical form of a [`Body`].
pub struct BodyView {
    pub model: Seq<char>,
    pub messages: Seq<MessageView>,
    pub max_tokens: usize,
    pub system: Option<SystemPromptView>,
    pub temperature: Option<SampleView>,
    pub top_p: Option<SampleView>,
    pub top_k: Option<u32>,
    pub stop_sequences: Option<Seq<Seq<char>>>,
    pub stream: Option<bool>,
    pub tools: Option<Seq<JsonView>>,
    pub tool_choice: Option<ToolChoiceView>,
    pub metadata: Option<MetadataView>,
    pub container: Option<Seq<char>>,
    pub mcp_servers: Option<Seq<McpServerView>>,
}

impl View for Body {
    type V = BodyView;

    open spec fn view(&self) -> BodyView {
        BodyView {
            model: self.model@,
            messages: self.messages.deep_view(),
            max_tokens: self.max_tokens,
            system: self.system.deep_view(),
            temperature: self.temperature.deep_view(),
            top_p: self.top_p.deep_view(),
            top_k: self.top_k,
            stop_sequences: self.stop_sequences.deep_view(),
            stream: self.stream,
            tools: self.tools.deep_view(),
            tool_choice: self.tool_choice.deep_view(),
            metadata: self.metadata.deep_view(),
            container: self.container.deep_view(),
            mcp_servers: self.mcp_servers.deep_view(),
        }
    }
}

impl DeepView for Body {
    type V = BodyView;

    open spec fn deep_view(&self) -> BodyView {
        self@
    }
}

impl BodyView {
    /// A body for `model` that allows `max_tokens` tokens and holds nothing
    /// else.
    pub open spec fn bare(model: Seq<char>, max_tokens: usize) -> BodyView {
        BodyView {
            model,
            messages: Seq::empty(),
            max_tokens,
            system: None,
            temperature: None,
            top_p: None,
            top_k: None,
            stop_sequences: None,
            stream: None,
            tools: None,
            tool_choice: None,
            metadata: None,
            container: None,
            mcp_servers: None,
        }
    }

    /// The JSON form: an object with the members `model`, `messages` and
    /// `max_tokens` and then, each where it is given, `system`,
    /// `temperature`, `top_p`, `top_k`, `stop_sequences`, `stream`, `tools`,
    /// `tool_choice`, `metadata`, `container` and `mcp_servers`.
    pub open spec fn to_json(self) -> JsonView {
        let members = seq![
            ("model"@, JsonView::Str(self.model)),
            ("messages"@, MessageView::list_to_json(self.messages)),
            ("max_tokens"@, JsonView::Unsigned(self.max_tokens as u64)),
        ];
        let members = with_optional_member(
            members,
            "system"@,
            match self.system {
                Some(system) => Some(system.to_json()),
                None => None,
            },
        );
        let members = with_optional_member(
            members,
            "temperature"@,
            SampleView::optional_to_json(self.temperature),
        );
        let members = with_optional_member(members, "top_p"@, SampleView::optional_to_json(self.top_p));
        let members = with_optional_member(
            members,
            "top_k"@,
            match self.top_k {
                Some(k) => Some(JsonView::Unsigned(k as u64)),
                None => None,
            },
        );
        let members = with_optional_member(
            members,
            "stop_sequences"@,
            match self.stop_sequences {
                Some(sequences) => Some(string_array(sequences)),
                None => None,
            },
        );
        let members = with_optional_member(
            members,
            "stream"@,
            match self.stream {
                Some(enabled) => Some(JsonView::Bool(enabled)),
                None => None,
            },
        );
        let members = with_optional_member(
            members,
            "tools"@,
            match self.tools {
                Some(tools) => Some(JsonView::Array(tools)),
                None => None,
            },
        );
        let members = with_optional_member(
            members,
            "tool_choice"@,
            match self.tool_choice {
                Some(choice) => Some(choice.to_json()),
                None => None,
            },
        );
        let members = with_optional_member(
            members,
            "metadata"@,
            match self.metadata {
                Some(metadata) => Some(metadata.to_json()),
                None => None,
            },
        );
        let members = with_optional_member(
            members,
            "container"@,
            match self.container {
                Some(container) => Some(JsonView::Str(container)),
                None => None,
            },
        );
        let members = with_optional_member(
            members,
            "mcp_servers"@,
            match self.mcp_servers {
                Some(servers) => Some(McpServerView::list_to_json(servers)),
                None => None,
            },
        );
        JsonView::Object(members)
    }

    /// The first rule that the body breaks, as the error that reports it;
    /// `None` where it breaks none. The rules, in the order in which they
    /// are tried: the model is named; there is a message; `max_tokens` is
    /// not zero; the temperature, if given, lies between 0 and 1; `top_p`,
    /// if given, lies between 0 and 1.
    pub open spec fn broken_rule(self) -> Option<ErrorView> {
        if self.model.len() == 0 {
            Some(ErrorView::MissingRequiredField("model"@))
        } else if self.messages.len() == 0 {
            Some(ErrorView::MissingRequiredField("messages"@))
        } else if self.max_tokens == 0 {
            Some(ErrorView::InvalidParameter("max_tokens must be greater than 0"@))
        } else if self.temperature matches Some(temperature) && !temperature.in_unit_interval() {
            Some(ErrorView::InvalidParameter("temperature must be between 0.0 and 1.0"@))
        } else if self.top_p matches Some(top_p) && !top_p.in_unit_interval() {
            Some(ErrorView::InvalidParameter("top_p must be between 0.0 and 1.0"@))
        } else {
            None
        }
    }
}

impl Default for Body {
    fn default() -> (body: Self)
        ensures
            body@ == BodyView::bare(Seq::empty(), 1024),
    {
        let body = Body {
            model: String::new(),
            messages: Vec::new(),
            max_tokens: 1024,
            system: None,
            temperature: None,
            top_p: None,
            top_k: None,
            stop_sequences: None,
            stream: None,
            tools: None,
            tool_choice: None,
            metadata: None,
            container: None,
            mcp_servers: None,
        };
        assert(body@.messages =~= Seq::empty());
        body
    }
}

impl Body {
    /// A body for `model` that allows `max_tokens` tokens and holds nothing
    /// else.
    pub fn new(model: &str, max_tokens: usize) -> (body: Self)
        ensures
            body@ == BodyView::bare(model@, max_tokens),
    {
        let body = Body {
            model: model.to_owned(),
            messages: Vec::new(),
            max_tokens,
            system: None,
            temperature: None,
            top_p: None,
            top_k: None,
            stop_sequences: None,
            stream: None,
            tools: None,
            tool_choice: None,
            metadata: None,
            container: None,
            mcp_servers: None,
        };
        assert(body@.messages =~= Seq::empty());
        body
    }

    /// The JSON form of the body, as a request carries it.
    pub fn to_json(&self) -> (json: Json)
        ensures
            json@ == self@.to_json(),
    {
        let mut members: Vec<(String, Json)> = Vec::new();
        put(&mut members, "model", Json::string(self.model.as_str()));
        put(&mut members, "messages", Message::list_to_json(&self.messages));
        put(&mut members, "max_tokens", Json::number(self.max_tokens));
        assert(members_view(members) =~= seq![
            ("model"@, JsonView::Str(self.model@)),
            ("messages"@, MessageView::list_to_json(self.messages.deep_view())),
            ("max_tokens"@, JsonView::Unsigned(self.max_tokens as u64)),
        ]);
        let system = match &self.system {
            Some(system) => Some(system.to_json()),
            None => None,
        };
        put_optional(&mut members, "system", system);
        put_optional(&mut members, "temperature", Sample::optional_to_json(&self.temperature));
        put_optional(&mut members, "top_p", Sample::optional_to_json(&self.top_p));
        let top_k = match self.top_k {
            Some(k) => Some(Json::Unsigned(k as u64)),
            None => None,
        };
        put_optional(&mut members, "top_k", top_k);
        let stop_sequences = match &self.stop_sequences {
            Some(sequences) => Some(Json::string_array(sequences)),
            None => None,
        };
        put_optional(&mut members, "stop_sequences", stop_sequences);
        let stream = match self.stream {
            Some(enabled) => Some(Json::Bool(enabled)),
            None => None,
        };
        put_optional(&mut members, "stream", stream);
        let tools = match &self.tools {
            Some(tools) => Some(Json::array(tools.clone())),
            None => None,
        };
        put_optional(&mut members, "tools", tools);
        let tool_choice = match &self.tool_choice {
            Some(choice) => Some(choice.to_json()),
            None => None,
        };
        put_optional(&mut members, "tool_choice", tool_choice);
        let metadata = match &self.metadata {
            Some(metadata) => Some(metadata.to_json()),
            None => None,
        };
        put_optional(&mut members, "metadata", metadata);
        put_optional(&mut members, "container", Json::optional_string(&self.container));
        let mcp_servers = match &self.mcp_servers {
            Some(servers) => Some(McpServer::list_to_json(servers)),
            None => None,
        };
        put_optional(&mut members, "mcp_servers", mcp_servers);
        Json::object(members)
    }

    /// Checks the body against the rules of the service and reports the
    /// first one that it breaks.
    pub fn validate(&self) -> (checked: Result<(), AnthropicToolError>)
        ensures
            match checked {
                Ok(_) => self@.broken_rule() is None,
                Err(error) => self@.broken_rule() == Some(error@),
            },
    {
        if self.model.as_str().is_empty() {
            return Err(AnthropicToolError::MissingRequiredField("model".to_owned()));
        }
        if self.messages.len() == 0 {
            return Err(AnthropicToolError::MissingRequiredField("messages".to_owned()));
        }
        if self.max_tokens == 0 {
            return Err(
                AnthropicToolError::InvalidParameter("max_tokens must be greater than 0".to_owned()),
            );
        }
        match &self.temperature {
            Some(temperature) => {
                if !temperature.is_in_unit_interval() {
                    return Err(
                        AnthropicToolError::InvalidParameter(
                            "temperature must be between 0.0 and 1.0".to_owned(),
                        ),
                    );
                }
            },
            None => {},
        }
        match &self.top_p {
            Some(top_p) => {
                if !top_p.is_in_unit_interval() {
                    return Err(
                        AnthropicToolError::InvalidParameter(
                            "top_p must be between 0.0 and 1.0".to_owned(),
                        ),
                    );
                }
            },
            None => {},
        }
        Ok(())
    }
}

} // verus!
