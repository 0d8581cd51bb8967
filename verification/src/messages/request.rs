//! Requests to the Messages API: the parts of a request, and the builder
//! that puts them together.

pub mod body;
pub mod content;
pub mod mcp;
pub mod message;
pub mod picture;
pub mod role;

use crate::common::errors::{AnthropicToolError, ErrorView};
use crate::common::json::Json;
use crate::messages::request::body::{Body, BodyView, Metadata, MetadataView, Sample, ToolChoice};
use crate::messages::request::content::{ContentBlockView, SourceView};
use crate::messages::request::message::{
    Message, MessageView, SystemBlockView, SystemPrompt, SystemPromptView,
};
use crate::messages::request::role::Role;
use vstd::prelude::*;

verus! {

/// A request in the making: the API key and the body.
#[derive(Debug, Clone)]
pub struct Messages {
    api_key: String,
    request_body: Body,
}

/// The mathematical form of a [`Messages`] builder.
pub struct MessagesView {
    pub api_key: Seq<char>,
    pub request_body: BodyView,
}

impl View for Messages {
    type V = MessagesView;

    closed spec fn view(&self) -> MessagesView {
        MessagesView { api_key: self.api_key@, request_body: self.request_body@ }
    }
}

impl MessagesView {
    /// This builder with `body` in place of its body.
    pub open spec fn with_body(self, body: BodyView) -> MessagesView {
        MessagesView { request_body: body, ..self }
    }

    /// This builder with `message` added at the end of the conversation.
    pub open spec fn with_message(self, message: MessageView) -> MessagesView {
        self.with_body(
            BodyView { messages: self.request_body.messages.push(message), ..self.request_body },
        )
    }

    /// Why the request cannot be sent, as the error that reports it; `None`
    /// where it can. A request needs an API key, and its body must break no
    /// rule.
    pub open spec fn obstacle(self) -> Option<ErrorView> {
        if self.api_key.len() == 0 {
            Some(ErrorView::ApiKeyNotSet)
        } else {
            self.request_body.broken_rule()
        }
    }
}

impl Messages {
    /// A builder that holds `api_key` and the body that `Body::default`
    /// gives.
    pub fn with_api_key(api_key: &str) -> (client: Self)
        ensures
            client@ == (MessagesView {
                api_key: api_key@,
                request_body: BodyView::bare(Seq::empty(), 1024),
            }),
    {
        Messages { api_key: api_key.to_owned(), request_body: Body::default() }
    }

    /// Names the model that is to answer.
    pub fn model(&mut self, model: &str) -> (this: &mut Self)
        ensures
            this@ == old(self)@.with_body(
                BodyView { model: model@, ..old(self)@.request_body },
            ),
            *final(self) == *final(this),
    {
        self.request_body.model = model.to_owned();
        self
    }

    /// Sets the most tokens that the answer may have.
    pub fn max_tokens(&mut self, max_tokens: usize) -> (this: &mut Self)
        ensures
            this@ == old(self)@.with_body(BodyView { max_tokens, ..old(self)@.request_body }),
            *final(self) == *final(this),
    {
        self.request_body.max_tokens = max_tokens;
        self
    }

    /// Sets the system prompt to the plain text `system`.
    pub fn system(&mut self, system: &str) -> (this: &mut Self)
        ensures
            this@ == old(self)@.with_body(
                BodyView {
                    system: Some(SystemPromptView::Text(system@)),
                    ..old(self)@.request_body
                },
            ),
            *final(self) == *final(this),
    {
        self.request_body.system = Some(SystemPrompt::text(system));
        self
    }

    /// Sets the system prompt to one block of text that may be cached.
    pub fn system_with_cache(&mut self, system: &str) -> (this: &mut Self)
        ensures
            this@ == old(self)@.with_body(
                BodyView {
                    system: Some(SystemPromptView::Blocks(seq![SystemBlockView::cached(system@)])),
                    ..old(self)@.request_body
                },
            ),
            *final(self) == *final(this),
    {
        self.request_body.system = Some(SystemPrompt::with_cache(system));
        self
    }

    /// Puts `messages` in place of the conversation.
    pub fn messages(&mut self, messages: Vec<Message>) -> (this: &mut Self)
        ensures
            this@ == old(self)@.with_body(
                BodyView { messages: messages.deep_view(), ..old(self)@.request_body },
            ),
            *final(self) == *final(this),
    {
        self.request_body.messages = messages;
        self
    }

    /// Adds `message` at the end of the conversation.
    pub fn add_message(&mut self, message: Message) -> (this: &mut Self)
        ensures
            this@ == old(self)@.with_message(message@),
            *final(self) == *final(this),
    {
        self.request_body.messages.push(message);
        assert(self.request_body.messages.deep_view() =~= old(
            self,
        ).request_body.messages.deep_view().push(message@));
        self
    }

    /// Adds a message in which the user says `text`.
    pub fn user(&mut self, text: &str) -> (this: &mut Self)
        ensures
            this@ == old(self)@.with_message(
                MessageView { role: Role::User, content: seq![ContentBlockView::text(text@)] },
            ),
            *final(self) == *final(this),
    {
        self.add_message(Message::user(text))
    }

    /// Adds a message in which the assistant says `text`.
    pub fn assistant(&mut self, text: &str) -> (this: &mut Self)
        ensures
            this@ == old(self)@.with_message(
                MessageView {
                    role: Role::Assistant,
                    content: seq![ContentBlockView::text(text@)],
                },
            ),
            *final(self) == *final(this),
    {
        self.add_message(Message::assistant(text))
    }

    /// Adds a message in which the user shows the image at `image_url` and
    /// says `text`.
    pub fn user_with_image_url(&mut self, text: &str, image_url: &str) -> (this: &mut Self)
        ensures
            this@ == old(self)@.with_message(
                MessageView {
                    role: Role::User,
                    content: seq![
                        ContentBlockView::Image {
                            source: SourceView::at_url(image_url@),
                            cache_control: None,
                        },
                        ContentBlockView::text(text@),
                    ],
                },
            ),
            *final(self) == *final(this),
    {
        self.add_message(Message::user_with_image_url(text, image_url))
    }

    /// Adds a message in which the user hands back what a tool returned.
    pub fn tool_result(&mut self, tool_use_id: &str, result_text: &str) -> (this: &mut Self)
        ensures
            this@ == old(self)@.with_message(
                MessageView {
                    role: Role::User,
                    content: seq![
                        ContentBlockView::ToolResult {
                            tool_use_id: tool_use_id@,
                            content: Some(seq![ContentBlockView::text(result_text@)]),
                            is_error: None,
                        },
                    ],
                },
            ),
            *final(self) == *final(this),
    {
        self.add_message(Message::tool_result(tool_use_id, result_text))
    }

    /// Adds a message in which the user reports that a tool failed.
    pub fn tool_error(&mut self, tool_use_id: &str, error_message: &str) -> (this: &mut Self)
        ensures
            this@ == old(self)@.with_message(
                MessageView {
                    role: Role::User,
                    content: seq![
                        ContentBlockView::ToolResult {
                            tool_use_id: tool_use_id@,
                            content: Some(seq![ContentBlockView::text(error_message@)]),
                            is_error: Some(true),
                        },
                    ],
                },
            ),
            *final(self) == *final(this),
    {
        self.add_message(Message::tool_error(tool_use_id, error_message))
    }

    /// Sets the sampling temperature.
    pub fn temperature(&mut self, temperature: Sample) -> (this: &mut Self)
        ensures
            this@ == old(self)@.with_body(
                BodyView { temperature: Some(temperature@), ..old(self)@.request_body },
            ),
            *final(self) == *final(this),
    {
        self.request_body.temperature = Some(temperature);
        self
    }

    /// Sets the nucleus sampling threshold.
    pub fn top_p(&mut self, top_p: Sample) -> (this: &mut Self)
        ensures
            this@ == old(self)@.with_body(
                BodyView { top_p: Some(top_p@), ..old(self)@.request_body },
            ),
            *final(self) == *final(this),
    {
        self.request_body.top_p = Some(top_p);
        self
    }

    /// Sets the number of candidates to sample from.
    pub fn top_k(&mut self, top_k: u32) -> (this: &mut Self)
        ensures
            this@ == old(self)@.with_body(
                BodyView { top_k: Some(top_k), ..old(self)@.request_body },
            ),
            *final(self) == *final(this),
    {
        self.request_body.top_k = Some(top_k);
        self
    }

    /// Sets the texts at which the model is to stop.
    pub fn stop_sequences(&mut self, sequences: Vec<String>) -> (this: &mut Self)
        ensures
            this@ == old(self)@.with_body(
                BodyView {
                    stop_sequences: Some(sequences.deep_view()),
                    ..old(self)@.request_body
                },
            ),
            *final(self) == *final(this),
    {
        self.request_body.stop_sequences = Some(sequences);
        self
    }

    /// Sets the tools that the model may use, each in its JSON form.
    pub fn tools(&mut self, tools: Vec<Json>) -> (this: &mut Self)
        ensures
            this@ == old(self)@.with_body(
                BodyView { tools: Some(tools.deep_view()), ..old(self)@.request_body },
            ),
            *final(self) == *final(this),
    {
        self.request_body.tools = Some(tools);
        self
    }

    /// Sets how the model is to choose among the tools.
    pub fn tool_choice(&mut self, choice: ToolChoice) -> (this: &mut Self)
        ensures
            this@ == old(self)@.with_body(
                BodyView { tool_choice: Some(choice@), ..old(self)@.request_body },
            ),
            *final(self) == *final(this),
    {
        self.request_body.tool_choice = Some(choice);
        self
    }

    /// Names the end user in the metadata of the request.
    pub fn user_id(&mut self, user_id: &str) -> (this: &mut Self)
        ensures
            this@ == old(self)@.with_body(
                BodyView {
                    metadata: Some(MetadataView { user_id: Some(user_id@) }),
                    ..old(self)@.request_body
                },
            ),
            *final(self) == *final(this),
    {
        self.request_body.metadata = Some(Metadata { user_id: Some(user_id.to_owned()) });
        self
    }

    /// Says whether the answer is to come as a stream of events.
    pub fn stream(&mut self, enabled: bool) -> (this: &mut Self)
        ensures
            this@ == old(self)@.with_body(
                BodyView { stream: Some(enabled), ..old(self)@.request_body },
            ),
            *final(self) == *final(this),
    {
        self.request_body.stream = Some(enabled);
        self
    }

    /// Names the container in which code is to run.
    pub fn container(&mut self, container: &str) -> (this: &mut Self)
        ensures
            this@ == old(self)@.with_body(
                BodyView { container: Some(container@), ..old(self)@.request_body },
            ),
            *final(self) == *final(this),
    {
        self.request_body.container = Some(container.to_owned());
        self
    }

    /// The body of the request as it stands.
    pub fn body(&self) -> (body: &Body)
        ensures
            body@ == self@.request_body,
    {
        &self.request_body
    }

    /// The API key that the request is sent with.
    pub fn api_key(&self) -> (key: &str)
        ensures
            key@ == self@.api_key,
    {
        self.api_key.as_str()
    }

    /// Says whether the request can be sent, and if not, why: the API key
    /// is missing, or the body breaks a rule.
    pub fn ready(&self) -> (checked: Result<(), AnthropicToolError>)
        ensures
            match checked {
                Ok(_) => self@.obstacle() is None,
                Err(error) => self@.obstacle() == Some(error@),
            },
    {
        if self.api_key.as_str().is_empty() {
            return Err(AnthropicToolError::ApiKeyNotSet);
        }
        self.request_body.validate()
    }
}

} // verus!
