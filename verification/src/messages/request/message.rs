//! Messages of a conversation and the system prompt.

use crate::common::json::{
    members_view, put, put_optional, with_optional_member, Json, JsonView,
};
use crate::messages::request::content::{
    CacheControl, CacheControlView, ContentBlock, ContentBlockView, SourceView,
};
use crate::messages::request::role::Role;
use vstd::prelude::*;

verus! {

/// One turn of a conversation.
#[derive(Debug)]
pub struct Message {
    /// Who wrote the turn.
    pub role: Role,
    /// What the turn holds.
    pub content: Vec<ContentBlock>,
}

/// The mathematical form of a [`Message`].
pub struct MessageView {
    pub role: Role,
    pub content: Seq<ContentBlockView>,
}

impl View for Message {
    type V = MessageView;

    open spec fn view(&self) -> MessageView {
        MessageView { role: self.role, content: self.content.deep_view() }
    }
}

impl DeepView for Message {
    type V = MessageView;

    open spec fn deep_view(&self) -> MessageView {
        self@
    }
}

impl Clone for Message {
    fn clone(&self) -> (copy: Self)
        ensures
            copy@ == self@,
    {
        let mut content: Vec<ContentBlock> = Vec::new();
        let mut i: usize = 0;
        while i < self.content.len()
            invariant
                i <= self.content.len(),
                content.len() == i,
                forall|j: int| 0 <= j < i ==> (#[trigger] content[j])@ == self.content[j]@,
            decreases self.content.len() - i,
        {
            content.push(self.content[i].clone());
            i += 1;
        }
        proof {
            ContentBlock::lemma_models(content);
            ContentBlock::lemma_models(self.content);
            assert(content.deep_view() =~= self.content.deep_view());
        }
        Message { role: self.role, content }
    }
}

impl MessageView {
    /// The JSON form: an object with the members `role` and `content`.
    pub open spec fn to_json(self) -> JsonView {
        JsonView::Object(
            seq![
                ("role"@, JsonView::Str(self.role.name())),
                ("content"@, ContentBlockView::list_to_json(self.content)),
            ],
        )
    }

    /// The JSON forms of `messages`, as an array.
    pub open spec fn list_to_json(messages: Seq<MessageView>) -> JsonView {
        JsonView::Array(Seq::new(messages.len(), |i: int| messages[i].to_json()))
    }

    /// This message with `block` added at its end.
    pub open spec fn with(self, block: ContentBlockView) -> MessageView {
        MessageView { content: self.content.push(block), ..self }
    }
}

impl Message {
    /// A message by `role` that holds `content`.
    pub fn new(role: Role, content: Vec<ContentBlock>) -> (message: Self)
        ensures
            message@ == (MessageView { role, content: content.deep_view() }),
    {
        Message { role, content }
    }

    /// The JSON form of the message.
    pub fn to_json(&self) -> (json: Json)
        ensures
            json@ == self@.to_json(),
    {
        let mut members: Vec<(String, Json)> = Vec::new();
        put(&mut members, "role", Json::string(self.role.as_str()));
        put(&mut members, "content", ContentBlock::list_to_json(&self.content));
        assert(members_view(members) =~= self@.to_json()->Object_0);
        Json::object(members)
    }

    /// The JSON forms of `messages`, as an array.
    pub fn list_to_json(messages: &Vec<Message>) -> (json: Json)
        ensures
            json@ == MessageView::list_to_json(messages.deep_view()),
    {
        let mut items: Vec<Json> = Vec::new();
        let mut i: usize = 0;
        while i < messages.len()
            invariant
                i <= messages.len(),
                items.len() == i,
                forall|j: int| 0 <= j < i ==> (#[trigger] items[j])@ == messages[j]@.to_json(),
            decreases messages.len() - i,
        {
            items.push(messages[i].to_json());
            i += 1;
        }
        assert(items.deep_view() =~= MessageView::list_to_json(messages.deep_view())->Array_0);
        Json::array(items)
    }

    /// A message by `role` that holds the one block `block`.
    fn single(role: Role, block: ContentBlock) -> (message: Self)
        ensures
            message@ == (MessageView { role, content: seq![block@] }),
    {
        let mut content: Vec<ContentBlock> = Vec::new();
        content.push(block);
        proof {
            ContentBlock::lemma_models(content);
            assert(content.deep_view() =~= seq![block@]);
        }
        Message { role, content }
    }

    /// A message by `role` that holds `first` and then `second`.
    fn pair(role: Role, first: ContentBlock, second: ContentBlock) -> (message: Self)
        ensures
            message@ == (MessageView { role, content: seq![first@, second@] }),
    {
        let mut content: Vec<ContentBlock> = Vec::new();
        content.push(first);
        content.push(second);
        proof {
            ContentBlock::lemma_models(content);
            assert(content.deep_view() =~= seq![first@, second@]);
        }
        Message { role, content }
    }

    /// A message in which the user says `text`.
    pub fn user(text: &str) -> (message: Self)
        ensures
            message@ == (MessageView {
                role: Role::User,
                content: seq![ContentBlockView::text(text@)],
            }),
    {
        Message::single(Role::User, ContentBlock::text(text))
    }

    /// A message in which the assistant says `text`.
    pub fn assistant(text: &str) -> (message: Self)
        ensures
            message@ == (MessageView {
                role: Role::Assistant,
                content: seq![ContentBlockView::text(text@)],
            }),
    {
        Message::single(Role::Assistant, ContentBlock::text(text))
    }

    /// A message in which the user shows the image at `image_url` and says
    /// `text`: the image comes first.
    pub fn user_with_image_url(text: &str, image_url: &str) -> (message: Self)
        ensures
            message@ == (MessageView {
                role: Role::User,
                content: seq![
                    ContentBlockView::Image {
                        source: SourceView::at_url(image_url@),
                        cache_control: None,
                    },
                    ContentBlockView::text(text@),
                ],
            }),
    {
        Message::pair(Role::User, ContentBlock::image_from_url(image_url), ContentBlock::text(text))
    }

    /// A message in which the user hands back what a tool returned.
    pub fn tool_result(tool_use_id: &str, result_text: &str) -> (message: Self)
        ensures
            message@ == (MessageView {
                role: Role::User,
                content: seq![
                    ContentBlockView::ToolResult {
                        tool_use_id: tool_use_id@,
                        content: Some(seq![ContentBlockView::text(result_text@)]),
                        is_error: None,
                    },
                ],
            }),
    {
        Message::single(Role::User, ContentBlock::tool_result_text(tool_use_id, result_text))
    }

    /// A message in which the user reports that a tool failed.
    pub fn tool_error(tool_use_id: &str, error_message: &str) -> (message: Self)
        ensures
            message@ == (MessageView {
                role: Role::User,
                content: seq![
                    ContentBlockView::ToolResult {
                        tool_use_id: tool_use_id@,
                        content: Some(seq![ContentBlockView::text(error_message@)]),
                        is_error: Some(true),
                    },
                ],
            }),
    {
        Message::single(Role::User, ContentBlock::tool_result_error(tool_use_id, error_message))
    }

    /// Adds `block` at the end of the message.
    pub fn add_content(&mut self, block: ContentBlock) -> (this: &mut Self)
        ensures
            this@ == old(self)@.with(block@),
            *final(self) == *final(this),
    {
        proof {
            ContentBlock::lemma_models(self.content);
        }
        self.content.push(block);
        proof {
            ContentBlock::lemma_models(self.content);
            assert(self.content.deep_view() =~= old(self).content.deep_view().push(block@));
        }
        self
    }

    /// Adds `text` at the end of the message.
    pub fn add_text(&mut self, text: &str) -> (this: &mut Self)
        ensures
            this@ == old(self)@.with(ContentBlockView::text(text@)),
            *final(self) == *final(this),
    {
        self.add_content(ContentBlock::text(text))
    }

    /// Adds the image at `url` at the end of the message.
    pub fn add_image_from_url(&mut self, url: &str) -> (this: &mut Self)
        ensures
            this@ == old(self)@.with(
                ContentBlockView::Image { source: SourceView::at_url(url@), cache_control: None },
            ),
            *final(self) == *final(this),
    {
        self.add_content(ContentBlock::image_from_url(url))
    }
}

/// One block of a structured system prompt.
#[derive(Debug)]
pub struct SystemBlock {
    /// The kind of block; always `"text"`.
    pub kind: String,
    /// The text of the block.
    pub text: String,
    /// Whether the prompt may be cached up to this block.
    pub cache_control: Option<CacheControl>,
}

/// The mathematical form of a [`SystemBlock`].
pub struct SystemBlockView {
    pub kind: Seq<char>,
    pub text: Seq<char>,
    pub cache_control: Option<CacheControlView>,
}

impl View for SystemBlock {
    type V = SystemBlockView;

    open spec fn view(&self) -> SystemBlockView {
        SystemBlockView {
            kind: self.kind@,
            text: self.text@,
            cache_control: self.cache_control.deep_view(),
        }
    }
}

impl DeepView for SystemBlock {
    type V = SystemBlockView;

    open spec fn deep_view(&self) -> SystemBlockView {
        self@
    }
}

impl Clone for SystemBlock {
    fn clone(&self) -> (copy: Self)
        ensures
            copy@ == self@,
    {
        SystemBlock {
            kind: self.kind.clone(),
            text: self.text.clone(),
            cache_control: self.cache_control.clone(),
        }
    }
}

impl SystemBlockView {
    /// The JSON form: an object with the members `type` and `text` and,
    /// where it is given, `cache_control`.
    pub open spec fn to_json(self) -> JsonView {
        let members = seq![("type"@, JsonView::Str(self.kind)), ("text"@, JsonView::Str(self.text))];
        JsonView::Object(
            with_optional_member(
                members,
                "cache_control"@,
                CacheControlView::optional_to_json(self.cache_control),
            ),
        )
    }

    /// A block of text.
    pub open spec fn text(text: Seq<char>) -> SystemBlockView {
        SystemBlockView { kind: "text"@, text, cache_control: None }
    }

    /// A block of text up to which the prompt may be cached.
    pub open spec fn cached(text: Seq<char>) -> SystemBlockView {
        SystemBlockView {
            kind: "text"@,
            text,
            cache_control: Some(CacheControlView::ephemeral()),
        }
    }
}

impl SystemBlock {
    /// The JSON form of the block.
    pub fn to_json(&self) -> (json: Json)
        ensures
            json@ == self@.to_json(),
    {
        let mut members: Vec<(String, Json)> = Vec::new();
        put(&mut members, "type", Json::string(self.kind.as_str()));
        put(&mut members, "text", Json::string(self.text.as_str()));
        assert(members_view(members) =~= seq![
            ("type"@, JsonView::Str(self.kind@)),
            ("text"@, JsonView::Str(self.text@)),
        ]);
        put_optional(
            &mut members,
            "cache_control",
            CacheControl::optional_to_json(&self.cache_control),
        );
        Json::object(members)
    }

    /// A block of text.
    pub fn text(text: &str) -> (block: Self)
        ensures
            block@ == SystemBlockView::text(text@),
    {
        SystemBlock { kind: "text".to_owned(), text: text.to_owned(), cache_control: None }
    }

    /// A block of text up to which the prompt may be cached.
    pub fn text_with_cache(text: &str) -> (block: Self)
        ensures
            block@ == SystemBlockView::cached(text@),
    {
        SystemBlock {
            kind: "text".to_owned(),
            text: text.to_owned(),
            cache_control: Some(CacheControl::ephemeral()),
        }
    }
}

/// The system prompt: plain text, or blocks that can carry cache marks.
#[derive(Debug)]
pub enum SystemPrompt {
    /// Plain text.
    Text(String),
    /// A list of blocks.
    Blocks(Vec<SystemBlock>),
}

/// The mathematical form of a [`SystemPrompt`].
pub enum SystemPromptView {
    Text(Seq<char>),
    Blocks(Seq<SystemBlockView>),
}

impl View for SystemPrompt {
    type V = SystemPromptView;

    open spec fn view(&self) -> SystemPromptView {
        match self {
            SystemPrompt::Text(text) => SystemPromptView::Text(text@),
            SystemPrompt::Blocks(blocks) => SystemPromptView::Blocks(blocks.deep_view()),
        }
    }
}

impl DeepView for SystemPrompt {
    type V = SystemPromptView;

    open spec fn deep_view(&self) -> SystemPromptView {
        self@
    }
}

impl Clone for SystemPrompt {
    fn clone(&self) -> (copy: Self)
        ensures
            copy@ == self@,
    {
        match self {
            SystemPrompt::Text(text) => SystemPrompt::Text(text.clone()),
            SystemPrompt::Blocks(blocks) => {
                let mut copies: Vec<SystemBlock> = Vec::new();
                let mut i: usize = 0;
                while i < blocks.len()
                    invariant
                        i <= blocks.len(),
                        copies.len() == i,
                        forall|j: int| 0 <= j < i ==> (#[trigger] copies[j])@ == blocks[j]@,
                    decreases blocks.len() - i,
                {
                    copies.push(blocks[i].clone());
                    i += 1;
                }
                assert(copies.deep_view() =~= blocks.deep_view());
                SystemPrompt::Blocks(copies)
            },
        }
    }
}

impl SystemPromptView {
    /// The JSON form: a string for plain text, an array of the blocks'
    /// forms for blocks.
    pub open spec fn to_json(self) -> JsonView {
        match self {
            SystemPromptView::Text(text) => JsonView::Str(text),
            SystemPromptView::Blocks(blocks) => JsonView::Array(
                Seq::new(blocks.len(), |i: int| blocks[i].to_json()),
            ),
        }
    }
}

impl SystemPrompt {
    /// The JSON form of the prompt.
    pub fn to_json(&self) -> (json: Json)
        ensures
            json@ == self@.to_json(),
    {
        match self {
            SystemPrompt::Text(text) => Json::string(text.as_str()),
            SystemPrompt::Blocks(blocks) => {
                let mut items: Vec<Json> = Vec::new();
                let mut i: usize = 0;
                while i < blocks.len()
                    invariant
                        i <= blocks.len(),
                        items.len() == i,
                        forall|j: int| 0 <= j < i ==> (#[trigger] items[j])@ == blocks[j]@.to_json(),
                    decreases blocks.len() - i,
                {
                    items.push(blocks[i].to_json());
                    i += 1;
                }
                assert(items.deep_view() =~= self@.to_json()->Array_0);
                Json::array(items)
            },
        }
    }

    /// A prompt of plain text.
    pub fn text(text: &str) -> (prompt: Self)
        ensures
            prompt@ == SystemPromptView::Text(text@),
    {
        SystemPrompt::Text(text.to_owned())
    }

    /// A prompt of one block of text that may be cached.
    pub fn with_cache(text: &str) -> (prompt: Self)
        ensures
            prompt@ == SystemPromptView::Blocks(seq![SystemBlockView::cached(text@)]),
    {
        let mut blocks: Vec<SystemBlock> = Vec::new();
        blocks.push(SystemBlock::text_with_cache(text));
        assert(blocks.deep_view() =~= seq![SystemBlockView::cached(text@)]);
        SystemPrompt::Blocks(blocks)
    }

    /// A prompt of the given blocks.
    pub fn blocks(blocks: Vec<SystemBlock>) -> (prompt: Self)
        ensures
            prompt@ == SystemPromptView::Blocks(blocks.deep_view()),
    {
        SystemPrompt::Blocks(blocks)
    }
}

} // verus!
