//! The blocks that make up the content of a message.

use crate::common::json::{
    members_view, put, put_optional, with_optional_member, Json, JsonView,
};
use crate::common::encode::{base64_fits, base64_text, to_base64};
use crate::common::text::str_eq;
use crate::messages::request::picture::{
    decode_guessed, picture_in_file, read_picture, write_picture, written, PictureError,
    PictureFormat,
};
use vstd::prelude::*;

verus! {

/// The image formats that the service accepts.
#[derive(Debug, Clone, Copy, PartialEq, Eq, Structural)]
pub enum MediaType {
    Png,
    Jpeg,
    Gif,
    Webp,
}

impl MediaType {
    /// The MIME name of the format.
    pub open spec fn name(self) -> Seq<char> {
        match self {
            MediaType::Png => "image/png"@,
            MediaType::Jpeg => "image/jpeg"@,
            MediaType::Gif => "image/gif"@,
            MediaType::Webp => "image/webp"@,
        }
    }

    /// The format with the MIME name `name`, if there is one.
    pub open spec fn named(name: Seq<char>) -> Option<MediaType> {
        if name == "image/png"@ {
            Some(MediaType::Png)
        } else if name == "image/jpeg"@ {
            Some(MediaType::Jpeg)
        } else if name == "image/gif"@ {
            Some(MediaType::Gif)
        } else if name == "image/webp"@ {
            Some(MediaType::Webp)
        } else {
            None
        }
    }

    /// The MIME name of a format names that format.
    pub proof fn lemma_name_round_trip(self)
        ensures
            Self::named(self.name()) == Some(self),
    {
        reveal_strlit("image/png");
        reveal_strlit("image/jpeg");
        reveal_strlit("image/gif");
        reveal_strlit("image/webp");
        assert("image/png"@.len() == 9 && "image/png"@[6] == 'p');
        assert("image/jpeg"@.len() == 10 && "image/jpeg"@[6] == 'j');
        assert("image/gif"@.len() == 9 && "image/gif"@[6] == 'g');
        assert("image/webp"@.len() == 10 && "image/webp"@[6] == 'w');
    }

    /// The MIME name of the format.
    pub fn as_str(&self) -> (name: &'static str)
        ensures
            name@ == self.name(),
    {
        match self {
            MediaType::Png => "image/png",
            MediaType::Jpeg => "image/jpeg",
            MediaType::Gif => "image/gif",
            MediaType::Webp => "image/webp",
        }
    }

    /// The format with the MIME name `name`.
    pub fn from_name(name: &str) -> (media_type: Option<MediaType>)
        ensures
            media_type == Self::named(name@),
    {
        if str_eq(name, "image/png") {
            Some(MediaType::Png)
        } else if str_eq(name, "image/jpeg") {
            Some(MediaType::Jpeg)
        } else if str_eq(name, "image/gif") {
            Some(MediaType::Gif)
        } else if str_eq(name, "image/webp") {
            Some(MediaType::Webp)
        } else {
            None
        }
    }
}

/// Marks a block as a point up to which the prompt may be cached.
#[derive(Debug)]
pub struct CacheControl {
    /// The kind of caching; the service knows `"ephemeral"`.
    pub kind: String,
}

/// The mathematical form of a [`CacheControl`].
pub struct CacheControlView {
    pub kind: Seq<char>,
}

impl View for CacheControl {
    type V = CacheControlView;

    open spec fn view(&self) -> CacheControlView {
        CacheControlView { kind: self.kind@ }
    }
}

impl DeepView for CacheControl {
    type V = CacheControlView;

    open spec fn deep_view(&self) -> CacheControlView {
        self@
    }
}

impl Clone for CacheControl {
    fn clone(&self) -> (copy: Self)
        ensures
            copy@ == self@,
    {
        CacheControl { kind: self.kind.clone() }
    }
}

impl CacheControlView {
    /// Ephemeral caching.
    pub open spec fn ephemeral() -> CacheControlView {
        CacheControlView { kind: "ephemeral"@ }
    }

    /// The JSON form: an object with the member `type`.
    pub open spec fn to_json(self) -> JsonView {
        JsonView::Object(seq![("type"@, JsonView::Str(self.kind))])
    }

    /// The JSON form of a cache control that may be absent.
    pub open spec fn optional_to_json(control: Option<CacheControlView>) -> Option<JsonView> {
        match control {
            Some(control) => Some(control.to_json()),
            None => None,
        }
    }

    /// Reading the JSON form of a cache control gives it back.
    pub proof fn lemma_json_round_trip(self)
        ensures
            Self::from_json(self.to_json()) == Some(self),
            self.to_json() is Object,
    {
        broadcast use {JsonView::lemma_member_of_none, JsonView::lemma_member_after_push};

        let only = ("type"@, JsonView::Str(self.kind));
        assert(seq![only] =~= Seq::empty().push(only));
    }

    /// What an object with a string member `type` stands for.
    pub open spec fn from_json(json: JsonView) -> Option<CacheControlView> {
        match json.string_member("type"@) {
            Some(kind) => Some(CacheControlView { kind }),
            None => None,
        }
    }

    /// What a member that may be left out stands for. The outer `None` says
    /// that the member is there and is no cache control.
    pub open spec fn from_optional_json(member: Option<JsonView>) -> Option<
        Option<CacheControlView>,
    > {
        match member {
            Some(json) => match Self::from_json(json) {
                Some(control) => Some(Some(control)),
                None => None,
            },
            None => Some(None),
        }
    }
}

impl CacheControl {
    /// Ephemeral caching.
    pub fn ephemeral() -> (control: Self)
        ensures
            control@ == CacheControlView::ephemeral(),
    {
        CacheControl { kind: "ephemeral".to_owned() }
    }

    /// The JSON form of the cache control.
    pub fn to_json(&self) -> (json: Json)
        ensures
            json@ == self@.to_json(),
    {
        let mut members: Vec<(String, Json)> = Vec::new();
        put(&mut members, "type", Json::string(self.kind.as_str()));
        assert(members_view(members) =~= seq![("type"@, JsonView::Str(self.kind@))]);
        Json::object(members)
    }

    /// The JSON form of a cache control that may be absent.
    pub fn optional_to_json(control: &Option<CacheControl>) -> (json: Option<Json>)
        ensures
            json.deep_view() == CacheControlView::optional_to_json(control.deep_view()),
    {
        match control {
            Some(control) => Some(control.to_json()),
            None => None,
        }
    }

    /// Reads a cache control from its JSON form.
    pub fn from_json(json: &Json) -> (control: Option<CacheControl>)
        ensures
            control.deep_view() == CacheControlView::from_json(json@),
    {
        match json.string_member("type") {
            Some(kind) => Some(CacheControl { kind }),
            None => None,
        }
    }

    /// Reads a cache control from a member that may be left out.
    pub fn from_optional_json(member: Option<&Json>) -> (control: Option<Option<CacheControl>>)
        ensures
            control.deep_view() == CacheControlView::from_optional_json(member.deep_view()),
    {
        match member {
            Some(json) => match Self::from_json(json) {
                Some(control) => Some(Some(control)),
                None => None,
            },
            None => Some(None),
        }
    }
}

/// Where the bytes of an image or a document come from: inline, as base64
/// text, or from a URL.
#[derive(Debug)]
pub struct ImageSource {
    /// `"base64"` or `"url"`.
    pub kind: String,
    /// The MIME name of the format, for inline data.
    pub media_type: Option<String>,
    /// The data in base64, for inline data.
    pub data: Option<String>,
    /// The address, for a URL source.
    pub url: Option<String>,
}

/// The mathematical form of an [`ImageSource`] or a [`DocumentSource`].
pub struct SourceView {
    pub kind: Seq<char>,
    pub media_type: Option<Seq<char>>,
    pub data: Option<Seq<char>>,
    pub url: Option<Seq<char>>,
}

/// The JSON string of a text that may be absent.
pub open spec fn optional_str(text: Option<Seq<char>>) -> Option<JsonView> {
    match text {
        Some(text) => Some(JsonView::Str(text)),
        None => None,
    }
}

impl SourceView {
    /// A source that points to `url`.
    pub open spec fn at_url(url: Seq<char>) -> SourceView {
        SourceView { kind: "url"@, media_type: None, data: None, url: Some(url) }
    }

    /// A source that holds `data`, base64 text of the format `media_type`.
    pub open spec fn inline(media_type: Seq<char>, data: Seq<char>) -> SourceView {
        SourceView {
            kind: "base64"@,
            media_type: Some(media_type),
            data: Some(data),
            url: None,
        }
    }

    /// The inline image of the format `media_type` whose data is the
    /// base64 text of `file`; the failure where there is no file, or where
    /// the length of that text does not fit `usize`.
    pub open spec fn of_file(media_type: MediaType, file: Result<Seq<u8>, PictureError>) -> Result<
        SourceView,
        PictureError,
    > {
        match file {
            Ok(bytes) => if base64_fits(bytes.len()) {
                Ok(Self::inline(media_type.name(), base64_text(bytes)))
            } else {
                Err(PictureError::TooLarge)
            },
            Err(error) => Err(error),
        }
    }

    /// The inline image that is made of the bytes of a file with the
    /// extension `extension`: the picture is read as the extension says
    /// and written out as the extension says, and the failures come in
    /// that order.
    pub open spec fn of_named_file(
        media_type: MediaType,
        extension: Option<Seq<char>>,
        bytes: Seq<u8>,
    ) -> Result<SourceView, PictureError> {
        match extension {
            Some(extension) => match picture_in_file(extension, bytes) {
                Some(picture) => match PictureFormat::for_extension(extension) {
                    Some(format) => Self::of_file(media_type, written(picture, format)),
                    None => Err(PictureError::Unsupported),
                },
                None => Err(PictureError::Decode),
            },
            None => Err(PictureError::Decode),
        }
    }

    /// The JSON form: an object with the member `type` and, each where it
    /// is given, `media_type`, `data` and `url`.
    pub open spec fn to_json(self) -> JsonView {
        let members = seq![("type"@, JsonView::Str(self.kind))];
        let members = with_optional_member(members, "media_type"@, optional_str(self.media_type));
        let members = with_optional_member(members, "data"@, optional_str(self.data));
        let members = with_optional_member(members, "url"@, optional_str(self.url));
        JsonView::Object(members)
    }

    /// Reading the JSON form of a source gives it back.
    pub proof fn lemma_json_round_trip(self)
        ensures
            Self::from_json(self.to_json()) == Some(self),
    {
        broadcast use {JsonView::lemma_member_of_none, JsonView::lemma_member_after_push};

        reveal_strlit("type");
        reveal_strlit("media_type");
        reveal_strlit("data");
        reveal_strlit("url");
        assert("type"@.len() == 4 && "type"@[0] == 't');
        assert("media_type"@.len() == 10);
        assert("data"@.len() == 4 && "data"@[0] == 'd');
        assert("url"@.len() == 3);
        let first = ("type"@, JsonView::Str(self.kind));
        assert(seq![first] =~= Seq::empty().push(first));
    }

    /// What an object with a string member `type` and the optional string
    /// members `media_type`, `data` and `url` stands for.
    pub open spec fn from_json(json: JsonView) -> Option<SourceView> {
        match (
            json.string_member("type"@),
            json.optional_string_member("media_type"@),
            json.optional_string_member("data"@),
            json.optional_string_member("url"@),
        ) {
            (Some(kind), Some(media_type), Some(data), Some(url)) => Some(
                SourceView { kind, media_type, data, url },
            ),
            _ => None,
        }
    }
}

impl View for ImageSource {
    type V = SourceView;

    open spec fn view(&self) -> SourceView {
        SourceView {
            kind: self.kind@,
            media_type: self.media_type.deep_view(),
            data: self.data.deep_view(),
            url: self.url.deep_view(),
        }
    }
}

/// An image source that was made, by its view, or the failure.
pub open spec fn outcome_view(outcome: Result<ImageSource, PictureError>) -> Result<
    SourceView,
    PictureError,
> {
    match outcome {
        Ok(source) => Ok(source@),
        Err(error) => Err(error),
    }
}

impl DeepView for ImageSource {
    type V = SourceView;

    open spec fn deep_view(&self) -> SourceView {
        self@
    }
}

impl Clone for ImageSource {
    fn clone(&self) -> (copy: Self)
        ensures
            copy@ == self@,
    {
        ImageSource {
            kind: self.kind.clone(),
            media_type: self.media_type.clone(),
            data: self.data.clone(),
            url: self.url.clone(),
        }
    }
}

impl ImageSource {
    /// An image that the service fetches from `url`.
    pub fn from_url(url: &str) -> (source: Self)
        ensures
            source@ == SourceView::at_url(url@),
    {
        ImageSource { kind: "url".to_owned(), media_type: None, data: None, url: Some(url.to_owned()) }
    }

    /// An image given inline: `data` is its base64 text.
    pub fn from_base64(media_type: MediaType, data: &str) -> (source: Self)
        ensures
            source@ == SourceView::inline(media_type.name(), data@),
    {
        ImageSource {
            kind: "base64".to_owned(),
            media_type: Some(media_type.as_str().to_owned()),
            data: Some(data.to_owned()),
            url: None,
        }
    }

    /// An image given inline, made from a picture: the picture is written
    /// out in `format`, and what was written is the data.
    pub fn from_picture(
        media_type: MediaType,
        picture: &image::DynamicImage,
        format: PictureFormat,
    ) -> (source: Result<ImageSource, PictureError>)
        ensures
            outcome_view(source) == SourceView::of_file(media_type, written(*picture, format)),
    {
        match write_picture(picture, format) {
            Ok(bytes) => match to_base64(bytes.as_slice()) {
                Some(text) => Ok(ImageSource::from_base64(media_type, text.as_str())),
                None => Err(PictureError::TooLarge),
            },
            Err(error) => Err(error),
        }
    }

    /// An image given inline, made from the bytes of a file and the
    /// extension of its name. The picture is read in the format that the
    /// extension names and written out again in that format, and what was
    /// written is the data. The steps fail in this order: without an
    /// extension, or where the bytes are no picture of the extension's
    /// format, with `Decode`; where the extension is none in which pictures
    /// are written, with `Unsupported`; where the picture cannot be written
    /// or is too large, as [`ImageSource::from_picture`] says.
    pub fn from_file(media_type: MediaType, extension: Option<&str>, bytes: &[u8]) -> (source:
        Result<ImageSource, PictureError>)
        ensures
            outcome_view(source) == SourceView::of_named_file(
                media_type,
                extension.deep_view(),
                bytes@,
            ),
    {
        let extension = match extension {
            Some(extension) => extension,
            None => {
                return Err(PictureError::Decode);
            },
        };
        let picture = match read_picture(extension, bytes) {
            Some(picture) => picture,
            None => {
                return Err(PictureError::Decode);
            },
        };
        match PictureFormat::from_extension(extension) {
            Some(format) => ImageSource::from_picture(media_type, &picture, format),
            None => Err(PictureError::Unsupported),
        }
    }

    /// An image given inline, made from bytes that were fetched: the
    /// picture is read in whatever format the bytes show and written out
    /// as PNG. Which picture the bytes hold is left to the `image` crate;
    /// what is made of the picture is what [`ImageSource::from_picture`]
    /// makes of it.
    pub fn from_fetched(media_type: MediaType, bytes: &[u8]) -> (source: Result<
        ImageSource,
        PictureError,
    >)
        ensures
            match source {
                Ok(source) => exists|picture: image::DynamicImage|
                    SourceView::of_file(
                        media_type,
                        #[trigger] written(picture, PictureFormat::Png),
                    ) == Ok::<SourceView, PictureError>(source@),
                Err(error) => error is Decode || exists|picture: image::DynamicImage|
                    SourceView::of_file(
                        media_type,
                        #[trigger] written(picture, PictureFormat::Png),
                    ) == Err::<SourceView, PictureError>(error),
            },
    {
        match decode_guessed(bytes) {
            Ok(picture) => {
                let source = ImageSource::from_picture(media_type, &picture, PictureFormat::Png);
                proof {
                    let made = written(picture, PictureFormat::Png);
                    assert(SourceView::of_file(media_type, made) == outcome_view(source));
                }
                source
            },
            Err(_) => Err(PictureError::Decode),
        }
    }

    /// The JSON form of the source.
    pub fn to_json(&self) -> (json: Json)
        ensures
            json@ == self@.to_json(),
    {
        let mut members: Vec<(String, Json)> = Vec::new();
        put(&mut members, "type", Json::string(self.kind.as_str()));
        assert(members_view(members) =~= seq![("type"@, JsonView::Str(self.kind@))]);
        put_optional(&mut members, "media_type", Json::optional_string(&self.media_type));
        put_optional(&mut members, "data", Json::optional_string(&self.data));
        put_optional(&mut members, "url", Json::optional_string(&self.url));
        Json::object(members)
    }

    /// Reads an image source from its JSON form.
    pub fn from_json(json: &Json) -> (source: Option<ImageSource>)
        ensures
            source.deep_view() == SourceView::from_json(json@),
    {
        let kind = json.string_member("type");
        let media_type = json.optional_string_member("media_type");
        let data = json.optional_string_member("data");
        let url = json.optional_string_member("url");
        match (kind, media_type, data, url) {
            (Some(kind), Some(media_type), Some(data), Some(url)) => Some(
                ImageSource { kind, media_type, data, url },
            ),
            _ => None,
        }
    }
}

/// Where the bytes of a PDF document come from.
#[derive(Debug)]
pub struct DocumentSource {
    /// `"base64"` or `"url"`.
    pub kind: String,
    /// `"application/pdf"`, for inline data.
    pub media_type: Option<String>,
    /// The data in base64, for inline data.
    pub data: Option<String>,
    /// The address, for a URL source.
    pub url: Option<String>,
}

impl View for DocumentSource {
    type V = SourceView;

    open spec fn view(&self) -> SourceView {
        SourceView {
            kind: self.kind@,
            media_type: self.media_type.deep_view(),
            data: self.data.deep_view(),
            url: self.url.deep_view(),
        }
    }
}

impl DeepView for DocumentSource {
    type V = SourceView;

    open spec fn deep_view(&self) -> SourceView {
        self@
    }
}

impl Clone for DocumentSource {
    fn clone(&self) -> (copy: Self)
        ensures
            copy@ == self@,
    {
        DocumentSource {
            kind: self.kind.clone(),
            media_type: self.media_type.clone(),
            data: self.data.clone(),
            url: self.url.clone(),
        }
    }
}

impl DocumentSource {
    /// A PDF given inline: `data` is its base64 text.
    pub fn from_base64(data: &str) -> (source: Self)
        ensures
            source@ == SourceView::inline("application/pdf"@, data@),
    {
        DocumentSource {
            kind: "base64".to_owned(),
            media_type: Some("application/pdf".to_owned()),
            data: Some(data.to_owned()),
            url: None,
        }
    }

    /// A PDF given inline: `data` holds the bytes of its file. `None` where
    /// the file is so large that the length of its base64 text does not
    /// fit `usize`.
    pub fn from_bytes(data: &[u8]) -> (source: Option<Self>)
        ensures
            source.deep_view() == if base64_fits(data@.len()) {
                Some(SourceView::inline("application/pdf"@, base64_text(data@)))
            } else {
                None
            },
    {
        match to_base64(data) {
            Some(text) => Some(DocumentSource::from_base64(text.as_str())),
            None => None,
        }
    }

    /// A PDF that the service fetches from `url`.
    pub fn from_url(url: &str) -> (source: Self)
        ensures
            source@ == SourceView::at_url(url@),
    {
        DocumentSource { kind: "url".to_owned(), media_type: None, data: None, url: Some(url.to_owned()) }
    }

    /// The JSON form of the source.
    pub fn to_json(&self) -> (json: Json)
        ensures
            json@ == self@.to_json(),
    {
        let mut members: Vec<(String, Json)> = Vec::new();
        put(&mut members, "type", Json::string(self.kind.as_str()));
        assert(members_view(members) =~= seq![("type"@, JsonView::Str(self.kind@))]);
        put_optional(&mut members, "media_type", Json::optional_string(&self.media_type));
        put_optional(&mut members, "data", Json::optional_string(&self.data));
        put_optional(&mut members, "url", Json::optional_string(&self.url));
        Json::object(members)
    }

    /// Reads a document source from its JSON form.
    pub fn from_json(json: &Json) -> (source: Option<DocumentSource>)
        ensures
            source.deep_view() == SourceView::from_json(json@),
    {
        let kind = json.string_member("type");
        let media_type = json.optional_string_member("media_type");
        let data = json.optional_string_member("data");
        let url = json.optional_string_member("url");
        match (kind, media_type, data, url) {
            (Some(kind), Some(media_type), Some(data), Some(url)) => Some(
                DocumentSource { kind, media_type, data, url },
            ),
            _ => None,
        }
    }
}

/// One block of a message's content.
#[derive(Debug)]
#[allow(inconsistent_fields)]
pub enum ContentBlock {
    /// A run of text.
    Text { text: String, cache_control: Option<CacheControl> },
    /// An image.
    Image { source: ImageSource, cache_control: Option<CacheControl> },
    /// The model's request to run a tool on `input`.
    ToolUse { id: String, name: String, input: Json },
    /// What a tool returned for the request `tool_use_id`.
    ToolResult { tool_use_id: String, content: Option<Vec<ContentBlock>>, is_error: Option<bool> },
    /// The model's reasoning, with the signature that vouches for it.
    Thinking { thinking: String, signature: Option<String> },
    /// A PDF document.
    Document { source: DocumentSource, cache_control: Option<CacheControl> },
}

/// The mathematical form of a [`ContentBlock`].
pub enum ContentBlockView {
    Text { text: Seq<char>, cache_control: Option<CacheControlView> },
    Image { source: SourceView, cache_control: Option<CacheControlView> },
    ToolUse { id: Seq<char>, name: Seq<char>, input: JsonView },
    ToolResult {
        tool_use_id: Seq<char>,
        content: Option<Seq<ContentBlockView>>,
        is_error: Option<bool>,
    },
    Thinking { thinking: Seq<char>, signature: Option<Seq<char>> },
    Document { source: SourceView, cache_control: Option<CacheControlView> },
}

impl ContentBlock {
    /// The mathematical form of this block.
    pub open spec fn model(self) -> ContentBlockView
        decreases self,
    {
        match self {
            ContentBlock::Text { text, cache_control } => ContentBlockView::Text {
                text: text@,
                cache_control: cache_control.deep_view(),
            },
            ContentBlock::Image { source, cache_control } => ContentBlockView::Image {
                source: source@,
                cache_control: cache_control.deep_view(),
            },
            ContentBlock::ToolUse { id, name, input } => ContentBlockView::ToolUse {
                id: id@,
                name: name@,
                input: input@,
            },
            ContentBlock::ToolResult { tool_use_id, content, is_error } => {
                ContentBlockView::ToolResult {
                    tool_use_id: tool_use_id@,
                    content: match content {
                        Some(blocks) => Some(
                            Seq::new(
                                blocks.len() as nat,
                                |i: int|
                                    if 0 <= i < blocks.len() {
                                        blocks[i].model()
                                    } else {
                                        ContentBlockView::empty_text()
                                    },
                            ),
                        ),
                        None => None,
                    },
                    is_error,
                }
            },
            ContentBlock::Thinking { thinking, signature } => ContentBlockView::Thinking {
                thinking: thinking@,
                signature: signature.deep_view(),
            },
            ContentBlock::Document { source, cache_control } => ContentBlockView::Document {
                source: source@,
                cache_control: cache_control.deep_view(),
            },
        }
    }

    /// The model of a list of blocks is the list of their models.
    pub proof fn lemma_models(blocks: Vec<ContentBlock>)
        ensures
            blocks.deep_view().len() == blocks.len(),
            forall|i: int|
                0 <= i < blocks.len() ==> #[trigger] blocks.deep_view()[i] == blocks[i]@,
    {
    }

    /// The model of a tool result holds the models of its blocks.
    pub proof fn lemma_tool_result_model(
        tool_use_id: String,
        content: Option<Vec<ContentBlock>>,
        is_error: Option<bool>,
    )
        ensures
            (ContentBlock::ToolResult { tool_use_id, content, is_error })@
                == (ContentBlockView::ToolResult {
                tool_use_id: tool_use_id@,
                content: content.deep_view(),
                is_error,
            }),
    {
        reveal_with_fuel(ContentBlock::model, 2);
        let whole = ContentBlock::ToolResult { tool_use_id, content, is_error };
        match content {
            Some(blocks) => {
                assert(whole@->ToolResult_content->Some_0 =~= blocks.deep_view());
            },
            None => {},
        }
    }
}

impl View for ContentBlock {
    type V = ContentBlockView;

    open spec fn view(&self) -> ContentBlockView {
        self.model()
    }
}

impl DeepView for ContentBlock {
    type V = ContentBlockView;

    open spec fn deep_view(&self) -> ContentBlockView {
        self@
    }
}

impl ContentBlockView {
    /// The placeholder that fills a slot nothing was written to: text
    /// without characters.
    pub open spec fn empty_text() -> ContentBlockView {
        ContentBlockView::Text { text: Seq::empty(), cache_control: None }
    }

    /// A run of text.
    pub open spec fn text(text: Seq<char>) -> ContentBlockView {
        ContentBlockView::Text { text, cache_control: None }
    }

    /// The JSON forms of `blocks`, as an array.
    pub open spec fn list_to_json(blocks: Seq<ContentBlockView>) -> JsonView
        decreases blocks,
    {
        JsonView::Array(
            Seq::new(
                blocks.len(),
                |i: int|
                    if 0 <= i < blocks.len() {
                        blocks[i].to_json()
                    } else {
                        JsonView::Null
                    },
            ),
        )
    }

    /// The JSON form: an object whose member `type` names the variant,
    /// followed by the variant's fields; a field that may be absent is left
    /// out where it is.
    pub open spec fn to_json(self) -> JsonView
        decreases self,
    {
        match self {
            ContentBlockView::Text { text, cache_control } => {
                let members = seq![("type"@, JsonView::Str("text"@)), ("text"@, JsonView::Str(text))];
                JsonView::Object(
                    with_optional_member(
                        members,
                        "cache_control"@,
                        CacheControlView::optional_to_json(cache_control),
                    ),
                )
            },
            ContentBlockView::Image { source, cache_control } => {
                let members = seq![("type"@, JsonView::Str("image"@)), ("source"@, source.to_json())];
                JsonView::Object(
                    with_optional_member(
                        members,
                        "cache_control"@,
                        CacheControlView::optional_to_json(cache_control),
                    ),
                )
            },
            ContentBlockView::ToolUse { id, name, input } => JsonView::Object(
                seq![
                    ("type"@, JsonView::Str("tool_use"@)),
                    ("id"@, JsonView::Str(id)),
                    ("name"@, JsonView::Str(name)),
                    ("input"@, input),
                ],
            ),
            ContentBlockView::ToolResult { tool_use_id, content, is_error } => {
                let members = seq![
                    ("type"@, JsonView::Str("tool_result"@)),
                    ("tool_use_id"@, JsonView::Str(tool_use_id)),
                ];
                let members = with_optional_member(
                    members,
                    "content"@,
                    match content {
                        Some(blocks) => Some(Self::list_to_json(blocks)),
                        None => None,
                    },
                );
                let members = with_optional_member(
                    members,
                    "is_error"@,
                    match is_error {
                        Some(flag) => Some(JsonView::Bool(flag)),
                        None => None,
                    },
                );
                JsonView::Object(members)
            },
            ContentBlockView::Thinking { thinking, signature } => {
                let members = seq![
                    ("type"@, JsonView::Str("thinking"@)),
                    ("thinking"@, JsonView::Str(thinking)),
                ];
                JsonView::Object(with_optional_member(members, "signature"@, optional_str(signature)))
            },
            ContentBlockView::Document { source, cache_control } => {
                let members = seq![
                    ("type"@, JsonView::Str("document"@)),
                    ("source"@, source.to_json()),
                ];
                JsonView::Object(
                    with_optional_member(
                        members,
                        "cache_control"@,
                        CacheControlView::optional_to_json(cache_control),
                    ),
                )
            },
        }
    }

    /// The names of the variants and of their fields differ from one
    /// another, letter by letter.
    pub proof fn lemma_names_differ()
        ensures
            "text"@ != "image"@,
            "text"@ != "tool_use"@,
            "text"@ != "tool_result"@,
            "text"@ != "thinking"@,
            "text"@ != "document"@,
            "image"@ != "tool_use"@,
            "image"@ != "tool_result"@,
            "image"@ != "thinking"@,
            "image"@ != "document"@,
            "tool_use"@ != "tool_result"@,
            "tool_use"@ != "thinking"@,
            "tool_use"@ != "document"@,
            "tool_result"@ != "thinking"@,
            "tool_result"@ != "document"@,
            "thinking"@ != "document"@,
            "type"@ != "text"@,
            "type"@ != "cache_control"@,
            "text"@ != "cache_control"@,
            "type"@ != "source"@,
            "source"@ != "cache_control"@,
            "type"@ != "id"@,
            "type"@ != "name"@,
            "type"@ != "input"@,
            "id"@ != "name"@,
            "id"@ != "input"@,
            "name"@ != "input"@,
            "type"@ != "tool_use_id"@,
            "type"@ != "content"@,
            "type"@ != "is_error"@,
            "tool_use_id"@ != "content"@,
            "tool_use_id"@ != "is_error"@,
            "content"@ != "is_error"@,
            "type"@ != "thinking"@,
            "type"@ != "signature"@,
            "thinking"@ != "signature"@,
            "cache_control"@ != "id"@,
            "cache_control"@ != "name"@,
            "cache_control"@ != "input"@,
            "cache_control"@ != "tool_use_id"@,
            "cache_control"@ != "content"@,
            "cache_control"@ != "is_error"@,
            "cache_control"@ != "thinking"@,
            "cache_control"@ != "signature"@,
    {
        reveal_strlit("text");
        reveal_strlit("image");
        reveal_strlit("tool_use");
        reveal_strlit("tool_result");
        reveal_strlit("thinking");
        reveal_strlit("document");
        reveal_strlit("type");
        reveal_strlit("cache_control");
        reveal_strlit("source");
        reveal_strlit("id");
        reveal_strlit("name");
        reveal_strlit("input");
        reveal_strlit("tool_use_id");
        reveal_strlit("content");
        reveal_strlit("is_error");
        reveal_strlit("signature");
        assert("text"@.len() == 4 && "text"@[1] == 'e');
        assert("image"@.len() == 5);
        assert("tool_use"@.len() == 8 && "tool_use"@[0] == 't' && "tool_use"@[1] == 'o');
        assert("tool_result"@.len() == 11 && "tool_result"@[5] == 'r');
        assert("thinking"@.len() == 8 && "thinking"@[0] == 't' && "thinking"@[1] == 'h');
        assert("document"@.len() == 8 && "document"@[0] == 'd');
        assert("type"@.len() == 4 && "type"@[1] == 'y' && "type"@[0] == 't');
        assert("cache_control"@.len() == 13);
        assert("source"@.len() == 6);
        assert("id"@.len() == 2);
        assert("name"@.len() == 4 && "name"@[0] == 'n');
        assert("input"@.len() == 5);
        assert("tool_use_id"@.len() == 11 && "tool_use_id"@[5] == 'u');
        assert("content"@.len() == 7);
        assert("is_error"@.len() == 8 && "is_error"@[0] == 'i');
        assert("signature"@.len() == 9);
    }

    /// Reading the JSON forms of a list of blocks gives the list back.
    pub proof fn lemma_list_json_round_trip(blocks: Seq<ContentBlockView>)
        ensures
            Self::list_to_json(blocks) is Array,
            Self::list_from_json(Self::list_to_json(blocks)->Array_0) == Some(blocks),
        decreases blocks,
    {
        let items = Self::list_to_json(blocks)->Array_0;
        assert forall|i: int| 0 <= i < items.len() implies Self::from_json(#[trigger] items[i])
            == Some(blocks[i]) by {
            blocks[i].lemma_json_round_trip();
        }
        assert(Self::list_from_json(items)->Some_0 =~= blocks);
    }

    /// Reading the JSON form of a block gives the block back.
    pub proof fn lemma_json_round_trip(self)
        ensures
            Self::from_json(self.to_json()) == Some(self),
        decreases self,
    {
        broadcast use {JsonView::lemma_member_of_none, JsonView::lemma_member_after_push};

        Self::lemma_names_differ();
        let empty = Seq::<(Seq<char>, JsonView)>::empty();
        match self {
            ContentBlockView::Text { text, cache_control } => {
                let first = ("type"@, JsonView::Str("text"@));
                let second = ("text"@, JsonView::Str(text));
                assert(seq![first, second] =~= empty.push(first).push(second));
                if cache_control is Some {
                    cache_control->Some_0.lemma_json_round_trip();
                }
            },
            ContentBlockView::Image { source, cache_control } => {
                let first = ("type"@, JsonView::Str("image"@));
                let second = ("source"@, source.to_json());
                assert(seq![first, second] =~= empty.push(first).push(second));
                source.lemma_json_round_trip();
                if cache_control is Some {
                    cache_control->Some_0.lemma_json_round_trip();
                }
            },
            ContentBlockView::ToolUse { id, name, input } => {
                let first = ("type"@, JsonView::Str("tool_use"@));
                let second = ("id"@, JsonView::Str(id));
                let third = ("name"@, JsonView::Str(name));
                let fourth = ("input"@, input);
                assert(seq![first, second, third, fourth] =~= empty.push(first).push(second).push(
                    third,
                ).push(fourth));
            },
            ContentBlockView::ToolResult { tool_use_id, content, is_error } => {
                let first = ("type"@, JsonView::Str("tool_result"@));
                let second = ("tool_use_id"@, JsonView::Str(tool_use_id));
                assert(seq![first, second] =~= empty.push(first).push(second));
                if content is Some {
                    Self::lemma_list_json_round_trip(content->Some_0);
                }
            },
            ContentBlockView::Thinking { thinking, signature } => {
                let first = ("type"@, JsonView::Str("thinking"@));
                let second = ("thinking"@, JsonView::Str(thinking));
                assert(seq![first, second] =~= empty.push(first).push(second));
            },
            ContentBlockView::Document { source, cache_control } => {
                let first = ("type"@, JsonView::Str("document"@));
                let second = ("source"@, source.to_json());
                assert(seq![first, second] =~= empty.push(first).push(second));
                source.lemma_json_round_trip();
                if cache_control is Some {
                    cache_control->Some_0.lemma_json_round_trip();
                }
            },
        }
    }

    /// What each of `items` stands for, if every one of them is a block.
    pub open spec fn list_from_json(items: Seq<JsonView>) -> Option<Seq<ContentBlockView>>
        decreases items,
    {
        if forall|i: int| 0 <= i < items.len() ==> Self::from_json(#[trigger] items[i]) is Some {
            Some(
                Seq::new(
                    items.len(),
                    |i: int|
                        if 0 <= i < items.len() {
                            Self::from_json(items[i])->Some_0
                        } else {
                            Self::empty_text()
                        },
                ),
            )
        } else {
            None
        }
    }

    /// What a JSON object stands for: its string member `type` names the
    /// variant, and the variant's fields are members of the same object.
    /// `None` where `type` is missing or names no variant, where a field
    /// that the variant needs is missing, or where a member has the wrong
    /// form. Members that the variant does not know are passed over.
    pub open spec fn from_json(json: JsonView) -> Option<ContentBlockView>
        decreases json,
    {
        let cache_control = CacheControlView::from_optional_json(
            json.optional_member("cache_control"@),
        );
        match json.string_member("type"@) {
            Some(tag) => if tag == "text"@ {
                match (json.string_member("text"@), cache_control) {
                    (Some(text), Some(cache_control)) => Some(
                        ContentBlockView::Text { text, cache_control },
                    ),
                    _ => None,
                }
            } else if tag == "image"@ {
                match (json.member("source"@), cache_control) {
                    (Some(source), Some(cache_control)) => match SourceView::from_json(source) {
                        Some(source) => Some(ContentBlockView::Image { source, cache_control }),
                        None => None,
                    },
                    _ => None,
                }
            } else if tag == "tool_use"@ {
                match (json.string_member("id"@), json.string_member("name"@), json.member("input"@)) {
                    (Some(id), Some(name), Some(input)) => Some(
                        ContentBlockView::ToolUse { id, name, input },
                    ),
                    _ => None,
                }
            } else if tag == "tool_result"@ {
                let content = match json.optional_member("content"@) {
                    Some(JsonView::Array(items)) => {
                        proof {
                            JsonView::lemma_member_decreases(json, "content"@);
                        }
                        match Self::list_from_json(items) {
                            Some(blocks) => Some(Some(blocks)),
                            None => None,
                        }
                    },
                    Some(_) => None,
                    None => Some(None),
                };
                match (
                    json.string_member("tool_use_id"@),
                    content,
                    json.optional_bool_member("is_error"@),
                ) {
                    (Some(tool_use_id), Some(content), Some(is_error)) => Some(
                        ContentBlockView::ToolResult { tool_use_id, content, is_error },
                    ),
                    _ => None,
                }
            } else if tag == "thinking"@ {
                match (json.string_member("thinking"@), json.optional_string_member("signature"@)) {
                    (Some(thinking), Some(signature)) => Some(
                        ContentBlockView::Thinking { thinking, signature },
                    ),
                    _ => None,
                }
            } else if tag == "document"@ {
                match (json.member("source"@), cache_control) {
                    (Some(source), Some(cache_control)) => match SourceView::from_json(source) {
                        Some(source) => Some(ContentBlockView::Document { source, cache_control }),
                        None => None,
                    },
                    _ => None,
                }
            } else {
                None
            },
            None => None,
        }
    }
}

impl Clone for ContentBlock {
    #[verifier::loop_isolation(false)]
    fn clone(&self) -> (copy: Self)
        ensures
            copy@ == self@,
        decreases self,
    {
        match self {
            ContentBlock::Text { text, cache_control } => ContentBlock::Text {
                text: text.clone(),
                cache_control: cache_control.clone(),
            },
            ContentBlock::Image { source, cache_control } => ContentBlock::Image {
                source: source.clone(),
                cache_control: cache_control.clone(),
            },
            ContentBlock::ToolUse { id, name, input } => ContentBlock::ToolUse {
                id: id.clone(),
                name: name.clone(),
                input: input.clone(),
            },
            ContentBlock::ToolResult { tool_use_id, content, is_error } => {
                let content_copy = match content {
                    Some(blocks) => {
                        let mut copies: Vec<ContentBlock> = Vec::new();
                        let mut i: usize = 0;
                        while i < blocks.len()
                            invariant
                                i <= blocks.len(),
                                copies.len() == i,
                                forall|j: int| 0 <= j < i ==> (#[trigger] copies[j])@ == blocks[j]@,
                            decreases blocks.len() - i,
                        {
                            copies.push(blocks[i].clone());
                            i += 1;
                        }
                        proof {
                            Self::lemma_models(copies);
                            Self::lemma_models(*blocks);
                            assert(copies.deep_view() =~= blocks.deep_view());
                        }
                        Some(copies)
                    },
                    None => None,
                };
                let id_copy = tool_use_id.clone();
                proof {
                    Self::lemma_tool_result_model(id_copy, content_copy, *is_error);
                    Self::lemma_tool_result_model(*tool_use_id, *content, *is_error);
                }
                ContentBlock::ToolResult {
                    tool_use_id: id_copy,
                    content: content_copy,
                    is_error: *is_error,
                }
            },
            ContentBlock::Thinking { thinking, signature } => ContentBlock::Thinking {
                thinking: thinking.clone(),
                signature: signature.clone(),
            },
            ContentBlock::Document { source, cache_control } => ContentBlock::Document {
                source: source.clone(),
                cache_control: cache_control.clone(),
            },
        }
    }
}

impl ContentBlock {
    /// A run of text.
    pub fn text(text: &str) -> (block: Self)
        ensures
            block@ == ContentBlockView::text(text@),
    {
        ContentBlock::Text { text: text.to_owned(), cache_control: None }
    }

    /// A run of text up to which the prompt may be cached.
    pub fn text_with_cache(text: &str) -> (block: Self)
        ensures
            block@ == (ContentBlockView::Text {
                text: text@,
                cache_control: Some(CacheControlView::ephemeral()),
            }),
    {
        ContentBlock::Text { text: text.to_owned(), cache_control: Some(CacheControl::ephemeral()) }
    }

    /// An image that the service fetches from `url`.
    pub fn image_from_url(url: &str) -> (block: Self)
        ensures
            block@ == (ContentBlockView::Image {
                source: SourceView::at_url(url@),
                cache_control: None,
            }),
    {
        ContentBlock::Image { source: ImageSource::from_url(url), cache_control: None }
    }

    /// An image given inline: `data` is its base64 text.
    pub fn image_from_base64(media_type: MediaType, data: &str) -> (block: Self)
        ensures
            block@ == (ContentBlockView::Image {
                source: SourceView::inline(media_type.name(), data@),
                cache_control: None,
            }),
    {
        ContentBlock::Image { source: ImageSource::from_base64(media_type, data), cache_control: None }
    }

    /// A request to run the tool `name` on `input`.
    pub fn tool_use(id: &str, name: &str, input: Json) -> (block: Self)
        ensures
            block@ == (ContentBlockView::ToolUse { id: id@, name: name@, input: input@ }),
    {
        ContentBlock::ToolUse { id: id.to_owned(), name: name.to_owned(), input }
    }

    /// The text that a tool returned for the request `tool_use_id`.
    pub fn tool_result_text(tool_use_id: &str, text: &str) -> (block: Self)
        ensures
            block@ == (ContentBlockView::ToolResult {
                tool_use_id: tool_use_id@,
                content: Some(seq![ContentBlockView::text(text@)]),
                is_error: None,
            }),
    {
        let mut content: Vec<ContentBlock> = Vec::new();
        content.push(ContentBlock::text(text));
        let id = tool_use_id.to_owned();
        proof {
            Self::lemma_tool_result_model(id, Some(content), None);
            assert(content.deep_view() =~= seq![ContentBlockView::text(text@)]);
        }
        ContentBlock::ToolResult { tool_use_id: id, content: Some(content), is_error: None }
    }

    /// The message of the failure that a tool ended in for the request
    /// `tool_use_id`.
    pub fn tool_result_error(tool_use_id: &str, error_message: &str) -> (block: Self)
        ensures
            block@ == (ContentBlockView::ToolResult {
                tool_use_id: tool_use_id@,
                content: Some(seq![ContentBlockView::text(error_message@)]),
                is_error: Some(true),
            }),
    {
        let mut content: Vec<ContentBlock> = Vec::new();
        content.push(ContentBlock::text(error_message));
        let id = tool_use_id.to_owned();
        proof {
            Self::lemma_tool_result_model(id, Some(content), Some(true));
            assert(content.deep_view() =~= seq![ContentBlockView::text(error_message@)]);
        }
        ContentBlock::ToolResult { tool_use_id: id, content: Some(content), is_error: Some(true) }
    }

    /// A PDF that the service fetches from `url`.
    pub fn document_from_url(url: &str) -> (block: Self)
        ensures
            block@ == (ContentBlockView::Document {
                source: SourceView::at_url(url@),
                cache_control: None,
            }),
    {
        ContentBlock::Document { source: DocumentSource::from_url(url), cache_control: None }
    }

    /// The JSON forms of `blocks`, as an array.
    #[verifier::loop_isolation(false)]
    pub fn list_to_json(blocks: &Vec<ContentBlock>) -> (json: Json)
        ensures
            json@ == ContentBlockView::list_to_json(blocks.deep_view()),
        decreases blocks,
    {
        let ghost wanted = ContentBlockView::list_to_json(blocks.deep_view())->Array_0;
        proof {
            Self::lemma_models(*blocks);
        }
        let mut items: Vec<Json> = Vec::new();
        let mut i: usize = 0;
        while i < blocks.len()
            invariant
                i <= blocks.len(),
                items.len() == i,
                forall|j: int| 0 <= j < i ==> (#[trigger] items[j])@ == wanted[j],
            decreases blocks.len() - i,
        {
            let item = blocks[i].to_json();
            items.push(item);
            i += 1;
        }
        assert(items.deep_view() =~= wanted);
        Json::array(items)
    }

    /// The JSON form of the block.
    pub fn to_json(&self) -> (json: Json)
        ensures
            json@ == self@.to_json(),
        decreases self,
    {
        let mut members: Vec<(String, Json)> = Vec::new();
        assert(members_view(members) =~= Seq::empty());
        match self {
            ContentBlock::Text { text, cache_control } => {
                put(&mut members, "type", Json::string("text"));
                put(&mut members, "text", Json::string(text.as_str()));
                assert(members_view(members) =~= seq![
                    ("type"@, JsonView::Str("text"@)),
                    ("text"@, JsonView::Str(text@)),
                ]);
                put_optional(&mut members, "cache_control", CacheControl::optional_to_json(cache_control));
            },
            ContentBlock::Image { source, cache_control } => {
                put(&mut members, "type", Json::string("image"));
                put(&mut members, "source", source.to_json());
                assert(members_view(members) =~= seq![
                    ("type"@, JsonView::Str("image"@)),
                    ("source"@, source@.to_json()),
                ]);
                put_optional(&mut members, "cache_control", CacheControl::optional_to_json(cache_control));
            },
            ContentBlock::ToolUse { id, name, input } => {
                put(&mut members, "type", Json::string("tool_use"));
                put(&mut members, "id", Json::string(id.as_str()));
                put(&mut members, "name", Json::string(name.as_str()));
                put(&mut members, "input", input.clone());
                assert(members_view(members) =~= seq![
                    ("type"@, JsonView::Str("tool_use"@)),
                    ("id"@, JsonView::Str(id@)),
                    ("name"@, JsonView::Str(name@)),
                    ("input"@, input@),
                ]);
            },
            ContentBlock::ToolResult { tool_use_id, content, is_error } => {
                proof {
                    Self::lemma_tool_result_model(*tool_use_id, *content, *is_error);
                }
                put(&mut members, "type", Json::string("tool_result"));
                put(&mut members, "tool_use_id", Json::string(tool_use_id.as_str()));
                assert(members_view(members) =~= seq![
                    ("type"@, JsonView::Str("tool_result"@)),
                    ("tool_use_id"@, JsonView::Str(tool_use_id@)),
                ]);
                let content_json = match content {
                    Some(blocks) => Some(ContentBlock::list_to_json(blocks)),
                    None => None,
                };
                put_optional(&mut members, "content", content_json);
                let flag = match is_error {
                    Some(flag) => Some(Json::Bool(*flag)),
                    None => None,
                };
                put_optional(&mut members, "is_error", flag);
            },
            ContentBlock::Thinking { thinking, signature } => {
                put(&mut members, "type", Json::string("thinking"));
                put(&mut members, "thinking", Json::string(thinking.as_str()));
                assert(members_view(members) =~= seq![
                    ("type"@, JsonView::Str("thinking"@)),
                    ("thinking"@, JsonView::Str(thinking@)),
                ]);
                put_optional(&mut members, "signature", Json::optional_string(signature));
            },
            ContentBlock::Document { source, cache_control } => {
                put(&mut members, "type", Json::string("document"));
                put(&mut members, "source", source.to_json());
                assert(members_view(members) =~= seq![
                    ("type"@, JsonView::Str("document"@)),
                    ("source"@, source@.to_json()),
                ]);
                put_optional(&mut members, "cache_control", CacheControl::optional_to_json(cache_control));
            },
        }
        Json::object(members)
    }

    /// Reads a list of blocks from the items of a JSON array.
    pub fn list_from_json(items: &Vec<Json>) -> (blocks: Option<Vec<ContentBlock>>)
        ensures
            blocks.deep_view() == ContentBlockView::list_from_json(items.deep_view()),
        decreases items,
    {
        let ghost trees = items.deep_view();
        let mut blocks: Vec<ContentBlock> = Vec::new();
        let mut i: usize = 0;
        while i < items.len()
            invariant
                i <= items.len(),
                blocks.len() == i,
                trees == items.deep_view(),
                trees.len() == items.len(),
                forall|j: int|
                    0 <= j < i ==> ContentBlockView::from_json(#[trigger] trees[j]) == Some(
                        blocks[j]@,
                    ),
            decreases items.len() - i,
        {
            assert(trees[i as int] == items[i as int]@);
            match ContentBlock::from_json(&items[i]) {
                Some(block) => {
                    blocks.push(block);
                },
                None => {
                    return None;
                },
            }
            i += 1;
        }
        proof {
            Self::lemma_models(blocks);
            assert(blocks.deep_view() =~= ContentBlockView::list_from_json(trees)->Some_0);
        }
        Some(blocks)
    }

    /// Reads a block from its JSON form.
    pub fn from_json(json: &Json) -> (block: Option<ContentBlock>)
        ensures
            block.deep_view() == ContentBlockView::from_json(json@),
        decreases json,
    {
        let tag = match json.string_member("type") {
            Some(tag) => tag,
            None => {
                return None;
            },
        };
        let tag = tag.as_str();
        if str_eq(tag, "text") {
            let text = json.string_member("text");
            let cache_control = CacheControl::from_optional_json(json.optional_member("cache_control"));
            match (text, cache_control) {
                (Some(text), Some(cache_control)) => Some(ContentBlock::Text { text, cache_control }),
                _ => None,
            }
        } else if str_eq(tag, "image") {
            let cache_control = CacheControl::from_optional_json(json.optional_member("cache_control"));
            match (json.member("source"), cache_control) {
                (Some(source), Some(cache_control)) => match ImageSource::from_json(source) {
                    Some(source) => Some(ContentBlock::Image { source, cache_control }),
                    None => None,
                },
                _ => None,
            }
        } else if str_eq(tag, "tool_use") {
            let id = json.string_member("id");
            let name = json.string_member("name");
            match (id, name, json.member("input")) {
                (Some(id), Some(name), Some(input)) => Some(
                    ContentBlock::ToolUse { id, name, input: input.clone() },
                ),
                _ => None,
            }
        } else if str_eq(tag, "tool_result") {
            let content = match json.optional_member("content") {
                Some(member) => match member.as_array() {
                    Some(items) => match ContentBlock::list_from_json(items) {
                        Some(blocks) => Some(Some(blocks)),
                        None => None,
                    },
                    None => None,
                },
                None => Some(None),
            };
            let tool_use_id = json.string_member("tool_use_id");
            let is_error = json.optional_bool_member("is_error");
            match (tool_use_id, content, is_error) {
                (Some(tool_use_id), Some(content), Some(is_error)) => {
                    proof {
                        Self::lemma_tool_result_model(tool_use_id, content, is_error);
                    }
                    Some(ContentBlock::ToolResult { tool_use_id, content, is_error })
                },
                _ => None,
            }
        } else if str_eq(tag, "thinking") {
            let thinking = json.string_member("thinking");
            let signature = json.optional_string_member("signature");
            match (thinking, signature) {
                (Some(thinking), Some(signature)) => Some(
                    ContentBlock::Thinking { thinking, signature },
                ),
                _ => None,
            }
        } else if str_eq(tag, "document") {
            let cache_control = CacheControl::from_optional_json(json.optional_member("cache_control"));
            match (json.member("source"), cache_control) {
                (Some(source), Some(cache_control)) => match DocumentSource::from_json(source) {
                    Some(source) => Some(ContentBlock::Document { source, cache_control }),
                    None => None,
                },
                _ => None,
            }
        } else {
            None
        }
    }
}

} // verus!
