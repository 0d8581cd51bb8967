//! The failures that this crate reports, and the error body that the
//! service sends.

use crate::common::json::{
    members_view, put, put_optional, with_optional_member, Json, JsonView,
};
use crate::common::text::str_eq;
use vstd::prelude::*;
use vstd::string::StringExecFns;

verus! {

/// A failure of this crate or of the service.
#[derive(Debug)]
pub enum AnthropicToolError {
    /// No API key was given.
    ApiKeyNotSet,
    /// A request lacks the named field.
    MissingRequiredField(String),
    /// A request holds a parameter that is out of range.
    InvalidParameter(String),
    /// A text was no JSON, or its JSON did not have the expected form.
    SerdeJsonError(serde_json::Error),
    /// An error of a kind that this crate has no variant for.
    ApiError { error_type: String, message: String, request_id: Option<String> },
    /// The service found the request malformed.
    InvalidRequestError(String),
    /// The service did not accept the API key.
    AuthenticationError(String),
    /// The API key may not use the resource.
    PermissionError(String),
    /// The resource does not exist.
    NotFoundError(String),
    /// Too many requests were made.
    RateLimitError(String),
    /// The service is overloaded.
    OverloadedError(String),
}

/// The mathematical form of an [`AnthropicToolError`].
pub enum ErrorView {
    ApiKeyNotSet,
    MissingRequiredField(Seq<char>),
    InvalidParameter(Seq<char>),
    SerdeJsonError(serde_json::Error),
    ApiError { error_type: Seq<char>, message: Seq<char>, request_id: Option<Seq<char>> },
    InvalidRequestError(Seq<char>),
    AuthenticationError(Seq<char>),
    PermissionError(Seq<char>),
    NotFoundError(Seq<char>),
    RateLimitError(Seq<char>),
    OverloadedError(Seq<char>),
}

impl View for AnthropicToolError {
    type V = ErrorView;

    open spec fn view(&self) -> ErrorView {
        match self {
            AnthropicToolError::ApiKeyNotSet => ErrorView::ApiKeyNotSet,
            AnthropicToolError::MissingRequiredField(field) => ErrorView::MissingRequiredField(
                field@,
            ),
            AnthropicToolError::InvalidParameter(reason) => ErrorView::InvalidParameter(reason@),
            AnthropicToolError::SerdeJsonError(error) => ErrorView::SerdeJsonError(*error),
            AnthropicToolError::ApiError { error_type, message, request_id } => ErrorView::ApiError {
                error_type: error_type@,
                message: message@,
                request_id: request_id.deep_view(),
            },
            AnthropicToolError::InvalidRequestError(message) => ErrorView::InvalidRequestError(
                message@,
            ),
            AnthropicToolError::AuthenticationError(message) => ErrorView::AuthenticationError(
                message@,
            ),
            AnthropicToolError::PermissionError(message) => ErrorView::PermissionError(message@),
            AnthropicToolError::NotFoundError(message) => ErrorView::NotFoundError(message@),
            AnthropicToolError::RateLimitError(message) => ErrorView::RateLimitError(message@),
            AnthropicToolError::OverloadedError(message) => ErrorView::OverloadedError(message@),
        }
    }
}

impl ErrorView {
    /// The words that go before the detail of an error.
    pub open spec fn heading(self) -> Seq<char> {
        match self {
            ErrorView::ApiKeyNotSet => "API key is not set. Set ANTHROPIC_API_KEY environment variable."@,
            ErrorView::MissingRequiredField(_) => "Missing required field: "@,
            ErrorView::InvalidParameter(_) => "Invalid parameter: "@,
            ErrorView::SerdeJsonError(_) => "JSON serialization/deserialization error: "@,
            ErrorView::ApiError { .. } => "API error ("@,
            ErrorView::InvalidRequestError(_) => "Invalid request error: "@,
            ErrorView::AuthenticationError(_) => "Authentication error: "@,
            ErrorView::PermissionError(_) => "Permission error: "@,
            ErrorView::NotFoundError(_) => "Not found error: "@,
            ErrorView::RateLimitError(_) => "Rate limit error: "@,
            ErrorView::OverloadedError(_) => "Overloaded error: "@,
        }
    }

    /// The detail that follows the heading, given the text `json` of the
    /// error of `serde_json` where this is one.
    pub open spec fn detail(self, json: Seq<char>) -> Seq<char> {
        match self {
            ErrorView::ApiKeyNotSet => Seq::empty(),
            ErrorView::MissingRequiredField(field) => field,
            ErrorView::InvalidParameter(reason) => reason,
            ErrorView::SerdeJsonError(_) => json,
            ErrorView::ApiError { error_type, message, .. } => error_type + "): "@ + message,
            ErrorView::InvalidRequestError(message) => message,
            ErrorView::AuthenticationError(message) => message,
            ErrorView::PermissionError(message) => message,
            ErrorView::NotFoundError(message) => message,
            ErrorView::RateLimitError(message) => message,
            ErrorView::OverloadedError(message) => message,
        }
    }
}

/// Trusted: the text that `serde_json::Error` shows through `Display`.
/// Nothing is stated of it.
#[verifier::external_body]
fn json_error_text(error: &serde_json::Error) -> String {
    error.to_string()
}

impl AnthropicToolError {
    /// The error in words: a heading that names the kind of error,
    /// followed by its detail. For an error of `serde_json` the detail is
    /// the text that `serde_json` gives.
    pub fn to_string(&self) -> (text: String)
        ensures
            exists|json: Seq<char>| text@ == self@.heading() + #[trigger] self@.detail(json),
            !(self is SerdeJsonError) ==> text@ == self@.heading() + self@.detail(Seq::empty()),
    {
        match self {
            AnthropicToolError::ApiKeyNotSet => {
                let text =
                    "API key is not set. Set ANTHROPIC_API_KEY environment variable.".to_owned();
                assert(text@ =~= self@.heading() + self@.detail(Seq::empty()));
                text
            },
            AnthropicToolError::MissingRequiredField(field) => {
                let text = "Missing required field: ".to_owned().concat(field.as_str());
                assert(text@ == self@.heading() + self@.detail(Seq::empty()));
                text
            },
            AnthropicToolError::InvalidParameter(reason) => {
                let text = "Invalid parameter: ".to_owned().concat(reason.as_str());
                assert(text@ == self@.heading() + self@.detail(Seq::empty()));
                text
            },
            AnthropicToolError::SerdeJsonError(error) => {
                let shown = json_error_text(error);
                let text = "JSON serialization/deserialization error: ".to_owned().concat(
                    shown.as_str(),
                );
                assert(text@ == self@.heading() + self@.detail(shown@));
                text
            },
            AnthropicToolError::ApiError { error_type, message, .. } => {
                let text = "API error (".to_owned().concat(error_type.as_str()).concat("): ").concat(
                    message.as_str(),
                );
                assert(text@ =~= self@.heading() + self@.detail(Seq::empty()));
                text
            },
            AnthropicToolError::InvalidRequestError(message) => {
                let text = "Invalid request error: ".to_owned().concat(message.as_str());
                assert(text@ == self@.heading() + self@.detail(Seq::empty()));
                text
            },
            AnthropicToolError::AuthenticationError(message) => {
                let text = "Authentication error: ".to_owned().concat(message.as_str());
                assert(text@ == self@.heading() + self@.detail(Seq::empty()));
                text
            },
            AnthropicToolError::PermissionError(message) => {
                let text = "Permission error: ".to_owned().concat(message.as_str());
                assert(text@ == self@.heading() + self@.detail(Seq::empty()));
                text
            },
            AnthropicToolError::NotFoundError(message) => {
                let text = "Not found error: ".to_owned().concat(message.as_str());
                assert(text@ == self@.heading() + self@.detail(Seq::empty()));
                text
            },
            AnthropicToolError::RateLimitError(message) => {
                let text = "Rate limit error: ".to_owned().concat(message.as_str());
                assert(text@ == self@.heading() + self@.detail(Seq::empty()));
                text
            },
            AnthropicToolError::OverloadedError(message) => {
                let text = "Overloaded error: ".to_owned().concat(message.as_str());
                assert(text@ == self@.heading() + self@.detail(Seq::empty()));
                text
            },
        }
    }
}

impl From<serde_json::Error> for AnthropicToolError {
    fn from(error: serde_json::Error) -> (made: Self) {
        AnthropicToolError::SerdeJsonError(error)
    }
}

impl vstd::std_specs::convert::FromSpecImpl<serde_json::Error> for AnthropicToolError {
    open spec fn obeys_from_spec() -> bool {
        true
    }

    open spec fn from_spec(error: serde_json::Error) -> Self {
        AnthropicToolError::SerdeJsonError(error)
    }
}

impl DeepView for AnthropicToolError {
    type V = ErrorView;

    open spec fn deep_view(&self) -> ErrorView {
        self@
    }
}

/// What went wrong, as the service words it.
#[derive(Debug)]
pub struct ErrorDetail {
    /// The kind of error, such as `"rate_limit_error"`.
    pub kind: String,
    /// A sentence for the reader.
    pub message: String,
}

/// The mathematical form of an [`ErrorDetail`].
pub struct ErrorDetailView {
    pub kind: Seq<char>,
    pub message: Seq<char>,
}

impl View for ErrorDetail {
    type V = ErrorDetailView;

    open spec fn view(&self) -> ErrorDetailView {
        ErrorDetailView { kind: self.kind@, message: self.message@ }
    }
}

impl DeepView for ErrorDetail {
    type V = ErrorDetailView;

    open spec fn deep_view(&self) -> ErrorDetailView {
        self@
    }
}

impl Clone for ErrorDetail {
    fn clone(&self) -> (copy: Self)
        ensures
            copy@ == self@,
    {
        ErrorDetail { kind: self.kind.clone(), message: self.message.clone() }
    }
}

impl ErrorDetailView {
    /// The JSON form: an object with the members `type` and `message`.
    pub open spec fn to_json(self) -> JsonView {
        JsonView::Object(
            seq![("type"@, JsonView::Str(self.kind)), ("message"@, JsonView::Str(self.message))],
        )
    }

    /// Reading the JSON form of an error detail gives it back.
    pub proof fn lemma_json_round_trip(self)
        ensures
            Self::from_json(self.to_json()) == Some(self),
    {
        broadcast use {JsonView::lemma_member_of_none, JsonView::lemma_member_after_push};

        reveal_strlit("type");
        reveal_strlit("message");
        assert("type"@.len() == 4);
        assert("message"@.len() == 7);
        let first = ("type"@, JsonView::Str(self.kind));
        let second = ("message"@, JsonView::Str(self.message));
        assert(seq![first, second] =~= Seq::empty().push(first).push(second));
    }

    /// What an object with the string members `type` and `message` stands
    /// for.
    pub open spec fn from_json(json: JsonView) -> Option<ErrorDetailView> {
        match (json.string_member("type"@), json.string_member("message"@)) {
            (Some(kind), Some(message)) => Some(ErrorDetailView { kind, message }),
            _ => None,
        }
    }
}

impl ErrorDetail {
    /// The JSON form of the error detail.
    pub fn to_json(&self) -> (json: Json)
        ensures
            json@ == self@.to_json(),
    {
        let mut members: Vec<(String, Json)> = Vec::new();
        put(&mut members, "type", Json::string(self.kind.as_str()));
        put(&mut members, "message", Json::string(self.message.as_str()));
        assert(members_view(members) =~= self@.to_json()->Object_0);
        Json::object(members)
    }

    /// Reads an error detail from its JSON form.
    pub fn from_json(json: &Json) -> (detail: Option<ErrorDetail>)
        ensures
            detail.deep_view() == ErrorDetailView::from_json(json@),
    {
        let kind = json.string_member("type");
        let message = json.string_member("message");
        match (kind, message) {
            (Some(kind), Some(message)) => Some(ErrorDetail { kind, message }),
            _ => None,
        }
    }
}

/// The body of an answer that reports a failure.
#[derive(Debug)]
pub struct ErrorResponse {
    /// Always `"error"`.
    pub kind: String,
    /// What went wrong.
    pub error: ErrorDetail,
    /// The request that failed, if the service names it.
    pub request_id: Option<String>,
}

/// The mathematical form of an [`ErrorResponse`].
pub struct ErrorResponseView {
    pub kind: Seq<char>,
    pub error: ErrorDetailView,
    pub request_id: Option<Seq<char>>,
}

impl View for ErrorResponse {
    type V = ErrorResponseView;

    open spec fn view(&self) -> ErrorResponseView {
        ErrorResponseView {
            kind: self.kind@,
            error: self.error@,
            request_id: self.request_id.deep_view(),
        }
    }
}

impl DeepView for ErrorResponse {
    type V = ErrorResponseView;

    open spec fn deep_view(&self) -> ErrorResponseView {
        self@
    }
}

impl Clone for ErrorResponse {
    fn clone(&self) -> (copy: Self)
        ensures
            copy@ == self@,
    {
        ErrorResponse {
            kind: self.kind.clone(),
            error: self.error.clone(),
            request_id: self.request_id.clone(),
        }
    }
}

impl ErrorResponseView {
    /// The failure that this body reports: the variant that is named after
    /// the detail's kind, with the detail's message; for a kind without a
    /// variant of its own, `ApiError` with kind, message and request.
    pub open spec fn to_error(self) -> ErrorView {
        let kind = self.error.kind;
        let message = self.error.message;
        if kind == "invalid_request_error"@ {
            ErrorView::InvalidRequestError(message)
        } else if kind == "authentication_error"@ {
            ErrorView::AuthenticationError(message)
        } else if kind == "permission_error"@ {
            ErrorView::PermissionError(message)
        } else if kind == "not_found_error"@ {
            ErrorView::NotFoundError(message)
        } else if kind == "rate_limit_error"@ {
            ErrorView::RateLimitError(message)
        } else if kind == "overloaded_error"@ {
            ErrorView::OverloadedError(message)
        } else {
            ErrorView::ApiError { error_type: kind, message, request_id: self.request_id }
        }
    }

    /// The JSON form: an object with the members `type` and `error` and,
    /// where it is given, `request_id`.
    pub open spec fn to_json(self) -> JsonView {
        let members = seq![("type"@, JsonView::Str(self.kind)), ("error"@, self.error.to_json())];
        JsonView::Object(
            with_optional_member(
                members,
                "request_id"@,
                match self.request_id {
                    Some(id) => Some(JsonView::Str(id)),
                    None => None,
                },
            ),
        )
    }

    /// Reading the JSON form of an error body gives it back.
    pub proof fn lemma_json_round_trip(self)
        ensures
            Self::from_json(self.to_json()) == Some(self),
    {
        broadcast use {JsonView::lemma_member_of_none, JsonView::lemma_member_after_push};

        reveal_strlit("type");
        reveal_strlit("error");
        reveal_strlit("request_id");
        assert("type"@.len() == 4);
        assert("error"@.len() == 5);
        assert("request_id"@.len() == 10);
        let first = ("type"@, JsonView::Str(self.kind));
        let second = ("error"@, self.error.to_json());
        assert(seq![first, second] =~= Seq::empty().push(first).push(second));
        self.error.lemma_json_round_trip();
    }

    /// What an object with a string member `type`, a member `error` and an
    /// optional string member `request_id` stands for.
    pub open spec fn from_json(json: JsonView) -> Option<ErrorResponseView> {
        match (
            json.string_member("type"@),
            json.member("error"@),
            json.optional_string_member("request_id"@),
        ) {
            (Some(kind), Some(error), Some(request_id)) => match ErrorDetailView::from_json(error) {
                Some(error) => Some(ErrorResponseView { kind, error, request_id }),
                None => None,
            },
            _ => None,
        }
    }
}

impl ErrorResponse {
    /// The failure that this body reports.
    pub fn into_error(self) -> (error: AnthropicToolError)
        ensures
            error@ == self@.to_error(),
    {
        let ErrorResponse { kind: _, error, request_id } = self;
        let ErrorDetail { kind, message } = error;
        if str_eq(kind.as_str(), "invalid_request_error") {
            AnthropicToolError::InvalidRequestError(message)
        } else if str_eq(kind.as_str(), "authentication_error") {
            AnthropicToolError::AuthenticationError(message)
        } else if str_eq(kind.as_str(), "permission_error") {
            AnthropicToolError::PermissionError(message)
        } else if str_eq(kind.as_str(), "not_found_error") {
            AnthropicToolError::NotFoundError(message)
        } else if str_eq(kind.as_str(), "rate_limit_error") {
            AnthropicToolError::RateLimitError(message)
        } else if str_eq(kind.as_str(), "overloaded_error") {
            AnthropicToolError::OverloadedError(message)
        } else {
            AnthropicToolError::ApiError { error_type: kind, message, request_id }
        }
    }

    /// The JSON form of the error body.
    pub fn to_json(&self) -> (json: Json)
        ensures
            json@ == self@.to_json(),
    {
        let mut members: Vec<(String, Json)> = Vec::new();
        put(&mut members, "type", Json::string(self.kind.as_str()));
        put(&mut members, "error", self.error.to_json());
        assert(members_view(members) =~= seq![
            ("type"@, JsonView::Str(self.kind@)),
            ("error"@, self.error@.to_json()),
        ]);
        put_optional(&mut members, "request_id", Json::optional_string(&self.request_id));
        Json::object(members)
    }

    /// Reads an error body from its JSON form.
    pub fn from_json(json: &Json) -> (response: Option<ErrorResponse>)
        ensures
            response.deep_view() == ErrorResponseView::from_json(json@),
    {
        let kind = json.string_member("type");
        let request_id = json.optional_string_member("request_id");
        match (kind, json.member("error"), request_id) {
            (Some(kind), Some(error), Some(request_id)) => match ErrorDetail::from_json(error) {
                Some(error) => Some(ErrorResponse { kind, error, request_id }),
                None => None,
            },
            _ => None,
        }
    }
}

} // verus!
