//! Servers of the Model Context Protocol that a request may name.

use crate::common::json::{members_view, put, string_array, Json, JsonView};
use vstd::prelude::*;

verus! {

/// Which tools of a server the model may use.
#[derive(Debug, Clone)]
pub struct ToolConfiguration {
    /// The names of the tools that are allowed.
    pub allowed_tools: Vec<String>,
    /// Whether the server's tools are switched on.
    pub enabled: bool,
}

/// The mathematical form of a [`ToolConfiguration`].
pub struct ToolConfigurationView {
    pub allowed_tools: Seq<Seq<char>>,
    pub enabled: bool,
}

impl View for ToolConfiguration {
    type V = ToolConfigurationView;

    open spec fn view(&self) -> ToolConfigurationView {
        ToolConfigurationView {
            allowed_tools: self.allowed_tools.deep_view(),
            enabled: self.enabled,
        }
    }
}

impl DeepView for ToolConfiguration {
    type V = ToolConfigurationView;

    open spec fn deep_view(&self) -> ToolConfigurationView {
        self@
    }
}

impl ToolConfigurationView {
    /// The JSON form: an object with the members `allowed_tools` and
    /// `enabled`.
    pub open spec fn to_json(self) -> JsonView {
        JsonView::Object(
            seq![
                ("allowed_tools"@, string_array(self.allowed_tools)),
                ("enabled"@, JsonView::Bool(self.enabled)),
            ],
        )
    }

    /// The JSON form of a configuration that may be absent: `null` where
    /// it is.
    pub open spec fn optional_to_json(configuration: Option<ToolConfigurationView>) -> JsonView {
        match configuration {
            Some(configuration) => configuration.to_json(),
            None => JsonView::Null,
        }
    }
}

impl ToolConfiguration {
    /// The JSON form of the configuration.
    pub fn to_json(&self) -> (json: Json)
        ensures
            json@ == self@.to_json(),
    {
        let mut members: Vec<(String, Json)> = Vec::new();
        put(&mut members, "allowed_tools", Json::string_array(&self.allowed_tools));
        put(&mut members, "enabled", Json::Bool(self.enabled));
        assert(members_view(members) =~= self@.to_json()->Object_0);
        Json::object(members)
    }
}

/// A server that offers tools to the model.
#[derive(Debug, Clone)]
pub struct McpServer {
    /// The name by which the request refers to the server.
    pub name: String,
    /// The kind of server; the service knows `"url"`.
    pub kind: String,
    /// Where the server is reached.
    pub url: String,
    /// The token that the server asks for, if it asks for one.
    pub authorization_token: Option<String>,
    /// Which of the server's tools may be used.
    pub tool_configuration: Option<ToolConfiguration>,
}

/// The mathematical form of an [`McpServer`].
pub struct McpServerView {
    pub name: Seq<char>,
    pub kind: Seq<char>,
    pub url: Seq<char>,
    pub authorization_token: Option<Seq<char>>,
    pub tool_configuration: Option<ToolConfigurationView>,
}

impl View for McpServer {
    type V = McpServerView;

    open spec fn view(&self) -> McpServerView {
        McpServerView {
            name: self.name@,
            kind: self.kind@,
            url: self.url@,
            authorization_token: self.authorization_token.deep_view(),
            tool_configuration: self.tool_configuration.deep_view(),
        }
    }
}

impl DeepView for McpServer {
    type V = McpServerView;

    open spec fn deep_view(&self) -> McpServerView {
        self@
    }
}

impl McpServerView {
    /// The JSON form: an object with the members `name`, `type`, `url`,
    /// `authorization_token` and `tool_configuration`; the last two are
    /// `null` where they are absent.
    pub open spec fn to_json(self) -> JsonView {
        JsonView::Object(
            seq![
                ("name"@, JsonView::Str(self.name)),
                ("type"@, JsonView::Str(self.kind)),
                ("url"@, JsonView::Str(self.url)),
                (
                    "authorization_token"@,
                    match self.authorization_token {
                        Some(token) => JsonView::Str(token),
                        None => JsonView::Null,
                    },
                ),
                (
                    "tool_configuration"@,
                    ToolConfigurationView::optional_to_json(self.tool_configuration),
                ),
            ],
        )
    }

    /// The JSON forms of `servers`, as an array.
    pub open spec fn list_to_json(servers: Seq<McpServerView>) -> JsonView {
        JsonView::Array(Seq::new(servers.len(), |i: int| servers[i].to_json()))
    }
}

impl McpServer {
    /// The JSON form of the server.
    pub fn to_json(&self) -> (json: Json)
        ensures
            json@ == self@.to_json(),
    {
        let mut members: Vec<(String, Json)> = Vec::new();
        put(&mut members, "name", Json::string(self.name.as_str()));
        put(&mut members, "type", Json::string(self.kind.as_str()));
        put(&mut members, "url", Json::string(self.url.as_str()));
        let token = match &self.authorization_token {
            Some(token) => Json::string(token.as_str()),
            None => Json::Null,
        };
        put(&mut members, "authorization_token", token);
        let configuration = match &self.tool_configuration {
            Some(configuration) => configuration.to_json(),
            None => Json::Null,
        };
        put(&mut members, "tool_configuration", configuration);
        assert(members_view(members) =~= self@.to_json()->Object_0);
        Json::object(members)
    }

    /// The JSON forms of `servers`, as an array.
    pub fn list_to_json(servers: &Vec<McpServer>) -> (json: Json)
        ensures
            json@ == McpServerView::list_to_json(servers.deep_view()),
    {
        let mut items: Vec<Json> = Vec::new();
        let mut i: usize = 0;
        while i < servers.len()
            invariant
                i <= servers.len(),
                items.len() == i,
                forall|j: int| 0 <= j < i ==> (#[trigger] items[j])@ == servers[j]@.to_json(),
            decreases servers.len() - i,
        {
            items.push(servers[i].to_json());
            i += 1;
        }
        assert(items.deep_view() =~= McpServerView::list_to_json(servers.deep_view())->Array_0);
        Json::array(items)
    }
}

} // verus!
