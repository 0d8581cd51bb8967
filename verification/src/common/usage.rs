//! Token counts reported by the service.

use crate::common::json::{
    members_view, put, put_optional, with_optional_member, Json, JsonView,
};
use vstd::prelude::*;

verus! {

/// How many tokens a request consumed and produced.
#[derive(Debug, Clone, Copy, PartialEq, Eq, Structural)]
pub struct Usage {
    /// Tokens read from the prompt.
    pub input_tokens: usize,
    /// Tokens generated in the answer.
    pub output_tokens: usize,
    /// Prompt tokens written to the cache, when caching is in use.
    pub cache_creation_input_tokens: Option<usize>,
    /// Prompt tokens served from the cache, when caching is in use.
    pub cache_read_input_tokens: Option<usize>,
}

impl Usage {
    /// The sum of the prompt and answer tokens, as a mathematical integer.
    pub open spec fn spec_total_tokens(self) -> int {
        self.input_tokens + self.output_tokens
    }

    /// The sum of the two cache counters, an absent counter counting as zero.
    pub open spec fn spec_cached_tokens(self) -> int {
        count_or_zero(self.cache_creation_input_tokens) + count_or_zero(
            self.cache_read_input_tokens,
        )
    }

    /// What an object with the whole-number members `input_tokens` and
    /// `output_tokens`, and optionally `cache_creation_input_tokens` and
    /// `cache_read_input_tokens`, stands for.
    pub open spec fn spec_from_json(json: JsonView) -> Option<Usage> {
        match (
            json.usize_member("input_tokens"@),
            json.usize_member("output_tokens"@),
            json.optional_usize_member("cache_creation_input_tokens"@),
            json.optional_usize_member("cache_read_input_tokens"@),
        ) {
            (
                Some(input_tokens),
                Some(output_tokens),
                Some(cache_creation_input_tokens),
                Some(cache_read_input_tokens),
            ) => Some(
                Usage {
                    input_tokens,
                    output_tokens,
                    cache_creation_input_tokens,
                    cache_read_input_tokens,
                },
            ),
            _ => None,
        }
    }

    /// The JSON form: an object with the members `input_tokens` and
    /// `output_tokens` and, each where it is given,
    /// `cache_creation_input_tokens` and `cache_read_input_tokens`.
    pub open spec fn spec_to_json(self) -> JsonView {
        let members = seq![
            ("input_tokens"@, JsonView::Unsigned(self.input_tokens as u64)),
            ("output_tokens"@, JsonView::Unsigned(self.output_tokens as u64)),
        ];
        let members = with_optional_member(
            members,
            "cache_creation_input_tokens"@,
            optional_count(self.cache_creation_input_tokens),
        );
        let members = with_optional_member(
            members,
            "cache_read_input_tokens"@,
            optional_count(self.cache_read_input_tokens),
        );
        JsonView::Object(members)
    }

    /// Reading the JSON form of a usage record gives the record back.
    pub proof fn lemma_json_round_trip(self)
        ensures
            Self::spec_from_json(self.spec_to_json()) == Some(self),
    {
        broadcast use {JsonView::lemma_member_of_none, JsonView::lemma_member_after_push};

        reveal_strlit("input_tokens");
        reveal_strlit("output_tokens");
        reveal_strlit("cache_creation_input_tokens");
        reveal_strlit("cache_read_input_tokens");
        assert("input_tokens"@.len() == 12);
        assert("output_tokens"@.len() == 13);
        assert("cache_creation_input_tokens"@.len() == 27);
        assert("cache_read_input_tokens"@.len() == 23);
        let first = ("input_tokens"@, JsonView::Unsigned(self.input_tokens as u64));
        let second = ("output_tokens"@, JsonView::Unsigned(self.output_tokens as u64));
        assert(seq![first, second] =~= Seq::empty().push(first).push(second));
    }

    /// The JSON form of the usage record.
    pub fn to_json(&self) -> (json: Json)
        ensures
            json@ == self.spec_to_json(),
    {
        let mut members: Vec<(String, Json)> = Vec::new();
        put(&mut members, "input_tokens", Json::number(self.input_tokens));
        put(&mut members, "output_tokens", Json::number(self.output_tokens));
        assert(members_view(members) =~= seq![
            ("input_tokens"@, JsonView::Unsigned(self.input_tokens as u64)),
            ("output_tokens"@, JsonView::Unsigned(self.output_tokens as u64)),
        ]);
        let created = match self.cache_creation_input_tokens {
            Some(n) => Some(Json::number(n)),
            None => None,
        };
        put_optional(&mut members, "cache_creation_input_tokens", created);
        let read = match self.cache_read_input_tokens {
            Some(n) => Some(Json::number(n)),
            None => None,
        };
        put_optional(&mut members, "cache_read_input_tokens", read);
        Json::object(members)
    }

    /// Reads a usage record from its JSON form.
    pub fn from_json(json: &Json) -> (usage: Option<Usage>)
        ensures
            usage == Self::spec_from_json(json@),
    {
        let input_tokens = json.usize_member("input_tokens");
        let output_tokens = json.usize_member("output_tokens");
        let cache_creation_input_tokens = json.optional_usize_member("cache_creation_input_tokens");
        let cache_read_input_tokens = json.optional_usize_member("cache_read_input_tokens");
        match (input_tokens, output_tokens, cache_creation_input_tokens, cache_read_input_tokens) {
            (
                Some(input_tokens),
                Some(output_tokens),
                Some(cache_creation_input_tokens),
                Some(cache_read_input_tokens),
            ) => Some(
                Usage {
                    input_tokens,
                    output_tokens,
                    cache_creation_input_tokens,
                    cache_read_input_tokens,
                },
            ),
            _ => None,
        }
    }

    /// A usage record without cache counters.
    pub fn new(input_tokens: usize, output_tokens: usize) -> (usage: Self)
        ensures
            usage == (Usage {
                input_tokens,
                output_tokens,
                cache_creation_input_tokens: None,
                cache_read_input_tokens: None,
            }),
    {
        Usage {
            input_tokens,
            output_tokens,
            cache_creation_input_tokens: None,
            cache_read_input_tokens: None,
        }
    }

    /// Prompt plus answer tokens.
    pub fn total_tokens(&self) -> (total: usize)
        requires
            self.spec_total_tokens() <= usize::MAX,
        ensures
            total == self.spec_total_tokens(),
    {
        self.input_tokens + self.output_tokens
    }

    /// Tokens written to plus tokens read from the cache.
    pub fn cached_tokens(&self) -> (total: usize)
        requires
            self.spec_cached_tokens() <= usize::MAX,
        ensures
            total == self.spec_cached_tokens(),
    {
        let created: usize = match self.cache_creation_input_tokens {
            Some(n) => n,
            None => 0,
        };
        let read: usize = match self.cache_read_input_tokens {
            Some(n) => n,
            None => 0,
        };
        created + read
    }
}

/// The JSON number of a counter that may be absent.
pub open spec fn optional_count(count: Option<usize>) -> Option<JsonView> {
    match count {
        Some(n) => Some(JsonView::Unsigned(n as u64)),
        None => None,
    }
}

/// The value of an optional counter, zero when it is absent.
pub open spec fn count_or_zero(count: Option<usize>) -> int {
    match count {
        Some(n) => n as int,
        None => 0,
    }
}

impl Default for Usage {
    fn default() -> (usage: Self)
        ensures
            usage == (Usage {
                input_tokens: 0,
                output_tokens: 0,
                cache_creation_input_tokens: None,
                cache_read_input_tokens: None,
            }),
    {
        Usage {
            input_tokens: 0,
            output_tokens: 0,
            cache_creation_input_tokens: None,
            cache_read_input_tokens: None,
        }
    }
}

} // verus!
