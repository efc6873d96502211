use vstd::prelude::*;
use crate::json::{
    add_field, add_optional, field_json, flag_field, flag_opt, int_field, int_opt, json_field,
    json_int, json_list_field, json_list_opt, json_opt, json_string, keys_of,
    lemma_members_map_push_opt, members, members_map, members_of_each, no_fields, object_keys,
    object_members, push_opt, string_value, text_field, text_opt, texts_field, texts_opt,
    texts_view, to_object, Field, FieldView, JsonObject,
};

verus! {

/// The model a research task runs with.
#[derive(Clone, Copy, Debug, PartialEq, Eq, Structural)]
pub enum DeepResearchMode {
    Fast,
    Standard,
    Lite,
    Heavy,
}

impl Default for DeepResearchMode {
    fn default() -> (r: Self)
        ensures
            r == DeepResearchMode::Standard,
    {
        DeepResearchMode::Standard
    }
}

/// The status of a research task.
#[derive(Clone, Copy, Debug, PartialEq, Eq, Structural)]
pub enum DeepResearchStatus {
    Queued,
    Running,
    Completed,
    Failed,
    Cancelled,
}

/// A search request. Fields left at `None` are not sent.
#[derive(Clone, Debug)]
pub struct DeepSearchRequest {
    /// The search query.
    pub query: String,
    /// Maximum number of results.
    pub max_num_results: Option<u8>,
    /// Search type: "all", "web" or "proprietary".
    pub search_type: Option<String>,
    /// Fast mode: quicker, shorter results.
    pub fast_mode: Option<bool>,
    /// Maximum price in dollars per thousand queries, as a JSON number.
    pub max_price: Option<serde_json::Value>,
    /// Minimum relevance score of a result, as a JSON number.
    pub relevance_threshold: Option<serde_json::Value>,
    /// Sources to search in.
    pub included_sources: Option<Vec<String>>,
    /// Sources to leave out.
    pub excluded_sources: Option<Vec<String>>,
    /// Category that guides the search.
    pub category: Option<String>,
    /// Response length per result.
    pub response_length: Option<String>,
    /// Two-letter country code that biases the search.
    pub country_code: Option<String>,
    /// Whether the request comes from an AI tool call.
    pub is_tool_call: Option<bool>,
    /// Start of the date range (`YYYY-MM-DD`).
    pub start_date: Option<String>,
    /// End of the date range (`YYYY-MM-DD`).
    pub end_date: Option<String>,
}

impl DeepSearchRequest {
    /// A request for `query` with every optional field unset.
    pub fn new(query: &str) -> (r: Self)
        ensures
            r.query@ == query@,
            r.max_num_results is None && r.search_type is None && r.fast_mode is None,
            r.max_price is None && r.relevance_threshold is None,
            r.included_sources is None && r.excluded_sources is None,
            r.category is None && r.response_length is None && r.country_code is None,
            r.is_tool_call is None && r.start_date is None && r.end_date is None,
    {
        DeepSearchRequest {
            query: String::from_str(query),
            max_num_results: None,
            search_type: None,
            fast_mode: None,
            max_price: None,
            relevance_threshold: None,
            included_sources: None,
            excluded_sources: None,
            category: None,
            response_length: None,
            country_code: None,
            is_tool_call: None,
            start_date: None,
            end_date: None,
        }
    }

    /// Sets the maximum number of results.
    pub fn with_max_results(self, max: u8) -> (r: Self)
        ensures
            r == (Self { max_num_results: Some(max), ..self }),
    {
        Self { max_num_results: Some(max), ..self }
    }

    /// Sets the search type ("all", "web" or "proprietary").
    pub fn with_search_type(self, search_type: &str) -> (r: Self)
        ensures
            r.search_type is Some && r.search_type->0@ == search_type@,
            r == (Self { search_type: r.search_type, ..self }),
    {
        Self { search_type: Some(String::from_str(search_type)), ..self }
    }

    /// Turns fast mode on or off.
    pub fn with_fast_mode(self, enabled: bool) -> (r: Self)
        ensures
            r == (Self { fast_mode: Some(enabled), ..self }),
    {
        Self { fast_mode: Some(enabled), ..self }
    }

    /// Sets the response length ("short", "medium", "large" or "max").
    pub fn with_response_length(self, length: &str) -> (r: Self)
        ensures
            r.response_length is Some && r.response_length->0@ == length@,
            r == (Self { response_length: r.response_length, ..self }),
    {
        Self { response_length: Some(String::from_str(length)), ..self }
    }

    /// Sets the sources to search in.
    pub fn with_included_sources(self, sources: Vec<String>) -> (r: Self)
        ensures
            r == (Self { included_sources: Some(sources), ..self }),
    {
        Self { included_sources: Some(sources), ..self }
    }

    /// Sets the sources to leave out.
    pub fn with_excluded_sources(self, sources: Vec<String>) -> (r: Self)
        ensures
            r == (Self { excluded_sources: Some(sources), ..self }),
    {
        Self { excluded_sources: Some(sources), ..self }
    }

    /// Sets a category that guides the search.
    pub fn with_category(self, category: &str) -> (r: Self)
        ensures
            r.category is Some && r.category->0@ == category@,
            r == (Self { category: r.category, ..self }),
    {
        Self { category: Some(String::from_str(category)), ..self }
    }

    /// Sets a two-letter country code that biases the search.
    pub fn with_country_code(self, code: &str) -> (r: Self)
        ensures
            r.country_code is Some && r.country_code->0@ == code@,
            r == (Self { country_code: r.country_code, ..self }),
    {
        Self { country_code: Some(String::from_str(code)), ..self }
    }

    /// Marks the request as made by an AI tool call.
    pub fn with_is_tool_call(self, is_tool_call: bool) -> (r: Self)
        ensures
            r == (Self { is_tool_call: Some(is_tool_call), ..self }),
    {
        Self { is_tool_call: Some(is_tool_call), ..self }
    }

    /// Restricts results to a date range (`YYYY-MM-DD`).
    pub fn with_date_range(self, start: &str, end: &str) -> (r: Self)
        ensures
            r.start_date is Some && r.start_date->0@ == start@,
            r.end_date is Some && r.end_date->0@ == end@,
            r == (Self { start_date: r.start_date, end_date: r.end_date, ..self }),
    {
        Self { start_date: Some(String::from_str(start)), end_date: Some(String::from_str(end)), ..self }
    }

    /// The keys of the JSON body: the query, and each optional field that is set.
    pub open spec fn wire_keys(self) -> Set<Seq<char>> {
        Set::new(
            |k: Seq<char>|
                k == "query"@ || (self.max_num_results is Some && k == "max_num_results"@) || (
                self.search_type is Some && k == "search_type"@) || (self.fast_mode is Some && k
                == "fast_mode"@) || (self.max_price is Some && k == "max_price"@) || (
                self.relevance_threshold is Some && k == "relevance_threshold"@) || (
                self.included_sources is Some && k == "included_sources"@) || (
                self.excluded_sources is Some && k == "excluded_sources"@) || (self.category is Some
                && k == "category"@) || (self.response_length is Some && k == "response_length"@)
                || (self.country_code is Some && k == "country_code"@) || (self.is_tool_call is Some
                && k == "is_tool_call"@) || (self.start_date is Some && k == "start_date"@) || (
                self.end_date is Some && k == "end_date"@),
        )
    }

    /// The members of the JSON body, in order: the query, then each
    /// optional field that is set.
    pub open spec fn wire_members(self) -> Seq<(Seq<char>, FieldView)> {
        let n = match self.max_num_results {
            Some(n) => Some(n as i64),
            None => None,
        };
        let m = seq![("query"@, FieldView::Text(self.query@))];
        let m = push_opt(m, "max_num_results"@, int_opt(n));
        let m = push_opt(m, "search_type"@, text_opt(self.search_type));
        let m = push_opt(m, "fast_mode"@, flag_opt(self.fast_mode));
        let m = push_opt(m, "max_price"@, json_opt(self.max_price));
        let m = push_opt(m, "relevance_threshold"@, json_opt(self.relevance_threshold));
        let m = push_opt(m, "included_sources"@, texts_opt(self.included_sources));
        let m = push_opt(m, "excluded_sources"@, texts_opt(self.excluded_sources));
        let m = push_opt(m, "category"@, text_opt(self.category));
        let m = push_opt(m, "response_length"@, text_opt(self.response_length));
        let m = push_opt(m, "country_code"@, text_opt(self.country_code));
        let m = push_opt(m, "is_tool_call"@, flag_opt(self.is_tool_call));
        let m = push_opt(m, "start_date"@, text_opt(self.start_date));
        push_opt(m, "end_date"@, text_opt(self.end_date))
    }

    /// The members of the JSON body.
    pub fn body_fields(&self) -> (r: Vec<(String, Field)>)
        ensures
            members(r@) == self.wire_members(),
            keys_of(r@) == self.wire_keys(),
    {
        let mut f = no_fields();
        add_field(&mut f, "query", Field::Text(self.query.clone()));
        let n = match self.max_num_results {
            Some(n) => Some(n as i64),
            None => None,
        };
        add_optional(&mut f, "max_num_results", int_field(n));
        add_optional(&mut f, "search_type", text_field(&self.search_type));
        add_optional(&mut f, "fast_mode", flag_field(self.fast_mode));
        add_optional(&mut f, "max_price", json_field(&self.max_price));
        add_optional(&mut f, "relevance_threshold", json_field(&self.relevance_threshold));
        add_optional(&mut f, "included_sources", texts_field(&self.included_sources));
        add_optional(&mut f, "excluded_sources", texts_field(&self.excluded_sources));
        add_optional(&mut f, "category", text_field(&self.category));
        add_optional(&mut f, "response_length", text_field(&self.response_length));
        add_optional(&mut f, "country_code", text_field(&self.country_code));
        add_optional(&mut f, "is_tool_call", flag_field(self.is_tool_call));
        add_optional(&mut f, "start_date", text_field(&self.start_date));
        add_optional(&mut f, "end_date", text_field(&self.end_date));
        assert(keys_of(f@) =~= self.wire_keys());
        f
    }

    /// The JSON body of the request: each member sent as its JSON value.
    pub fn to_json(&self) -> (r: JsonObject)
        ensures
            object_members(r) == members_map(self.wire_members()),
            object_keys(r) == self.wire_keys(),
    {
        to_object(self.body_fields())
    }
}

/// The length of the content returned per URL: a preset name or a number
/// of characters. Sent as a bare JSON string or integer.
#[derive(Clone, Debug)]
pub enum ResponseLength {
    /// "short", "medium", "large" or "max".
    Preset(String),
    /// A number of characters.
    Custom(i32),
}

impl ResponseLength {
    /// The body member value for a length: the preset's name as a bare JSON
    /// string, or the number as a bare JSON integer.
    pub open spec fn wire_value(self) -> FieldView {
        match self {
            ResponseLength::Preset(s) => FieldView::Text(s@),
            ResponseLength::Custom(n) => FieldView::Int(n as int),
        }
    }

    /// The JSON value a length is sent as: a bare string or a bare integer.
    pub open spec fn wire_json(self) -> serde_json::Value {
        match self {
            ResponseLength::Preset(s) => json_string(s@),
            ResponseLength::Custom(n) => json_int(n as int),
        }
    }

    /// The body member for this length.
    pub fn to_field(&self) -> (r: Field)
        ensures
            r@ == self.wire_value(),
    {
        match self {
            ResponseLength::Preset(s) => Field::Text(s.clone()),
            ResponseLength::Custom(n) => Field::Int(*n as i64),
        }
    }
}

/// What summary to make of extracted content: on or off, instructions, or a
/// JSON schema. Sent as a bare JSON boolean, string or object.
#[derive(Clone, Debug)]
pub enum SummaryOption {
    /// The default summary, or none.
    Boolean(bool),
    /// A summary that follows these instructions.
    Instructions(String),
    /// A summary shaped by this JSON schema.
    Schema(serde_json::Value),
}

impl SummaryOption {
    /// The body member value for a summary option: a bare JSON boolean,
    /// string, or the schema itself.
    pub open spec fn wire_value(self) -> FieldView {
        match self {
            SummaryOption::Boolean(b) => FieldView::Flag(b),
            SummaryOption::Instructions(s) => FieldView::Text(s@),
            SummaryOption::Schema(v) => FieldView::Json(v),
        }
    }

    /// The body member for this option.
    pub fn to_field(&self) -> (r: Field)
        ensures
            r@ == self.wire_value(),
    {
        match self {
            SummaryOption::Boolean(b) => Field::Flag(*b),
            SummaryOption::Instructions(s) => Field::Text(s.clone()),
            SummaryOption::Schema(v) => Field::Json(v.clone()),
        }
    }
}

/// In the body of a content extraction request, a preset response length is
/// sent as a bare JSON string and a custom one as a bare JSON integer, under
/// the key `response_length`; an unset length is not sent.
pub proof fn response_length_sent_bare(req: ContentsRequest)
    ensures
        req.response_length is Some ==> members_map(req.wire_members()).contains_key(
            "response_length"@,
        ) && members_map(req.wire_members())["response_length"@]
            == req.response_length->0.wire_json(),
        req.response_length is None ==> !members_map(req.wire_members()).contains_key(
            "response_length"@,
        ),
{
    reveal_strlit("urls");
    reveal_strlit("response_length");
    reveal_strlit("extract_effort");
    reveal_strlit("summary");
    reveal_strlit("max_price_dollars");
    let length = match req.response_length {
        Some(l) => Some(l.wire_value()),
        None => None,
    };
    let summary = match req.summary {
        Some(o) => Some(o.wire_value()),
        None => None,
    };
    let m0 = seq![("urls"@, FieldView::Texts(texts_view(req.urls@)))];
    let m1 = push_opt(m0, "response_length"@, length);
    let m2 = push_opt(m1, "extract_effort"@, text_opt(req.extract_effort));
    let m3 = push_opt(m2, "summary"@, summary);
    let m4 = push_opt(m3, "max_price_dollars"@, json_opt(req.max_price_dollars));
    let e = Seq::<(Seq<char>, FieldView)>::empty();
    assert(m0.drop_last() =~= e);
    assert(members_map(e) == Map::<Seq<char>, serde_json::Value>::empty());
    assert(members_map(m0) == members_map(e).insert(
        "urls"@,
        field_json(FieldView::Texts(texts_view(req.urls@))),
    ));
    assert("urls"@.len() != "response_length"@.len());
    assert("extract_effort"@.len() != "response_length"@.len());
    assert("summary"@.len() != "response_length"@.len());
    assert("max_price_dollars"@.len() != "response_length"@.len());
    lemma_members_map_push_opt(m0, "response_length"@, length);
    lemma_members_map_push_opt(m1, "extract_effort"@, text_opt(req.extract_effort));
    lemma_members_map_push_opt(m2, "summary"@, summary);
    lemma_members_map_push_opt(m3, "max_price_dollars"@, json_opt(req.max_price_dollars));
    assert("urls"@ != "response_length"@);
    assert("extract_effort"@ != "response_length"@);
    assert("summary"@ != "response_length"@);
    assert("max_price_dollars"@ != "response_length"@);
}

/// A content extraction request for up to ten URLs. Fields left at `None`
/// are not sent.
#[derive(Clone, Debug)]
pub struct ContentsRequest {
    /// The URLs to read.
    pub urls: Vec<String>,
    /// Length of the content per URL.
    pub response_length: Option<ResponseLength>,
    /// Extraction effort: "normal", "high" or "auto".
    pub extract_effort: Option<String>,
    /// Summary of the content.
    pub summary: Option<SummaryOption>,
    /// Maximum price in dollars, as a JSON number.
    pub max_price_dollars: Option<serde_json::Value>,
}

impl ContentsRequest {
    /// A request for `urls` with every optional field unset. The list is not
    /// checked here: the service judges it.
    pub fn new(urls: Vec<String>) -> (r: Self)
        ensures
            r == (ContentsRequest {
                urls,
                response_length: None,
                extract_effort: None,
                summary: None,
                max_price_dollars: None,
            }),
    {
        ContentsRequest {
            urls,
            response_length: None,
            extract_effort: None,
            summary: None,
            max_price_dollars: None,
        }
    }

    /// Sets a preset response length ("short", "medium", "large" or "max").
    pub fn with_response_length(self, length: &str) -> (r: Self)
        ensures
            r.response_length matches Some(ResponseLength::Preset(s)) && s@ == length@,
            r == (Self { response_length: r.response_length, ..self }),
    {
        Self { response_length: Some(ResponseLength::Preset(String::from_str(length))), ..self }
    }

    /// Sets a response length in characters.
    pub fn with_custom_response_length(self, chars: i32) -> (r: Self)
        ensures
            r == (Self { response_length: Some(ResponseLength::Custom(chars)), ..self }),
    {
        Self { response_length: Some(ResponseLength::Custom(chars)), ..self }
    }

    /// Sets the extraction effort ("normal", "high" or "auto").
    pub fn with_extract_effort(self, effort: &str) -> (r: Self)
        ensures
            r.extract_effort is Some && r.extract_effort->0@ == effort@,
            r == (Self { extract_effort: r.extract_effort, ..self }),
    {
        Self { extract_effort: Some(String::from_str(effort)), ..self }
    }

    /// Turns the default summary on or off.
    pub fn with_summary(self, enabled: bool) -> (r: Self)
        ensures
            r == (Self { summary: Some(SummaryOption::Boolean(enabled)), ..self }),
    {
        Self { summary: Some(SummaryOption::Boolean(enabled)), ..self }
    }

    /// Asks for a summary that follows the given instructions.
    pub fn with_summary_instructions(self, instructions: &str) -> (r: Self)
        ensures
            r.summary matches Some(SummaryOption::Instructions(s)) && s@ == instructions@,
            r == (Self { summary: r.summary, ..self }),
    {
        Self { summary: Some(SummaryOption::Instructions(String::from_str(instructions))), ..self }
    }

    /// Asks for a summary shaped by a JSON schema.
    pub fn with_summary_schema(self, schema: serde_json::Value) -> (r: Self)
        ensures
            r == (Self { summary: Some(SummaryOption::Schema(schema)), ..self }),
    {
        Self { summary: Some(SummaryOption::Schema(schema)), ..self }
    }

    /// The keys of the JSON body: the URLs, and each optional field that is set.
    pub open spec fn wire_keys(self) -> Set<Seq<char>> {
        Set::new(
            |k: Seq<char>|
                k == "urls"@ || (self.response_length is Some && k == "response_length"@) || (
                self.extract_effort is Some && k == "extract_effort"@) || (self.summary is Some && k
                == "summary"@) || (self.max_price_dollars is Some && k == "max_price_dollars"@),
        )
    }

    /// The members of the JSON body, in order: the URLs, then each optional
    /// field that is set; the response length and the summary are sent bare,
    /// without a variant tag.
    pub open spec fn wire_members(self) -> Seq<(Seq<char>, FieldView)> {
        let length = match self.response_length {
            Some(l) => Some(l.wire_value()),
            None => None,
        };
        let summary = match self.summary {
            Some(o) => Some(o.wire_value()),
            None => None,
        };
        let m = seq![("urls"@, FieldView::Texts(texts_view(self.urls@)))];
        let m = push_opt(m, "response_length"@, length);
        let m = push_opt(m, "extract_effort"@, text_opt(self.extract_effort));
        let m = push_opt(m, "summary"@, summary);
        push_opt(m, "max_price_dollars"@, json_opt(self.max_price_dollars))
    }

    /// The members of the JSON body.
    pub fn body_fields(&self) -> (r: Vec<(String, Field)>)
        ensures
            members(r@) == self.wire_members(),
            keys_of(r@) == self.wire_keys(),
    {
        let mut f = no_fields();
        let urls = self.urls.clone();
        assert(urls@ =~= self.urls@);
        add_field(&mut f, "urls", Field::Texts(urls));
        let length = match &self.response_length {
            Some(l) => Some(l.to_field()),
            None => None,
        };
        add_optional(&mut f, "response_length", length);
        add_optional(&mut f, "extract_effort", text_field(&self.extract_effort));
        let summary = match &self.summary {
            Some(o) => Some(o.to_field()),
            None => None,
        };
        add_optional(&mut f, "summary", summary);
        add_optional(&mut f, "max_price_dollars", json_field(&self.max_price_dollars));
        assert(keys_of(f@) =~= self.wire_keys());
        f
    }

    /// The JSON body of the request: each member sent as its JSON value.
    pub fn to_json(&self) -> (r: JsonObject)
        ensures
            object_members(r) == members_map(self.wire_members()),
            object_keys(r) == self.wire_keys(),
    {
        to_object(self.body_fields())
    }
}

/// A request for an AI answer with retrieved sources. Fields left at `None`
/// are not sent.
#[derive(Clone, Debug)]
pub struct AnswerRequest {
    /// The question.
    pub query: String,
    /// Instructions for the model that writes the answer.
    pub system_instructions: Option<String>,
    /// JSON schema that the answer follows.
    pub structured_output: Option<serde_json::Value>,
    /// Search type: "all", "web" or "proprietary".
    pub search_type: Option<String>,
    /// Fast mode: quicker, shorter answers.
    pub fast_mode: Option<bool>,
    /// Maximum price in dollars for the data, as a JSON number.
    pub data_max_price: Option<serde_json::Value>,
    /// Sources to search in.
    pub included_sources: Option<Vec<String>>,
    /// Sources to leave out.
    pub excluded_sources: Option<Vec<String>>,
    /// Start of the date range (`YYYY-MM-DD`).
    pub start_date: Option<String>,
    /// End of the date range (`YYYY-MM-DD`).
    pub end_date: Option<String>,
    /// Two-letter country code that biases the search.
    pub country_code: Option<String>,
}

impl AnswerRequest {
    /// A request for `query` with every optional field unset.
    pub fn new(query: &str) -> (r: Self)
        ensures
            r.query@ == query@,
            r.system_instructions is None && r.structured_output is None,
            r.search_type is None && r.fast_mode is None && r.data_max_price is None,
            r.included_sources is None && r.excluded_sources is None,
            r.start_date is None && r.end_date is None && r.country_code is None,
    {
        AnswerRequest {
            query: String::from_str(query),
            system_instructions: None,
            structured_output: None,
            search_type: None,
            fast_mode: None,
            data_max_price: None,
            included_sources: None,
            excluded_sources: None,
            start_date: None,
            end_date: None,
            country_code: None,
        }
    }

    /// Sets instructions for the model that writes the answer.
    pub fn with_system_instructions(self, instructions: &str) -> (r: Self)
        ensures
            r.system_instructions is Some && r.system_instructions->0@ == instructions@,
            r == (Self { system_instructions: r.system_instructions, ..self }),
    {
        Self { system_instructions: Some(String::from_str(instructions)), ..self }
    }

    /// Asks for an answer shaped by a JSON schema.
    pub fn with_structured_output(self, schema: serde_json::Value) -> (r: Self)
        ensures
            r == (Self { structured_output: Some(schema), ..self }),
    {
        Self { structured_output: Some(schema), ..self }
    }

    /// Sets the search type ("all", "web" or "proprietary").
    pub fn with_search_type(self, search_type: &str) -> (r: Self)
        ensures
            r.search_type is Some && r.search_type->0@ == search_type@,
            r == (Self { search_type: r.search_type, ..self }),
    {
        Self { search_type: Some(String::from_str(search_type)), ..self }
    }

    /// Turns fast mode on or off.
    pub fn with_fast_mode(self, enabled: bool) -> (r: Self)
        ensures
            r == (Self { fast_mode: Some(enabled), ..self }),
    {
        Self { fast_mode: Some(enabled), ..self }
    }

    /// Sets the sources to search in.
    pub fn with_included_sources(self, sources: Vec<String>) -> (r: Self)
        ensures
            r == (Self { included_sources: Some(sources), ..self }),
    {
        Self { included_sources: Some(sources), ..self }
    }

    /// Sets the sources to leave out.
    pub fn with_excluded_sources(self, sources: Vec<String>) -> (r: Self)
        ensures
            r == (Self { excluded_sources: Some(sources), ..self }),
    {
        Self { excluded_sources: Some(sources), ..self }
    }

    /// Restricts results to a date range (`YYYY-MM-DD`).
    pub fn with_date_range(self, start: &str, end: &str) -> (r: Self)
        ensures
            r.start_date is Some && r.start_date->0@ == start@,
            r.end_date is Some && r.end_date->0@ == end@,
            r == (Self { start_date: r.start_date, end_date: r.end_date, ..self }),
    {
        Self { start_date: Some(String::from_str(start)), end_date: Some(String::from_str(end)), ..self }
    }

    /// Sets a two-letter country code that biases the search.
    pub fn with_country_code(self, code: &str) -> (r: Self)
        ensures
            r.country_code is Some && r.country_code->0@ == code@,
            r == (Self { country_code: r.country_code, ..self }),
    {
        Self { country_code: Some(String::from_str(code)), ..self }
    }

    /// The keys of the JSON body: the query, and each optional field that is set.
    pub open spec fn wire_keys(self) -> Set<Seq<char>> {
        Set::new(
            |k: Seq<char>|
                k == "query"@ || (self.system_instructions is Some && k == "system_instructions"@)
                    || (self.structured_output is Some && k == "structured_output"@) || (
                self.search_type is Some && k == "search_type"@) || (self.fast_mode is Some && k
                == "fast_mode"@) || (self.data_max_price is Some && k == "data_max_price"@) || (
                self.included_sources is Some && k == "included_sources"@) || (
                self.excluded_sources is Some && k == "excluded_sources"@) || (self.start_date
                is Some && k == "start_date"@) || (self.end_date is Some && k == "end_date"@) || (
                self.country_code is Some && k == "country_code"@),
        )
    }

    /// The members of the JSON body, in order: the query, then each
    /// optional field that is set.
    pub open spec fn wire_members(self) -> Seq<(Seq<char>, FieldView)> {
        let m = seq![("query"@, FieldView::Text(self.query@))];
        let m = push_opt(m, "system_instructions"@, text_opt(self.system_instructions));
        let m = push_opt(m, "structured_output"@, json_opt(self.structured_output));
        let m = push_opt(m, "search_type"@, text_opt(self.search_type));
        let m = push_opt(m, "fast_mode"@, flag_opt(self.fast_mode));
        let m = push_opt(m, "data_max_price"@, json_opt(self.data_max_price));
        let m = push_opt(m, "included_sources"@, texts_opt(self.included_sources));
        let m = push_opt(m, "excluded_sources"@, texts_opt(self.excluded_sources));
        let m = push_opt(m, "start_date"@, text_opt(self.start_date));
        let m = push_opt(m, "end_date"@, text_opt(self.end_date));
        push_opt(m, "country_code"@, text_opt(self.country_code))
    }

    /// The members of the JSON body.
    pub fn body_fields(&self) -> (r: Vec<(String, Field)>)
        ensures
            members(r@) == self.wire_members(),
            keys_of(r@) == self.wire_keys(),
    {
        let mut f = no_fields();
        add_field(&mut f, "query", Field::Text(self.query.clone()));
        add_optional(&mut f, "system_instructions", text_field(&self.system_instructions));
        add_optional(&mut f, "structured_output", json_field(&self.structured_output));
        add_optional(&mut f, "search_type", text_field(&self.search_type));
        add_optional(&mut f, "fast_mode", flag_field(self.fast_mode));
        add_optional(&mut f, "data_max_price", json_field(&self.data_max_price));
        add_optional(&mut f, "included_sources", texts_field(&self.included_sources));
        add_optional(&mut f, "excluded_sources", texts_field(&self.excluded_sources));
        add_optional(&mut f, "start_date", text_field(&self.start_date));
        add_optional(&mut f, "end_date", text_field(&self.end_date));
        add_optional(&mut f, "country_code", text_field(&self.country_code));
        assert(keys_of(f@) =~= self.wire_keys());
        f
    }

    /// The JSON body of the request: each member sent as its JSON value.
    pub fn to_json(&self) -> (r: JsonObject)
        ensures
            object_members(r) == members_map(self.wire_members()),
            object_keys(r) == self.wire_keys(),
    {
        to_object(self.body_fields())
    }
}

impl DeepResearchMode {
    /// The name of the mode on the wire.
    pub open spec fn wire_name_spec(self) -> Seq<char> {
        match self {
            DeepResearchMode::Fast => "fast"@,
            DeepResearchMode::Standard => "standard"@,
            DeepResearchMode::Lite => "lite"@,
            DeepResearchMode::Heavy => "heavy"@,
        }
    }

    /// The name of the mode on the wire.
    pub fn wire_name(&self) -> (r: &'static str)
        ensures
            r@ == self.wire_name_spec(),
    {
        match self {
            DeepResearchMode::Fast => "fast",
            DeepResearchMode::Standard => "standard",
            DeepResearchMode::Lite => "lite",
            DeepResearchMode::Heavy => "heavy",
        }
    }
}

/// A file handed to a research task.
#[derive(Clone, Debug)]
pub struct DeepResearchFileAttachment {
    /// The content, as a data URL.
    pub data: String,
    /// The file name.
    pub filename: String,
    /// The media type, such as "application/pdf".
    pub media_type: String,
    /// What the file is for.
    pub context: Option<String>,
}

impl DeepResearchFileAttachment {
    /// The keys of the JSON object: the three required ones, and the context if set.
    pub open spec fn wire_keys(self) -> Set<Seq<char>> {
        Set::new(
            |k: Seq<char>|
                k == "data"@ || k == "filename"@ || k == "mediaType"@ || (self.context is Some && k
                    == "context"@),
        )
    }

    /// The members of the JSON object, in order.
    pub open spec fn wire_members(self) -> Seq<(Seq<char>, FieldView)> {
        let m = seq![
            ("data"@, FieldView::Text(self.data@)),
            ("filename"@, FieldView::Text(self.filename@)),
            ("mediaType"@, FieldView::Text(self.media_type@)),
        ];
        push_opt(m, "context"@, text_opt(self.context))
    }

    /// The members of the JSON object, each as its JSON value.
    pub open spec fn wire_object(self) -> Map<Seq<char>, serde_json::Value> {
        members_map(self.wire_members())
    }

    /// The file as a JSON object.
    pub fn to_json(&self) -> (r: JsonObject)
        ensures
            object_members(r) == self.wire_object(),
            object_keys(r) == self.wire_keys(),
    {
        let mut f = no_fields();
        add_field(&mut f, "data", Field::Text(self.data.clone()));
        add_field(&mut f, "filename", Field::Text(self.filename.clone()));
        add_field(&mut f, "mediaType", Field::Text(self.media_type.clone()));
        add_optional(&mut f, "context", text_field(&self.context));
        assert(members(f@) =~= self.wire_members());
        assert(keys_of(f@) =~= self.wire_keys());
        to_object(f)
    }
}

/// The kind of file a deliverable is.
#[derive(Clone, Copy, Debug, PartialEq, Eq, Structural)]
pub enum DeliverableType {
    Csv,
    Xlsx,
    Pptx,
    Docx,
    Pdf,
}

impl DeliverableType {
    /// The name of the type on the wire.
    pub open spec fn wire_name_spec(self) -> Seq<char> {
        match self {
            DeliverableType::Csv => "csv"@,
            DeliverableType::Xlsx => "xlsx"@,
            DeliverableType::Pptx => "pptx"@,
            DeliverableType::Docx => "docx"@,
            DeliverableType::Pdf => "pdf"@,
        }
    }

    /// The name of the type on the wire.
    pub fn wire_name(&self) -> (r: &'static str)
        ensures
            r@ == self.wire_name_spec(),
    {
        match self {
            DeliverableType::Csv => "csv",
            DeliverableType::Xlsx => "xlsx",
            DeliverableType::Pptx => "pptx",
            DeliverableType::Docx => "docx",
            DeliverableType::Pdf => "pdf",
        }
    }
}

/// A file that a research task is asked to produce.
#[derive(Clone, Debug)]
pub struct Deliverable {
    /// The kind of file.
    pub deliverable_type: DeliverableType,
    /// What the file holds.
    pub description: String,
    /// Column names, for tables.
    pub columns: Option<Vec<String>>,
    /// Whether tables have a header row.
    pub include_headers: Option<bool>,
    /// Sheet name, for workbooks.
    pub sheet_name: Option<String>,
    /// Number of slides, for presentations.
    pub slides: Option<i32>,
    /// Template name.
    pub template: Option<String>,
}

impl Deliverable {
    /// The keys of the JSON object: type and description, and each optional field that is set.
    pub open spec fn wire_keys(self) -> Set<Seq<char>> {
        Set::new(
            |k: Seq<char>|
                k == "type"@ || k == "description"@ || (self.columns is Some && k == "columns"@)
                    || (self.include_headers is Some && k == "includeHeaders"@) || (
                self.sheet_name is Some && k == "sheetName"@) || (self.slides is Some && k
                == "slides"@) || (self.template is Some && k == "template"@),
        )
    }

    /// The members of the JSON object, in order.
    pub open spec fn wire_members(self) -> Seq<(Seq<char>, FieldView)> {
        let slides = match self.slides {
            Some(n) => Some(n as i64),
            None => None,
        };
        let m = seq![
            ("type"@, FieldView::Text(self.deliverable_type.wire_name_spec())),
            ("description"@, FieldView::Text(self.description@)),
        ];
        let m = push_opt(m, "columns"@, texts_opt(self.columns));
        let m = push_opt(m, "includeHeaders"@, flag_opt(self.include_headers));
        let m = push_opt(m, "sheetName"@, text_opt(self.sheet_name));
        let m = push_opt(m, "slides"@, int_opt(slides));
        push_opt(m, "template"@, text_opt(self.template))
    }

    /// The deliverable as a JSON object.
    pub fn to_json(&self) -> (r: JsonObject)
        ensures
            object_members(r) == members_map(self.wire_members()),
            object_keys(r) == self.wire_keys(),
    {
        let mut f = no_fields();
        add_field(&mut f, "type", Field::Text(String::from_str(self.deliverable_type.wire_name())));
        add_field(&mut f, "description", Field::Text(self.description.clone()));
        add_optional(&mut f, "columns", texts_field(&self.columns));
        add_optional(&mut f, "includeHeaders", flag_field(self.include_headers));
        add_optional(&mut f, "sheetName", text_field(&self.sheet_name));
        let slides = match self.slides {
            Some(n) => Some(n as i64),
            None => None,
        };
        add_optional(&mut f, "slides", int_field(slides));
        add_optional(&mut f, "template", text_field(&self.template));
        assert(members(f@) =~= self.wire_members());
        assert(keys_of(f@) =~= self.wire_keys());
        to_object(f)
    }
}

/// An MCP server that a research task may call.
#[derive(Clone, Debug)]
pub struct DeepResearchMCPServerConfig {
    /// The server URL.
    pub url: String,
    /// A name for the server.
    pub name: Option<String>,
    /// A prefix for the server's tool names.
    pub tool_prefix: Option<String>,
    /// Authentication settings.
    pub auth: Option<serde_json::Value>,
    /// The tools that may be used.
    pub allowed_tools: Option<Vec<String>>,
}

impl DeepResearchMCPServerConfig {
    /// The keys of the JSON object: the URL, and each optional field that is set.
    pub open spec fn wire_keys(self) -> Set<Seq<char>> {
        Set::new(
            |k: Seq<char>|
                k == "url"@ || (self.name is Some && k == "name"@) || (self.tool_prefix is Some && k
                    == "toolPrefix"@) || (self.auth is Some && k == "auth"@) || (
                self.allowed_tools is Some && k == "allowedTools"@),
        )
    }

    /// The members of the JSON object, in order.
    pub open spec fn wire_members(self) -> Seq<(Seq<char>, FieldView)> {
        let m = seq![("url"@, FieldView::Text(self.url@))];
        let m = push_opt(m, "name"@, text_opt(self.name));
        let m = push_opt(m, "toolPrefix"@, text_opt(self.tool_prefix));
        let m = push_opt(m, "auth"@, json_opt(self.auth));
        push_opt(m, "allowedTools"@, texts_opt(self.allowed_tools))
    }

    /// The members of the JSON object, each as its JSON value.
    pub open spec fn wire_object(self) -> Map<Seq<char>, serde_json::Value> {
        members_map(self.wire_members())
    }

    /// The server as a JSON object.
    pub fn to_json(&self) -> (r: JsonObject)
        ensures
            object_members(r) == self.wire_object(),
            object_keys(r) == self.wire_keys(),
    {
        let mut f = no_fields();
        add_field(&mut f, "url", Field::Text(self.url.clone()));
        add_optional(&mut f, "name", text_field(&self.name));
        add_optional(&mut f, "toolPrefix", text_field(&self.tool_prefix));
        add_optional(&mut f, "auth", json_field(&self.auth));
        add_optional(&mut f, "allowedTools", texts_field(&self.allowed_tools));
        assert(members(f@) =~= self.wire_members());
        assert(keys_of(f@) =~= self.wire_keys());
        to_object(f)
    }
}

/// How a research task searches.
#[derive(Clone, Debug)]
pub struct DeepResearchSearchConfig {
    /// Search type: "all", "web" or "proprietary".
    pub search_type: Option<String>,
    /// Sources to search in.
    pub included_sources: Option<Vec<String>>,
}

impl DeepResearchSearchConfig {
    /// The keys of the JSON object: each field that is set.
    pub open spec fn wire_keys(self) -> Set<Seq<char>> {
        Set::new(
            |k: Seq<char>|
                (self.search_type is Some && k == "searchType"@) || (self.included_sources is Some
                    && k == "includedSources"@),
        )
    }

    /// The members of the JSON object, in order.
    pub open spec fn wire_members(self) -> Seq<(Seq<char>, FieldView)> {
        let m = push_opt(Seq::empty(), "searchType"@, text_opt(self.search_type));
        push_opt(m, "includedSources"@, texts_opt(self.included_sources))
    }

    /// The members of the JSON object, each as its JSON value.
    pub open spec fn wire_object(self) -> Map<Seq<char>, serde_json::Value> {
        members_map(self.wire_members())
    }

    /// The configuration as a JSON object.
    pub fn to_json(&self) -> (r: JsonObject)
        ensures
            object_members(r) == self.wire_object(),
            object_keys(r) == self.wire_keys(),
    {
        let mut f = no_fields();
        add_optional(&mut f, "searchType", text_field(&self.search_type));
        add_optional(&mut f, "includedSources", texts_field(&self.included_sources));
        assert(members(f@) =~= self.wire_members());
        assert(keys_of(f@) =~= self.wire_keys());
        to_object(f)
    }
}

/// A request to start a research task. Fields left at `None` are not sent.
#[derive(Clone, Debug)]
pub struct DeepResearchCreateRequest {
    /// The research question or instructions.
    pub input: String,
    /// The research mode.
    pub model: Option<DeepResearchMode>,
    /// Output formats: names such as "markdown" or "pdf", or a JSON schema.
    pub output_formats: Option<Vec<serde_json::Value>>,
    /// Instructions on how to research.
    pub strategy: Option<String>,
    /// Search configuration.
    pub search: Option<DeepResearchSearchConfig>,
    /// URLs to read.
    pub urls: Option<Vec<String>>,
    /// Files to read.
    pub files: Option<Vec<DeepResearchFileAttachment>>,
    /// Deliverables to produce.
    pub deliverables: Option<Vec<serde_json::Value>>,
    /// MCP servers to use.
    pub mcp_servers: Option<Vec<DeepResearchMCPServerConfig>>,
    /// Whether code may be run.
    pub code_execution: Option<bool>,
    /// Earlier reports to build on.
    pub previous_reports: Option<Vec<String>>,
    /// URL to notify when the task ends.
    pub webhook_url: Option<String>,
    /// Metadata kept with the task.
    pub metadata: Option<serde_json::Value>,
}

impl DeepResearchCreateRequest {
    /// A request for `input` with every optional field unset.
    pub fn new(input: &str) -> (r: Self)
        ensures
            r.input@ == input@,
            r.model is None && r.output_formats is None && r.strategy is None,
            r.search is None && r.urls is None && r.files is None && r.deliverables is None,
            r.mcp_servers is None && r.code_execution is None && r.previous_reports is None,
            r.webhook_url is None && r.metadata is None,
    {
        DeepResearchCreateRequest {
            input: String::from_str(input),
            model: None,
            output_formats: None,
            strategy: None,
            search: None,
            urls: None,
            files: None,
            deliverables: None,
            mcp_servers: None,
            code_execution: None,
            previous_reports: None,
            webhook_url: None,
            metadata: None,
        }
    }

    /// Sets the output formats by name ("markdown", "pdf", ...), each sent as
    /// a JSON string.
    pub fn with_output_formats(self, formats: Vec<String>) -> (r: Self)
        ensures
            r.output_formats is Some,
            r.output_formats->0@.len() == formats@.len(),
            forall|i: int|
                0 <= i < formats@.len() ==> #[trigger] r.output_formats->0@[i] == json_string(
                    formats@[i]@,
                ),
            r == (Self { output_formats: r.output_formats, ..self }),
    {
        let mut values: Vec<serde_json::Value> = Vec::new();
        let mut i: usize = 0;
        while i < formats.len()
            invariant
                i <= formats@.len(),
                values@.len() == i,
                forall|j: int| 0 <= j < i ==> #[trigger] values@[j] == json_string(formats@[j]@),
            decreases formats@.len() - i,
        {
            values.push(string_value(formats[i].clone()));
            i = i + 1;
        }
        Self { output_formats: Some(values), ..self }
    }

    /// Sets the research mode.
    pub fn with_mode(self, mode: DeepResearchMode) -> (r: Self)
        ensures
            r == (Self { model: Some(mode), ..self }),
    {
        Self { model: Some(mode), ..self }
    }

    /// Asks for a structured output shaped by a JSON schema.
    pub fn with_structured_output(self, schema: serde_json::Value) -> (r: Self)
        ensures
            r.output_formats is Some && r.output_formats->0@ == seq![schema],
            r == (Self { output_formats: r.output_formats, ..self }),
    {
        Self { output_formats: Some(vec![schema]), ..self }
    }

    /// Sets instructions on how to research.
    pub fn with_strategy(self, strategy: &str) -> (r: Self)
        ensures
            r.strategy is Some && r.strategy->0@ == strategy@,
            r == (Self { strategy: r.strategy, ..self }),
    {
        Self { strategy: Some(String::from_str(strategy)), ..self }
    }

    /// Sets the search configuration.
    pub fn with_search(self, search: DeepResearchSearchConfig) -> (r: Self)
        ensures
            r == (Self { search: Some(search), ..self }),
    {
        Self { search: Some(search), ..self }
    }

    /// Sets URLs to read during the research.
    pub fn with_urls(self, urls: Vec<String>) -> (r: Self)
        ensures
            r == (Self { urls: Some(urls), ..self }),
    {
        Self { urls: Some(urls), ..self }
    }

    /// Sets files to read during the research.
    pub fn with_files(self, files: Vec<DeepResearchFileAttachment>) -> (r: Self)
        ensures
            r == (Self { files: Some(files), ..self }),
    {
        Self { files: Some(files), ..self }
    }

    /// Sets the deliverables to produce.
    pub fn with_deliverables(self, deliverables: Vec<serde_json::Value>) -> (r: Self)
        ensures
            r == (Self { deliverables: Some(deliverables), ..self }),
    {
        Self { deliverables: Some(deliverables), ..self }
    }

    /// Sets MCP servers that the research may use.
    pub fn with_mcp_servers(self, servers: Vec<DeepResearchMCPServerConfig>) -> (r: Self)
        ensures
            r == (Self { mcp_servers: Some(servers), ..self }),
    {
        Self { mcp_servers: Some(servers), ..self }
    }

    /// Turns code execution on or off.
    pub fn with_code_execution(self, enabled: bool) -> (r: Self)
        ensures
            r == (Self { code_execution: Some(enabled), ..self }),
    {
        Self { code_execution: Some(enabled), ..self }
    }

    /// Sets earlier reports to build on.
    pub fn with_previous_reports(self, report_ids: Vec<String>) -> (r: Self)
        ensures
            r == (Self { previous_reports: Some(report_ids), ..self }),
    {
        Self { previous_reports: Some(report_ids), ..self }
    }

    /// Sets a URL to notify when the task ends.
    pub fn with_webhook_url(self, url: &str) -> (r: Self)
        ensures
            r.webhook_url is Some && r.webhook_url->0@ == url@,
            r == (Self { webhook_url: r.webhook_url, ..self }),
    {
        Self { webhook_url: Some(String::from_str(url)), ..self }
    }

    /// Sets metadata kept with the task.
    pub fn with_metadata(self, metadata: serde_json::Value) -> (r: Self)
        ensures
            r == (Self { metadata: Some(metadata), ..self }),
    {
        Self { metadata: Some(metadata), ..self }
    }

    /// The keys of the JSON body: the input, and each optional field that is set.
    pub open spec fn wire_keys(self) -> Set<Seq<char>> {
        Set::new(
            |k: Seq<char>|
                k == "input"@ || (self.model is Some && k == "model"@) || (self.output_formats
                    is Some && k == "outputFormats"@) || (self.strategy is Some && k
                == "strategy"@) || (self.search is Some && k == "search"@) || (self.urls is Some
                && k == "urls"@) || (self.files is Some && k == "files"@) || (self.deliverables
                is Some && k == "deliverables"@) || (self.mcp_servers is Some && k
                == "mcpServers"@) || (self.code_execution is Some && k == "codeExecution"@) || (
                self.previous_reports is Some && k == "previousReports"@) || (self.webhook_url
                is Some && k == "webhookUrl"@) || (self.metadata is Some && k == "metadata"@),
        )
    }

    /// The members of the JSON body, in order: the input, then each optional
    /// field that is set; nested configurations are objects with their own keys.
    pub open spec fn wire_members(self) -> Seq<(Seq<char>, FieldView)> {
        let model = match self.model {
            Some(m) => Some(FieldView::Text(m.wire_name_spec())),
            None => None,
        };
        let search = match self.search {
            Some(c) => Some(FieldView::Object(c.wire_object())),
            None => None,
        };
        let files = match self.files {
            Some(v) => Some(
                FieldView::Objects(v@.map_values(|a: DeepResearchFileAttachment| a.wire_object())),
            ),
            None => None,
        };
        let servers = match self.mcp_servers {
            Some(v) => Some(
                FieldView::Objects(v@.map_values(|c: DeepResearchMCPServerConfig| c.wire_object())),
            ),
            None => None,
        };
        let m = seq![("input"@, FieldView::Text(self.input@))];
        let m = push_opt(m, "model"@, model);
        let m = push_opt(m, "outputFormats"@, json_list_opt(self.output_formats));
        let m = push_opt(m, "strategy"@, text_opt(self.strategy));
        let m = push_opt(m, "search"@, search);
        let m = push_opt(m, "urls"@, texts_opt(self.urls));
        let m = push_opt(m, "files"@, files);
        let m = push_opt(m, "deliverables"@, json_list_opt(self.deliverables));
        let m = push_opt(m, "mcpServers"@, servers);
        let m = push_opt(m, "codeExecution"@, flag_opt(self.code_execution));
        let m = push_opt(m, "previousReports"@, texts_opt(self.previous_reports));
        let m = push_opt(m, "webhookUrl"@, text_opt(self.webhook_url));
        push_opt(m, "metadata"@, json_opt(self.metadata))
    }

    /// The members of the JSON body.
    pub fn body_fields(&self) -> (r: Vec<(String, Field)>)
        ensures
            members(r@) == self.wire_members(),
            keys_of(r@) == self.wire_keys(),
    {
        let mut f = no_fields();
        add_field(&mut f, "input", Field::Text(self.input.clone()));
        let model = match &self.model {
            Some(m) => Some(Field::Text(String::from_str(m.wire_name()))),
            None => None,
        };
        add_optional(&mut f, "model", model);
        add_optional(&mut f, "outputFormats", json_list_field(&self.output_formats));
        add_optional(&mut f, "strategy", text_field(&self.strategy));
        let search = match &self.search {
            Some(c) => Some(Field::Object(c.to_json())),
            None => None,
        };
        add_optional(&mut f, "search", search);
        add_optional(&mut f, "urls", texts_field(&self.urls));
        let files = match &self.files {
            Some(list) => {
                let mut objects: Vec<JsonObject> = Vec::new();
                let mut i: usize = 0;
                while i < list.len()
                    invariant
                        i <= list@.len(),
                        objects@.len() == i,
                        forall|j: int|
                            0 <= j < i ==> object_members(#[trigger] objects@[j])
                                == list@[j].wire_object(),
                    decreases list@.len() - i,
                {
                    objects.push(list[i].to_json());
                    i = i + 1;
                }
                assert(members_of_each(objects@) =~= list@.map_values(
                    |a: DeepResearchFileAttachment| a.wire_object(),
                ));
                Some(Field::Objects(objects))
            },
            None => None,
        };
        add_optional(&mut f, "files", files);
        add_optional(&mut f, "deliverables", json_list_field(&self.deliverables));
        let servers = match &self.mcp_servers {
            Some(list) => {
                let mut objects: Vec<JsonObject> = Vec::new();
                let mut i: usize = 0;
                while i < list.len()
                    invariant
                        i <= list@.len(),
                        objects@.len() == i,
                        forall|j: int|
                            0 <= j < i ==> object_members(#[trigger] objects@[j])
                                == list@[j].wire_object(),
                    decreases list@.len() - i,
                {
                    objects.push(list[i].to_json());
                    i = i + 1;
                }
                assert(members_of_each(objects@) =~= list@.map_values(
                    |c: DeepResearchMCPServerConfig| c.wire_object(),
                ));
                Some(Field::Objects(objects))
            },
            None => None,
        };
        add_optional(&mut f, "mcpServers", servers);
        add_optional(&mut f, "codeExecution", flag_field(self.code_execution));
        add_optional(&mut f, "previousReports", texts_field(&self.previous_reports));
        add_optional(&mut f, "webhookUrl", text_field(&self.webhook_url));
        add_optional(&mut f, "metadata", json_field(&self.metadata));
        assert(keys_of(f@) =~= self.wire_keys());
        f
    }

    /// The JSON body of the request: each member sent as its JSON value.
    pub fn to_json(&self) -> (r: JsonObject)
        ensures
            object_members(r) == members_map(self.wire_members()),
            object_keys(r) == self.wire_keys(),
    {
        to_object(self.body_fields())
    }
}

/// How many search results came from each kind of source.
#[derive(Clone, Debug)]
pub struct ResultsBySource {
    /// Results from the web.
    pub web: Option<i32>,
    /// Results from proprietary sources.
    pub proprietary: Option<i32>,
}

/// A source that an answer drew on.
#[derive(Clone, Debug)]
pub struct AnswerSearchResult {
    /// Title of the source.
    pub title: Option<String>,
    /// URL of the source.
    pub url: Option<String>,
    /// Snippet of its content.
    pub snippet: Option<String>,
    /// Its date.
    pub date: Option<String>,
    /// Its length in characters.
    pub length: Option<i32>,
}

/// Metadata of the search behind an answer.
#[derive(Clone, Debug)]
pub struct AnswerSearchMetadata {
    /// Transaction id of the search.
    pub search_tx_id: Option<String>,
    /// Number of results.
    pub result_count: Option<i32>,
    /// Characters processed.
    pub total_characters: Option<i32>,
}

/// Tokens used by the model that wrote an answer.
#[derive(Clone, Debug)]
pub struct AiUsage {
    /// Input tokens.
    pub input_tokens: Option<i32>,
    /// Output tokens.
    pub output_tokens: Option<i32>,
}

/// Whether a deliverable was produced.
#[derive(Clone, Copy, Debug, PartialEq, Eq, Structural)]
pub enum DeliverableStatus {
    Completed,
    Failed,
}

/// A deliverable that a research task produced, or failed to.
#[derive(Clone, Debug)]
pub struct DeliverableResult {
    /// Its id.
    pub id: String,
    /// The request it answers.
    pub request: String,
    /// The kind of file.
    pub deliverable_type: String,
    /// Whether it was produced.
    pub status: DeliverableStatus,
    /// Its title.
    pub title: String,
    /// Its description.
    pub description: Option<String>,
    /// Where to download it.
    pub url: String,
    /// Its storage key.
    pub s3_key: String,
    /// Rows, for tables.
    pub row_count: Option<i32>,
    /// Columns, for tables.
    pub column_count: Option<i32>,
    /// Why it failed.
    pub error: Option<String>,
    /// When it was made, in milliseconds since the epoch.
    pub created_at: i64,
}

/// The reply to a request to start a research task.
#[derive(Clone, Debug)]
pub struct DeepResearchCreateResponse {
    /// Whether the task was started.
    pub success: bool,
    /// The task's id.
    pub deepresearch_id: Option<String>,
    /// Its status.
    pub status: Option<DeepResearchStatus>,
    /// Its mode.
    pub model: Option<DeepResearchMode>,
    /// When it was made.
    pub created_at: Option<String>,
    /// The metadata given with it.
    pub metadata: Option<serde_json::Value>,
    /// Whether it is public.
    pub public: Option<bool>,
    /// Secret that signs webhook calls.
    pub webhook_secret: Option<String>,
    /// A message from the service.
    pub message: Option<String>,
    /// The error, where it was not started.
    pub error: Option<String>,
}

/// Progress of a running research task.
#[derive(Clone, Debug)]
pub struct DeepResearchProgress {
    /// The step being run.
    pub current_step: i32,
    /// The steps in all.
    pub total_steps: i32,
}

/// An image that a research task made.
#[derive(Clone, Debug)]
pub struct DeepResearchImage {
    /// Its id.
    pub image_id: String,
    /// Its kind, such as "chart".
    pub image_type: String,
    /// The task that made it.
    pub deepresearch_id: String,
    /// Its title.
    pub title: String,
    /// Its description.
    pub description: Option<String>,
    /// Where to download it.
    pub image_url: String,
    /// Its storage key.
    pub s3_key: String,
    /// When it was made, in milliseconds since the epoch.
    pub created_at: i64,
    /// The kind of chart, for charts.
    pub chart_type: Option<String>,
}

/// The list of research tasks of an API key.
#[derive(Clone, Debug)]
pub struct DeepResearchListResponse {
    /// Whether the list could be read.
    pub success: bool,
    /// The tasks.
    pub data: Option<Vec<DeepResearchTaskListItem>>,
    /// The error, where it could not.
    pub error: Option<String>,
}

/// One research task in a list.
#[derive(Clone, Debug)]
pub struct DeepResearchTaskListItem {
    /// Its id.
    pub deepresearch_id: String,
    /// Its question.
    pub query: String,
    /// Its status.
    pub status: DeepResearchStatus,
    /// When it was made, in milliseconds since the epoch.
    pub created_at: i64,
    /// Whether it is public.
    pub public: Option<bool>,
}

/// The reply to an update, cancel or delete of a research task.
#[derive(Clone, Debug)]
pub struct DeepResearchOperationResponse {
    /// Whether it was done.
    pub success: bool,
    /// A message from the service.
    pub message: Option<String>,
    /// The task.
    pub deepresearch_id: Option<String>,
    /// The error, where it was not done.
    pub error: Option<String>,
}

} // verus!
