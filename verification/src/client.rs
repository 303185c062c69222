//! The requests that the service takes, and how their addresses are
//! written.

use vstd::prelude::*;
use vstd::string::StringExecFns;
use crate::decimal::decimal;
use crate::decimal::to_decimal;
use crate::types;

verus! {

/// Where the service is found.
pub const BASE_URI: &'static str = "https://generativelanguage.googleapis.com";

/// The HTTP method of a request.
#[derive(Debug, Clone, Copy, PartialEq, Eq, Structural)]
pub enum Method {
    Get,
    Post,
}

/// What a [`Formatter`] has written, and whether a query parameter is still
/// to come first.
pub ghost struct Written {
    pub text: Seq<char>,
    pub is_first: bool,
}

/// `w` after `s` was written.
pub open spec fn with_str(w: Written, s: Seq<char>) -> Written {
    Written { text: w.text + s, is_first: w.is_first }
}

/// `w` after the query parameter `key=value` was written: behind a `?` if
/// it is the first, else behind a `&`.
pub open spec fn with_query_param(w: Written, key: Seq<char>, value: Seq<char>) -> Written {
    Written {
        text: w.text + seq![if w.is_first { '?' } else { '&' }] + key + seq!['='] + value,
        is_first: false,
    }
}

/// `w` after the query parameter was written if it has a value.
pub open spec fn with_optional_query_param(
    w: Written,
    key: Seq<char>,
    value: Option<Seq<char>>,
) -> Written {
    match value {
        Some(v) => with_query_param(w, key, v),
        None => w,
    }
}

/// Writes the path and the query of a request's address.
#[derive(Debug)]
pub struct Formatter {
    out: String,
    is_first: bool,
}

impl View for Formatter {
    type V = Written;

    closed spec fn view(&self) -> Written {
        Written { text: self.out@, is_first: self.is_first }
    }
}

impl Formatter {
    /// A formatter that has written nothing.
    pub fn new() -> (r: Self)
        ensures
            r@ == (Written { text: Seq::empty(), is_first: true }),
    {
        Formatter { out: String::new(), is_first: true }
    }

    /// Writes `s` as it is.
    pub fn write_str(&mut self, s: &str)
        ensures
            final(self)@ == with_str(old(self)@, s@),
    {
        self.out.append(s);
    }

    /// Writes `key=value` as the next query parameter.
    pub fn write_query_param(&mut self, key: &str, value: &str)
        ensures
            final(self)@ == with_query_param(old(self)@, key@, value@),
    {
        proof {
            reveal_strlit("?");
            reveal_strlit("&");
            reveal_strlit("=");
        }
        if self.is_first {
            self.out.append("?");
            self.is_first = false;
        } else {
            self.out.append("&");
        }
        self.out.append(key);
        self.out.append("=");
        self.out.append(value);
        assert("?"@ =~= seq!['?']);
        assert("&"@ =~= seq!['&']);
        assert("="@ =~= seq!['=']);
    }

    /// Writes `key=value` as the next query parameter if there is a value.
    pub fn write_optional_query_param(&mut self, key: &str, value: Option<&str>)
        ensures
            final(self)@ == with_optional_query_param(
                old(self)@,
                key@,
                match value {
                    Some(v) => Some(v@),
                    None => None,
                },
            ),
    {
        if let Some(value) = value {
            self.write_query_param(key, value)
        }
    }

    /// What was written.
    pub fn finish(self) -> (r: String)
        ensures
            r@ == self@.text,
    {
        self.out
    }
}

/// A request that the service takes: its method and the path and query of
/// its address.
pub trait Request {
    /// What [`Self::format_uri`] leaves written, given what was written
    /// before.
    spec fn formatted(&self, before: Written) -> Written;

    /// The method that [`Self::method`] gives.
    spec fn verb(&self) -> Method;

    /// The HTTP method to send the request with.
    fn method(&self) -> (m: Method)
        ensures
            m == self.verb(),
    ;

    /// Writes the path of the request and the query parameters of its own.
    fn format_uri(&self, fmt: &mut Formatter)
        ensures
            final(fmt)@ == self.formatted(old(fmt)@),
    ;
}

/// Nothing written, and no query parameter yet.
pub open spec fn blank() -> Written {
    Written { text: Seq::empty(), is_first: true }
}

/// Path and query of a request to `kind` that is made with the API key
/// `key`: what the request writes, and then the key as a query parameter.
pub open spec fn route_text<T: Request>(kind: &T, key: Seq<char>) -> Seq<char> {
    with_query_param(kind.formatted(blank()), "key"@, key).text
}

/// Path and query of a request to `kind` that is made with the API key
/// `key`.
pub fn route<T: Request>(kind: &T, key: &str) -> (r: String)
    ensures
        r@ == route_text(kind, key@),
{
    let mut fmt = Formatter::new();
    kind.format_uri(&mut fmt);
    fmt.write_query_param("key", key);
    fmt.finish()
}

/// The address of a request to `kind` that is made with the API key `key`:
/// the service's address, a `/`, and path and query.
pub fn url<T: Request>(kind: &T, key: &str) -> (r: String)
    ensures
        r@ == BASE_URI@ + seq!['/'] + route_text(kind, key@),
{
    proof {
        reveal_strlit("/");
    }
    let mut out = String::from_str(BASE_URI);
    out.append("/");
    let tail = route(kind, key);
    out.append(tail.as_str());
    assert("/"@ =~= seq!['/']);
    out
}

/// A request for content from one model.
#[derive(Debug)]
pub struct GenerateContent {
    model: String,
    pub body: types::GenerateContent,
}

impl GenerateContent {
    /// The name of the model that is asked.
    pub closed spec fn model_name(&self) -> Seq<char> {
        self.model@
    }

    /// The body of the request.
    pub closed spec fn payload(&self) -> types::GenerateContent {
        self.body
    }

    /// A request to `model` without content.
    pub fn new(model: &str) -> (r: Self)
        ensures
            r.model_name() == model@,
            r.payload().is_blank(),
    {
        GenerateContent { model: String::from_str(model), body: types::GenerateContent::default() }
    }

    /// The name of the model that is asked.
    pub fn model(&self) -> (r: &str)
        ensures
            r@ == self.model_name(),
    {
        self.model.as_str()
    }

    /// Sets the generation settings.
    pub fn config(&mut self, config: types::GenerationConfig)
        ensures
            final(self).model_name() == old(self).model_name(),
            final(self).payload() == (types::GenerateContent {
                generation_config: Some(config),
                ..old(self).payload()
            }),
    {
        self.body.generation_config = Some(config);
    }

    /// Sets the safety settings.
    pub fn safety_settings(&mut self, safety_settings: Vec<types::SafetySettings>)
        ensures
            final(self).model_name() == old(self).model_name(),
            final(self).payload() == (types::GenerateContent { safety_settings, ..old(self).payload() }),
    {
        self.body.safety_settings = safety_settings;
    }

    /// Sets the system instruction to the one text `instruction`.
    pub fn system_instruction(&mut self, instruction: &str)
        ensures
            final(self).model_name() == old(self).model_name(),
            final(self).payload().system_instruction matches Some(content) && content.parts@.len() == 1
                && (content.parts@[0].text matches Some(t) && t@ == instruction@),
            final(self).payload() == (types::GenerateContent {
                system_instruction: final(self).payload().system_instruction,
                ..old(self).payload()
            }),
    {
        let mut parts: Vec<types::SystemInstructionPart> = Vec::new();
        parts.push(types::SystemInstructionPart { text: Some(String::from_str(instruction)) });
        self.body.system_instruction = Some(types::SystemInstructionContent { parts });
    }

    /// Sets how tools are to be used.
    pub fn tool_config(&mut self, conf: types::ToolConfig)
        ensures
            final(self).model_name() == old(self).model_name(),
            final(self).payload() == (types::GenerateContent {
                tool_config: Some(conf),
                ..old(self).payload()
            }),
    {
        self.body.tool_config = Some(conf);
    }

    /// Replaces the messages of the request.
    pub fn contents(&mut self, contents: Vec<types::Content>)
        ensures
            final(self).model_name() == old(self).model_name(),
            final(self).payload() == (types::GenerateContent { contents, ..old(self).payload() }),
    {
        self.body.contents = contents;
    }

    /// Puts a message of the user with the text `message` behind the
    /// messages of the request.
    pub fn message(&mut self, message: &str)
        ensures
            final(self).model_name() == old(self).model_name(),
            final(self).payload().contents@.len() == old(self).payload().contents@.len() + 1,
            final(self).payload().contents@.drop_last() == old(self).payload().contents@,
            final(self).payload().contents@.last().is_user_text(message@),
            final(self).payload() == (types::GenerateContent {
                contents: final(self).payload().contents,
                ..old(self).payload()
            }),
    {
        self.body.contents.push(types::Content::user_text(message));
        assert(self.body.contents@.drop_last() =~= old(self).payload().contents@);
    }

    /// Sets the tools that the model may use.
    pub fn tools(&mut self, tools: Vec<types::Tools>)
        ensures
            final(self).model_name() == old(self).model_name(),
            final(self).payload() == (types::GenerateContent { tools, ..old(self).payload() }),
    {
        self.body.tools = tools;
    }
}

impl Request for GenerateContent {
    open spec fn formatted(&self, before: Written) -> Written {
        with_str(
            with_str(with_str(with_str(before, "v1beta/"@), "models/"@), self.model_name()),
            ":generateContent"@,
        )
    }

    open spec fn verb(&self) -> Method {
        Method::Post
    }

    fn method(&self) -> (m: Method) {
        Method::Post
    }

    fn format_uri(&self, fmt: &mut Formatter) {
        fmt.write_str("v1beta/");
        fmt.write_str("models/");
        fmt.write_str(self.model.as_str());
        fmt.write_str(":generateContent");
    }
}

/// A request for content from one model, answered as a stream.
#[derive(Debug)]
pub struct StreamGenerateContent(pub GenerateContent);

impl StreamGenerateContent {
    /// A request to `model` without content.
    pub fn new(model: &str) -> (r: Self)
        ensures
            r.0.model_name() == model@,
            r.0.payload().is_blank(),
    {
        StreamGenerateContent(GenerateContent::new(model))
    }
}

impl Request for StreamGenerateContent {
    open spec fn formatted(&self, before: Written) -> Written {
        with_str(
            with_str(with_str(with_str(before, "v1beta/"@), "models/"@), self.0.model_name()),
            ":streamGenerateContent"@,
        )
    }

    open spec fn verb(&self) -> Method {
        Method::Post
    }

    fn method(&self) -> (m: Method) {
        Method::Post
    }

    fn format_uri(&self, fmt: &mut Formatter) {
        fmt.write_str("v1beta/");
        fmt.write_str("models/");
        fmt.write_str(self.0.model());
        fmt.write_str(":streamGenerateContent");
    }
}

/// A request for the list of models, page by page.
#[derive(Debug)]
pub struct Models {
    page_size: Option<usize>,
    page_token: Option<String>,
}

impl Models {
    /// The page size asked for, if one is.
    pub closed spec fn size(&self) -> Option<usize> {
        self.page_size
    }

    /// The page token asked for, if one is.
    pub closed spec fn token(&self) -> Option<Seq<char>> {
        match self.page_token {
            Some(t) => Some(t@),
            None => None,
        }
    }

    /// Asks for pages of `size` models.
    pub fn page_size(&mut self, size: usize)
        ensures
            final(self).size() == Some(size),
            final(self).token() == old(self).token(),
    {
        self.page_size = Some(size);
    }

    /// Asks for the page that `token` names.
    pub fn page_token(&mut self, token: &str)
        ensures
            final(self).size() == old(self).size(),
            final(self).token() == Some(token@),
    {
        self.page_token = Some(String::from_str(token));
    }
}

impl Default for Models {
    fn default() -> (r: Self)
        ensures
            r.size() is None,
            r.token() is None,
    {
        Models { page_size: None, page_token: None }
    }
}

impl Request for Models {
    open spec fn formatted(&self, before: Written) -> Written {
        with_optional_query_param(
            with_optional_query_param(
                with_str(with_str(before, "v1beta/"@), "models"@),
                "page_size"@,
                match self.size() {
                    Some(n) => Some(decimal(n as nat)),
                    None => None,
                },
            ),
            "page_token"@,
            self.token(),
        )
    }

    open spec fn verb(&self) -> Method {
        Method::Get
    }

    fn method(&self) -> (m: Method) {
        Method::Get
    }

    fn format_uri(&self, fmt: &mut Formatter) {
        fmt.write_str("v1beta/");
        fmt.write_str("models");
        match self.page_size {
            Some(n) => {
                let digits = to_decimal(n);
                fmt.write_optional_query_param("page_size", Some(digits.as_str()));
            },
            None => {
                fmt.write_optional_query_param("page_size", None);
            },
        }
        match &self.page_token {
            Some(t) => {
                fmt.write_optional_query_param("page_token", Some(t.as_str()));
            },
            None => {
                fmt.write_optional_query_param("page_token", None);
            },
        }
    }
}

} // verus!
