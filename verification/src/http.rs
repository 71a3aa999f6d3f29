//! A minimal textual HTTP front end: requests and responses, their
//! builders, and parsers and serializers for the subset of HTTP/1.1 the
//! house-layout service speaks.
//!
//! Headers are kept as a list of key/value pairs in insertion order, with
//! unique keys: inserting an existing key replaces its value in place.
use vstd::prelude::*;
use vstd::slice::slice_to_vec;
use vstd::string::StrSliceExecFns;
use vstd::utf8::encode_utf8;

use crate::text::{
    chars_eq, chars_vec, spec_charses_view, spec_dec, spec_split, split_chars, string_of_chars,
    u64_to_dec_string,
};

verus! {

/// The response status codes the service uses.
#[derive(Debug, Clone, Copy, PartialEq, Eq, Structural)]
pub enum Status {
    OK,
    Created,
    InternalServerError,
    BadRequest,
    NotFound,
    MethodNotAllowed,
}

/// The status line text of a status: code and reason phrase.
pub open spec fn spec_status_text(s: Status) -> Seq<char> {
    match s {
        Status::OK => "200 OK"@,
        Status::Created => "201 Created"@,
        Status::InternalServerError => "500 Internal Server Error"@,
        Status::BadRequest => "400 Bad Request"@,
        Status::NotFound => "404 Not Found"@,
        Status::MethodNotAllowed => "405 Method Not Allowed"@,
    }
}

/// The status a bare code number names, if any.
pub open spec fn spec_status_from(s: Seq<char>) -> Option<Status> {
    if s == "200"@ {
        Some(Status::OK)
    } else if s == "201"@ {
        Some(Status::Created)
    } else if s == "500"@ {
        Some(Status::InternalServerError)
    } else if s == "400"@ {
        Some(Status::BadRequest)
    } else if s == "404"@ {
        Some(Status::NotFound)
    } else if s == "405"@ {
        Some(Status::MethodNotAllowed)
    } else {
        None
    }
}

/// Whether two strings hold the same characters.
pub fn str_eq(a: &str, b: &str) -> (r: bool)
    ensures
        r == (a@ == b@),
{
    let va = chars_vec(a);
    let vb = chars_vec(b);
    chars_eq(va.as_slice(), vb.as_slice())
}

impl Status {
    /// The status line text: code and reason phrase.
    pub fn code_text(&self) -> (r: &'static str)
        ensures
            r@ == spec_status_text(*self),
    {
        match self {
            Status::OK => "200 OK",
            Status::Created => "201 Created",
            Status::InternalServerError => "500 Internal Server Error",
            Status::BadRequest => "400 Bad Request",
            Status::NotFound => "404 Not Found",
            Status::MethodNotAllowed => "405 Method Not Allowed",
        }
    }

    /// The status a bare code number names; any other text is rejected as
    /// `UnknownStatus`.
    pub fn try_from(value: &str) -> (r: Result<Status, Error>)
        ensures
            match spec_status_from(value@) {
                Some(st) => r matches Ok(st2) && st2 == st,
                None => r matches Err(e) && e is UnknownStatus,
            },
    {
        if str_eq(value, "200") {
            Ok(Status::OK)
        } else if str_eq(value, "201") {
            Ok(Status::Created)
        } else if str_eq(value, "500") {
            Ok(Status::InternalServerError)
        } else if str_eq(value, "400") {
            Ok(Status::BadRequest)
        } else if str_eq(value, "404") {
            Ok(Status::NotFound)
        } else if str_eq(value, "405") {
            Ok(Status::MethodNotAllowed)
        } else {
            Err(Error::UnknownStatus)
        }
    }
}

/// The request methods of HTTP/1.1.
#[derive(Debug, Clone, Copy, PartialEq, Eq, Structural)]
pub enum Method {
    GET,
    HEAD,
    POST,
    PUT,
    DELETE,
    CONNECT,
    OPTIONS,
    TRACE,
    PATCH,
}

/// The request line text of a method.
pub open spec fn spec_method_text(m: Method) -> Seq<char> {
    match m {
        Method::GET => "GET"@,
        Method::HEAD => "HEAD"@,
        Method::POST => "POST"@,
        Method::PUT => "PUT"@,
        Method::DELETE => "DELETE"@,
        Method::CONNECT => "CONNECT"@,
        Method::OPTIONS => "OPTIONS"@,
        Method::TRACE => "TRACE"@,
        Method::PATCH => "PATCH"@,
    }
}

/// The method a token names, if any.
pub open spec fn spec_method_from(s: Seq<char>) -> Option<Method> {
    if s == "GET"@ {
        Some(Method::GET)
    } else if s == "HEAD"@ {
        Some(Method::HEAD)
    } else if s == "POST"@ {
        Some(Method::POST)
    } else if s == "PUT"@ {
        Some(Method::PUT)
    } else if s == "DELETE"@ {
        Some(Method::DELETE)
    } else if s == "CONNECT"@ {
        Some(Method::CONNECT)
    } else if s == "OPTIONS"@ {
        Some(Method::OPTIONS)
    } else if s == "TRACE"@ {
        Some(Method::TRACE)
    } else if s == "PATCH"@ {
        Some(Method::PATCH)
    } else {
        None
    }
}

impl Method {
    /// The request line text of the method.
    pub fn as_text(&self) -> (r: &'static str)
        ensures
            r@ == spec_method_text(*self),
    {
        match self {
            Method::GET => "GET",
            Method::HEAD => "HEAD",
            Method::POST => "POST",
            Method::PUT => "PUT",
            Method::DELETE => "DELETE",
            Method::CONNECT => "CONNECT",
            Method::OPTIONS => "OPTIONS",
            Method::TRACE => "TRACE",
            Method::PATCH => "PATCH",
        }
    }

    /// The method a token names; any other token is rejected as
    /// `UnknownRequestMethod`.
    pub fn try_from(value: &str) -> (r: Result<Method, Error>)
        ensures
            match spec_method_from(value@) {
                Some(m) => r matches Ok(m2) && m2 == m,
                None => r matches Err(e) && e is UnknownRequestMethod,
            },
    {
        if str_eq(value, "GET") {
            Ok(Method::GET)
        } else if str_eq(value, "HEAD") {
            Ok(Method::HEAD)
        } else if str_eq(value, "POST") {
            Ok(Method::POST)
        } else if str_eq(value, "PUT") {
            Ok(Method::PUT)
        } else if str_eq(value, "DELETE") {
            Ok(Method::DELETE)
        } else if str_eq(value, "CONNECT") {
            Ok(Method::CONNECT)
        } else if str_eq(value, "OPTIONS") {
            Ok(Method::OPTIONS)
        } else if str_eq(value, "TRACE") {
            Ok(Method::TRACE)
        } else if str_eq(value, "PATCH") {
            Ok(Method::PATCH)
        } else {
            Err(Error::UnknownRequestMethod)
        }
    }
}

/// A header list after inserting a key: the first entry with that key has
/// its value replaced; a fresh key goes to the end.
pub open spec fn spec_header_insert(
    hs: Seq<(Seq<char>, Seq<char>)>,
    key: Seq<char>,
    value: Seq<char>,
) -> Seq<(Seq<char>, Seq<char>)>
    decreases hs.len(),
{
    if hs.len() == 0 {
        seq![(key, value)]
    } else if hs[0].0 == key {
        seq![(key, value)] + hs.drop_first()
    } else {
        seq![hs[0]] + spec_header_insert(hs.drop_first(), key, value)
    }
}

/// The spec-level image of a header list: each key and value as its
/// characters.
pub open spec fn spec_headers_view(hs: Seq<(String, String)>) -> Seq<(Seq<char>, Seq<char>)> {
    Seq::new(hs.len(), |i: int| (hs[i].0@, hs[i].1@))
}

/// Inserts a header into a copy of the list, exactly as
/// `spec_header_insert` says.
pub fn header_insert(headers: &[(String, String)], key: String, value: String) -> (r: Vec<
    (String, String),
>)
    ensures
        spec_headers_view(r@) == spec_header_insert(spec_headers_view(headers@), key@, value@),
    decreases headers@.len(),
{
    if headers.len() == 0 {
        let mut r: Vec<(String, String)> = Vec::new();
        r.push((key, value));
        proof {
            assert(spec_headers_view(headers@) =~~= Seq::<(Seq<char>, Seq<char>)>::empty());
            assert(spec_headers_view(r@) =~~= spec_header_insert(
                spec_headers_view(headers@),
                key@,
                value@,
            ));
        }
        r
    } else if headers[0].0.eq(&key) {
        let mut r: Vec<(String, String)> = Vec::new();
        r.push((key, value));
        let mut i: usize = 1;
        while i < headers.len()
            invariant
                1 <= i <= headers@.len(),
                r@.len() == i,
                r@[0].0@ == key@ && r@[0].1@ == value@,
                forall|j: int|
                    1 <= j < i ==> #[trigger] r@[j].0@ == headers@[j].0@ && r@[j].1@
                        == headers@[j].1@,
            decreases headers@.len() - i,
        {
            r.push((headers[i].0.clone(), headers[i].1.clone()));
            i = i + 1;
        }
        proof {
            assert(spec_headers_view(r@) =~~= seq![(key@, value@)] + spec_headers_view(
                headers@.subrange(1, headers@.len() as int),
            ));
        }
        proof {
            assert(headers@.subrange(1, headers@.len() as int) =~= headers@.drop_first());
            assert(spec_headers_view(headers@.drop_first()) =~~= spec_headers_view(
                headers@,
            ).drop_first());
            assert(spec_headers_view(headers@)[0].0 == key@);
            assert(spec_headers_view(r@) =~~= spec_header_insert(
                spec_headers_view(headers@),
                key@,
                value@,
            ));
        }
        r
    } else {
        let first = (headers[0].0.clone(), headers[0].1.clone());
        let tail = vstd::slice::slice_subrange(headers, 1, headers.len());
        let mut r = header_insert(tail, key, value);
        r.insert(0, first);
        proof {
            assert(spec_headers_view(tail@) =~~= spec_headers_view(headers@).drop_first());
            assert(spec_headers_view(headers@)[0].0 != key@);
            assert(spec_headers_view(r@) =~~= seq![(first.0@, first.1@)] + spec_header_insert(
                spec_headers_view(tail@),
                key@,
                value@,
            ));
            assert(spec_headers_view(r@) =~~= spec_header_insert(
                spec_headers_view(headers@),
                key@,
                value@,
            ));
        }
        r
    }
}

/// Whether two header lists hold the same keys and values in the same
/// order.
pub fn headers_eq(a: &Vec<(String, String)>, b: &Vec<(String, String)>) -> (r: bool)
    ensures
        r == (spec_headers_view(a@) == spec_headers_view(b@)),
{
    if a.len() != b.len() {
        proof {
            assert(spec_headers_view(a@).len() != spec_headers_view(b@).len());
        }
        return false;
    }
    let mut i: usize = 0;
    while i < a.len()
        invariant
            i <= a@.len(),
            a@.len() == b@.len(),
            forall|j: int|
                0 <= j < i ==> #[trigger] spec_headers_view(a@)[j] == spec_headers_view(b@)[j],
        decreases a@.len() - i,
    {
        let ka = &a[i].0;
        let kb = &b[i].0;
        let va = &a[i].1;
        let vb = &b[i].1;
        if !ka.eq(kb) || !va.eq(vb) {
            proof {
                assert(spec_headers_view(a@)[i as int] != spec_headers_view(b@)[i as int]);
            }
            return false;
        }
        i = i + 1;
    }
    proof {
        assert(spec_headers_view(a@) =~~= spec_headers_view(b@));
    }
    true
}

/// The serialized form of one header: a line break, then `key: value`.
pub open spec fn spec_render_one_header(h: (Seq<char>, Seq<char>)) -> Seq<char> {
    seq!['\r', '\n'] + h.0 + seq![':', ' '] + h.1
}

/// The serialized form of a header list, in order.
pub open spec fn spec_render_headers(hs: Seq<(Seq<char>, Seq<char>)>) -> Seq<char>
    decreases hs.len(),
{
    if hs.len() == 0 {
        Seq::empty()
    } else {
        spec_render_headers(hs.drop_last()) + spec_render_one_header(hs.last())
    }
}

/// Appends the serialized headers to the output, exactly as
/// `spec_render_headers` says.
fn render_headers(headers: &Vec<(String, String)>, out: &mut String)
    ensures
        final(out)@ == old(out)@ + spec_render_headers(spec_headers_view(headers@)),
{
    let mut i: usize = 0;
    while i < headers.len()
        invariant
            i <= headers@.len(),
            out@ == old(out)@ + spec_render_headers(spec_headers_view(headers@).take(i as int)),
        decreases headers@.len() - i,
    {
        crate::text::push_char(out, '\r');
        crate::text::push_char(out, '\n');
        out.append(headers[i].0.as_str());
        crate::text::push_char(out, ':');
        crate::text::push_char(out, ' ');
        out.append(headers[i].1.as_str());
        i = i + 1;
        proof {
            let hs = spec_headers_view(headers@);
            assert(hs.take(i as int).drop_last() =~~= hs.take(i - 1));
            assert(hs.take(i as int).last() == hs[i - 1]);
            assert(out@ =~= old(out)@ + spec_render_headers(hs.take(i as int)));
        }
    }
    proof {
        assert(spec_headers_view(headers@).take(headers@.len() as int) =~~= spec_headers_view(headers@));
    }
}

/// Why a request or a response was rejected, or what a handler reports.
#[derive(Debug)]
pub enum Error {
    MalformedResponce,
    MalformedStatusLine,
    UnknownStatus,
    MalformedRequest,
    UnknownRequestMethod,
    UnsopportedProtocol,
    MalformedHeader,
    /// An error a handler has already turned into a response to send.
    ResponceError(HttpResponce),
    /// A failure inside the server, with its description.
    InternalServerError(String),
}

impl Error {
    /// A one-line description of the error.
    pub fn message(&self) -> (r: String)
        ensures
            r@ == (match self {
                Error::MalformedResponce => "Error during parsing repsonce"@,
                Error::MalformedStatusLine => "Error during parsing status code"@,
                Error::UnknownStatus => "Unknown status"@,
                Error::MalformedRequest => "Error during parsing request"@,
                Error::UnknownRequestMethod => "Unknown request method"@,
                Error::UnsopportedProtocol => "Unsopported HTTP protocol"@,
                Error::MalformedHeader => "Error during parsing header"@,
                Error::ResponceError(_) => "Error made into responce"@,
                Error::InternalServerError(e) => "Internal server error: "@ + e@,
            }),
    {
        match self {
            Error::MalformedResponce => String::from_str("Error during parsing repsonce"),
            Error::MalformedStatusLine => String::from_str("Error during parsing status code"),
            Error::UnknownStatus => String::from_str("Unknown status"),
            Error::MalformedRequest => String::from_str("Error during parsing request"),
            Error::UnknownRequestMethod => String::from_str("Unknown request method"),
            Error::UnsopportedProtocol => String::from_str("Unsopported HTTP protocol"),
            Error::MalformedHeader => String::from_str("Error during parsing header"),
            Error::ResponceError(_) => String::from_str("Error made into responce"),
            Error::InternalServerError(e) => {
                let mut out = String::from_str("Internal server error: ");
                out.append(e.as_str());
                out
            },
        }
    }
}

/// The spec-level image of a response.
#[verifier::ext_equal]
pub ghost struct ResponseView {
    pub status: Status,
    pub headers: Seq<(Seq<char>, Seq<char>)>,
    pub content: Option<Seq<char>>,
}

/// The spec-level image of a request.
#[verifier::ext_equal]
pub ghost struct RequestView {
    pub method: Method,
    pub path: Seq<char>,
    pub headers: Seq<(Seq<char>, Seq<char>)>,
    pub content: Option<Seq<char>>,
}

/// A response under construction.
#[derive(Debug)]
pub struct HttpResponceBuilder {
    pub status: Status,
    pub headers: Vec<(String, String)>,
    pub content: Option<String>,
}

/// An HTTP response: status, headers, and an optional body.
#[derive(Debug)]
pub struct HttpResponce {
    pub status: Status,
    pub headers: Vec<(String, String)>,
    pub content: Option<String>,
}

/// The view of an optional body.
pub open spec fn spec_content_view(c: &Option<String>) -> Option<Seq<char>> {
    match c {
        Some(s) => Some(s@),
        None => None,
    }
}

impl View for HttpResponceBuilder {
    type V = ResponseView;

    open spec fn view(&self) -> ResponseView {
        ResponseView {
            status: self.status,
            headers: spec_headers_view(self.headers@),
            content: spec_content_view(&self.content),
        }
    }
}

impl View for HttpResponce {
    type V = ResponseView;

    open spec fn view(&self) -> ResponseView {
        ResponseView {
            status: self.status,
            headers: spec_headers_view(self.headers@),
            content: spec_content_view(&self.content),
        }
    }
}

impl Default for HttpResponceBuilder {
    /// A fresh builder: status 200, no headers, no body.
    fn default() -> (r: Self)
        ensures
            r@.status == Status::OK,
            r@.headers == Seq::<(Seq<char>, Seq<char>)>::empty(),
            r@.content is None,
    {
        let r = HttpResponceBuilder { status: Status::OK, headers: Vec::new(), content: None };
        proof {
            assert(r@.headers =~~= Seq::<(Seq<char>, Seq<char>)>::empty());
        }
        r
    }
}

impl HttpResponceBuilder {
    /// Adds a header; an existing key has its value replaced.
    pub fn header(self, key: String, value: String) -> (r: Self)
        ensures
            r@.status == self@.status,
            r@.content == self@.content,
            r@.headers == spec_header_insert(self@.headers, key@, value@),
    {
        let HttpResponceBuilder { status, headers, content } = self;
        let headers = header_insert(headers.as_slice(), key, value);
        HttpResponceBuilder { status, headers, content }
    }

    /// Sets the status.
    pub fn status(self, status: Status) -> (r: Self)
        ensures
            r@.status == status,
            r@.content == self@.content,
            r@.headers == self@.headers,
    {
        let HttpResponceBuilder { status: _, headers, content } = self;
        HttpResponceBuilder { status, headers, content }
    }

    /// Sets the body and its `Content-Length` header, the length counted
    /// in UTF-8 bytes.
    pub fn content(self, content: &str) -> (r: Self)
        ensures
            r@.status == self@.status,
            r@.content == Some(content@),
            r@.headers == spec_header_insert(
                self@.headers,
                "Content-Length"@,
                spec_dec(encode_utf8(content@).len() as int),
            ),
    {
        let HttpResponceBuilder { status, headers, content: _ } = self;
        let length = u64_to_dec_string(content.as_bytes().len() as u64);
        let key = String::from_str("Content-Length");
        let headers = header_insert(headers.as_slice(), key, length);
        HttpResponceBuilder { status, headers, content: Some(String::from_str(content)) }
    }

    /// The finished response.
    pub fn build(self) -> (r: HttpResponce)
        ensures
            r@ == self@,
    {
        let HttpResponceBuilder { status, headers, content } = self;
        HttpResponce { status, headers, content }
    }
}

impl PartialEq for HttpResponce {
    fn eq(&self, other: &HttpResponce) -> (r: bool) {
        let statuses = self.status == other.status;
        let contents = match (&self.content, &other.content) {
            (Some(a), Some(b)) => a.eq(b),
            (None, None) => true,
            _ => false,
        };
        statuses && contents && headers_eq(&self.headers, &other.headers)
    }
}

impl vstd::std_specs::cmp::PartialEqSpecImpl for HttpResponce {
    open spec fn obeys_eq_spec() -> bool {
        true
    }

    open spec fn eq_spec(&self, other: &HttpResponce) -> bool {
        self@ == other@
    }
}

/// The serialized form of a response: status line, headers, a blank line,
/// and the body, if any.
pub open spec fn spec_serialize_response(v: ResponseView) -> Seq<char> {
    "HTTP/1.1 "@ + spec_status_text(v.status) + spec_render_headers(v.headers) + seq![
        '\r',
        '\n',
        '\r',
        '\n',
    ] + match v.content {
        Some(c) => c,
        None => Seq::empty(),
    }
}

impl HttpResponce {
    /// A response with status 200 and nothing else.
    pub fn ok() -> (r: Self)
        ensures
            r@.status == Status::OK,
            r@.headers == Seq::<(Seq<char>, Seq<char>)>::empty(),
            r@.content is None,
    {
        let r = HttpResponce { status: Status::OK, headers: Vec::new(), content: None };
        proof {
            assert(r@.headers =~~= Seq::<(Seq<char>, Seq<char>)>::empty());
        }
        r
    }

    /// A response with the given status and nothing else.
    pub fn with_code(status: Status) -> (r: Self)
        ensures
            r@.status == status,
            r@.headers == Seq::<(Seq<char>, Seq<char>)>::empty(),
            r@.content is None,
    {
        let r = HttpResponce { status, headers: Vec::new(), content: None };
        proof {
            assert(r@.headers =~~= Seq::<(Seq<char>, Seq<char>)>::empty());
        }
        r
    }

    /// Serializes the response, exactly as `spec_serialize_response` says.
    pub fn serialize(self) -> (r: String)
        ensures
            r@ == spec_serialize_response(self@),
    {
        let mut out = String::from_str("HTTP/1.1 ");
        out.append(self.status.code_text());
        render_headers(&self.headers, &mut out);
        crate::text::push_char(&mut out, '\r');
        crate::text::push_char(&mut out, '\n');
        crate::text::push_char(&mut out, '\r');
        crate::text::push_char(&mut out, '\n');
        match &self.content {
            Some(c) => {
                out.append(c.as_str());
            },
            None => {},
        }
        proof {
            assert(out@ =~= spec_serialize_response(self@));
        }
        out
    }

    /// The headers.
    pub fn headers(&self) -> (r: &Vec<(String, String)>)
        ensures
            spec_headers_view(r@) == self@.headers,
    {
        &self.headers
    }

    /// The body, if any.
    pub fn content(&self) -> (r: &Option<String>)
        ensures
            spec_content_view(r) == self@.content,
    {
        &self.content
    }
}

/// A split has at least one segment.
pub proof fn lemma_split_nonempty(s: Seq<char>, sep: Seq<char>)
    ensures
        spec_split(s, sep).len() >= 1,
{
}

/// The spec-level image of a list of strings.
pub open spec fn spec_strings_view(ls: Seq<String>) -> Seq<Seq<char>> {
    Seq::new(ls.len(), |i: int| ls[i]@)
}

/// A line with one trailing carriage return removed.
pub open spec fn spec_strip_cr(l: Seq<char>) -> Seq<char> {
    if l.len() > 0 && l.last() == '\r' {
        l.drop_last()
    } else {
        l
    }
}

/// The lines of a text: split at every line feed, the final empty segment
/// of a text ending in a line feed dropped, and one trailing carriage
/// return removed from each line.
pub open spec fn spec_lines(s: Seq<char>) -> Seq<Seq<char>> {
    let parts = spec_split(s, seq!['\n']);
    let kept = if s.len() > 0 && s.last() == '\n' {
        parts.drop_last()
    } else {
        parts
    };
    kept.map_values(|l: Seq<char>| spec_strip_cr(l))
}

/// The lines of a string, exactly as `spec_lines` says.
fn lines_of(s: &str) -> (r: Vec<Vec<char>>)
    ensures
        spec_charses_view(r@) == spec_lines(s@),
{
    let cs = chars_vec(s);
    let mut nl: Vec<char> = Vec::new();
    nl.push('\n');
    proof {
        assert(nl@ =~= seq!['\n']);
    }
    let mut parts = split_chars(cs.as_slice(), nl.as_slice());
    proof {
        lemma_split_nonempty(cs@, nl@);
    }
    if cs.len() > 0 && cs[cs.len() - 1] == '\n' {
        parts.pop();
    }
    let ghost kept = if s@.len() > 0 && s@.last() == '\n' {
        spec_split(s@, seq!['\n']).drop_last()
    } else {
        spec_split(s@, seq!['\n'])
    };
    proof {
        assert(spec_charses_view(parts@) =~~= kept);
    }
    let mut out: Vec<Vec<char>> = Vec::new();
    let mut i: usize = 0;
    while i < parts.len()
        invariant
            i <= parts@.len(),
            spec_charses_view(parts@) == kept,
            out@.len() == i,
            forall|j: int| 0 <= j < i ==> #[trigger] out@[j]@ == spec_strip_cr(kept[j]),
        decreases parts@.len() - i,
    {
        let line = &parts[i];
        let n = line.len();
        if n > 0 && line[n - 1] == '\r' {
            out.push(slice_to_vec(vstd::slice::slice_subrange(line.as_slice(), 0, n - 1)));
            proof {
                assert(out@[i as int]@ =~= spec_strip_cr(kept[i as int]));
            }
        } else {
            out.push(slice_to_vec(line.as_slice()));
            proof {
                assert(out@[i as int]@ =~= spec_strip_cr(kept[i as int]));
            }
        }
        i = i + 1;
    }
    proof {
        assert(spec_charses_view(out@) =~~= kept.map_values(|l: Seq<char>| spec_strip_cr(l)));
    }
    out
}

/// The first position at or after `i` of an empty line.
pub open spec fn spec_first_empty_from(ls: Seq<Seq<char>>, i: int) -> Option<int>
    decreases ls.len() - i,
{
    if i < 0 || i >= ls.len() {
        None
    } else if ls[i].len() == 0 {
        Some(i)
    } else {
        spec_first_empty_from(ls, i + 1)
    }
}

/// The first empty line, exactly as `spec_first_empty_from` says.
fn first_empty(ls: &Vec<Vec<char>>) -> (r: Option<usize>)
    ensures
        match r {
            Some(j) => spec_first_empty_from(spec_charses_view(ls@), 0) == Some(j as int),
            None => spec_first_empty_from(spec_charses_view(ls@), 0) is None,
        },
{
    let mut i: usize = 0;
    while i < ls.len()
        invariant
            i <= ls@.len(),
            spec_first_empty_from(spec_charses_view(ls@), 0) == spec_first_empty_from(
                spec_charses_view(ls@),
                i as int,
            ),
        decreases ls@.len() - i,
    {
        if ls[i].len() == 0 {
            return Some(i);
        }
        i = i + 1;
        proof {
            assert(spec_first_empty_from(spec_charses_view(ls@), i - 1)
                == spec_first_empty_from(spec_charses_view(ls@), i as int));
        }
    }
    None
}

/// A header section parsed line by line onto an accumulated list: each
/// line must split at `": "` into a key and a value, and each pair is
/// inserted in order.
pub open spec fn spec_parse_headers(
    ls: Seq<Seq<char>>,
    acc: Seq<(Seq<char>, Seq<char>)>,
) -> Result<Seq<(Seq<char>, Seq<char>)>, Error>
    decreases ls.len(),
{
    if ls.len() == 0 {
        Ok(acc)
    } else {
        let toks = spec_split(ls[0], seq![':', ' ']);
        if toks.len() < 2 {
            Err(Error::MalformedHeader)
        } else {
            spec_parse_headers(ls.drop_first(), spec_header_insert(acc, toks[0], toks[1]))
        }
    }
}

/// Parses one header line onto the list, exactly as one step of
/// `spec_parse_headers` says.
fn parse_header_line(line: &[char], headers: Vec<(String, String)>) -> (r: Result<
    Vec<(String, String)>,
    Error,
>)
    ensures
        ({
            let toks = spec_split(line@, seq![':', ' ']);
            match r {
                Ok(hs) => toks.len() >= 2 && spec_headers_view(hs@) == spec_header_insert(
                    spec_headers_view(headers@),
                    toks[0],
                    toks[1],
                ),
                Err(e) => toks.len() < 2 && e is MalformedHeader,
            }
        }),
{
    let mut sp: Vec<char> = Vec::new();
    sp.push(':');
    sp.push(' ');
    proof {
        assert(sp@ =~= seq![':', ' ']);
    }
    let toks = split_chars(line, sp.as_slice());
    if toks.len() < 2 {
        return Err(Error::MalformedHeader);
    }
    let key = string_of_chars(toks[0].as_slice());
    let value = string_of_chars(toks[1].as_slice());
    Ok(header_insert(headers.as_slice(), key, value))
}

/// The concatenation of lines, in order, with nothing between them.
pub open spec fn spec_concat(ls: Seq<Seq<char>>) -> Seq<char>
    decreases ls.len(),
{
    if ls.len() == 0 {
        Seq::empty()
    } else {
        spec_concat(ls.drop_last()) + ls.last()
    }
}

/// Concatenates the lines from `from` on, exactly as `spec_concat` says.
fn concat_lines(ls: &Vec<Vec<char>>, from: usize) -> (r: String)
    requires
        from <= ls@.len(),
    ensures
        r@ == spec_concat(spec_charses_view(ls@).subrange(from as int, ls@.len() as int)),
{
    let ghost whole = spec_charses_view(ls@);
    let mut acc: Vec<char> = Vec::new();
    let mut i = from;
    proof {
        assert(whole.subrange(from as int, from as int) =~~= Seq::<Seq<char>>::empty());
    }
    while i < ls.len()
        invariant
            from <= i <= ls@.len(),
            whole == spec_charses_view(ls@),
            acc@ == spec_concat(whole.subrange(from as int, i as int)),
        decreases ls@.len() - i,
    {
        let mut piece = slice_to_vec(ls[i].as_slice());
        acc.append(&mut piece);
        i = i + 1;
        proof {
            let upto = whole.subrange(from as int, i as int);
            assert(upto.drop_last() =~~= whole.subrange(from as int, i - 1));
            assert(upto.last() == whole[i - 1]);
            assert(acc@ =~= spec_concat(upto));
        }
    }
    string_of_chars(acc.as_slice())
}

/// What the response parser makes of a text: the first line must carry
/// the protocol version and a known status code, an empty line must close
/// the header section, each header line must split at `": "`, and
/// whatever follows the empty line is the body, its lines joined.
pub open spec fn spec_parse_response(s: Seq<char>) -> Result<ResponseView, Error> {
    let ls = spec_lines(s);
    match spec_first_empty_from(ls, 0) {
        None => Err(Error::MalformedResponce),
        Some(sep) => {
            let toks = spec_split(ls[0], seq![' ']);
            if toks[0] != "HTTP/1.1"@ {
                Err(Error::UnsopportedProtocol)
            } else if toks.len() < 2 {
                Err(Error::MalformedStatusLine)
            } else {
                match spec_status_from(toks[1]) {
                    None => Err(Error::UnknownStatus),
                    Some(st) => {
                        let hdr_lines = if sep >= 1 {
                            ls.subrange(1, sep)
                        } else {
                            Seq::empty()
                        };
                        match spec_parse_headers(hdr_lines, Seq::empty()) {
                            Err(e) => Err(e),
                            Ok(hs) => Ok(
                                ResponseView {
                                    status: st,
                                    headers: hs,
                                    content: if ls.len() > sep + 1 {
                                        Some(spec_concat(ls.subrange(sep + 1, ls.len() as int)))
                                    } else {
                                        None
                                    },
                                },
                            ),
                        }
                    },
                }
            }
        },
    }
}

impl HttpResponce {
    /// Parses a response, exactly as `spec_parse_response` says.
    #[verifier::loop_isolation(false)]
    pub fn parse(responce: String) -> (r: Result<HttpResponce, Error>)
        ensures
            match r {
                Ok(resp) => spec_parse_response(responce@) == Ok::<ResponseView, Error>(resp@),
                Err(e) => spec_parse_response(responce@) matches Err(e2) && match (e, e2) {
                    (Error::MalformedResponce, Error::MalformedResponce) => true,
                    (Error::UnsopportedProtocol, Error::UnsopportedProtocol) => true,
                    (Error::MalformedStatusLine, Error::MalformedStatusLine) => true,
                    (Error::UnknownStatus, Error::UnknownStatus) => true,
                    (Error::MalformedHeader, Error::MalformedHeader) => true,
                    _ => false,
                },
            },
    {
        let ghost ls_spec = spec_lines(responce@);
        let ls = lines_of(responce.as_str());
        let sep = match first_empty(&ls) {
            Some(j) => j,
            None => {
                return Err(Error::MalformedResponce);
            },
        };
        proof {
            lemma_first_empty_bounds(ls_spec, 0);
        }
        let mut sp: Vec<char> = Vec::new();
        sp.push(' ');
        proof {
            assert(sp@ =~= seq![' ']);
        }
        let toks = split_chars(ls[0].as_slice(), sp.as_slice());
        proof {
            lemma_split_nonempty(ls_spec[0], seq![' ']);
        }
        let tok0 = string_of_chars(toks[0].as_slice());
        if !str_eq(tok0.as_str(), "HTTP/1.1") {
            return Err(Error::UnsopportedProtocol);
        }
        if toks.len() < 2 {
            return Err(Error::MalformedStatusLine);
        }
        let tok1 = string_of_chars(toks[1].as_slice());
        let status = match Status::try_from(tok1.as_str()) {
            Ok(st) => st,
            Err(_) => {
                return Err(Error::UnknownStatus);
            },
        };
        let ghost hdr_lines = if sep as int >= 1 {
            ls_spec.subrange(1, sep as int)
        } else {
            Seq::empty()
        };
        let mut headers: Vec<(String, String)> = Vec::new();
        let mut i: usize = 1;
        proof {
            assert(spec_headers_view(headers@) =~~= Seq::<(Seq<char>, Seq<char>)>::empty());
            if sep >= 1 {
                assert(hdr_lines =~~= ls_spec.subrange(1, sep as int));
            }
        }
        while i < sep
            invariant
                1 <= i,
                i <= sep || sep == 0,
                sep == 0 ==> spec_headers_view(headers@) == Seq::<(Seq<char>, Seq<char>)>::empty(),
                sep >= 1 ==> spec_parse_headers(hdr_lines, Seq::empty()) == spec_parse_headers(
                    ls_spec.subrange(i as int, sep as int),
                    spec_headers_view(headers@),
                ),
            decreases sep - i,
        {
            let ghost before = ls_spec.subrange(i as int, sep as int);
            headers = match parse_header_line(ls[i].as_slice(), headers) {
                Ok(hs) => hs,
                Err(e) => {
                    return Err(e);
                },
            };
            i = i + 1;
            proof {
                assert(before[0] == ls_spec[i - 1]);
                assert(before.drop_first() =~~= ls_spec.subrange(i as int, sep as int));
            }
        }
        proof {
            if sep >= 1 {
                assert(ls_spec.subrange(sep as int, sep as int) =~~= Seq::<Seq<char>>::empty());
            }
        }
        let content: Option<String> = if ls.len() > sep + 1 {
            Some(concat_lines(&ls, sep + 1))
        } else {
            None
        };
        let resp = HttpResponce { status, headers, content };
        proof {
            assert(spec_parse_response(responce@) matches Ok(v) && v =~~= resp@);
        }
        Ok(resp)
    }
}

/// A request under construction.
pub struct HttpRequestBuilder {
    pub method: Method,
    pub path: String,
    pub headers: Vec<(String, String)>,
    pub content: Option<String>,
}

/// An HTTP request: method, path, headers, and an optional body.
#[derive(Debug)]
pub struct HttpRequest {
    pub method: Method,
    pub path: String,
    pub headers: Vec<(String, String)>,
    pub content: Option<String>,
}

impl View for HttpRequestBuilder {
    type V = RequestView;

    open spec fn view(&self) -> RequestView {
        RequestView {
            method: self.method,
            path: self.path@,
            headers: spec_headers_view(self.headers@),
            content: spec_content_view(&self.content),
        }
    }
}

impl View for HttpRequest {
    type V = RequestView;

    open spec fn view(&self) -> RequestView {
        RequestView {
            method: self.method,
            path: self.path@,
            headers: spec_headers_view(self.headers@),
            content: spec_content_view(&self.content),
        }
    }
}

impl HttpRequestBuilder {
    /// A fresh builder: a GET for the root path, no headers, no body.
    pub fn new() -> (r: Self)
        ensures
            r@.method == Method::GET,
            r@.path == "/"@,
            r@.headers == Seq::<(Seq<char>, Seq<char>)>::empty(),
            r@.content is None,
    {
        let r = HttpRequestBuilder {
            method: Method::GET,
            path: String::from_str("/"),
            headers: Vec::new(),
            content: None,
        };
        proof {
            assert(r@.headers =~~= Seq::<(Seq<char>, Seq<char>)>::empty());
        }
        r
    }

    /// Sets the method.
    pub fn method(self, method: Method) -> (r: Self)
        ensures
            r@.method == method,
            r@.path == self@.path,
            r@.headers == self@.headers,
            r@.content == self@.content,
    {
        let HttpRequestBuilder { method: _, path, headers, content } = self;
        HttpRequestBuilder { method, path, headers, content }
    }

    /// Sets the path.
    pub fn path(self, path: &str) -> (r: Self)
        ensures
            r@.method == self@.method,
            r@.path == path@,
            r@.headers == self@.headers,
            r@.content == self@.content,
    {
        let HttpRequestBuilder { method, path: _, headers, content } = self;
        HttpRequestBuilder { method, path: String::from_str(path), headers, content }
    }

    /// Adds a header; an existing key has its value replaced.
    pub fn header(self, key: String, value: String) -> (r: Self)
        ensures
            r@.method == self@.method,
            r@.path == self@.path,
            r@.content == self@.content,
            r@.headers == spec_header_insert(self@.headers, key@, value@),
    {
        let HttpRequestBuilder { method, path, headers, content } = self;
        let headers = header_insert(headers.as_slice(), key, value);
        HttpRequestBuilder { method, path, headers, content }
    }

    /// Sets the body and its `Content-Length` header, the length counted
    /// in UTF-8 bytes.
    pub fn content(self, content: &str) -> (r: Self)
        ensures
            r@.method == self@.method,
            r@.path == self@.path,
            r@.content == Some(content@),
            r@.headers == spec_header_insert(
                self@.headers,
                "Content-Length"@,
                spec_dec(encode_utf8(content@).len() as int),
            ),
    {
        let HttpRequestBuilder { method, path, headers, content: _ } = self;
        let length = u64_to_dec_string(content.as_bytes().len() as u64);
        let key = String::from_str("Content-Length");
        let headers = header_insert(headers.as_slice(), key, length);
        HttpRequestBuilder { method, path, headers, content: Some(String::from_str(content)) }
    }

    /// The finished request.
    pub fn build(self) -> (r: HttpRequest)
        ensures
            r@ == self@,
    {
        let HttpRequestBuilder { method, path, headers, content } = self;
        HttpRequest { method, path, headers, content }
    }
}

impl PartialEq for HttpRequest {
    fn eq(&self, other: &HttpRequest) -> (r: bool) {
        let methods = self.method == other.method;
        let paths = self.path.eq(&other.path);
        let contents = match (&self.content, &other.content) {
            (Some(a), Some(b)) => a.eq(b),
            (None, None) => true,
            _ => false,
        };
        methods && paths && contents && headers_eq(&self.headers, &other.headers)
    }
}

impl vstd::std_specs::cmp::PartialEqSpecImpl for HttpRequest {
    open spec fn obeys_eq_spec() -> bool {
        true
    }

    open spec fn eq_spec(&self, other: &HttpRequest) -> bool {
        self@ == other@
    }
}

/// The leading lines before the first empty one.
pub open spec fn spec_take_until_empty(ls: Seq<Seq<char>>) -> Seq<Seq<char>>
    decreases ls.len(),
{
    if ls.len() == 0 {
        Seq::empty()
    } else if ls[0].len() == 0 {
        Seq::empty()
    } else {
        seq![ls[0]] + spec_take_until_empty(ls.drop_first())
    }
}

/// What the request parser makes of a list of lines: the first line must
/// carry a known method, a path, and the protocol version; the following
/// lines, up to the first empty one, are headers, each split at `": "`.
/// The body is not read here and is left empty.
pub open spec fn spec_parse_request(ls: Seq<Seq<char>>) -> Result<RequestView, Error> {
    if ls.len() < 1 {
        Err(Error::MalformedResponce)
    } else {
        let toks = spec_split(ls[0], seq![' ']);
        match spec_method_from(toks[0]) {
            None => Err(Error::UnknownRequestMethod),
            Some(m) => {
                if toks.len() < 3 {
                    Err(Error::MalformedRequest)
                } else if toks[2] != "HTTP/1.1"@ {
                    Err(Error::UnsopportedProtocol)
                } else {
                    match spec_parse_headers(
                        spec_take_until_empty(ls.drop_first()),
                        Seq::empty(),
                    ) {
                        Err(e) => Err(e),
                        Ok(hs) => Ok(
                            RequestView { method: m, path: toks[1], headers: hs, content: None },
                        ),
                    }
                }
            },
        }
    }
}

/// The serialized form of a request: request line, headers, a blank line,
/// and the body, if any.
pub open spec fn spec_serialize_request(v: RequestView) -> Seq<char> {
    spec_method_text(v.method) + seq![' '] + v.path + seq![' '] + "HTTP/1.1"@
        + spec_render_headers(v.headers) + seq!['\r', '\n', '\r', '\n'] + match v.content {
        Some(c) => c,
        None => Seq::empty(),
    }
}

impl HttpRequest {
    /// Parses a request from its lines, exactly as `spec_parse_request`
    /// says. The body is not read: callers that expect one read it from
    /// the transport themselves.
    #[verifier::loop_isolation(false)]
    pub fn parse(request: Vec<String>) -> (r: Result<HttpRequest, Error>)
        ensures
            match r {
                Ok(q) => spec_parse_request(spec_strings_view(request@)) == Ok::<
                    RequestView,
                    Error,
                >(q@),
                Err(e) => spec_parse_request(spec_strings_view(request@)) matches Err(e2) && match (
                    e,
                    e2,
                ) {
                    (Error::MalformedResponce, Error::MalformedResponce) => true,
                    (Error::UnknownRequestMethod, Error::UnknownRequestMethod) => true,
                    (Error::MalformedRequest, Error::MalformedRequest) => true,
                    (Error::UnsopportedProtocol, Error::UnsopportedProtocol) => true,
                    (Error::MalformedHeader, Error::MalformedHeader) => true,
                    _ => false,
                },
            },
    {
        let ghost ls_spec = spec_strings_view(request@);
        if request.len() < 1 {
            return Err(Error::MalformedResponce);
        }
        let line0 = chars_vec(request[0].as_str());
        let mut sp: Vec<char> = Vec::new();
        sp.push(' ');
        proof {
            assert(sp@ =~= seq![' ']);
        }
        let toks = split_chars(line0.as_slice(), sp.as_slice());
        proof {
            lemma_split_nonempty(ls_spec[0], seq![' ']);
        }
        let tok0 = string_of_chars(toks[0].as_slice());
        let method = match Method::try_from(tok0.as_str()) {
            Ok(m) => m,
            Err(_) => {
                return Err(Error::UnknownRequestMethod);
            },
        };
        if toks.len() < 3 {
            return Err(Error::MalformedRequest);
        }
        let path = string_of_chars(toks[1].as_slice());
        let tok2 = string_of_chars(toks[2].as_slice());
        if !str_eq(tok2.as_str(), "HTTP/1.1") {
            return Err(Error::UnsopportedProtocol);
        }
        let ghost hdr_lines = spec_take_until_empty(ls_spec.drop_first());
        let mut headers: Vec<(String, String)> = Vec::new();
        let mut i: usize = 1;
        proof {
            assert(spec_headers_view(headers@) =~~= Seq::<(Seq<char>, Seq<char>)>::empty());
        }
        while i < request.len() && !request[i].as_str().is_empty()
            invariant
                1 <= i <= request@.len(),
                spec_parse_headers(hdr_lines, Seq::empty()) == spec_parse_headers(
                    spec_take_until_empty(ls_spec.subrange(i as int, ls_spec.len() as int)),
                    spec_headers_view(headers@),
                ),
            decreases request@.len() - i,
        {
            let ghost before = ls_spec.subrange(i as int, ls_spec.len() as int);
            let line = chars_vec(request[i].as_str());
            headers = match parse_header_line(line.as_slice(), headers) {
                Ok(hs) => hs,
                Err(e) => {
                    return Err(e);
                },
            };
            i = i + 1;
            proof {
                assert(before[0] == ls_spec[i - 1]);
                assert(before[0].len() != 0);
                assert(before.drop_first() =~~= ls_spec.subrange(i as int, ls_spec.len() as int));
                let taken = spec_take_until_empty(before);
                assert(taken == seq![before[0]] + spec_take_until_empty(before.drop_first()));
                assert(taken[0] == before[0]);
                assert(taken.drop_first() =~~= spec_take_until_empty(before.drop_first()));
            }
        }
        proof {
            if i < request.len() {
                let rest = ls_spec.subrange(i as int, ls_spec.len() as int);
                assert(rest[0] == ls_spec[i as int]);
                assert(rest[0].len() == 0);
                assert(spec_take_until_empty(rest) =~~= Seq::<Seq<char>>::empty());
            } else {
                assert(ls_spec.subrange(i as int, ls_spec.len() as int) =~~= Seq::<
                    Seq<char>,
                >::empty());
            }
        }
        let q = HttpRequest { method, path, headers, content: None };
        proof {
            assert(ls_spec[0] == line0@);
            assert(spec_parse_request(ls_spec) matches Ok(v) && v =~~= q@);
        }
        Ok(q)
    }

    /// Serializes the request, exactly as `spec_serialize_request` says.
    pub fn serialize(self) -> (r: String)
        ensures
            r@ == spec_serialize_request(self@),
    {
        let mut out = String::from_str(self.method.as_text());
        crate::text::push_char(&mut out, ' ');
        out.append(self.path.as_str());
        crate::text::push_char(&mut out, ' ');
        out.append("HTTP/1.1");
        render_headers(&self.headers, &mut out);
        crate::text::push_char(&mut out, '\r');
        crate::text::push_char(&mut out, '\n');
        crate::text::push_char(&mut out, '\r');
        crate::text::push_char(&mut out, '\n');
        match &self.content {
            Some(c) => {
                out.append(c.as_str());
            },
            None => {},
        }
        proof {
            assert(out@ =~= spec_serialize_request(self@));
        }
        out
    }

    /// The method.
    pub fn method(&self) -> (r: &Method)
        ensures
            *r == self@.method,
    {
        &self.method
    }

    /// The path.
    pub fn path(&self) -> (r: &String)
        ensures
            r@ == self@.path,
    {
        &self.path
    }

    /// The headers.
    pub fn headers(&self) -> (r: &Vec<(String, String)>)
        ensures
            spec_headers_view(r@) == self@.headers,
    {
        &self.headers
    }

    /// The body, if any.
    pub fn content(&self) -> (r: &Option<String>)
        ensures
            spec_content_view(r) == self@.content,
    {
        &self.content
    }
}

/// A found empty line lies within the list.
pub proof fn lemma_first_empty_bounds(ls: Seq<Seq<char>>, i: int)
    requires
        0 <= i,
    ensures
        spec_first_empty_from(ls, i) matches Some(j) ==> i <= j < ls.len(),
    decreases ls.len() - i,
{
    if i < ls.len() && ls[i].len() != 0 {
        lemma_first_empty_bounds(ls, i + 1);
    }
}

} // verus!
