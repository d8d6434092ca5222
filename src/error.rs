use vstd::prelude::*;
use vstd::string::*;
use vstd::utf8::*;

use crate::encoding::{decimal, decimal_string, json_quoted, json_string, string_bytes};

verus! {

/// The closed set of failure categories.
#[derive(Debug)]
pub enum ErrorKind {
    Io,
    Hyper,
    InvalidApiVersion,
    InvalidUri(String),
    UrlParse,
    JsonEncode,
    JsonDecode,
    Utf8Decode,
    RemoteFailure(u16, String),
    HyperPipe,
}

/// The display text of a failure category.
pub open spec fn kind_text(k: ErrorKind) -> Seq<char> {
    match k {
        ErrorKind::Io => "IO error"@,
        ErrorKind::Hyper => "Hyper error"@,
        ErrorKind::InvalidApiVersion => "Invalid or missing API version"@,
        ErrorKind::InvalidUri(u) => "Invalid uri "@ + u@,
        ErrorKind::UrlParse => "Cannot parse uri"@,
        ErrorKind::JsonEncode => "Cannot serialize JSON"@,
        ErrorKind::JsonDecode => "Cannot deserialize JSON"@,
        ErrorKind::Utf8Decode => "Invalid UTF-8 text"@,
        ErrorKind::RemoteFailure(status, body) => "Remote request failed with status "@
            + decimal(status as nat) + ": "@ + body@,
        ErrorKind::HyperPipe => "Named pipe error"@,
    }
}

impl ErrorKind {
    /// The display text of this category.
    pub fn to_string(&self) -> (r: String)
        ensures
            r@ == kind_text(*self),
    {
        match self {
            ErrorKind::Io => String::from_str("IO error"),
            ErrorKind::Hyper => String::from_str("Hyper error"),
            ErrorKind::InvalidApiVersion => String::from_str("Invalid or missing API version"),
            ErrorKind::InvalidUri(u) => {
                let mut s = String::from_str("Invalid uri ");
                s.append(u.as_str());
                s
            },
            ErrorKind::UrlParse => String::from_str("Cannot parse uri"),
            ErrorKind::JsonEncode => String::from_str("Cannot serialize JSON"),
            ErrorKind::JsonDecode => String::from_str("Cannot deserialize JSON"),
            ErrorKind::Utf8Decode => String::from_str("Invalid UTF-8 text"),
            ErrorKind::RemoteFailure(status, body) => {
                let mut s = String::from_str("Remote request failed with status ");
                let code = decimal_string(*status as u64);
                s.append(code.as_str());
                s.append(": ");
                s.append(body.as_str());
                s
            },
            ErrorKind::HyperPipe => String::from_str("Named pipe error"),
        }
    }
}

/// An error: one failure category and the display texts of the failures
/// that caused it, from the nearest cause to the farthest.
#[derive(Debug)]
pub struct Error {
    kind: ErrorKind,
    causes: Vec<String>,
}

/// The display texts of a list of strings.
pub open spec fn texts(v: Seq<String>) -> Seq<Seq<char>> {
    v.map_values(|s: String| s@)
}

/// The causal chain as it is appended to a message: one
/// `"\n\tcaused by: "` line per cause, nearest first.
pub open spec fn chain_text(causes: Seq<Seq<char>>) -> Seq<char>
    decreases causes.len(),
{
    if causes.len() == 0 {
        seq![]
    } else {
        chain_text(causes.drop_last()) + "\n\tcaused by: "@ + causes.last()
    }
}

/// The full diagnostic text of an error of category `k` with causes `causes`.
pub open spec fn message_text(k: ErrorKind, causes: Seq<Seq<char>>) -> Seq<char> {
    kind_text(k) + chain_text(causes)
}

/// The JSON body of an error response carrying `message`.
pub open spec fn response_body_text(message: Seq<char>) -> Seq<char> {
    "{\"message\":"@ + json_quoted(message) + "}"@
}

/// The status of an error response: 400 for a missing or invalid API
/// version, 500 for everything else.
pub open spec fn status_of(k: ErrorKind) -> u16 {
    match k {
        ErrorKind::InvalidApiVersion => 400,
        _ => 500,
    }
}

/// A header list as pairs of texts.
pub open spec fn header_texts(h: Seq<(String, String)>) -> Seq<(Seq<char>, Seq<char>)> {
    h.map_values(|p: (String, String)| (p.0@, p.1@))
}

/// An HTTP response, fully buffered.
pub struct HttpResponse {
    pub status: u16,
    pub headers: Vec<(String, String)>,
    pub body: Vec<u8>,
}

impl Error {
    /// The failure category.
    pub closed spec fn spec_kind(&self) -> ErrorKind {
        self.kind
    }

    /// The display texts of the causes, nearest first.
    pub closed spec fn spec_causes(&self) -> Seq<Seq<char>> {
        texts(self.causes@)
    }

    /// An error of category `kind` with no cause.
    pub fn new(kind: ErrorKind) -> (r: Error)
        ensures
            r.spec_kind() == kind,
            r.spec_causes() == Seq::<Seq<char>>::empty(),
    {
        let r = Error { kind, causes: Vec::new() };
        assert(r.spec_causes() =~= Seq::<Seq<char>>::empty());
        r
    }

    /// Wraps a lower-level failure, known by its display text, into an error
    /// of category `kind`.
    pub fn context(kind: ErrorKind, cause: String) -> (r: Error)
        ensures
            r.spec_kind() == kind,
            r.spec_causes() == seq![cause@],
    {
        let mut causes = Vec::new();
        causes.push(cause);
        let r = Error { kind, causes };
        assert(r.spec_causes() =~= seq![cause@]);
        r
    }

    /// Wraps an error of this library into an error of category `kind`; the
    /// wrapped error heads the new causal chain.
    pub fn caused_by(kind: ErrorKind, cause: Error) -> (r: Error)
        ensures
            r.spec_kind() == kind,
            r.spec_causes() == seq![kind_text(cause.spec_kind())] + cause.spec_causes(),
    {
        let mut causes = Vec::new();
        causes.push(cause.kind.to_string());
        let mut rest = cause.causes;
        causes.append(&mut rest);
        let r = Error { kind, causes };
        assert(r.spec_causes() =~= seq![kind_text(cause.spec_kind())] + cause.spec_causes());
        r
    }

    /// The failure category.
    pub fn kind(&self) -> (r: &ErrorKind)
        ensures
            *r == self.spec_kind(),
    {
        &self.kind
    }

    /// The display text of this error alone: that of its category.
    pub fn to_string(&self) -> (r: String)
        ensures
            r@ == kind_text(self.spec_kind()),
    {
        self.kind.to_string()
    }

    /// The display texts of the causes, nearest first.
    pub fn causes(&self) -> (r: &Vec<String>)
        ensures
            texts(r@) == self.spec_causes(),
    {
        &self.causes
    }

    /// The display text followed by one `"\n\tcaused by: "` line per link of
    /// the causal chain, walked in order.
    pub fn message(&self) -> (r: String)
        ensures
            r@ == message_text(self.spec_kind(), self.spec_causes()),
    {
        let mut m = self.kind.to_string();
        let n = self.causes.len();
        let mut i: usize = 0;
        while i < n
            invariant
                n == self.causes@.len(),
                i <= n,
                m@ == kind_text(self.kind) + chain_text(texts(self.causes@).take(i as int)),
            decreases n - i,
        {
            proof {
                let t = texts(self.causes@);
                assert(t.take(i + 1).drop_last() =~= t.take(i as int));
            }
            m.append("\n\tcaused by: ");
            m.append(self.causes[i].as_str());
            i = i + 1;
        }
        assert(texts(self.causes@).take(n as int) =~= texts(self.causes@));
        m
    }

    /// Renders this error as an HTTP response: status 400 for a missing or
    /// invalid API version and 500 otherwise, a JSON body whose `message`
    /// field holds the full diagnostic text, and `content-type` and
    /// `content-length` headers that describe that body.
    pub fn into_response(self) -> (r: HttpResponse)
        ensures
            r.status == status_of(self.spec_kind()),
            r.body@ == encode_utf8(
                response_body_text(message_text(self.spec_kind(), self.spec_causes())),
            ),
            header_texts(r.headers@) == seq![
                ("content-type"@, "application/json"@),
                ("content-length"@, decimal(r.body@.len())),
            ],
    {
        let message = self.message();
        let status: u16 = match self.kind {
            ErrorKind::InvalidApiVersion => 400,
            _ => 500,
        };
        let mut text = String::from_str("{\"message\":");
        let quoted = json_string(&message);
        text.append(quoted.as_str());
        text.append("}");
        let body = string_bytes(&text);
        let mut headers = Vec::new();
        headers.push((String::from_str("content-type"), String::from_str("application/json")));
        headers.push((String::from_str("content-length"), decimal_string(body.len() as u64)));
        assert(header_texts(headers@) =~= seq![
            ("content-type"@, "application/json"@),
            ("content-length"@, decimal(body@.len())),
        ]);
        HttpResponse { status, headers, body }
    }
}

/// The message of a remote failure ends with the body text of the response.
pub proof fn lemma_remote_failure_message_holds_body(status: u16, body: String)
    ensures
        ({
            let m = message_text(ErrorKind::RemoteFailure(status, body), seq![]);
            m.len() >= body@.len() && m.subrange(m.len() - body@.len(), m.len() as int) == body@
        }),
{
    let m = message_text(ErrorKind::RemoteFailure(status, body), seq![]);
    let pre = "Remote request failed with status "@ + decimal(status as nat) + ": "@;
    assert(chain_text(seq![]) =~= Seq::<char>::empty());
    assert(m =~= pre + body@);
    assert(m.subrange(pre.len() as int, m.len() as int) =~= body@);
}

} // verus!
