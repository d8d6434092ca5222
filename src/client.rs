use vstd::prelude::*;
use vstd::string::*;
use vstd::utf8::*;

use std::sync::{Arc, Mutex};

use crate::encoding::{
    decimal,
    decimal_string,
    form_encode,
    form_encoded,
    lossy_text,
    lossy_text_of,
    string_bytes,
    utf8_text,
};
use crate::error::{header_texts, Error, ErrorKind};

verus! {

#[verifier::external_type_specification]
#[verifier::external_body]
#[verifier::reject_recursive_types(T)]
pub struct ExMutex<T: ?Sized>(std::sync::Mutex<T>);

pub assume_specification<T>[ std::sync::Mutex::<T>::new ](t: T) -> std::sync::Mutex<T>;

#[verifier::external_type_specification]
#[verifier::external_body]
pub struct ExMethod(http::Method);

/// What url's parser gives for `input` joined onto the base URL `base`:
/// the serialized URL, or nothing where either does not parse.
pub uninterp spec fn url_join_of(base: Seq<char>, input: Seq<char>) -> Option<Seq<char>>;

/// Relies on url::Url::parse for the base and url::Url::join for the input;
/// the joined URL is returned serialized, a parse failure as its display
/// text.
#[verifier::external_body]
fn join_url(base: &str, input: &str) -> (r: Result<String, String>)
    ensures
        r is Ok <==> url_join_of(base@, input@) is Some,
        r is Ok ==> r->Ok_0@ == url_join_of(base@, input@)->Some_0,
{
    match url::Url::parse(base).and_then(|b| b.join(input)) {
        Ok(u) => Ok(u.into_string()),
        Err(e) => Err(e.to_string()),
    }
}

/// Key/value pairs as texts.
pub open spec fn pair_texts(q: Seq<(String, String)>) -> Seq<(Seq<char>, Seq<char>)> {
    q.map_values(|p: (String, String)| (p.0@, p.1@))
}

/// One form-encoded `key=value` pair.
pub open spec fn pair_text(p: (Seq<char>, Seq<char>)) -> Seq<char> {
    form_encoded(encode_utf8(p.0)) + "="@ + form_encoded(encode_utf8(p.1))
}

/// Form-encoded pairs joined by `&`, in the given order.
pub open spec fn pairs_text(q: Seq<(Seq<char>, Seq<char>)>) -> Seq<char>
    decreases q.len(),
{
    if q.len() == 0 {
        seq![]
    } else if q.len() == 1 {
        pair_text(q[0])
    } else {
        pairs_text(q.drop_last()) + "&"@ + pair_text(q.last())
    }
}

/// The query built from optional pairs: the encoded pairs, or nothing when
/// there are none.
pub open spec fn query_text(q: Option<Seq<(Seq<char>, Seq<char>)>>) -> Seq<char> {
    match q {
        Some(p) => pairs_text(p),
        None => seq![],
    }
}

/// The relative reference joined onto the host: the path, a literal `?`,
/// then the query, so that a request without pairs ends in a lone `?`.
pub open spec fn join_input(path: Seq<char>, q: Option<Seq<(Seq<char>, Seq<char>)>>) -> Seq<
    char,
> {
    path + "?"@ + query_text(q)
}

/// The optional query pairs as texts.
pub open spec fn query_view(q: Option<Vec<(String, String)>>) -> Option<
    Seq<(Seq<char>, Seq<char>)>,
> {
    match q {
        Some(v) => Some(pair_texts(v@)),
        None => None,
    }
}

/// The headers of a prepared request.
pub open spec fn request_headers(body: Option<Seq<char>>, add_if_match: bool) -> Seq<
    (Seq<char>, Seq<char>),
> {
    let m: Seq<(Seq<char>, Seq<char>)> = if add_if_match {
        seq![("if-match"@, "*"@)]
    } else {
        seq![]
    };
    match body {
        Some(b) => m + seq![
            ("content-type"@, "text/json"@),
            ("content-length"@, decimal(encode_utf8(b).len())),
        ],
        None => m,
    }
}

/// The payload of a prepared request: the UTF-8 bytes of the JSON text, or
/// nothing.
pub open spec fn request_body(body: Option<Seq<char>>) -> Seq<u8> {
    match body {
        Some(b) => encode_utf8(b),
        None => seq![],
    }
}

/// Whether a status code is a success (2xx).
pub open spec fn is_success(status: u16) -> bool {
    200 <= status <= 299
}

/// The payload of a successful response: none when the body is empty.
pub open spec fn success_payload(body: Seq<u8>) -> Option<Seq<u8>> {
    if body.len() == 0 {
        None
    } else {
        Some(body)
    }
}

/// A request ready to be handed to a transport.
pub struct PreparedRequest {
    pub method: http::Method,
    pub uri: String,
    pub headers: Vec<(String, String)>,
    pub body: Vec<u8>,
}

/// Builds the query: the form-encoded pairs joined by `&` in the given
/// order, or the empty string when there are no pairs.
pub fn query_string(query: &Option<Vec<(String, String)>>) -> (r: String)
    ensures
        r@ == query_text(query_view(*query)),
{
    match query {
        None => String::new(),
        Some(pairs) => {
            let n = pairs.len();
            let mut s = String::new();
            let ghost q = pair_texts(pairs@);
            let mut i: usize = 0;
            while i < n
                invariant
                    n == pairs@.len(),
                    q == pair_texts(pairs@),
                    i <= n,
                    s@ == pairs_text(q.take(i as int)),
                decreases n - i,
            {
                proof {
                    assert(q.take(i + 1).drop_last() =~= q.take(i as int));
                    assert(q.take(i + 1).last() == q[i as int]);
                    assert(q.take(0) =~= Seq::<(Seq<char>, Seq<char>)>::empty());
                    if i == 0 {
                        assert(q.take(1) =~= seq![q[0]]);
                    }
                }
                if i > 0 {
                    s.append("&");
                }
                let k = form_encode(pairs[i].0.as_str());
                s.append(k.as_str());
                s.append("=");
                let v = form_encode(pairs[i].1.as_str());
                s.append(v.as_str());
                proof {
                    let before = pairs_text(q.take(i as int));
                    if i == 0 {
                        assert(s@ =~= pair_text(q[0]));
                    } else {
                        assert(s@ =~= before + "&"@ + pair_text(q[i as int]));
                    }
                }
                i = i + 1;
            }
            assert(q.take(n as int) =~= q);
            assert(q.take(0) =~= Seq::<(Seq<char>, Seq<char>)>::empty());
            s
        },
    }
}

/// A client of one host, sharing one transport between all its clones.
#[verifier::reject_recursive_types(S)]
pub struct Client<S> {
    service: Arc<Mutex<S>>,
    host_name: String,
}

impl<S> Client<S> {
    /// The base URL, as text.
    pub closed spec fn spec_host_name(&self) -> Seq<char> {
        self.host_name@
    }

    /// The shared transport handle.
    pub closed spec fn spec_service(&self) -> Arc<Mutex<S>> {
        self.service
    }

    /// A client of `host_name` that sends through `service`.
    pub fn new(service: S, host_name: String) -> (r: Client<S>)
        ensures
            r.spec_host_name() == host_name@,
    {
        Client { service: Arc::new(Mutex::new(service)), host_name }
    }

    /// The base URL.
    pub fn host_name(&self) -> (r: &String)
        ensures
            r@ == self.spec_host_name(),
    {
        &self.host_name
    }

    /// The shared, lock-guarded transport.
    pub fn service(&self) -> (r: &Arc<Mutex<S>>)
        ensures
            *r == self.spec_service(),
    {
        &self.service
    }

    /// Builds the request for `method` on `path`: the path and the query
    /// part are joined onto the base URL after a literal `?`; an `if-match:
    /// *` header is added when asked; a JSON body is sent as its UTF-8 bytes
    /// with `content-type` and `content-length`. Fails with `UrlParse`
    /// exactly when the join fails.
    pub fn prepare_request(
        &self,
        method: http::Method,
        path: &str,
        query: Option<Vec<(String, String)>>,
        body: Option<String>,
        add_if_match: bool,
    ) -> (r: Result<PreparedRequest, Error>)
        ensures
            ({
                let input = join_input(path@, query_view(query));
                let url = url_join_of(self.spec_host_name(), input);
                let body_text = match body {
                    Some(b) => Some(b@),
                    None => None,
                };
                &&& r is Ok <==> url is Some
                &&& r is Ok ==> {
                    let req = r->Ok_0;
                    &&& req.method == method
                    &&& req.uri@ == url->Some_0
                    &&& header_texts(req.headers@) == request_headers(body_text, add_if_match)
                    &&& req.body@ == request_body(body_text)
                }
                &&& r is Err ==> r->Err_0.spec_kind() == ErrorKind::UrlParse
                    && r->Err_0.spec_causes().len() == 1
            }),
    {
        let q = query_string(&query);
        let mut input = String::from_str(path);
        input.append("?");
        input.append(q.as_str());
        let uri = match join_url(self.host_name.as_str(), input.as_str()) {
            Ok(u) => u,
            Err(e) => {
                return Err(Error::context(ErrorKind::UrlParse, e));
            },
        };
        let mut headers: Vec<(String, String)> = Vec::new();
        if add_if_match {
            headers.push((String::from_str("if-match"), String::from_str("*")));
        }
        let ghost h0 = header_texts(headers@);
        let payload = match body {
            Some(json) => {
                let bytes = string_bytes(&json);
                headers.push((String::from_str("content-type"), String::from_str("text/json")));
                headers.push(
                    (String::from_str("content-length"), decimal_string(bytes.len() as u64)),
                );
                assert(header_texts(headers@) =~= h0 + seq![
                    ("content-type"@, "text/json"@),
                    ("content-length"@, decimal(encode_utf8(json@).len())),
                ]);
                bytes
            },
            None => Vec::new(),
        };
        proof {
            if add_if_match {
                assert(h0 =~= seq![("if-match"@, "*"@)]);
            } else {
                assert(h0 =~= Seq::<(Seq<char>, Seq<char>)>::empty());
            }
        }
        assert(payload@ =~= request_body(
            match body {
                Some(b) => Some(b@),
                None => None,
            },
        ));
        Ok(PreparedRequest { method, uri, headers, body: payload })
    }
}

impl<S> Clone for Client<S> {
    /// Another handle on the same transport and the same base URL.
    fn clone(&self) -> (r: Self)
        ensures
            r.spec_host_name() == self.spec_host_name(),
    {
        Client { service: self.service.clone(), host_name: self.host_name.clone() }
    }
}

/// Classifies a fully read response: a 2xx status gives its body, or none
/// when the body is empty; any other status fails with `RemoteFailure`,
/// carrying the status and the body as text.
pub fn classify_response(status: u16, body: Vec<u8>) -> (r: Result<Option<Vec<u8>>, Error>)
    ensures
        is_success(status) ==> r is Ok && match r->Ok_0 {
            Some(b) => success_payload(body@) == Some(b@),
            None => success_payload(body@) is None,
        },
        !is_success(status) ==> r is Err && r->Err_0.spec_causes().len() == 0 && match r->Err_0.spec_kind() {
            ErrorKind::RemoteFailure(s, t) => s == status && t@ == lossy_text_of(body@),
            _ => false,
        },
{
    if 200 <= status && status <= 299 {
        if body.len() == 0 {
            Ok(None)
        } else {
            Ok(Some(body))
        }
    } else {
        let text = lossy_text(&body);
        Err(Error::new(ErrorKind::RemoteFailure(status, text)))
    }
}

/// Decodes an optional payload as UTF-8 text; fails with `Utf8Decode`, the
/// decoding failure kept as its cause, exactly when the payload is not valid
/// UTF-8.
pub fn decode_text(payload: Option<Vec<u8>>) -> (r: Result<Option<String>, Error>)
    ensures
        match payload {
            None => r is Ok && r->Ok_0 is None,
            Some(b) => if valid_utf8(b@) {
                r is Ok && r->Ok_0 is Some && r->Ok_0->Some_0@ == decode_utf8(b@)
            } else {
                r is Err && r->Err_0.spec_kind() == ErrorKind::Utf8Decode
                    && r->Err_0.spec_causes().len() == 1
            },
        },
{
    match payload {
        None => Ok(None),
        Some(b) => match utf8_text(b) {
            Ok(s) => Ok(Some(s)),
            Err(cause) => Err(Error::context(ErrorKind::Utf8Decode, cause)),
        },
    }
}

/// With no query pairs, the reference joined onto the host is the path
/// followed by a lone `?`.
pub proof fn lemma_no_pairs_trailing_mark(
    path: Seq<char>,
    q: Option<Seq<(Seq<char>, Seq<char>)>>,
)
    requires
        q is None || q->Some_0.len() == 0,
    ensures
        join_input(path, q) == path + "?"@,
        join_input(path, q).last() == '?',
{
    reveal_strlit("?");
    assert(join_input(path, q) =~= path + "?"@);
}

/// A JSON body echoed back by a successful response comes back as the same
/// payload, which decodes to the same text; only an empty text comes back as
/// no payload.
pub proof fn lemma_echo_round_trip(status: u16, json: Seq<char>)
    requires
        is_success(status),
    ensures
        json.len() > 0 ==> success_payload(request_body(Some(json))) == Some(encode_utf8(json)),
        json.len() == 0 ==> success_payload(request_body(Some(json))) is None,
        valid_utf8(request_body(Some(json))),
        decode_utf8(request_body(Some(json))) == json,
{
    broadcast use encode_utf8_decode_utf8, encode_utf8_valid_utf8;

    if encode_utf8(json).len() == 0 {
        assert(encode_utf8(json) =~= Seq::<u8>::empty());
        assert(decode_utf8(Seq::<u8>::empty()) =~= Seq::<char>::empty());
    }
    if json.len() == 0 {
        assert(json =~= Seq::<char>::empty());
        assert(encode_utf8(Seq::<char>::empty()).len() == 0);
    }
}

} // verus!
