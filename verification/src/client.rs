//! Requests as they go on the wire, signed where the exchange asks for it,
//! and the meaning of what comes back.

use vstd::prelude::*;
use vstd::string::*;
use vstd::utf8::*;

use crate::api::endpoint_path;
use crate::api::API;
use crate::errors::BinanceContentError;
use crate::errors::Error;
use crate::json::json_of_bytes;
use crate::json::FromJson;
use crate::json::Json;
use crate::json::JsonValue;
use crate::text::digit_char;
use crate::text::starts_with;
use crate::text::str_starts_with;
use crate::util::build_request;
use crate::util::build_stamped_request;
use crate::util::get_timestamp_now;
use crate::util::lemma_changed_value_changes_request;
use crate::util::lemma_changed_value_keeps_length;
use crate::util::query_string;
use crate::util::stamped;
use crate::util::with_changed_value;
use crate::util::Entries;
use crate::util::Params;

verus! {

/// The HMAC-SHA256 of a message under a key, as the crates `hmac` and `sha2`
/// compute it.
pub uninterp spec fn hmac_sha256(key: Seq<u8>, message: Seq<u8>) -> Seq<u8>;

/// Computes the HMAC-SHA256 of `message` under `key` with `hmac::Hmac` over
/// `sha2::Sha256`: `new_from_slice`, which takes a key of any length,
/// then `update` and `finalize`. The result is a function of the key and the
/// message alone, named `hmac_sha256`.
#[verifier::external_body]
fn hmac_sha256_digest(key: &[u8], message: &[u8]) -> (mac: Vec<u8>)
    ensures
        mac@ == hmac_sha256(key@, message@),
{
    let mut signed_key = <hmac::Hmac<sha2::Sha256> as hmac::Mac>::new_from_slice(key).unwrap();
    hmac::Mac::update(&mut signed_key, message);
    hmac::Mac::finalize(signed_key).into_bytes().to_vec()
}

/// The character of a hexadecimal digit, in lower case.
pub open spec fn hex_digit(d: nat) -> char {
    if d < 10 {
        digit_char(d)
    } else if d == 10 {
        'a'
    } else if d == 11 {
        'b'
    } else if d == 12 {
        'c'
    } else if d == 13 {
        'd'
    } else if d == 14 {
        'e'
    } else {
        'f'
    }
}

/// The hexadecimal text of a byte string: two lower-case digits for each
/// byte, the high one first.
pub open spec fn hex_lower(bytes: Seq<u8>) -> Seq<char>
    decreases bytes.len(),
{
    if bytes.len() == 0 {
        Seq::empty()
    } else {
        hex_lower(bytes.drop_last()).push(hex_digit((bytes.last() / 16) as nat)).push(
            hex_digit((bytes.last() % 16) as nat),
        )
    }
}

/// Renders bytes with `hex::encode`, which writes each byte as two
/// lower-case hexadecimal digits.
#[verifier::external_body]
fn hex_encode(bytes: &[u8]) -> (text: String)
    ensures
        text@ == hex_lower(bytes@),
{
    hex::encode(bytes)
}

/// The signature of a payload under a secret: the hexadecimal text of the
/// HMAC-SHA256 of the payload's UTF-8 bytes, keyed with the secret's.
pub open spec fn signature(secret: Seq<char>, payload: Seq<char>) -> Seq<char> {
    hex_lower(hmac_sha256(encode_utf8(secret), encode_utf8(payload)))
}

/// A payload with its signature appended as the parameter `signature`.
pub open spec fn signed_payload(secret: Seq<char>, payload: Seq<char>) -> Seq<char> {
    payload + "&signature="@ + signature(secret, payload)
}

/// Signs a payload: appends `&signature=` and the signature of the payload
/// under `secret`.
pub fn sign_payload(secret: &str, payload: &str) -> (signed: String)
    ensures
        signed@ == signed_payload(secret@, payload@),
{
    let mac = hmac_sha256_digest(secret.as_bytes(), payload.as_bytes());
    let signature = hex_encode(mac.as_slice());
    let mut signed = String::from_str(payload);
    signed.append("&signature=");
    signed.append(signature.as_str());
    signed
}

/// Serializes `parameters` in the order of their keys and signs the result
/// with `secret`.
pub fn sign(parameters: Params, secret: &str) -> (signed: String)
    ensures
        signed@ == signed_payload(secret@, query_string(parameters@)),
{
    let payload = build_request(parameters);
    sign_payload(secret, payload.as_str())
}

/// Whether a path is a complete URL, which no host goes in front of.
pub open spec fn is_absolute(path: Seq<char>) -> bool {
    str_starts_with(path, "http"@)
}

/// The address of a request to `endpoint` at `host` that carries no
/// parameters of its own: the endpoint's path after the host.
pub open spec fn plain_url(host: Seq<char>, endpoint: API) -> Seq<char> {
    host + endpoint_path(endpoint)
}

/// The address of a request to `endpoint` at `host` with the query
/// `request`, which is left out where it is missing or empty.
pub open spec fn query_url(host: Seq<char>, endpoint: API, request: Option<Seq<char>>) -> Seq<
    char,
> {
    match request {
        Some(r) => if r.len() > 0 {
            plain_url(host, endpoint) + "?"@ + r
        } else {
            plain_url(host, endpoint)
        },
        None => plain_url(host, endpoint),
    }
}

/// The address of a signed request: the host, unless the endpoint's path is
/// a complete URL, then the path, `?` and the signed query. Without a
/// request the empty payload is signed.
pub open spec fn signed_url(
    host: Seq<char>,
    secret: Seq<char>,
    endpoint: API,
    request: Option<Seq<char>>,
) -> Seq<char> {
    let path = endpoint_path(endpoint);
    let prefix = if is_absolute(path) {
        Seq::<char>::empty()
    } else {
        host
    };
    let payload = match request {
        Some(r) => r,
        None => Seq::<char>::empty(),
    };
    prefix + path + "?"@ + signed_payload(secret, payload)
}

/// The verb of a request.
#[derive(Clone, Copy, Debug, PartialEq, Eq, Structural)]
pub enum Method {
    Get,
    Post,
    Put,
    Delete,
}

/// A request, ready to be sent.
#[derive(Clone, Debug, PartialEq, Eq)]
pub struct Request {
    pub method: Method,
    pub url: String,
    /// Names and values of the headers, in the order in which they are set.
    pub headers: Vec<(String, String)>,
    pub body: Option<String>,
}

/// What came back for a request.
#[derive(Clone, Debug, PartialEq, Eq)]
pub struct Response {
    pub status: u16,
    /// The value of the header `x-mbx-used-weight-1m`, where the reply has it.
    pub used_weight: Option<String>,
    pub body: Vec<u8>,
}

/// Whether a header may carry this byte: it is no control character, or it
/// is the tabulator.
pub open spec fn header_byte_valid(b: u8) -> bool {
    (b >= 32 && b != 127) || b == 9
}

/// Whether a header may carry these bytes.
pub open spec fn header_value_valid(bytes: Seq<u8>) -> bool {
    forall|i: int| 0 <= i < bytes.len() ==> header_byte_valid(#[trigger] bytes[i])
}

/// Whether a header may carry `value`.
pub fn is_valid_header_value(value: &str) -> (r: bool)
    ensures
        r == header_value_valid(encode_utf8(value@)),
{
    let bytes = value.as_bytes();
    let mut i: usize = 0;
    while i < bytes.len()
        invariant
            i <= bytes.len(),
            bytes@ == encode_utf8(value@),
            forall|j: int| 0 <= j < i ==> header_byte_valid(#[trigger] bytes@[j]),
        decreases bytes.len() - i,
    {
        let b = bytes[i];
        if !((b >= 32 && b != 127) || b == 9) {
            assert(!header_byte_valid(bytes@[i as int]));
            return false;
        }
        i += 1;
    }
    true
}

/// The headers of a request, as pairs of name and value: the user agent,
/// the content type where `content_type` asks for it, and the API key where
/// there is one.
pub open spec fn header_list(
    api_key: Seq<char>,
    content_type: bool,
) -> Seq<(Seq<char>, Seq<char>)> {
    let agent = seq![("user-agent"@, "binance-rs"@)];
    let typed = if content_type {
        agent.push(("content-type"@, "application/x-www-form-urlencoded"@))
    } else {
        agent
    };
    if api_key.len() > 0 {
        typed.push(("x-mbx-apikey"@, api_key))
    } else {
        typed
    }
}

/// The pairs of a list of headers.
pub open spec fn headers_of(headers: Seq<(String, String)>) -> Seq<(Seq<char>, Seq<char>)> {
    headers.map_values(|h: (String, String)| (h.0@, h.1@))
}

/// The text of an optional string.
pub open spec fn optional_text(s: Option<String>) -> Option<Seq<char>> {
    match s {
        Some(s) => Some(s@),
        None => None,
    }
}

/// Whether `request` is the request with these parts.
pub open spec fn request_is(
    request: Request,
    method: Method,
    url: Seq<char>,
    headers: Seq<(Seq<char>, Seq<char>)>,
    body: Option<Seq<char>>,
) -> bool {
    &&& request.method == method
    &&& request.url@ == url
    &&& headers_of(request.headers@) == headers
    &&& optional_text(request.body) == body
}

/// The body of a request that names a listen key.
pub open spec fn listen_key_body(listen_key: Seq<char>) -> Seq<char> {
    "listenKey="@ + listen_key
}

/// Whether a reply with this status is a failure, and the failures that say
/// no more than their status.
pub open spec fn is_plain_failure(status: u16, e: Error) -> bool {
    if status == 401 {
        e is Unauthorized
    } else if status == 429 {
        e is RateLimited
    } else if status == 500 {
        e is ServerError
    } else if status == 503 {
        e is ServiceUnavailable
    } else {
        e matches Error::UnexpectedStatus(s) && s == status
    }
}

/// Whether `e` is the failure that a rejected request reports, given the
/// document that was read from its body, if any: the exchange's code and
/// message where the document holds them, `Decode` otherwise.
pub open spec fn is_rejection(document: Option<JsonValue>, e: Error) -> bool {
    match document {
        Some(j) => if BinanceContentError::accepts(j) {
            e matches Error::Exchange(content) && content.holds(j)
        } else {
            e is Decode
        },
        None => e is Decode,
    }
}

/// Whether `e` is the failure that the reply `response` stands for.
pub open spec fn is_failure_of(response: Response, e: Error) -> bool {
    if response.status == 400 {
        is_rejection(json_of_bytes(response.body@), e)
    } else {
        is_plain_failure(response.status, e)
    }
}

/// The failure that a rejected request reports, given the document read
/// from its body.
pub fn rejection(document: Option<Json>) -> (e: Error)
    ensures
        is_rejection(crate::json::optional_view(document), e),
{
    match document {
        Some(j) => match BinanceContentError::from_json(&j) {
            Some(content) => Error::Exchange(content),
            None => Error::Decode,
        },
        None => Error::Decode,
    }
}

/// The failure that a status other than 200 and 400 stands for.
pub fn plain_failure(status: u16) -> (e: Error)
    ensures
        is_plain_failure(status, e),
{
    if status == 401 {
        Error::Unauthorized
    } else if status == 429 {
        Error::RateLimited
    } else if status == 500 {
        Error::ServerError
    } else if status == 503 {
        Error::ServiceUnavailable
    } else {
        Error::UnexpectedStatus(status)
    }
}

/// The failure that a reply with a status other than 200 stands for.
pub fn failure(response: &Response) -> (e: Error)
    ensures
        is_failure_of(*response, e),
{
    if response.status == 400 {
        rejection(Json::parse_bytes(response.body.as_slice()))
    } else {
        plain_failure(response.status)
    }
}

/// Whether `r` is the signed request for `entries`, stamped with `timestamp`
/// in milliseconds since the epoch: the request, or `InvalidHeader` where no
/// header can carry the client's API key.
pub open spec fn is_stamped_plan(
    client: Client,
    method: Method,
    endpoint: API,
    entries: Entries,
    recv_window: u64,
    timestamp: u64,
    r: Result<Request, Error>,
) -> bool {
    is_signed_plan(
        client,
        method,
        endpoint,
        Some(query_string(stamped(entries, recv_window, timestamp))),
        r,
    )
}

/// Whether `r` is the signed request of `method` to `endpoint` with the
/// query `request`, or `InvalidHeader` where no header can carry the
/// client's API key.
pub open spec fn is_signed_plan(
    client: Client,
    method: Method,
    endpoint: API,
    request: Option<Seq<char>>,
    r: Result<Request, Error>,
) -> bool {
    if header_value_valid(encode_utf8(client.api_key())) {
        r matches Ok(plan) && request_is(
            plan,
            method,
            signed_url(client.host(), client.secret_key(), endpoint, request),
            header_list(client.api_key(), true),
            None,
        )
    } else {
        r matches Err(Error::InvalidHeader)
    }
}

/// Whether `r` is the unsigned request of `method` to `endpoint` with
/// `body`, or `InvalidHeader` where no header can carry the client's API
/// key.
pub open spec fn is_plain_plan(
    client: Client,
    method: Method,
    endpoint: API,
    body: Option<Seq<char>>,
    r: Result<Request, Error>,
) -> bool {
    if header_value_valid(encode_utf8(client.api_key())) {
        r matches Ok(plan) && request_is(
            plan,
            method,
            plain_url(client.host(), endpoint),
            header_list(client.api_key(), false),
            body,
        )
    } else {
        r matches Err(Error::InvalidHeader)
    }
}

/// Whether `r` is a signed request for `entries`, stamped with some time, or
/// the failure of the clock.
pub open spec fn is_timed_plan(
    client: Client,
    method: Method,
    endpoint: API,
    entries: Entries,
    recv_window: u64,
    r: Result<Request, Error>,
) -> bool {
    ||| r matches Err(Error::Clock)
    ||| exists|timestamp: u64| #[trigger]
        is_stamped_plan(client, method, endpoint, entries, recv_window, timestamp, r)
}

/// Whether `plan` is the unsigned `GET` of `endpoint` with `entries` as its
/// query.
pub open spec fn is_query_plan(client: Client, endpoint: API, entries: Entries, plan: Request)
    -> bool {
    request_is(
        plan,
        Method::Get,
        query_url(client.host(), endpoint, Some(query_string(entries))),
        Seq::empty(),
        None,
    )
}

/// The text of a key; empty where there is none.
pub open spec fn key_text(key: Option<String>) -> Seq<char> {
    match key {
        Some(k) => k@,
        None => Seq::<char>::empty(),
    }
}

/// The credentials and the host of one account at the exchange.
#[derive(Clone, Debug)]
pub struct Client {
    api_key: String,
    secret_key: String,
    host: String,
}

impl Client {
    /// A client for `host`. Without keys it can reach public endpoints only.
    pub fn new(api_key: Option<String>, secret_key: Option<String>, host: String) -> (client:
        Client)
        ensures
            client.api_key() == key_text(api_key),
            client.secret_key() == key_text(secret_key),
            client.host() == host@,
    {
        Client {
            api_key: match api_key {
                Some(k) => k,
                None => String::new(),
            },
            secret_key: match secret_key {
                Some(k) => k,
                None => String::new(),
            },
            host,
        }
    }

    pub closed spec fn api_key(&self) -> Seq<char> {
        self.api_key@
    }

    pub closed spec fn secret_key(&self) -> Seq<char> {
        self.secret_key@
    }

    pub closed spec fn host(&self) -> Seq<char> {
        self.host@
    }

    /// The address of a signed request to `endpoint`.
    pub fn sign_request(&self, endpoint: API, request: Option<String>) -> (url: String)
        ensures
            url@ == signed_url(self.host(), self.secret_key(), endpoint, optional_text(request)),
    {
        let path = String::from(endpoint);
        let mut url = if starts_with(path.as_str(), "http") {
            String::new()
        } else {
            self.host.clone()
        };
        url.append(path.as_str());
        url.append("?");
        let signed = match request {
            Some(r) => sign_payload(self.secret_key.as_str(), r.as_str()),
            None => sign_payload(self.secret_key.as_str(), ""),
        };
        proof {
            reveal_strlit("");
            assert(""@ =~= Seq::<char>::empty());
        }
        url.append(signed.as_str());
        url
    }

    /// The headers of a request. Fails with `Error::InvalidHeader` exactly
    /// when the API key holds a byte that no header may carry.
    pub fn build_headers(&self, content_type: bool) -> (r: Result<Vec<(String, String)>, Error>)
        ensures
            r is Ok <==> header_value_valid(encode_utf8(self.api_key())),
            r matches Ok(headers) ==> headers_of(headers@) == header_list(
                self.api_key(),
                content_type,
            ),
            r matches Err(e) ==> e is InvalidHeader,
    {
        if !is_valid_header_value(self.api_key.as_str()) {
            return Err(Error::InvalidHeader);
        }
        let mut headers: Vec<(String, String)> = Vec::new();
        headers.push((String::from_str("user-agent"), String::from_str("binance-rs")));
        if content_type {
            headers.push(
                (
                    String::from_str("content-type"),
                    String::from_str("application/x-www-form-urlencoded"),
                ),
            );
        }
        if !self.api_key.as_str().is_empty() {
            headers.push((String::from_str("x-mbx-apikey"), self.api_key.clone()));
        }
        assert(headers_of(headers@) =~= header_list(self.api_key(), content_type));
        Ok(headers)
    }

    /// A signed `GET` of `endpoint`.
    pub fn get_signed(&self, endpoint: API, request: Option<String>) -> (r: Result<Request, Error>)
        ensures
            is_signed_plan(*self, Method::Get, endpoint, optional_text(request), r),
    {
        let url = self.sign_request(endpoint, request);
        match self.build_headers(true) {
            Ok(headers) => Ok(Request { method: Method::Get, url, headers, body: None }),
            Err(_) => Err(Error::InvalidHeader),
        }
    }

    /// A signed `GET` of `endpoint` whose reply is taken as bytes.
    pub fn get_signed_bytes(&self, endpoint: API, request: Option<String>) -> (r: Result<
        Request,
        Error,
    >)
        ensures
            is_signed_plan(*self, Method::Get, endpoint, optional_text(request), r),
    {
        self.get_signed(endpoint, request)
    }

    /// A signed `POST` to `endpoint`. The signed parameters travel in the
    /// address.
    pub fn post_signed(&self, endpoint: API, request: String) -> (r: Result<Request, Error>)
        ensures
            is_signed_plan(*self, Method::Post, endpoint, Some(request@), r),
    {
        let url = self.sign_request(endpoint, Some(request));
        match self.build_headers(true) {
            Ok(headers) => Ok(Request { method: Method::Post, url, headers, body: None }),
            Err(_) => Err(Error::InvalidHeader),
        }
    }

    /// A signed `DELETE` of `endpoint`.
    pub fn delete_signed(&self, endpoint: API, request: Option<String>) -> (r: Result<
        Request,
        Error,
    >)
        ensures
            is_signed_plan(*self, Method::Delete, endpoint, optional_text(request), r),
    {
        let url = self.sign_request(endpoint, request);
        match self.build_headers(true) {
            Ok(headers) => Ok(Request { method: Method::Delete, url, headers, body: None }),
            Err(_) => Err(Error::InvalidHeader),
        }
    }

    /// An unsigned `GET` of `endpoint`, without headers of its own.
    pub fn get(&self, endpoint: API, request: Option<String>) -> (plan: Request)
        ensures
            request_is(
                plan,
                Method::Get,
                query_url(self.host(), endpoint, optional_text(request)),
                Seq::empty(),
                None,
            ),
    {
        let path = String::from(endpoint);
        let mut url = self.host.clone();
        url.append(path.as_str());
        match request {
            Some(r) => {
                if !r.as_str().is_empty() {
                    url.append("?");
                    url.append(r.as_str());
                }
            },
            None => {},
        }
        let headers: Vec<(String, String)> = Vec::new();
        assert(headers_of(headers@) =~= Seq::empty());
        Request { method: Method::Get, url, headers, body: None }
    }

    /// An unsigned `POST` to `endpoint`.
    pub fn post(&self, endpoint: API) -> (r: Result<Request, Error>)
        ensures
            is_plain_plan(*self, Method::Post, endpoint, None, r),
    {
        let path = String::from(endpoint);
        let mut url = self.host.clone();
        url.append(path.as_str());
        match self.build_headers(false) {
            Ok(headers) => Ok(Request { method: Method::Post, url, headers, body: None }),
            Err(_) => Err(Error::InvalidHeader),
        }
    }

    /// A `PUT` to `endpoint` that keeps the stream of `listen_key` alive.
    pub fn put(&self, endpoint: API, listen_key: &str) -> (r: Result<Request, Error>)
        ensures
            is_plain_plan(*self, Method::Put, endpoint, Some(listen_key_body(listen_key@)), r),
    {
        let path = String::from(endpoint);
        let mut url = self.host.clone();
        url.append(path.as_str());
        let mut data = String::from_str("listenKey=");
        data.append(listen_key);
        match self.build_headers(false) {
            Ok(headers) => Ok(Request { method: Method::Put, url, headers, body: Some(data) }),
            Err(_) => Err(Error::InvalidHeader),
        }
    }

    /// A `DELETE` of `endpoint` that closes the stream of `listen_key`.
    pub fn delete(&self, endpoint: API, listen_key: &str) -> (r: Result<Request, Error>)
        ensures
            is_plain_plan(*self, Method::Delete, endpoint, Some(listen_key_body(listen_key@)), r),
    {
        let path = String::from(endpoint);
        let mut url = self.host.clone();
        url.append(path.as_str());
        let mut data = String::from_str("listenKey=");
        data.append(listen_key);
        match self.build_headers(false) {
            Ok(headers) => Ok(Request { method: Method::Delete, url, headers, body: Some(data) }),
            Err(_) => Err(Error::InvalidHeader),
        }
    }

    /// The signed request of `method` to `endpoint` with `parameters`,
    /// stamped with `timestamp` in milliseconds since the epoch.
    pub fn stamped_request(
        &self,
        method: Method,
        endpoint: API,
        parameters: Params,
        recv_window: u64,
        timestamp: u64,
    ) -> (r: Result<Request, Error>)
        ensures
            is_stamped_plan(*self, method, endpoint, parameters@, recv_window, timestamp, r),
    {
        let request = build_stamped_request(parameters, recv_window, timestamp);
        let url = self.sign_request(endpoint, Some(request));
        match self.build_headers(true) {
            Ok(headers) => Ok(Request { method, url, headers, body: None }),
            Err(_) => Err(Error::InvalidHeader),
        }
    }

    /// The signed request of `method` to `endpoint` with `parameters`,
    /// stamped with the time that the clock gives now.
    pub fn timed_request(
        &self,
        method: Method,
        endpoint: API,
        parameters: Params,
        recv_window: u64,
    ) -> (r: Result<Request, Error>)
        ensures
            is_timed_plan(*self, method, endpoint, parameters@, recv_window, r),
    {
        match get_timestamp_now() {
            Ok(timestamp) => self.stamped_request(
                method,
                endpoint,
                parameters,
                recv_window,
                timestamp,
            ),
            Err(_) => Err(Error::Clock),
        }
    }

    /// The unsigned `GET` of `endpoint` with `parameters` as its query.
    pub fn query(&self, endpoint: API, parameters: Params) -> (plan: Request)
        ensures
            is_query_plan(*self, endpoint, parameters@, plan),
    {
        self.get(endpoint, Some(build_request(parameters)))
    }

    /// The meaning of a reply whose body is wanted as it is: the body for
    /// status 200, the failure that the status stands for otherwise.
    pub fn bytes_handler(&self, response: Response) -> (r: Result<Vec<u8>, Error>)
        ensures
            r is Ok <==> response.status == 200,
            r matches Ok(body) ==> body@ == response.body@,
            r matches Err(e) ==> is_failure_of(response, e),
    {
        if response.status == 200 {
            Ok(response.body)
        } else {
            Err(failure(&response))
        }
    }

    /// The meaning of a reply whose body is wanted as a document: for status
    /// 200 the document that the body holds, or `Decode` where it holds
    /// none; otherwise the failure that the status stands for.
    pub fn handler(&self, response: Response) -> (r: Result<Json, Error>)
        ensures
            r is Ok <==> response.status == 200 && json_of_bytes(response.body@) is Some,
            r matches Ok(document) ==> json_of_bytes(response.body@) == Some(document@),
            r matches Err(e) ==> if response.status == 200 {
                e is Decode
            } else {
                is_failure_of(response, e)
            },
    {
        if response.status == 200 {
            match Json::parse_bytes(response.body.as_slice()) {
                Some(document) => Ok(document),
                None => Err(Error::Decode),
            }
        } else {
            Err(failure(&response))
        }
    }
}

/// Signing is a function of the parameters and the secret: two signings of
/// the same parameters under the same secret give the same text.
pub proof fn lemma_signing_is_deterministic(
    parameters: Entries,
    secret: Seq<char>,
    first: Seq<char>,
    second: Seq<char>,
)
    requires
        first == signed_payload(secret, query_string(parameters)),
        second == signed_payload(secret, query_string(parameters)),
    ensures
        first == second,
{
}

/// Changing one character of one value changes the signed request, whatever
/// the secret. (That the signature itself changes is a property of
/// HMAC-SHA256 that holds in practice and not by proof.)
pub proof fn lemma_changed_value_changes_signed_request(
    parameters: Entries,
    secret: Seq<char>,
    i: int,
    at: int,
    c: char,
)
    requires
        0 <= i < parameters.len(),
        0 <= at < parameters[i].1.len(),
        c != parameters[i].1[at],
    ensures
        signed_payload(secret, query_string(with_changed_value(parameters, i, at, c)))
            != signed_payload(secret, query_string(parameters)),
{
    let a = query_string(parameters);
    let b = query_string(with_changed_value(parameters, i, at, c));
    lemma_changed_value_changes_request(parameters, i, at, c);
    lemma_changed_value_keeps_length(parameters, i, at, c);
    if signed_payload(secret, b) == signed_payload(secret, a) {
        assert(signed_payload(secret, a).subrange(0, a.len() as int) =~= a);
        assert(signed_payload(secret, b).subrange(0, b.len() as int) =~= b);
    }
}

} // verus!
