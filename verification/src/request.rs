//! Description of one HTTP call and the construction of the request that
//! carries it.

use vstd::prelude::*;
use vstd::string::StringExecFns;
use crate::errors::Error;
use crate::errors::ErrorView;
use crate::errors::MeilisearchError;
use crate::errors::MeilisearchCommunicationError;
use crate::errors::service_error;
use crate::json::JsonDocument;
use crate::json::JsonDocumentView;
use crate::json::json_document;
use crate::json::parse_json;
use crate::text::same_text;
use crate::json::document_result_view;

verus! {

/// Version of this client, as announced to the service.
pub const VERSION: &'static str = "0.24.3";

/// The HTTP verbs the service understands.
#[derive(Debug, Clone, Copy, PartialEq, Eq, Structural)]
pub enum Verb {
    Get,
    Post,
    Patch,
    Put,
    Delete,
}

impl Verb {
    /// Whether requests with this verb carry a payload.
    pub open spec fn carries_body(self) -> bool {
        self == Verb::Post || self == Verb::Patch || self == Verb::Put
    }

    /// The verb as written on the wire.
    pub open spec fn name(self) -> Seq<char> {
        match self {
            Verb::Get => "GET"@,
            Verb::Post => "POST"@,
            Verb::Patch => "PATCH"@,
            Verb::Put => "PUT"@,
            Verb::Delete => "DELETE"@,
        }
    }

    /// The verb as written on the wire.
    pub fn as_str(self) -> (s: &'static str)
        ensures
            s@ == self.name(),
    {
        match self {
            Verb::Get => "GET",
            Verb::Post => "POST",
            Verb::Patch => "PATCH",
            Verb::Put => "PUT",
            Verb::Delete => "DELETE",
        }
    }
}

/// One call: the verb is the variant, and only the variants that send a
/// payload have room for one.
#[derive(Debug)]
pub enum Method<Q, B> {
    Get { query: Q },
    Post { query: Q, body: B },
    Patch { query: Q, body: B },
    Put { query: Q, body: B },
    Delete { query: Q },
}

impl<Q, B> Method<Q, B> {
    /// The query carried by the call.
    pub open spec fn spec_query(&self) -> Q {
        match self {
            Method::Get { query } => *query,
            Method::Post { query, .. } => *query,
            Method::Patch { query, .. } => *query,
            Method::Put { query, .. } => *query,
            Method::Delete { query } => *query,
        }
    }

    /// The verb fixed by the variant.
    pub open spec fn spec_verb(&self) -> Verb {
        match self {
            Method::Get { .. } => Verb::Get,
            Method::Post { .. } => Verb::Post,
            Method::Patch { .. } => Verb::Patch,
            Method::Put { .. } => Verb::Put,
            Method::Delete { .. } => Verb::Delete,
        }
    }

    /// The payload, for the variants that have one.
    pub open spec fn spec_body(&self) -> Option<B> {
        match self {
            Method::Get { .. } => None,
            Method::Post { body, .. } => Some(*body),
            Method::Patch { body, .. } => Some(*body),
            Method::Put { body, .. } => Some(*body),
            Method::Delete { .. } => None,
        }
    }

    pub fn query(&self) -> (q: &Q)
        ensures
            *q == self.spec_query(),
    {
        match self {
            Method::Get { query } => query,
            Method::Post { query, .. } => query,
            Method::Patch { query, .. } => query,
            Method::Put { query, .. } => query,
            Method::Delete { query } => query,
        }
    }

    /// The payload of the call, if its verb sends one.
    pub fn body(&self) -> (b: Option<&B>)
        ensures
            b is Some == self.spec_verb().carries_body(),
            match b {
                Some(payload) => self.spec_body() == Some(*payload),
                None => self.spec_body() is None,
            },
    {
        match self {
            Method::Get { .. } => None,
            Method::Post { body, .. } => Some(body),
            Method::Patch { body, .. } => Some(body),
            Method::Put { body, .. } => Some(body),
            Method::Delete { .. } => None,
        }
    }

    /// The HTTP verb a transport must use for the call.
    pub fn http_method(&self) -> (v: Verb)
        ensures
            v == self.spec_verb(),
    {
        match self {
            Method::Get { .. } => Verb::Get,
            Method::Post { .. } => Verb::Post,
            Method::Patch { .. } => Verb::Patch,
            Method::Put { .. } => Verb::Put,
            Method::Delete { .. } => Verb::Delete,
        }
    }
}

/// A payload is attached exactly to the calls whose verb is POST, PATCH or
/// PUT, whatever query and payload types are used.
pub proof fn lemma_body_follows_verb<Q, B>(method: Method<Q, B>)
    ensures
        method.spec_body() is Some <==> method.spec_verb().carries_body(),
        method.spec_body() is Some <==> (method is Post || method is Patch || method is Put),
{
}

/// The text of the user-agent header.
pub open spec fn qualified_version_text() -> Seq<char> {
    "Meilisearch Rust (v"@ + VERSION@ + ")"@
}

/// The user-agent announced with every request.
pub fn qualified_version() -> (s: String)
    ensures
        s@ == qualified_version_text(),
{
    let mut s = String::from_str("Meilisearch Rust (v");
    s.append(VERSION);
    s.append(")");
    s
}

/// A URL followed by its encoded query: the URL alone when the query is
/// empty, else the two joined by `?`.
pub open spec fn url_with_query(url: Seq<char>, query: Seq<char>) -> Seq<char> {
    if query.len() == 0 {
        url
    } else {
        url + "?"@ + query
    }
}

/// Appends an already encoded query to a URL.
pub fn append_query(url: &str, query: &str) -> (s: String)
    ensures
        s@ == url_with_query(url@, query@),
{
    let mut s = String::from_str(url);
    if !query.is_empty() {
        s.append("?");
        s.append(query);
    }
    s
}

/// One value of a query: a number, a text, or a list of texts.
#[derive(Debug, Clone)]
pub enum ParamValue {
    Number(usize),
    Text(String),
    List(Vec<String>),
}

/// Mathematical counterpart of [`ParamValue`].
pub enum ParamValueView {
    Number(usize),
    Text(Seq<char>),
    List(Seq<Seq<char>>),
}

impl View for ParamValue {
    type V = ParamValueView;

    open spec fn view(&self) -> ParamValueView {
        match self {
            ParamValue::Number(n) => ParamValueView::Number(*n),
            ParamValue::Text(t) => ParamValueView::Text(t@),
            ParamValue::List(items) => ParamValueView::List(items.deep_view()),
        }
    }
}

/// A query as a sequence of named values.
pub type QueryView = Seq<(Seq<char>, ParamValueView)>;

/// The named values held by a query, in order.
pub open spec fn query_view(query: Seq<(String, ParamValue)>) -> QueryView {
    Seq::new(query.len(), |i: int| (query[i].0@, query[i].1@))
}

/// Whether a value is a list without items.
pub open spec fn is_empty_list(value: ParamValueView) -> bool {
    value matches ParamValueView::List(items) && items.len() == 0
}

/// A query the encoder accepts: a list without items may only come last,
/// and then under a key that no earlier value has.
pub open spec fn encodable(query: QueryView) -> bool {
    forall|i: int|
        0 <= i < query.len() - 1 ==> {
            &&& !is_empty_list((#[trigger] query[i]).1)
            &&& is_empty_list(query[query.len() - 1].1) ==> query[i].0 != query[query.len() - 1].0
        }
}

/// Whether a value is a list without items.
fn empty_list(value: &ParamValue) -> (r: bool)
    ensures
        r == is_empty_list(value@),
{
    match value {
        ParamValue::List(items) => items.len() == 0,
        _ => false,
    }
}

/// Whether the encoder accepts a query.
pub fn can_encode(query: &Vec<(String, ParamValue)>) -> (r: bool)
    ensures
        r == encodable(query_view(query@)),
{
    if query.len() == 0 {
        return true;
    }
    let last = query.len() - 1;
    let last_is_empty = empty_list(&query[last].1);
    let ghost all = query_view(query@);
    let mut i: usize = 0;
    while i < last
        invariant
            i <= last,
            last == query.len() - 1,
            all == query_view(query@),
            last_is_empty == is_empty_list(all[last as int].1),
            forall|k: int|
                0 <= k < i ==> {
                    &&& !is_empty_list((#[trigger] all[k]).1)
                    &&& last_is_empty ==> all[k].0 != all[last as int].0
                },
        decreases last - i,
    {
        if empty_list(&query[i].1) {
            assert(is_empty_list(all[i as int].1));
            return false;
        }
        if last_is_empty && same_text(query[i].0.as_str(), query[last].0.as_str()) {
            assert(all[i as int].0 == all[last as int].0);
            return false;
        }
        i += 1;
    }
    true
}

/// The URL-encoded form of a query, or the encoder's complaint.
pub uninterp spec fn encoded_query(query: Seq<(Seq<char>, ParamValueView)>) -> Result<
    Seq<char>,
    Seq<char>,
>;

/// The characters of a text or of a complaint.
pub open spec fn text_result_view(r: Result<String, String>) -> Result<Seq<char>, Seq<char>> {
    match r {
        Ok(s) => Ok(s@),
        Err(e) => Err(e@),
    }
}

/// Feeds the named values, in order, to `yaup::to_string` as one map from
/// key to number, text or list, and hands back the string it produces or
/// the text of its error. The claim is only that equal queries give equal
/// results. The encoder miscounts when a list without items is followed
/// by another value, so such a list is only handed over in the last place
/// of the map, which it has when it comes last under a key of its own.
/// The encoder writes each key followed by `=`, so what it makes of a
/// query with values is not empty.
#[verifier::external_body]
fn encode_query(query: &Vec<(String, ParamValue)>) -> (r: Result<String, String>)
    requires
        encodable(query_view(query@)),
    ensures
        text_result_view(r) == encoded_query(query_view(query@)),
        r matches Ok(encoded) ==> query@.len() > 0 ==> encoded@.len() > 0,
{
    let mut map = serde_json::Map::new();
    for (key, value) in query.iter() {
        let value = match value {
            ParamValue::Number(n) => serde_json::Value::from(*n),
            ParamValue::Text(t) => serde_json::Value::from(t.as_str()),
            ParamValue::List(items) => serde_json::Value::from(items.clone()),
        };
        map.insert(key.clone(), value);
    }
    yaup::to_string(&map).map_err(|e| e.to_string())
}

/// What [`add_query_parameters`] returns, given what the encoder made of
/// the query.
pub open spec fn url_for_query(url: Seq<char>, query: QueryView) -> Result<Seq<char>, ErrorView> {
    if query.len() == 0 {
        Ok(url)
    } else {
        match encoded_query(query) {
            Ok(encoded) => Ok(url_with_query(url, encoded)),
            Err(complaint) => Err(ErrorView::Yaup(complaint)),
        }
    }
}

/// The view of a URL or of the error met while building it.
pub open spec fn url_result_view(r: Result<String, Error>) -> Result<Seq<char>, ErrorView> {
    match r {
        Ok(s) => Ok(s@),
        Err(e) => Err(e@),
    }
}

/// Appends the query to the URL. A query without values leaves the URL as
/// it is, with no `?`.
pub fn add_query_parameters(url: &str, query: &Vec<(String, ParamValue)>) -> (r: Result<
    String,
    Error,
>)
    requires
        encodable(query_view(query@)),
    ensures
        url_result_view(r) == url_for_query(url@, query_view(query@)),
        query@.len() == 0 ==> (r matches Ok(same) && same@ == url@),
        query@.len() > 0 ==> (r matches Ok(longer) ==> (longer@.len() > url@.len() + 1
            && longer@.subrange(0, url@.len() as int) == url@ && longer@[url@.len() as int]
            == '?')),
{
    if query.len() == 0 {
        return Ok(String::from_str(url));
    }
    match encode_query(query) {
        Ok(encoded) => {
            let longer = append_query(url, encoded.as_str());
            proof {
                reveal_strlit("?");
                assert(longer@.subrange(0, url@.len() as int) =~= url@);
            }
            Ok(longer)
        },
        Err(complaint) => Err(Error::Yaup(complaint)),
    }
}

/// A request ready to be handed to a transport.
#[derive(Debug, Clone)]
pub struct PreparedRequest {
    /// Target, query string included.
    pub url: String,
    pub verb: Verb,
    /// Value of the `User-Agent` header.
    pub user_agent: String,
    /// Value of the `Authorization` header, when one is sent.
    pub authorization: Option<String>,
    /// Value of the `Content-Type` header, sent along with a payload.
    pub content_type: Option<String>,
    /// The payload.
    pub body: Option<String>,
}

/// Mathematical counterpart of [`PreparedRequest`].
pub struct PreparedRequestView {
    pub url: Seq<char>,
    pub verb: Verb,
    pub user_agent: Seq<char>,
    pub authorization: Option<Seq<char>>,
    pub content_type: Option<Seq<char>>,
    pub body: Option<Seq<char>>,
}

impl View for PreparedRequest {
    type V = PreparedRequestView;

    open spec fn view(&self) -> PreparedRequestView {
        PreparedRequestView {
            url: self.url@,
            verb: self.verb,
            user_agent: self.user_agent@,
            authorization: self.authorization.deep_view(),
            content_type: self.content_type.deep_view(),
            body: self.body.deep_view(),
        }
    }
}

/// The value of the `Authorization` header for a key.
pub open spec fn bearer(key: Seq<char>) -> Seq<char> {
    "Bearer "@ + key
}

/// The request for a call whose URL already carries the query: the
/// client's user agent, a bearer header exactly when a key is given, and a
/// content type exactly when there is a payload.
pub open spec fn assembled(
    full_url: Seq<char>,
    apikey: Option<Seq<char>>,
    verb: Verb,
    body: Option<Seq<char>>,
    content_type: Seq<char>,
) -> PreparedRequestView {
    PreparedRequestView {
        url: full_url,
        verb,
        user_agent: qualified_version_text(),
        authorization: match apikey {
            Some(key) => Some(bearer(key)),
            None => None,
        },
        content_type: if body is Some {
            Some(content_type)
        } else {
            None
        },
        body,
    }
}

/// The request that carries a call: the verb of the variant, the URL with
/// the encoded query, and headers and payload as [`assembled`] says.
pub open spec fn request_for(
    url: Seq<char>,
    apikey: Option<Seq<char>>,
    verb: Verb,
    query: QueryView,
    body: Option<Seq<char>>,
    content_type: Seq<char>,
) -> Result<PreparedRequestView, ErrorView> {
    match url_for_query(url, query) {
        Err(e) => Err(e),
        Ok(full_url) => Ok(assembled(full_url, apikey, verb, body, content_type)),
    }
}

/// Builds the request for a call whose URL already carries the query and
/// whose payload, if any, is already serialized.
pub fn assemble_request(
    full_url: String,
    apikey: Option<&str>,
    verb: Verb,
    body: Option<String>,
    content_type: &str,
) -> (r: PreparedRequest)
    ensures
        r@ == assembled(full_url@, apikey.deep_view(), verb, body.deep_view(), content_type@),
{
    let authorization = match apikey {
        Some(key) => {
            let mut value = String::from_str("Bearer ");
            value.append(key);
            Some(value)
        },
        None => None,
    };
    let content_type = match &body {
        Some(_) => Some(String::from_str(content_type)),
        None => None,
    };
    PreparedRequest {
        url: full_url,
        verb,
        user_agent: qualified_version(),
        authorization,
        content_type,
        body,
    }
}

/// The view of a request or of the error met while building it.
pub open spec fn request_result_view(r: Result<PreparedRequest, Error>) -> Result<
    PreparedRequestView,
    ErrorView,
> {
    match r {
        Ok(p) => Ok(p@),
        Err(e) => Err(e@),
    }
}

/// Builds the request for a call whose payload is already serialized.
pub fn prepare_request(
    url: &str,
    apikey: Option<&str>,
    method: &Method<Vec<(String, ParamValue)>, String>,
    content_type: &str,
) -> (r: Result<PreparedRequest, Error>)
    requires
        encodable(query_view(method.spec_query()@)),
    ensures
        request_result_view(r) == request_for(
            url@,
            apikey.deep_view(),
            method.spec_verb(),
            query_view(method.spec_query()@),
            method.spec_body().deep_view(),
            content_type@,
        ),
{
    let full_url = match add_query_parameters(url, method.query()) {
        Ok(full_url) => full_url,
        Err(e) => {
            return Err(e);
        },
    };
    let body = match method.body() {
        Some(payload) => Some(payload.clone()),
        None => None,
    };
    Ok(assemble_request(full_url, apikey, method.http_method(), body, content_type))
}

/// The request built for a call uses the verb of the call's variant, and
/// carries a payload, and with it a content type, exactly when the variant
/// is POST, PATCH or PUT.
pub proof fn lemma_request_follows_variant(
    url: Seq<char>,
    apikey: Option<Seq<char>>,
    method: Method<QueryView, Seq<char>>,
    content_type: Seq<char>,
)
    ensures
        match request_for(
            url,
            apikey,
            method.spec_verb(),
            method.spec_query(),
            method.spec_body(),
            content_type,
        ) {
            Ok(request) => {
                &&& request.verb == method.spec_verb()
                &&& request.body == method.spec_body()
                &&& request.body is Some <==> (method is Post || method is Patch || method is Put)
                &&& request.content_type is Some <==> request.body is Some
            },
            Err(_) => true,
        },
{
}

/// The request built for a call has an authorization header exactly when a
/// key is supplied, and the header is then `Bearer` followed by the key.
pub proof fn lemma_authorization_iff_key(
    url: Seq<char>,
    apikey: Option<Seq<char>>,
    verb: Verb,
    query: QueryView,
    body: Option<Seq<char>>,
    content_type: Seq<char>,
)
    ensures
        match request_for(url, apikey, verb, query, body, content_type) {
            Ok(request) => {
                &&& request.authorization is Some <==> apikey is Some
                &&& apikey matches Some(key) ==> request.authorization == Some(bearer(key))
            },
            Err(_) => true,
        },
{
}

/// A query without values leaves the URL untouched. A query with values
/// that the encoder turns into a non-empty text yields the URL, a `?` and
/// that text.
pub proof fn lemma_query_suffix(url: Seq<char>, query: QueryView)
    ensures
        query.len() == 0 ==> url_for_query(url, query) == Ok::<Seq<char>, ErrorView>(url),
        query.len() > 0 ==> match encoded_query(query) {
            Ok(encoded) => encoded.len() > 0 ==> {
                &&& url_for_query(url, query) matches Ok(full)
                &&& full.len() == url.len() + 1 + encoded.len()
                &&& full.subrange(0, url.len() as int) == url
                &&& full[url.len() as int] == '?'
                &&& full.skip(url.len() as int + 1) == encoded
            },
            Err(complaint) => url_for_query(url, query) == Err::<Seq<char>, ErrorView>(
                ErrorView::Yaup(complaint),
            ),
        },
{
    reveal_strlit("?");
    if query.len() > 0 {
        match encoded_query(query) {
            Ok(encoded) => {
                if encoded.len() > 0 {
                    let full = url + "?"@ + encoded;
                    assert("?"@.len() == 1 && "?"@[0] == '?');
                    assert(full.subrange(0, url.len() as int) =~= url);
                    assert(full.skip(url.len() as int + 1) =~= encoded);
                }
            },
            Err(_) => {},
        }
    }
}

/// The body that is parsed: an empty one stands for the JSON literal
/// `null`.
pub open spec fn effective_body(body: Seq<char>) -> Seq<char> {
    if body.len() == 0 {
        "null"@
    } else {
        body
    }
}

/// The body to parse for a response.
pub fn body_or_null(body: &str) -> (r: &str)
    ensures
        r@ == effective_body(body@),
{
    if body.is_empty() {
        "null"
    } else {
        body
    }
}

/// The outcome of a call, given the status, the status that means success,
/// the body read as the expected output and the body read as a rejection.
///
/// With the expected status the output decides alone. With any other
/// status a readable rejection is the error; failing that, a status of 400
/// or more is a communication error and a lower one a parse error.
pub open spec fn classified<T>(
    status_code: u16,
    expected_status_code: u16,
    decoded: Result<T, Seq<char>>,
    rejection: Result<ErrorView, Seq<char>>,
    url: Seq<char>,
) -> Result<T, ErrorView> {
    if status_code == expected_status_code {
        match decoded {
            Ok(output) => Ok(output),
            Err(complaint) => Err(ErrorView::ParseError(complaint)),
        }
    } else {
        match rejection {
            Ok(e) => Err(e),
            Err(complaint) => if status_code >= 400 {
                Err(ErrorView::MeilisearchCommunication { status_code, message: None, url })
            } else {
                Err(ErrorView::ParseError(complaint))
            },
        }
    }
}

/// The view of an outcome whose output is kept as it is.
pub open spec fn outcome_view<T>(r: Result<T, Error>) -> Result<T, ErrorView> {
    match r {
        Ok(output) => Ok(output),
        Err(e) => Err(e@),
    }
}

/// The view of a decoding attempt.
pub open spec fn decoded_view<T>(r: Result<T, String>) -> Result<T, Seq<char>> {
    match r {
        Ok(output) => Ok(output),
        Err(complaint) => Err(complaint@),
    }
}

/// The view of an attempt to read a rejection.
pub open spec fn rejection_view(r: Result<MeilisearchError, String>) -> Result<
    ErrorView,
    Seq<char>,
> {
    match r {
        Ok(e) => Ok(e.as_error()),
        Err(complaint) => Err(complaint@),
    }
}

/// Classifies a response whose body has already been read both ways.
pub fn classify_response<T>(
    status_code: u16,
    expected_status_code: u16,
    decoded: Result<T, String>,
    rejection: Result<MeilisearchError, String>,
    url: String,
) -> (r: Result<T, Error>)
    ensures
        outcome_view(r) == classified(
            status_code,
            expected_status_code,
            decoded_view(decoded),
            rejection_view(rejection),
            url@,
        ),
{
    if status_code == expected_status_code {
        return match decoded {
            Ok(output) => Ok(output),
            Err(complaint) => Err(Error::ParseError(complaint)),
        };
    }
    match rejection {
        Ok(e) => Err(Error::Meilisearch(e)),
        Err(complaint) => {
            if status_code >= 400 {
                return Err(
                    Error::MeilisearchCommunication(
                        MeilisearchCommunicationError { status_code, message: None, url },
                    ),
                );
            }
            Err(Error::ParseError(complaint))
        },
    }
}

/// With the expected status, an output that was read is returned as it
/// is, and a body that could not be read is a parse error.
pub proof fn lemma_expected_status<T>(
    status_code: u16,
    decoded: Result<T, Seq<char>>,
    rejection: Result<ErrorView, Seq<char>>,
    url: Seq<char>,
)
    ensures
        match decoded {
            Ok(output) => classified(status_code, status_code, decoded, rejection, url) == Ok::<
                T,
                ErrorView,
            >(output),
            Err(complaint) => classified(status_code, status_code, decoded, rejection, url) == Err::<
                T,
                ErrorView,
            >(ErrorView::ParseError(complaint)),
        },
{
}

/// With another status than the expected one, a readable rejection is the
/// error, whatever the status; without one, the error is a communication
/// error carrying status and URL when the status is 400 or more, and a
/// parse error below that. The output is never returned.
pub proof fn lemma_unexpected_status<T>(
    status_code: u16,
    expected_status_code: u16,
    decoded: Result<T, Seq<char>>,
    rejection: Result<ErrorView, Seq<char>>,
    url: Seq<char>,
)
    requires
        status_code != expected_status_code,
    ensures
        classified(status_code, expected_status_code, decoded, rejection, url) is Err,
        rejection matches Ok(e) ==> classified(
            status_code,
            expected_status_code,
            decoded,
            rejection,
            url,
        ) == Err::<T, ErrorView>(e),
        rejection matches Err(complaint) ==> classified(
            status_code,
            expected_status_code,
            decoded,
            rejection,
            url,
        ) == Err::<T, ErrorView>(
            if status_code >= 400 {
                ErrorView::MeilisearchCommunication { status_code, message: None, url }
            } else {
                ErrorView::ParseError(complaint)
            },
        ),
{
}

/// Complaint used when a body is valid JSON but spells out no rejection.
pub const NOT_A_REJECTION: &'static str = "the body is not a structured service error";

/// The rejection read from a parsed body, or why there is none.
pub open spec fn rejection_in(parsed: Result<JsonDocumentView, Seq<char>>, url: Seq<char>) -> Result<
    ErrorView,
    Seq<char>,
> {
    match parsed {
        Ok(document) => match service_error(document, url) {
            Some(e) => Ok(e),
            None => Err(NOT_A_REJECTION@),
        },
        Err(complaint) => Err(complaint),
    }
}

/// Reads a body as a rejection sent in answer to a request to `url`.
pub fn read_rejection(body: &str, url: &str) -> (r: Result<MeilisearchError, String>)
    ensures
        rejection_view(r) == rejection_in(json_document(effective_body(body@)), url@),
{
    match parse_json(body_or_null(body)) {
        Ok(document) => match MeilisearchError::from_document(&document, url) {
            Some(e) => Ok(e),
            None => Err(String::from_str(NOT_A_REJECTION)),
        },
        Err(complaint) => Err(complaint),
    }
}

/// The outcome of a call whose output is the parsed body itself.
pub open spec fn document_outcome(
    status_code: u16,
    expected_status_code: u16,
    parsed: Result<JsonDocumentView, Seq<char>>,
    url: Seq<char>,
) -> Result<JsonDocumentView, ErrorView> {
    classified(status_code, expected_status_code, parsed, rejection_in(parsed, url), url)
}

/// The view of a document or of the error returned in its place.
pub open spec fn document_outcome_view(r: Result<JsonDocument, Error>) -> Result<
    JsonDocumentView,
    ErrorView,
> {
    match r {
        Ok(document) => Ok(document@),
        Err(e) => Err(e@),
    }
}

/// What the three kinds of error mean for a parsed body: with the expected
/// status an unreadable body is a parse error; with another status a body
/// that spells out a rejection is a service error with the code, message
/// and URL of that rejection; with another status of 400 or more and an
/// unreadable body the error is a communication error with that status and
/// URL.
pub proof fn lemma_error_kinds(
    status_code: u16,
    expected_status_code: u16,
    parsed: Result<JsonDocumentView, Seq<char>>,
    url: Seq<char>,
)
    ensures
        ({
            let outcome = document_outcome(status_code, expected_status_code, parsed, url);
            match parsed {
                Err(complaint) => if status_code == expected_status_code {
                    outcome == Err::<JsonDocumentView, ErrorView>(ErrorView::ParseError(complaint))
                } else {
                    status_code >= 400 ==> outcome == Err::<JsonDocumentView, ErrorView>(
                        ErrorView::MeilisearchCommunication { status_code, message: None, url },
                    )
                },
                Ok(document) => if status_code == expected_status_code {
                    outcome == Ok::<JsonDocumentView, ErrorView>(document)
                } else {
                    match (document.text_of("errorCode"@), document.text_of("errorMessage"@)) {
                        (Some(error_code), Some(error_message)) => outcome == Err::<
                            JsonDocumentView,
                            ErrorView,
                        >(ErrorView::Meilisearch { error_code, error_message, url }),
                        _ => true,
                    }
                },
            }
        }),
{
}

/// Classifies a response whose body has been through the JSON parser.
pub fn classify_document(
    status_code: u16,
    expected_status_code: u16,
    parsed: Result<JsonDocument, String>,
    url: String,
) -> (r: Result<JsonDocument, Error>)
    ensures
        document_outcome_view(r) == document_outcome(
            status_code,
            expected_status_code,
            document_result_view(parsed),
            url@,
        ),
{
    let rejection = match &parsed {
        Ok(document) => match MeilisearchError::from_document(document, url.as_str()) {
            Some(e) => Ok(e),
            None => Err(String::from_str(NOT_A_REJECTION)),
        },
        Err(complaint) => Err(complaint.clone()),
    };
    classify_response(status_code, expected_status_code, parsed, rejection, url)
}

/// Turns status and body of a response into the parsed body or the error
/// the response stands for.
pub fn parse_response(status_code: u16, expected_status_code: u16, body: &str, url: String) -> (r:
    Result<JsonDocument, Error>)
    ensures
        document_outcome_view(r) == document_outcome(
            status_code,
            expected_status_code,
            json_document(effective_body(body@)),
            url@,
        ),
        body@.len() == 0 ==> document_outcome_view(r) == document_outcome(
            status_code,
            expected_status_code,
            Ok(JsonDocumentView::null()),
            url@,
        ),
{
    let parsed = parse_json(body_or_null(body));
    classify_document(status_code, expected_status_code, parsed, url)
}

/// A response without a body is read as the JSON value null: with the
/// expected status that value is the output; with another status it is no
/// rejection, so the error is a communication error from status 400 on and
/// a parse error below.
pub proof fn lemma_empty_body(status_code: u16, expected_status_code: u16, url: Seq<char>)
    ensures
        document_outcome(status_code, expected_status_code, Ok(JsonDocumentView::null()), url) == (
        if status_code == expected_status_code {
            Ok::<JsonDocumentView, ErrorView>(JsonDocumentView::null())
        } else if status_code >= 400 {
            Err::<JsonDocumentView, ErrorView>(
                ErrorView::MeilisearchCommunication { status_code, message: None, url },
            )
        } else {
            Err::<JsonDocumentView, ErrorView>(ErrorView::ParseError(NOT_A_REJECTION@))
        }),
{
}

} // verus!
