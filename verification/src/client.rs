//! The entry point of the client: where the service lives and how to
//! authenticate.

use vstd::prelude::*;
use vstd::string::StringExecFns;
use crate::indexes::ACCEPTED;
use crate::indexes::ApiCall;
use crate::indexes::ApiCallView;
use crate::indexes::Index;
use crate::indexes::no_query;
use crate::json::json_string;
use crate::json::json_string_of;
use crate::request::Method;
use crate::request::Verb;

verus! {

/// Address of the service and the key to present to it.
#[derive(Debug)]
pub struct Client {
    pub host: String,
    pub api_key: Option<String>,
}

/// Mathematical counterpart of [`Client`].
pub struct ClientView {
    pub host: Seq<char>,
    pub api_key: Option<Seq<char>>,
}

impl View for Client {
    type V = ClientView;

    open spec fn view(&self) -> ClientView {
        ClientView { host: self.host@, api_key: self.api_key.deep_view() }
    }
}

impl Clone for Client {
    fn clone(&self) -> (r: Client)
        ensures
            r@ == self@,
    {
        Client { host: self.host.clone(), api_key: self.api_key.clone() }
    }
}

/// The payload that asks for a new index: a JSON object with the name of
/// the index and its primary key, `null` when none is named.
pub open spec fn new_index_body(uid: Seq<char>, primary_key: Option<Seq<char>>) -> Seq<char> {
    "{\"uid\":"@ + json_string_of(uid) + ",\"primaryKey\":"@ + match primary_key {
        Some(key) => json_string_of(key),
        None => "null"@,
    } + "}"@
}

impl Client {
    /// The call that asks the service to create an index.
    pub fn create_index(&self, uid: &str, primary_key: Option<&str>) -> (r: ApiCall)
        ensures
            r@ == (ApiCallView {
                url: self.host@ + "/indexes"@,
                verb: Verb::Post,
                query: Seq::empty(),
                body: Some(new_index_body(uid@, primary_key.deep_view())),
                expected_status_code: ACCEPTED,
            }),
    {
        let mut url = self.host.clone();
        url.append("/indexes");
        let mut body = String::from_str("{\"uid\":");
        body.append(json_string(uid).as_str());
        body.append(",\"primaryKey\":");
        match primary_key {
            Some(key) => {
                body.append(json_string(key).as_str());
            },
            None => {
                body.append("null");
            },
        }
        body.append("}");
        ApiCall { url, method: Method::Post { query: no_query(), body }, expected_status_code: ACCEPTED }
    }

    /// A client for the service at `host`. Nothing is sent.
    pub fn new(host: &str, api_key: Option<&str>) -> (r: Client)
        ensures
            r@ == (ClientView { host: host@, api_key: api_key.deep_view() }),
    {
        let api_key = match api_key {
            Some(key) => Some(String::from_str(key)),
            None => None,
        };
        Client { host: String::from_str(host), api_key }
    }

    /// The key presented to the service, if any.
    pub fn get_api_key(&self) -> (r: Option<&str>)
        ensures
            r.deep_view() == self@.api_key,
    {
        match &self.api_key {
            Some(key) => Some(key.as_str()),
            None => None,
        }
    }

    /// A handle on the index called `uid`. Nothing is sent.
    pub fn index(&self, uid: &str) -> (r: Index)
        ensures
            r.client@ == self@,
            r.uid@ == uid@,
    {
        Index { client: self.clone(), uid: String::from_str(uid) }
    }
}

} // verus!
