//! Queries on the documents of an index.

use vstd::prelude::*;
use vstd::string::StringExecFns;
use crate::client::Client;
use crate::indexes::ACCEPTED;
use crate::indexes::ApiCall;
use crate::indexes::ApiCallView;
use crate::indexes::Index;
use crate::indexes::OK;
use crate::indexes::no_query;
use crate::json::json_string;
use crate::json::json_string_of;
use crate::request::Method;
use crate::request::Verb;
use crate::request::ParamValue;
use crate::request::ParamValueView;
use crate::request::QueryView;
use crate::request::query_view;
use crate::request::encodable;
use crate::request::is_empty_list;
use crate::settings::Settings;
use crate::settings::texts;
use crate::settings::to_strings;

verus! {

/// What a document type knows about the index that holds it.
pub trait IndexConfig {
    /// The name of the index.
    const INDEX_STR: &'static str;

    /// A handle on the index.
    fn index(client: &Client) -> (r: Index)
        ensures
            r.client@ == client@,
            r.uid@ == Self::INDEX_STR@,
    {
        client.index(Self::INDEX_STR)
    }

    /// The settings the index should have.
    fn generate_settings() -> Settings;
}

/// One page of documents.
#[derive(Debug, Clone)]
pub struct DocumentsResults<T> {
    pub results: Vec<T>,
    pub limit: u32,
    pub offset: u32,
    pub total: u32,
}

/// The named value for a list of fields.
pub open spec fn fields_param(fields: Seq<&str>) -> (Seq<char>, ParamValueView) {
    ("fields"@, ParamValueView::List(texts(fields)))
}

/// The named value for an offset.
pub open spec fn offset_param(offset: usize) -> (Seq<char>, ParamValueView) {
    ("offset"@, ParamValueView::Number(offset))
}

/// The named value for a limit.
pub open spec fn limit_param(limit: usize) -> (Seq<char>, ParamValueView) {
    ("limit"@, ParamValueView::Number(limit))
}

/// A sequence of no values or of one.
pub open spec fn present<T>(value: Option<T>) -> Seq<T> {
    match value {
        Some(v) => seq![v],
        None => Seq::empty(),
    }
}

/// Whether a query has a value under a key.
pub open spec fn has_key(query: QueryView, key: Seq<char>) -> bool {
    exists|i: int| 0 <= i < query.len() && (#[trigger] query[i]).0 == key
}

/// The URL of the documents of an index.
pub open spec fn documents_url(host: Seq<char>, uid: Seq<char>) -> Seq<char> {
    host + "/indexes/"@ + uid + "/documents"@
}

/// The URL of the documents of an index.
fn documents_url_of(index: &Index) -> (r: String)
    ensures
        r@ == documents_url(index.client.host@, index.uid@),
{
    let mut url = index.client.host.clone();
    url.append("/indexes/");
    url.append(index.uid.as_str());
    url.append("/documents");
    url
}

/// A query for one document.
#[derive(Debug, Clone)]
pub struct DocumentQuery<'a> {
    pub index: &'a Index,
    /// The fields to return; all of them when none are named.
    pub fields: Option<Vec<&'a str>>,
}

impl<'a> DocumentQuery<'a> {
    pub fn new(index: &'a Index) -> (r: DocumentQuery<'a>)
        ensures
            r.index == index,
            r.fields is None,
    {
        DocumentQuery { index, fields: None }
    }

    /// Names the fields to return.
    pub fn with_fields(&mut self, fields: Vec<&'a str>) -> (r: &mut DocumentQuery<'a>)
        ensures
            *r == (DocumentQuery { index: old(self).index, fields: Some(fields) }),
            *final(self) == *final(r),
    {
        self.fields = Some(fields);
        self
    }

    /// The query as named values: the fields when they are chosen, nothing
    /// otherwise.
    pub open spec fn spec_params(&self) -> QueryView {
        match self.fields {
            Some(fields) => seq![fields_param(fields@)],
            None => Seq::empty(),
        }
    }

    /// The query as named values, ready to be encoded.
    pub fn params(&self) -> (r: Vec<(String, ParamValue)>)
        ensures
            query_view(r@) == self.spec_params(),
            encodable(query_view(r@)),
    {
        let mut params: Vec<(String, ParamValue)> = Vec::new();
        match &self.fields {
            Some(fields) => {
                params.push(
                    (String::from_str("fields"), ParamValue::List(to_strings(fields.as_slice()))),
                );
            },
            None => {},
        }
        assert(query_view(params@) =~= self.spec_params());
        params
    }
}

impl<'a> DocumentQuery<'a> {
    /// The call that fetches the document with the given identifier.
    pub fn execute(&self, document_id: &str) -> (r: ApiCall)
        ensures
            r@ == (ApiCallView {
                url: documents_url(self.index.client.host@, self.index.uid@) + "/"@ + document_id@,
                verb: Verb::Get,
                query: self.spec_params(),
                body: None,
                expected_status_code: OK,
            }),
    {
        let mut url = documents_url_of(self.index);
        url.append("/");
        url.append(document_id);
        ApiCall { url, method: Method::Get { query: self.params() }, expected_status_code: OK }
    }
}

/// A query for a page of documents.
#[derive(Debug, Clone)]
pub struct DocumentsQuery<'a> {
    pub index: &'a Index,
    /// The number of documents to skip.
    pub offset: Option<usize>,
    /// The largest number of documents to return.
    pub limit: Option<usize>,
    /// The fields to return; all of them when none are named.
    pub fields: Option<Vec<&'a str>>,
}

impl<'a> DocumentsQuery<'a> {
    pub fn new(index: &'a Index) -> (r: DocumentsQuery<'a>)
        ensures
            r.index == index,
            r.offset is None,
            r.limit is None,
            r.fields is None,
    {
        DocumentsQuery { index, offset: None, limit: None, fields: None }
    }

    /// Sets the number of documents to skip.
    pub fn with_offset(&mut self, offset: usize) -> (r: &mut DocumentsQuery<'a>)
        ensures
            *r == (DocumentsQuery { offset: Some(offset), ..*old(self) }),
            *final(self) == *final(r),
    {
        self.offset = Some(offset);
        self
    }

    /// Sets the largest number of documents to return.
    pub fn with_limit(&mut self, limit: usize) -> (r: &mut DocumentsQuery<'a>)
        ensures
            *r == (DocumentsQuery { limit: Some(limit), ..*old(self) }),
            *final(self) == *final(r),
    {
        self.limit = Some(limit);
        self
    }

    /// Names the fields to return.
    pub fn with_fields(&mut self, fields: Vec<&'a str>) -> (r: &mut DocumentsQuery<'a>)
        ensures
            *r == (DocumentsQuery { fields: Some(fields), ..*old(self) }),
            *final(self) == *final(r),
    {
        self.fields = Some(fields);
        self
    }

    /// The query as named values: offset, limit and fields in this order,
    /// each only when it is chosen.
    pub open spec fn spec_params(&self) -> QueryView {
        present(
            match self.offset {
                Some(offset) => Some(offset_param(offset)),
                None => None,
            },
        ) + present(
            match self.limit {
                Some(limit) => Some(limit_param(limit)),
                None => None,
            },
        ) + present(
            match self.fields {
                Some(fields) => Some(fields_param(fields@)),
                None => None,
            },
        )
    }

    /// The fields that are not chosen are left out of the query, and each
    /// chosen one is named once, with its value: a query with nothing
    /// chosen has no values at all.
    pub proof fn lemma_only_chosen_fields_are_named(&self)
        ensures
            self.spec_params().len() == (if self.offset is Some {
                1int
            } else {
                0int
            }) + (if self.limit is Some {
                1int
            } else {
                0int
            }) + (if self.fields is Some {
                1int
            } else {
                0int
            }),
            has_key(self.spec_params(), "offset"@) <==> self.offset is Some,
            has_key(self.spec_params(), "limit"@) <==> self.limit is Some,
            has_key(self.spec_params(), "fields"@) <==> self.fields is Some,
            self.offset matches Some(offset) ==> self.spec_params().contains(offset_param(offset)),
            self.limit matches Some(limit) ==> self.spec_params().contains(limit_param(limit)),
            self.fields matches Some(fields) ==> self.spec_params().contains(fields_param(fields@)),
    {
        reveal_strlit("offset");
        reveal_strlit("limit");
        reveal_strlit("fields");
        assert("offset"@.len() == 6 && "offset"@[0] == 'o');
        assert("limit"@.len() == 5);
        assert("fields"@.len() == 6 && "fields"@[0] == 'f');
        let q = self.spec_params();
        let a = present(
            match self.offset {
                Some(offset) => Some(offset_param(offset)),
                None => None,
            },
        );
        let b = present(
            match self.limit {
                Some(limit) => Some(limit_param(limit)),
                None => None,
            },
        );
        let c = present(
            match self.fields {
                Some(fields) => Some(fields_param(fields@)),
                None => None,
            },
        );
        assert(q == a + b + c);
        if self.offset is Some {
            assert(q[0] == offset_param(self.offset->0));
        }
        if self.limit is Some {
            assert(q[a.len() as int] == limit_param(self.limit->0));
        }
        if self.fields is Some {
            assert(q[(a.len() + b.len()) as int] == fields_param(self.fields->0@));
        }
        assert forall|i: int| 0 <= i < q.len() implies (#[trigger] q[i]).0 == "offset"@
            ==> self.offset is Some by {
            if i < a.len() {
            } else if i < a.len() + b.len() {
                assert(q[i] == b[i - a.len()]);
            } else {
                assert(q[i] == c[i - a.len() - b.len()]);
            }
        }
        assert forall|i: int| 0 <= i < q.len() implies (#[trigger] q[i]).0 == "limit"@
            ==> self.limit is Some by {
            if i < a.len() {
                assert(q[i] == a[i]);
            } else if i < a.len() + b.len() {
            } else {
                assert(q[i] == c[i - a.len() - b.len()]);
            }
        }
        assert forall|i: int| 0 <= i < q.len() implies (#[trigger] q[i]).0 == "fields"@
            ==> self.fields is Some by {
            if i < a.len() {
                assert(q[i] == a[i]);
            } else if i < a.len() + b.len() {
                assert(q[i] == b[i - a.len()]);
            } else {
            }
        }
    }

    /// The query as named values, ready to be encoded.
    pub fn params(&self) -> (r: Vec<(String, ParamValue)>)
        ensures
            query_view(r@) == self.spec_params(),
            encodable(query_view(r@)),
    {
        let mut params: Vec<(String, ParamValue)> = Vec::new();
        match self.offset {
            Some(offset) => {
                params.push((String::from_str("offset"), ParamValue::Number(offset)));
            },
            None => {},
        }
        match self.limit {
            Some(limit) => {
                params.push((String::from_str("limit"), ParamValue::Number(limit)));
            },
            None => {},
        }
        match &self.fields {
            Some(fields) => {
                params.push(
                    (String::from_str("fields"), ParamValue::List(to_strings(fields.as_slice()))),
                );
            },
            None => {},
        }
        proof {
            reveal_strlit("offset");
            reveal_strlit("limit");
            reveal_strlit("fields");
            assert("offset"@.len() == 6 && "offset"@[0] == 'o');
            assert("limit"@.len() == 5);
            assert("fields"@.len() == 6 && "fields"@[0] == 'f');
            let q = query_view(params@);
            assert(q =~= self.spec_params());
            assert forall|i: int| 0 <= i < q.len() - 1 implies !is_empty_list((#[trigger] q[i]).1)
                && q[i].0 != "fields"@ by {
                if self.offset is Some && self.limit is Some {
                    assert(q[0] == offset_param(self.offset->0));
                    assert(q[1] == limit_param(self.limit->0));
                } else if self.offset is Some {
                    assert(q[0] == offset_param(self.offset->0));
                } else if self.limit is Some {
                    assert(q[0] == limit_param(self.limit->0));
                }
            }
            if q.len() > 0 {
                if self.fields is Some {
                    assert(q[q.len() - 1] == fields_param(self.fields->0@));
                } else if self.limit is Some {
                    assert(q[q.len() - 1] == limit_param(self.limit->0));
                } else {
                    assert(q[q.len() - 1] == offset_param(self.offset->0));
                }
            }
        }
        params
    }
}

impl<'a> DocumentsQuery<'a> {
    /// The call that fetches the page of documents.
    pub fn execute(&self) -> (r: ApiCall)
        ensures
            r@ == (ApiCallView {
                url: documents_url(self.index.client.host@, self.index.uid@),
                verb: Verb::Get,
                query: self.spec_params(),
                body: None,
                expected_status_code: OK,
            }),
    {
        ApiCall {
            url: documents_url_of(self.index),
            method: Method::Get { query: self.params() },
            expected_status_code: OK,
        }
    }
}

/// The payload that names a filter: a JSON object with the one member
/// `filter`.
pub open spec fn filter_body(filter: Seq<char>) -> Seq<char> {
    "{\"filter\":"@ + json_string_of(filter) + "}"@
}

/// A request to delete the documents a filter selects.
#[derive(Debug, Clone)]
pub struct DocumentDeletionQuery<'a> {
    pub index: &'a Index,
    /// The filter that selects the documents.
    pub filter: &'a str,
}

impl<'a> DocumentDeletionQuery<'a> {
    pub fn new(index: &'a Index) -> (r: DocumentDeletionQuery<'a>)
        ensures
            r.index == index,
            r.filter@.len() == 0,
    {
        proof {
            reveal_strlit("");
        }
        DocumentDeletionQuery { index, filter: "" }
    }

    pub fn with_filter<'b>(&'b mut self, filter: &'a str) -> (r: &'b mut DocumentDeletionQuery<'a>)
        ensures
            *r == (DocumentDeletionQuery { index: old(self).index, filter }),
            *final(self) == *final(r),
    {
        self.filter = filter;
        self
    }
}

impl<'a> DocumentDeletionQuery<'a> {
    /// The call that deletes the documents the filter selects.
    pub fn execute(&self) -> (r: ApiCall)
        ensures
            r@ == (ApiCallView {
                url: documents_url(self.index.client.host@, self.index.uid@) + "/delete"@,
                verb: Verb::Post,
                query: Seq::empty(),
                body: Some(filter_body(self.filter@)),
                expected_status_code: ACCEPTED,
            }),
    {
        let mut url = documents_url_of(self.index);
        url.append("/delete");
        let mut body = String::from_str("{\"filter\":");
        body.append(json_string(self.filter).as_str());
        body.append("}");
        ApiCall { url, method: Method::Post { query: no_query(), body }, expected_status_code: ACCEPTED }
    }
}

} // verus!
