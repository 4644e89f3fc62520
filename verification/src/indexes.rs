//! Handles on the indexes of the service, and the calls that read and
//! change their settings.

use vstd::prelude::*;
use vstd::string::StringExecFns;
use crate::client::Client;
use crate::request::Method;
use crate::request::ParamValue;
use crate::request::QueryView;
use crate::request::Verb;
use crate::request::query_view;
use crate::text::decimal;
use crate::json::json_list;
use crate::json::json_list_of;
use crate::json::json_string;
use crate::json::json_string_of;
use crate::text::to_decimal;
use crate::settings::FacetingSettings;
use crate::settings::PaginationSetting;
use crate::settings::texts;
use crate::settings::to_strings;

verus! {

/// A handle on one index. Holding one says nothing about the index
/// existing.
#[derive(Debug)]
pub struct Index {
    pub client: Client,
    pub uid: String,
}

impl Clone for Index {
    fn clone(&self) -> (r: Index)
        ensures
            r.client@ == self.client@,
            r.uid@ == self.uid@,
    {
        Index { client: self.client.clone(), uid: self.uid.clone() }
    }
}

/// A call ready to be dispatched: where to send it, with which verb,
/// query and payload, and the status that means success.
#[derive(Debug)]
pub struct ApiCall {
    pub url: String,
    pub method: Method<Vec<(String, ParamValue)>, String>,
    pub expected_status_code: u16,
}

/// Mathematical counterpart of [`ApiCall`].
pub struct ApiCallView {
    pub url: Seq<char>,
    pub verb: Verb,
    pub query: QueryView,
    pub body: Option<Seq<char>>,
    pub expected_status_code: u16,
}

impl View for ApiCall {
    type V = ApiCallView;

    open spec fn view(&self) -> ApiCallView {
        ApiCallView {
            url: self.url@,
            verb: self.method.spec_verb(),
            query: query_view(self.method.spec_query()@),
            body: self.method.spec_body().deep_view(),
            expected_status_code: self.expected_status_code,
        }
    }
}

/// The status of a successful read.
pub const OK: u16 = 200;

/// The status of an accepted change, which the service carries out as a
/// task.
pub const ACCEPTED: u16 = 202;

/// The part of the settings a call is about.
#[derive(Debug, Clone, Copy, PartialEq, Eq, Structural)]
pub enum SettingsRoute {
    All,
    Synonyms,
    Pagination,
    StopWords,
    RankingRules,
    FilterableAttributes,
    SortableAttributes,
    DistinctAttribute,
    SearchableAttributes,
    DisplayedAttributes,
    Faceting,
}

impl SettingsRoute {
    /// What follows `/settings` in the URL.
    pub open spec fn suffix(self) -> Seq<char> {
        match self {
            SettingsRoute::All => ""@,
            SettingsRoute::Synonyms => "/synonyms"@,
            SettingsRoute::Pagination => "/pagination"@,
            SettingsRoute::StopWords => "/stop-words"@,
            SettingsRoute::RankingRules => "/ranking-rules"@,
            SettingsRoute::FilterableAttributes => "/filterable-attributes"@,
            SettingsRoute::SortableAttributes => "/sortable-attributes"@,
            SettingsRoute::DistinctAttribute => "/distinct-attribute"@,
            SettingsRoute::SearchableAttributes => "/searchable-attributes"@,
            SettingsRoute::DisplayedAttributes => "/displayed-attributes"@,
            SettingsRoute::Faceting => "/faceting"@,
        }
    }

    /// The verb that changes this part: the parts that are records are
    /// patched, the others are replaced.
    pub open spec fn update_verb(self) -> Verb {
        match self {
            SettingsRoute::All => Verb::Patch,
            SettingsRoute::Synonyms => Verb::Put,
            SettingsRoute::Pagination => Verb::Patch,
            SettingsRoute::StopWords => Verb::Put,
            SettingsRoute::RankingRules => Verb::Put,
            SettingsRoute::FilterableAttributes => Verb::Put,
            SettingsRoute::SortableAttributes => Verb::Put,
            SettingsRoute::DistinctAttribute => Verb::Put,
            SettingsRoute::SearchableAttributes => Verb::Put,
            SettingsRoute::DisplayedAttributes => Verb::Put,
            SettingsRoute::Faceting => Verb::Patch,
        }
    }

    /// What follows `/settings` in the URL.
    pub fn path(self) -> (s: &'static str)
        ensures
            s@ == self.suffix(),
    {
        match self {
            SettingsRoute::All => "",
            SettingsRoute::Synonyms => "/synonyms",
            SettingsRoute::Pagination => "/pagination",
            SettingsRoute::StopWords => "/stop-words",
            SettingsRoute::RankingRules => "/ranking-rules",
            SettingsRoute::FilterableAttributes => "/filterable-attributes",
            SettingsRoute::SortableAttributes => "/sortable-attributes",
            SettingsRoute::DistinctAttribute => "/distinct-attribute",
            SettingsRoute::SearchableAttributes => "/searchable-attributes",
            SettingsRoute::DisplayedAttributes => "/displayed-attributes",
            SettingsRoute::Faceting => "/faceting",
        }
    }
}

/// The URL of a part of the settings of an index.
pub open spec fn settings_url(host: Seq<char>, uid: Seq<char>, route: SettingsRoute) -> Seq<char> {
    host + "/indexes/"@ + uid + "/settings"@ + route.suffix()
}

/// The call that reads a part of the settings.
pub open spec fn settings_read(host: Seq<char>, uid: Seq<char>, route: SettingsRoute) -> ApiCallView {
    ApiCallView {
        url: settings_url(host, uid, route),
        verb: Verb::Get,
        query: Seq::empty(),
        body: None,
        expected_status_code: OK,
    }
}

/// The call that changes a part of the settings to what the payload says.
pub open spec fn settings_update(
    host: Seq<char>,
    uid: Seq<char>,
    route: SettingsRoute,
    body: Seq<char>,
) -> ApiCallView {
    ApiCallView {
        url: settings_url(host, uid, route),
        verb: route.update_verb(),
        query: Seq::empty(),
        body: Some(body),
        expected_status_code: ACCEPTED,
    }
}

/// The call that puts a part of the settings back to its default.
pub open spec fn settings_reset(host: Seq<char>, uid: Seq<char>, route: SettingsRoute) -> ApiCallView {
    ApiCallView {
        url: settings_url(host, uid, route),
        verb: Verb::Delete,
        query: Seq::empty(),
        body: None,
        expected_status_code: ACCEPTED,
    }
}

/// The pagination settings as a JSON object.
pub open spec fn pagination_body(pagination: PaginationSetting) -> Seq<char> {
    "{\"maxTotalHits\":"@ + decimal(pagination.max_total_hits as nat) + "}"@
}

/// The faceting settings as a JSON object.
pub open spec fn faceting_body(faceting: FacetingSettings) -> Seq<char> {
    "{\"maxValuesPerFacet\":"@ + decimal(faceting.max_values_per_facet as nat) + "}"@
}

/// A JSON object with one member whose value is a number; `opening` runs
/// up to the colon.
fn framed_number(opening: &str, n: usize) -> (r: String)
    ensures
        r@ == opening@ + decimal(n as nat) + "}"@,
{
    let mut body = String::from_str(opening);
    body.append(to_decimal(n as u64).as_str());
    body.append("}");
    body
}

/// A query without values.
pub fn no_query() -> (r: Vec<(String, ParamValue)>)
    ensures
        r@.len() == 0,
        query_view(r@) == Seq::<(Seq<char>, crate::request::ParamValueView)>::empty(),
{
    let r: Vec<(String, ParamValue)> = Vec::new();
    assert(query_view(r@) =~= Seq::empty());
    r
}

impl Index {
    /// The URL of a part of the settings of this index.
    pub fn settings_url(&self, route: SettingsRoute) -> (r: String)
        ensures
            r@ == settings_url(self.client.host@, self.uid@, route),
    {
        let mut url = self.client.host.clone();
        url.append("/indexes/");
        url.append(self.uid.as_str());
        url.append("/settings");
        url.append(route.path());
        url
    }

    /// The call that reads a part of the settings.
    pub fn read_settings_part(&self, route: SettingsRoute) -> (r: ApiCall)
        ensures
            r@ == settings_read(self.client.host@, self.uid@, route),
    {
        ApiCall {
            url: self.settings_url(route),
            method: Method::Get { query: no_query() },
            expected_status_code: OK,
        }
    }

    /// The call that changes a part of the settings; `body` is the new
    /// value as JSON.
    pub fn update_settings_part(&self, route: SettingsRoute, body: String) -> (r: ApiCall)
        ensures
            r@ == settings_update(self.client.host@, self.uid@, route, body@),
    {
        let method = match route {
            SettingsRoute::All | SettingsRoute::Pagination | SettingsRoute::Faceting => Method::Patch {
                query: no_query(),
                body,
            },
            _ => Method::Put { query: no_query(), body },
        };
        ApiCall { url: self.settings_url(route), method, expected_status_code: ACCEPTED }
    }

    /// The call that puts a part of the settings back to its default.
    pub fn reset_settings_part(&self, route: SettingsRoute) -> (r: ApiCall)
        ensures
            r@ == settings_reset(self.client.host@, self.uid@, route),
    {
        ApiCall {
            url: self.settings_url(route),
            method: Method::Delete { query: no_query() },
            expected_status_code: ACCEPTED,
        }
    }

    /// The call that reads all settings of the index.
    pub fn get_settings(&self) -> (r: ApiCall)
        ensures
            r@ == settings_read(self.client.host@, self.uid@, SettingsRoute::All),
    {
        self.read_settings_part(SettingsRoute::All)
    }

    /// The call that reads the synonyms of the index.
    pub fn get_synonyms(&self) -> (r: ApiCall)
        ensures
            r@ == settings_read(self.client.host@, self.uid@, SettingsRoute::Synonyms),
    {
        self.read_settings_part(SettingsRoute::Synonyms)
    }

    /// The call that reads the pagination settings of the index.
    pub fn get_pagination(&self) -> (r: ApiCall)
        ensures
            r@ == settings_read(self.client.host@, self.uid@, SettingsRoute::Pagination),
    {
        self.read_settings_part(SettingsRoute::Pagination)
    }

    /// The call that reads the stop words of the index.
    pub fn get_stop_words(&self) -> (r: ApiCall)
        ensures
            r@ == settings_read(self.client.host@, self.uid@, SettingsRoute::StopWords),
    {
        self.read_settings_part(SettingsRoute::StopWords)
    }

    /// The call that reads the ranking rules of the index.
    pub fn get_ranking_rules(&self) -> (r: ApiCall)
        ensures
            r@ == settings_read(self.client.host@, self.uid@, SettingsRoute::RankingRules),
    {
        self.read_settings_part(SettingsRoute::RankingRules)
    }

    /// The call that reads the filterable attributes of the index.
    pub fn get_filterable_attributes(&self) -> (r: ApiCall)
        ensures
            r@ == settings_read(self.client.host@, self.uid@, SettingsRoute::FilterableAttributes),
    {
        self.read_settings_part(SettingsRoute::FilterableAttributes)
    }

    /// The call that reads the sortable attributes of the index.
    pub fn get_sortable_attributes(&self) -> (r: ApiCall)
        ensures
            r@ == settings_read(self.client.host@, self.uid@, SettingsRoute::SortableAttributes),
    {
        self.read_settings_part(SettingsRoute::SortableAttributes)
    }

    /// The call that reads the distinct attribute of the index.
    pub fn get_distinct_attribute(&self) -> (r: ApiCall)
        ensures
            r@ == settings_read(self.client.host@, self.uid@, SettingsRoute::DistinctAttribute),
    {
        self.read_settings_part(SettingsRoute::DistinctAttribute)
    }

    /// The call that reads the searchable attributes of the index.
    pub fn get_searchable_attributes(&self) -> (r: ApiCall)
        ensures
            r@ == settings_read(self.client.host@, self.uid@, SettingsRoute::SearchableAttributes),
    {
        self.read_settings_part(SettingsRoute::SearchableAttributes)
    }

    /// The call that reads the displayed attributes of the index.
    pub fn get_displayed_attributes(&self) -> (r: ApiCall)
        ensures
            r@ == settings_read(self.client.host@, self.uid@, SettingsRoute::DisplayedAttributes),
    {
        self.read_settings_part(SettingsRoute::DisplayedAttributes)
    }

    /// The call that reads the faceting settings of the index.
    pub fn get_faceting(&self) -> (r: ApiCall)
        ensures
            r@ == settings_read(self.client.host@, self.uid@, SettingsRoute::Faceting),
    {
        self.read_settings_part(SettingsRoute::Faceting)
    }

    /// The call that changes the settings of the index that `body`, a JSON
    /// object, names.
    pub fn set_settings(&self, body: String) -> (r: ApiCall)
        ensures
            r@ == settings_update(self.client.host@, self.uid@, SettingsRoute::All, body@),
    {
        self.update_settings_part(SettingsRoute::All, body)
    }

    /// The call that replaces the synonyms of the index by those that
    /// `body`, a JSON object, holds.
    pub fn set_synonyms(&self, body: String) -> (r: ApiCall)
        ensures
            r@ == settings_update(self.client.host@, self.uid@, SettingsRoute::Synonyms, body@),
    {
        self.update_settings_part(SettingsRoute::Synonyms, body)
    }

    /// The call that changes the pagination settings of the index.
    pub fn set_pagination(&self, pagination: PaginationSetting) -> (r: ApiCall)
        ensures
            r@ == settings_update(
                self.client.host@,
                self.uid@,
                SettingsRoute::Pagination,
                pagination_body(pagination),
            ),
    {
        let body = framed_number("{\"maxTotalHits\":", pagination.max_total_hits);
        self.update_settings_part(SettingsRoute::Pagination, body)
    }

    /// The call that replaces the stop words of the index.
    pub fn set_stop_words(&self, stop_words: &[&str]) -> (r: ApiCall)
        ensures
            r@ == settings_update(
                self.client.host@,
                self.uid@,
                SettingsRoute::StopWords,
                json_list_of(texts(stop_words@)),
            ),
    {
        let body = json_list(&to_strings(stop_words));
        self.update_settings_part(SettingsRoute::StopWords, body)
    }

    /// The call that replaces the ranking rules of the index.
    pub fn set_ranking_rules(&self, ranking_rules: &[&str]) -> (r: ApiCall)
        ensures
            r@ == settings_update(
                self.client.host@,
                self.uid@,
                SettingsRoute::RankingRules,
                json_list_of(texts(ranking_rules@)),
            ),
    {
        let body = json_list(&to_strings(ranking_rules));
        self.update_settings_part(SettingsRoute::RankingRules, body)
    }

    /// The call that replaces the filterable attributes of the index.
    pub fn set_filterable_attributes(&self, filterable_attributes: &[&str]) -> (r: ApiCall)
        ensures
            r@ == settings_update(
                self.client.host@,
                self.uid@,
                SettingsRoute::FilterableAttributes,
                json_list_of(texts(filterable_attributes@)),
            ),
    {
        let body = json_list(&to_strings(filterable_attributes));
        self.update_settings_part(SettingsRoute::FilterableAttributes, body)
    }

    /// The call that replaces the sortable attributes of the index.
    pub fn set_sortable_attributes(&self, sortable_attributes: &[&str]) -> (r: ApiCall)
        ensures
            r@ == settings_update(
                self.client.host@,
                self.uid@,
                SettingsRoute::SortableAttributes,
                json_list_of(texts(sortable_attributes@)),
            ),
    {
        let body = json_list(&to_strings(sortable_attributes));
        self.update_settings_part(SettingsRoute::SortableAttributes, body)
    }

    /// The call that replaces the distinct attribute of the index.
    pub fn set_distinct_attribute(&self, distinct_attribute: &str) -> (r: ApiCall)
        ensures
            r@ == settings_update(
                self.client.host@,
                self.uid@,
                SettingsRoute::DistinctAttribute,
                json_string_of(distinct_attribute@),
            ),
    {
        self.update_settings_part(SettingsRoute::DistinctAttribute, json_string(distinct_attribute))
    }

    /// The call that replaces the searchable attributes of the index.
    pub fn set_searchable_attributes(&self, searchable_attributes: &[&str]) -> (r: ApiCall)
        ensures
            r@ == settings_update(
                self.client.host@,
                self.uid@,
                SettingsRoute::SearchableAttributes,
                json_list_of(texts(searchable_attributes@)),
            ),
    {
        let body = json_list(&to_strings(searchable_attributes));
        self.update_settings_part(SettingsRoute::SearchableAttributes, body)
    }

    /// The call that replaces the displayed attributes of the index.
    pub fn set_displayed_attributes(&self, displayed_attributes: &[&str]) -> (r: ApiCall)
        ensures
            r@ == settings_update(
                self.client.host@,
                self.uid@,
                SettingsRoute::DisplayedAttributes,
                json_list_of(texts(displayed_attributes@)),
            ),
    {
        let body = json_list(&to_strings(displayed_attributes));
        self.update_settings_part(SettingsRoute::DisplayedAttributes, body)
    }

    /// The call that changes the faceting settings of the index.
    pub fn set_faceting(&self, faceting: &FacetingSettings) -> (r: ApiCall)
        ensures
            r@ == settings_update(
                self.client.host@,
                self.uid@,
                SettingsRoute::Faceting,
                faceting_body(*faceting),
            ),
    {
        let body = framed_number("{\"maxValuesPerFacet\":", faceting.max_values_per_facet);
        self.update_settings_part(SettingsRoute::Faceting, body)
    }

    /// The call that puts all settings of the index back to the default.
    pub fn reset_settings(&self) -> (r: ApiCall)
        ensures
            r@ == settings_reset(self.client.host@, self.uid@, SettingsRoute::All),
    {
        self.reset_settings_part(SettingsRoute::All)
    }

    /// The call that puts the synonyms of the index back to the default.
    pub fn reset_synonyms(&self) -> (r: ApiCall)
        ensures
            r@ == settings_reset(self.client.host@, self.uid@, SettingsRoute::Synonyms),
    {
        self.reset_settings_part(SettingsRoute::Synonyms)
    }

    /// The call that puts the pagination settings of the index back to the default.
    pub fn reset_pagination(&self) -> (r: ApiCall)
        ensures
            r@ == settings_reset(self.client.host@, self.uid@, SettingsRoute::Pagination),
    {
        self.reset_settings_part(SettingsRoute::Pagination)
    }

    /// The call that puts the stop words of the index back to the default.
    pub fn reset_stop_words(&self) -> (r: ApiCall)
        ensures
            r@ == settings_reset(self.client.host@, self.uid@, SettingsRoute::StopWords),
    {
        self.reset_settings_part(SettingsRoute::StopWords)
    }

    /// The call that puts the ranking rules of the index back to the default.
    pub fn reset_ranking_rules(&self) -> (r: ApiCall)
        ensures
            r@ == settings_reset(self.client.host@, self.uid@, SettingsRoute::RankingRules),
    {
        self.reset_settings_part(SettingsRoute::RankingRules)
    }

    /// The call that puts the filterable attributes of the index back to the default.
    pub fn reset_filterable_attributes(&self) -> (r: ApiCall)
        ensures
            r@ == settings_reset(self.client.host@, self.uid@, SettingsRoute::FilterableAttributes),
    {
        self.reset_settings_part(SettingsRoute::FilterableAttributes)
    }

    /// The call that puts the sortable attributes of the index back to the default.
    pub fn reset_sortable_attributes(&self) -> (r: ApiCall)
        ensures
            r@ == settings_reset(self.client.host@, self.uid@, SettingsRoute::SortableAttributes),
    {
        self.reset_settings_part(SettingsRoute::SortableAttributes)
    }

    /// The call that puts the distinct attribute of the index back to the default.
    pub fn reset_distinct_attribute(&self) -> (r: ApiCall)
        ensures
            r@ == settings_reset(self.client.host@, self.uid@, SettingsRoute::DistinctAttribute),
    {
        self.reset_settings_part(SettingsRoute::DistinctAttribute)
    }

    /// The call that puts the searchable attributes of the index back to the default.
    pub fn reset_searchable_attributes(&self) -> (r: ApiCall)
        ensures
            r@ == settings_reset(self.client.host@, self.uid@, SettingsRoute::SearchableAttributes),
    {
        self.reset_settings_part(SettingsRoute::SearchableAttributes)
    }

    /// The call that puts the displayed attributes of the index back to the default.
    pub fn reset_displayed_attributes(&self) -> (r: ApiCall)
        ensures
            r@ == settings_reset(self.client.host@, self.uid@, SettingsRoute::DisplayedAttributes),
    {
        self.reset_settings_part(SettingsRoute::DisplayedAttributes)
    }

    /// The call that puts the faceting settings of the index back to the default.
    pub fn reset_faceting(&self) -> (r: ApiCall)
        ensures
            r@ == settings_reset(self.client.host@, self.uid@, SettingsRoute::Faceting),
    {
        self.reset_settings_part(SettingsRoute::Faceting)
    }
}

} // verus!
