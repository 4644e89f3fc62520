//! The settings of an index and the builder that fills them in.

use vstd::prelude::*;
use vstd::string::StringExecFns;
use std::collections::HashMap;

verus! {

/// Bounds on paging through results.
#[derive(Debug, Clone, Copy, PartialEq, Eq, Structural)]
pub struct PaginationSetting {
    pub max_total_hits: usize,
}

impl Default for PaginationSetting {
    fn default() -> (r: PaginationSetting)
        ensures
            r.max_total_hits == 0,
    {
        PaginationSetting { max_total_hits: 0 }
    }
}

/// Bounds on faceted search.
#[derive(Debug, Clone, Copy, PartialEq, Eq, Structural)]
pub struct FacetingSettings {
    pub max_values_per_facet: usize,
}

impl Default for FacetingSettings {
    fn default() -> (r: FacetingSettings)
        ensures
            r.max_values_per_facet == 0,
    {
        FacetingSettings { max_values_per_facet: 0 }
    }
}

/// The characters of each text of a list, in order.
pub open spec fn texts(items: Seq<&str>) -> Seq<Seq<char>> {
    Seq::new(items.len(), |i: int| items[i]@)
}

/// Owned copies of the texts of a list, in order.
pub fn to_strings(items: &[&str]) -> (r: Vec<String>)
    ensures
        r.deep_view() == texts(items@),
{
    let mut owned: Vec<String> = Vec::new();
    let mut i: usize = 0;
    while i < items.len()
        invariant
            i <= items.len(),
            owned.len() == i,
            forall|k: int| 0 <= k < i ==> (#[trigger] owned[k])@ == items[k]@,
        decreases items.len() - i,
    {
        owned.push(String::from_str(items[i]));
        i += 1;
    }
    assert(owned.deep_view() =~= texts(items@));
    owned
}

/// A set of settings, each either chosen or left to the service.
#[derive(Debug)]
pub struct Settings {
    /// Words treated alike.
    pub synonyms: Option<HashMap<String, Vec<String>>>,
    /// Words ignored in queries.
    pub stop_words: Option<Vec<String>>,
    /// Ranking rules, most important first.
    pub ranking_rules: Option<Vec<String>>,
    /// Attributes usable in filters and facets.
    pub filterable_attributes: Option<Vec<String>>,
    /// Attributes usable for sorting.
    pub sortable_attributes: Option<Vec<String>>,
    /// Attribute whose value is unique among the results.
    pub distinct_attribute: Option<String>,
    /// Attributes searched, most important first.
    pub searchable_attributes: Option<Vec<String>>,
    /// Attributes shown in results.
    pub displayed_attributes: Option<Vec<String>>,
    pub pagination: Option<PaginationSetting>,
    pub faceting: Option<FacetingSettings>,
}

/// Mathematical counterpart of [`Settings`].
pub struct SettingsView {
    pub synonyms: Option<HashMap<String, Vec<String>>>,
    pub stop_words: Option<Seq<Seq<char>>>,
    pub ranking_rules: Option<Seq<Seq<char>>>,
    pub filterable_attributes: Option<Seq<Seq<char>>>,
    pub sortable_attributes: Option<Seq<Seq<char>>>,
    pub distinct_attribute: Option<Seq<char>>,
    pub searchable_attributes: Option<Seq<Seq<char>>>,
    pub displayed_attributes: Option<Seq<Seq<char>>>,
    pub pagination: Option<PaginationSetting>,
    pub faceting: Option<FacetingSettings>,
}

impl SettingsView {
    /// Settings with nothing chosen.
    pub open spec fn undefined() -> SettingsView {
        SettingsView {
            synonyms: None,
            stop_words: None,
            ranking_rules: None,
            filterable_attributes: None,
            sortable_attributes: None,
            distinct_attribute: None,
            searchable_attributes: None,
            displayed_attributes: None,
            pagination: None,
            faceting: None,
        }
    }
}

impl View for Settings {
    type V = SettingsView;

    open spec fn view(&self) -> SettingsView {
        SettingsView {
            synonyms: self.synonyms,
            stop_words: self.stop_words.deep_view(),
            ranking_rules: self.ranking_rules.deep_view(),
            filterable_attributes: self.filterable_attributes.deep_view(),
            sortable_attributes: self.sortable_attributes.deep_view(),
            distinct_attribute: self.distinct_attribute.deep_view(),
            searchable_attributes: self.searchable_attributes.deep_view(),
            displayed_attributes: self.displayed_attributes.deep_view(),
            pagination: self.pagination,
            faceting: self.faceting,
        }
    }
}

impl Default for Settings {
    fn default() -> (r: Settings)
        ensures
            r@ == SettingsView::undefined(),
    {
        Settings::new()
    }
}

impl Settings {
    /// Settings with nothing chosen.
    pub fn new() -> (r: Settings)
        ensures
            r@ == SettingsView::undefined(),
    {
        Settings {
            synonyms: None,
            stop_words: None,
            ranking_rules: None,
            filterable_attributes: None,
            sortable_attributes: None,
            distinct_attribute: None,
            searchable_attributes: None,
            displayed_attributes: None,
            pagination: None,
            faceting: None,
        }
    }

    pub fn with_synonyms(self, synonyms: HashMap<String, Vec<String>>) -> (r: Settings)
        ensures
            r@ == (SettingsView { synonyms: Some(synonyms), ..self@ }),
    {
        Settings { synonyms: Some(synonyms), ..self }
    }

    pub fn with_stop_words(self, stop_words: &[&str]) -> (r: Settings)
        ensures
            r@ == (SettingsView { stop_words: Some(texts(stop_words@)), ..self@ }),
    {
        Settings { stop_words: Some(to_strings(stop_words)), ..self }
    }

    pub fn with_pagination(self, pagination_settings: PaginationSetting) -> (r: Settings)
        ensures
            r@ == (SettingsView { pagination: Some(pagination_settings), ..self@ }),
    {
        Settings { pagination: Some(pagination_settings), ..self }
    }

    pub fn with_ranking_rules(self, ranking_rules: &[&str]) -> (r: Settings)
        ensures
            r@ == (SettingsView { ranking_rules: Some(texts(ranking_rules@)), ..self@ }),
    {
        Settings { ranking_rules: Some(to_strings(ranking_rules)), ..self }
    }

    pub fn with_filterable_attributes(self, filterable_attributes: &[&str]) -> (r: Settings)
        ensures
            r@ == (SettingsView {
                filterable_attributes: Some(texts(filterable_attributes@)),
                ..self@
            }),
    {
        Settings { filterable_attributes: Some(to_strings(filterable_attributes)), ..self }
    }

    pub fn with_sortable_attributes(self, sortable_attributes: &[&str]) -> (r: Settings)
        ensures
            r@ == (SettingsView {
                sortable_attributes: Some(texts(sortable_attributes@)),
                ..self@
            }),
    {
        Settings { sortable_attributes: Some(to_strings(sortable_attributes)), ..self }
    }

    pub fn with_distinct_attribute(self, distinct_attribute: &str) -> (r: Settings)
        ensures
            r@ == (SettingsView { distinct_attribute: Some(distinct_attribute@), ..self@ }),
    {
        Settings { distinct_attribute: Some(String::from_str(distinct_attribute)), ..self }
    }

    pub fn with_searchable_attributes(self, searchable_attributes: &[&str]) -> (r: Settings)
        ensures
            r@ == (SettingsView {
                searchable_attributes: Some(texts(searchable_attributes@)),
                ..self@
            }),
    {
        Settings { searchable_attributes: Some(to_strings(searchable_attributes)), ..self }
    }

    pub fn with_displayed_attributes(self, displayed_attributes: &[&str]) -> (r: Settings)
        ensures
            r@ == (SettingsView {
                displayed_attributes: Some(texts(displayed_attributes@)),
                ..self@
            }),
    {
        Settings { displayed_attributes: Some(to_strings(displayed_attributes)), ..self }
    }

    pub fn with_faceting(self, faceting: &FacetingSettings) -> (r: Settings)
        ensures
            r@ == (SettingsView { faceting: Some(*faceting), ..self@ }),
    {
        Settings { faceting: Some(*faceting), ..self }
    }
}

} // verus!
