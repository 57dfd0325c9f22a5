//! The query builder, its URL query string, and the search answer.

use crate::decimal::{append_decimal, decimal};
use crate::json::{groups_to_json, json_groups, json_names, names_to_json};
use crate::percent::{encode_component, percent_encode};
use std::collections::HashMap;
use vstd::pervasive::unreached;
use vstd::prelude::*;
use vstd::string::StringExecFns;

verus! {

/// What the service answers to a search, with documents of type `T`.
#[derive(Debug)]
pub struct SearchResults<T> {
    /// The matched documents, best first.
    pub hits: Vec<T>,
    /// Number of documents skipped.
    pub offset: usize,
    /// Number of documents to take.
    pub limit: usize,
    /// Total number of matches.
    pub nb_hits: usize,
    /// Whether `nb_hits` is exact.
    pub exhaustive_nb_hits: bool,
    /// For each requested facet, the count of each of its values.
    pub facets_distribution: Option<HashMap<String, HashMap<String, usize>>>,
    /// Whether the facet counts are exact.
    pub exhaustive_facets_count: Option<bool>,
    /// Time the service took, in milliseconds.
    pub processing_time_ms: usize,
    /// The query text that produced this answer.
    pub query: String,
}

/// The optional parameters of a search, in the order in which they are
/// written to the URL.
#[derive(Clone, Copy, Debug, PartialEq, Eq, Structural)]
pub enum Field {
    Offset,
    Limit,
    Filters,
    FacetFilters,
    FacetsDistribution,
    AttributesToRetrieve,
    AttributesToCrop,
    CropLength,
    AttributesToHighlight,
}

impl Field {
    /// What introduces the parameter in the URL: `&`, its name and `=`.
    pub open spec fn key(self) -> Seq<char> {
        match self {
            Field::Offset => "&offset="@,
            Field::Limit => "&limit="@,
            Field::Filters => "&filters="@,
            Field::FacetFilters => "&facetFilters="@,
            Field::FacetsDistribution => "&facetsDistribution="@,
            Field::AttributesToRetrieve => "&attributesToRetrieve="@,
            Field::AttributesToCrop => "&attributesToCrop="@,
            Field::CropLength => "&cropLength="@,
            Field::AttributesToHighlight => "&attributesToHighlight="@,
        }
    }
}

/// One optional parameter together with the value it is set to.
pub enum Setting {
    Offset(nat),
    Limit(nat),
    Filters(Seq<char>),
    FacetFilters(Seq<Seq<Seq<char>>>),
    /// `None` asks for every facet; a list names the facets.
    FacetsDistribution(Option<Seq<Seq<char>>>),
    AttributesToRetrieve(Seq<char>),
    AttributesToCrop(Seq<char>),
    CropLength(nat),
    AttributesToHighlight(Seq<char>),
}

impl Setting {
    /// The value that is written to the URL for this setting.
    pub open spec fn rendered(self) -> Seq<char> {
        match self {
            Setting::Offset(n) => decimal(n),
            Setting::Limit(n) => decimal(n),
            Setting::Filters(t) => percent_encode(t),
            Setting::FacetFilters(g) => percent_encode(json_groups(g)),
            Setting::FacetsDistribution(Some(n)) => percent_encode(json_names(n)),
            Setting::FacetsDistribution(None) => "*"@,
            Setting::AttributesToRetrieve(t) => percent_encode(t),
            Setting::AttributesToCrop(t) => percent_encode(t),
            Setting::CropLength(n) => decimal(n),
            Setting::AttributesToHighlight(t) => percent_encode(t),
        }
    }

    /// The parameter that this setting is for.
    pub open spec fn field(self) -> Field {
        match self {
            Setting::Offset(_) => Field::Offset,
            Setting::Limit(_) => Field::Limit,
            Setting::Filters(_) => Field::Filters,
            Setting::FacetFilters(_) => Field::FacetFilters,
            Setting::FacetsDistribution(_) => Field::FacetsDistribution,
            Setting::AttributesToRetrieve(_) => Field::AttributesToRetrieve,
            Setting::AttributesToCrop(_) => Field::AttributesToCrop,
            Setting::CropLength(_) => Field::CropLength,
            Setting::AttributesToHighlight(_) => Field::AttributesToHighlight,
        }
    }
}

/// A query as plain mathematical values.
pub struct QueryView {
    pub query: Seq<char>,
    pub offset: Option<nat>,
    pub limit: Option<nat>,
    pub filters: Option<Seq<char>>,
    pub facet_filters: Option<Seq<Seq<Seq<char>>>>,
    pub facets_distribution: Option<Option<Seq<Seq<char>>>>,
    pub attributes_to_retrieve: Option<Seq<char>>,
    pub attributes_to_crop: Option<Seq<char>>,
    pub crop_length: Option<nat>,
    pub attributes_to_highlight: Option<Seq<char>>,
}

/// The value of an optional number, rendered.
pub open spec fn number_value(n: Option<nat>) -> Option<Seq<char>> {
    match n {
        Some(n) => Some(decimal(n)),
        None => None,
    }
}

/// The value of an optional free text, rendered.
pub open spec fn text_value(t: Option<Seq<char>>) -> Option<Seq<char>> {
    match t {
        Some(t) => Some(percent_encode(t)),
        None => None,
    }
}

/// What a parameter adds to the URL: nothing where it has no value, else its
/// key and its value.
pub open spec fn segment_of(key: Seq<char>, value: Option<Seq<char>>) -> Seq<char> {
    match value {
        Some(v) => key + v,
        None => Seq::empty(),
    }
}

impl QueryView {
    /// A query for `query` with no optional parameter set.
    pub open spec fn new(query: Seq<char>) -> QueryView {
        QueryView {
            query,
            offset: None,
            limit: None,
            filters: None,
            facet_filters: None,
            facets_distribution: None,
            attributes_to_retrieve: None,
            attributes_to_crop: None,
            crop_length: None,
            attributes_to_highlight: None,
        }
    }

    /// This query with one parameter set, whatever it was before; all else
    /// as it was.
    pub open spec fn set(self, s: Setting) -> QueryView {
        match s {
            Setting::Offset(n) => QueryView { offset: Some(n), ..self },
            Setting::Limit(n) => QueryView { limit: Some(n), ..self },
            Setting::Filters(t) => QueryView { filters: Some(t), ..self },
            Setting::FacetFilters(g) => QueryView { facet_filters: Some(g), ..self },
            Setting::FacetsDistribution(d) => QueryView { facets_distribution: Some(d), ..self },
            Setting::AttributesToRetrieve(t) => QueryView {
                attributes_to_retrieve: Some(t),
                ..self
            },
            Setting::AttributesToCrop(t) => QueryView { attributes_to_crop: Some(t), ..self },
            Setting::CropLength(n) => QueryView { crop_length: Some(n), ..self },
            Setting::AttributesToHighlight(t) => QueryView {
                attributes_to_highlight: Some(t),
                ..self
            },
        }
    }

    /// Whether the parameter is set.
    pub open spec fn is_set(self, f: Field) -> bool {
        match f {
            Field::Offset => self.offset is Some,
            Field::Limit => self.limit is Some,
            Field::Filters => self.filters is Some,
            Field::FacetFilters => self.facet_filters is Some,
            Field::FacetsDistribution => self.facets_distribution is Some,
            Field::AttributesToRetrieve => self.attributes_to_retrieve is Some,
            Field::AttributesToCrop => self.attributes_to_crop is Some,
            Field::CropLength => self.crop_length is Some,
            Field::AttributesToHighlight => self.attributes_to_highlight is Some,
        }
    }

    /// The value written for a parameter, if it is set, given the JSON
    /// texts of the two structured parameters. Numbers are written in
    /// decimal, free texts percent-encoded, structured values as their
    /// percent-encoded JSON text, and the request for every facet as `*`.
    pub open spec fn value_given(
        self,
        f: Field,
        groups_json: Seq<char>,
        names_json: Seq<char>,
    ) -> Option<Seq<char>> {
        match f {
            Field::Offset => number_value(self.offset),
            Field::Limit => number_value(self.limit),
            Field::Filters => text_value(self.filters),
            Field::FacetFilters => match self.facet_filters {
                Some(_) => Some(percent_encode(groups_json)),
                None => None,
            },
            Field::FacetsDistribution => match self.facets_distribution {
                Some(Some(_)) => Some(percent_encode(names_json)),
                Some(None) => Some("*"@),
                None => None,
            },
            Field::AttributesToRetrieve => text_value(self.attributes_to_retrieve),
            Field::AttributesToCrop => text_value(self.attributes_to_crop),
            Field::CropLength => number_value(self.crop_length),
            Field::AttributesToHighlight => text_value(self.attributes_to_highlight),
        }
    }

    /// What a parameter adds to the URL: nothing where it is not set, else
    /// its key and its value.
    pub open spec fn segment_given(
        self,
        f: Field,
        groups_json: Seq<char>,
        names_json: Seq<char>,
    ) -> Seq<char> {
        segment_of(f.key(), self.value_given(f, groups_json, names_json))
    }

    /// The start of every URL: `?q=` and the percent-encoded query text.
    pub open spec fn head(self) -> Seq<char> {
        "?q="@ + percent_encode(self.query)
    }

    /// The URL query string, given the JSON texts of the two structured
    /// parameters: the head, then the segment of each parameter in the
    /// fixed order.
    pub open spec fn url_given(self, groups_json: Seq<char>, names_json: Seq<char>) -> Seq<char> {
        self.head() + self.segment_given(Field::Offset, groups_json, names_json)
            + self.segment_given(Field::Limit, groups_json, names_json) + self.segment_given(
            Field::Filters,
            groups_json,
            names_json,
        ) + self.segment_given(Field::FacetFilters, groups_json, names_json)
            + self.segment_given(Field::FacetsDistribution, groups_json, names_json)
            + self.segment_given(Field::AttributesToRetrieve, groups_json, names_json)
            + self.segment_given(Field::AttributesToCrop, groups_json, names_json)
            + self.segment_given(Field::CropLength, groups_json, names_json)
            + self.segment_given(Field::AttributesToHighlight, groups_json, names_json)
    }

    /// The JSON text of the facet filters; empty where there are none.
    pub open spec fn groups_json(self) -> Seq<char> {
        match self.facet_filters {
            Some(g) => json_groups(g),
            None => Seq::empty(),
        }
    }

    /// The JSON text of the named facets; empty where none are named.
    pub open spec fn names_json(self) -> Seq<char> {
        match self.facets_distribution {
            Some(Some(n)) => json_names(n),
            _ => Seq::empty(),
        }
    }

    /// The value written for a parameter, if it is set.
    pub open spec fn value(self, f: Field) -> Option<Seq<char>> {
        self.value_given(f, self.groups_json(), self.names_json())
    }

    /// What a parameter adds to the URL.
    pub open spec fn segment(self, f: Field) -> Seq<char> {
        self.segment_given(f, self.groups_json(), self.names_json())
    }

    /// The URL query string of the query.
    pub open spec fn url(self) -> Seq<char> {
        self.url_given(self.groups_json(), self.names_json())
    }
}

/// A search: the query text and the optional parameters, each absent until a
/// `with_` method sets it.
#[derive(Clone, Debug)]
pub struct Query<'a> {
    /// The text to search for: the one mandatory parameter.
    pub query: &'a str,
    /// Number of documents to skip.
    pub offset: Option<usize>,
    /// Largest number of documents to return.
    pub limit: Option<usize>,
    /// A filter expression, passed on as it is.
    pub filters: Option<&'a str>,
    /// Facet filters: every group must hold, by any one of its alternatives.
    pub facet_filters: Option<Vec<Vec<&'a str>>>,
    /// Facets to count matches for. `Some(None)` asks for every facet.
    pub facets_distribution: Option<Option<Vec<&'a str>>>,
    /// Comma-separated attributes to return with each document.
    pub attributes_to_retrieve: Option<&'a str>,
    /// Attributes whose values are cropped.
    pub attributes_to_crop: Option<&'a str>,
    /// Length to which cropped values are cut.
    pub crop_length: Option<usize>,
    /// Attributes in which matches are highlighted.
    pub attributes_to_highlight: Option<&'a str>,
}

/// An optional number as a mathematical value.
pub open spec fn number_view(n: Option<usize>) -> Option<nat> {
    match n {
        Some(n) => Some(n as nat),
        None => None,
    }
}

/// An optional text as a mathematical value.
pub open spec fn text_view(t: Option<&str>) -> Option<Seq<char>> {
    match t {
        Some(t) => Some(t@),
        None => None,
    }
}

impl<'a> View for Query<'a> {
    type V = QueryView;

    open spec fn view(&self) -> QueryView {
        QueryView {
            query: self.query@,
            offset: number_view(self.offset),
            limit: number_view(self.limit),
            filters: text_view(self.filters),
            facet_filters: match self.facet_filters {
                Some(g) => Some(g.deep_view()),
                None => None,
            },
            facets_distribution: match self.facets_distribution {
                Some(Some(n)) => Some(Some(n.deep_view())),
                Some(None) => Some(None),
                None => None,
            },
            attributes_to_retrieve: text_view(self.attributes_to_retrieve),
            attributes_to_crop: text_view(self.attributes_to_crop),
            crop_length: number_view(self.crop_length),
            attributes_to_highlight: text_view(self.attributes_to_highlight),
        }
    }
}

/// The names of an optional facet list as mathematical values.
pub open spec fn names_view(names: Option<Vec<&str>>) -> Option<Seq<Seq<char>>> {
    match names {
        Some(n) => Some(n.deep_view()),
        None => None,
    }
}

impl<'a> Query<'a> {
    /// A query for `query`, with every optional parameter absent.
    pub fn new(query: &'a str) -> (r: Query<'a>)
        ensures
            r@ == QueryView::new(query@),
    {
        Query {
            query,
            offset: None,
            limit: None,
            filters: None,
            facet_filters: None,
            facets_distribution: None,
            attributes_to_retrieve: None,
            attributes_to_crop: None,
            attributes_to_highlight: None,
            crop_length: None,
        }
    }

    /// This query with the number of documents to skip set to `offset`.
    pub fn with_offset(self, offset: usize) -> (r: Query<'a>)
        ensures
            r@ == self@.set(Setting::Offset(offset as nat)),
    {
        Query { offset: Some(offset), ..self }
    }

    /// This query with the number of documents to return set to `limit`.
    pub fn with_limit(self, limit: usize) -> (r: Query<'a>)
        ensures
            r@ == self@.set(Setting::Limit(limit as nat)),
    {
        Query { limit: Some(limit), ..self }
    }

    /// This query with the filter expression set to `filters`.
    pub fn with_filters(self, filters: &'a str) -> (r: Query<'a>)
        ensures
            r@ == self@.set(Setting::Filters(filters@)),
    {
        Query { filters: Some(filters), ..self }
    }

    /// This query with the facet filters set to `facet_filters`, which may
    /// be empty.
    pub fn with_facet_filters(self, facet_filters: Vec<Vec<&'a str>>) -> (r: Query<'a>)
        ensures
            r@ == self@.set(Setting::FacetFilters(facet_filters.deep_view())),
    {
        Query { facet_filters: Some(facet_filters), ..self }
    }

    /// This query asking for facet counts: with `None` for every facet,
    /// with a list for the facets it names.
    pub fn with_facets_distribution(
        self,
        facets_distribution: Option<Vec<&'a str>>,
    ) -> (r: Query<'a>)
        ensures
            r@ == self@.set(Setting::FacetsDistribution(names_view(facets_distribution))),
    {
        Query { facets_distribution: Some(facets_distribution), ..self }
    }

    /// This query with the attributes to return set.
    pub fn with_attributes_to_retrieve(self, attributes_to_retrieve: &'a str) -> (r: Query<'a>)
        ensures
            r@ == self@.set(Setting::AttributesToRetrieve(attributes_to_retrieve@)),
    {
        Query { attributes_to_retrieve: Some(attributes_to_retrieve), ..self }
    }

    /// This query with the attributes to crop set.
    pub fn with_attributes_to_crop(self, attributes_to_crop: &'a str) -> (r: Query<'a>)
        ensures
            r@ == self@.set(Setting::AttributesToCrop(attributes_to_crop@)),
    {
        Query { attributes_to_crop: Some(attributes_to_crop), ..self }
    }

    /// This query with the attributes to highlight set.
    pub fn with_attributes_to_highlight(self, attributes_to_highlight: &'a str) -> (r: Query<'a>)
        ensures
            r@ == self@.set(Setting::AttributesToHighlight(attributes_to_highlight@)),
    {
        Query { attributes_to_highlight: Some(attributes_to_highlight), ..self }
    }

    /// This query with the crop length set to `crop_length`, whether or not
    /// any attribute is cropped.
    pub fn with_crop_length(self, crop_length: usize) -> (r: Query<'a>)
        ensures
            r@ == self@.set(Setting::CropLength(crop_length as nat)),
    {
        Query { crop_length: Some(crop_length), ..self }
    }
}

fn append_number(url: &mut String, key: &str, n: Option<usize>)
    ensures
        final(url)@ == old(url)@ + segment_of(key@, number_value(number_view(n))),
{
    if let Some(n) = n {
        url.append(key);
        append_decimal(url, n);
    }
    assert(url@ =~= old(url)@ + segment_of(key@, number_value(number_view(n))));
}

fn append_text(url: &mut String, key: &str, t: Option<&str>)
    ensures
        final(url)@ == old(url)@ + segment_of(key@, text_value(text_view(t))),
{
    if let Some(t) = t {
        let value = encode_component(t);
        url.append(key);
        url.append(value.as_str());
    }
    assert(url@ =~= old(url)@ + segment_of(key@, text_value(text_view(t))));
}

impl<'a> Query<'a> {
    /// The URL query string, where the JSON texts of the facet filters and of
    /// the named facets are given. A text is read only where its parameter
    /// is set (for the facets: set to a list).
    pub fn to_url_with(&self, groups_json: &str, names_json: &str) -> (url: String)
        ensures
            url@ == self@.url_given(groups_json@, names_json@),
    {
        let ghost v = self@;
        let ghost g = groups_json@;
        let ghost n = names_json@;
        let mut url = String::from_str("?q=");
        let query = encode_component(self.query);
        url.append(query.as_str());
        append_number(&mut url, "&offset=", self.offset);
        append_number(&mut url, "&limit=", self.limit);
        append_text(&mut url, "&filters=", self.filters);
        if self.facet_filters.is_some() {
            let value = encode_component(groups_json);
            url.append("&facetFilters=");
            url.append(value.as_str());
        }
        assert(url@ =~= v.head() + v.segment_given(Field::Offset, g, n) + v.segment_given(
            Field::Limit,
            g,
            n,
        ) + v.segment_given(Field::Filters, g, n) + v.segment_given(Field::FacetFilters, g, n));
        let ghost before = url@;
        match &self.facets_distribution {
            Some(Some(_)) => {
                let value = encode_component(names_json);
                url.append("&facetsDistribution=");
                url.append(value.as_str());
            },
            Some(None) => {
                url.append("&facetsDistribution=");
                url.append("*");
            },
            None => {},
        }
        assert(url@ =~= before + v.segment_given(Field::FacetsDistribution, g, n));
        append_text(&mut url, "&attributesToRetrieve=", self.attributes_to_retrieve);
        append_text(&mut url, "&attributesToCrop=", self.attributes_to_crop);
        append_number(&mut url, "&cropLength=", self.crop_length);
        append_text(&mut url, "&attributesToHighlight=", self.attributes_to_highlight);
        url
    }

    /// The URL query string of this query: `?q=` and the percent-encoded
    /// query text, then `&name=value` for each parameter that is set, in the
    /// fixed order of [`Field`].
    pub fn to_url(&self) -> (url: String)
        ensures
            url@ == self@.url(),
            self@.head().is_prefix_of(url@),
    {
        let groups_json = match &self.facet_filters {
            Some(groups) => match groups_to_json(groups) {
                Ok(text) => text,
                Err(_) => unreached(),
            },
            None => String::new(),
        };
        let names_json = match &self.facets_distribution {
            Some(Some(names)) => match names_to_json(names) {
                Ok(text) => text,
                Err(_) => unreached(),
            },
            _ => String::new(),
        };
        proof {
            lemma_url_begins_with_query(self@, groups_json@, names_json@);
        }
        self.to_url_with(groups_json.as_str(), names_json.as_str())
    }
}

/// Every URL begins with `?q=` and the percent-encoded query text, whatever
/// optional parameters are set.
pub proof fn lemma_url_begins_with_query(q: QueryView, groups_json: Seq<char>, names_json: Seq<char>)
    ensures
        q.head().is_prefix_of(q.url_given(groups_json, names_json)),
        q.head().is_prefix_of(q.url()),
        q.head() == seq!['?', 'q', '='] + percent_encode(q.query),
{
    reveal_strlit("?q=");
    assert("?q="@ =~= seq!['?', 'q', '=']);
    let u = q.url_given(groups_json, names_json);
    assert(u.subrange(0, q.head().len() as int) =~= q.head());
    let w = q.url();
    assert(w.subrange(0, q.head().len() as int) =~= q.head());
}

} // verus!
