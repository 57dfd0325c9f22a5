//! What holds of every query and its URL.

use crate::decimal::{decimal, is_digit, lemma_decimal_digits};
use crate::json::{json_groups, json_names};
use crate::percent::{
    is_encoded_char, lemma_encoded_alphabet, lemma_encoded_brackets,
    lemma_unreserved_text_unchanged, percent_encode,
};
use crate::search::{Field, QueryView, Setting};
use vstd::prelude::*;
use vstd::utf8::encode_utf8;

verus! {

/// True of a text that holds no `&`.
pub open spec fn no_ampersand(s: Seq<char>) -> bool {
    forall|i: int| 0 <= i < s.len() ==> #[trigger] s[i] != '&'
}

/// Every key is `&`, a name and `=`, with no other `&` in it, so none is
/// empty.
pub proof fn lemma_key_not_empty(f: Field)
    ensures
        f.key().len() >= 3,
        f.key()[0] == '&',
        f.key().last() == '=',
        forall|i: int| 1 <= i < f.key().len() ==> #[trigger] f.key()[i] != '&',
{
    reveal_strlit("&offset=");
    reveal_strlit("&limit=");
    reveal_strlit("&filters=");
    reveal_strlit("&facetFilters=");
    reveal_strlit("&facetsDistribution=");
    reveal_strlit("&attributesToRetrieve=");
    reveal_strlit("&attributesToCrop=");
    reveal_strlit("&cropLength=");
    reveal_strlit("&attributesToHighlight=");
}

/// The URL of a new query is `?q=` and the percent-encoded query text, and
/// nothing more.
pub proof fn lemma_new_url(text: Seq<char>)
    ensures
        QueryView::new(text).url() == seq!['?', 'q', '='] + percent_encode(text),
{
    reveal_strlit("?q=");
    assert(QueryView::new(text).url() =~= seq!['?', 'q', '='] + percent_encode(text));
}

/// Two settings of different parameters give the same query, and so the
/// same URL, in either order: the place of a parameter in the URL is fixed.
pub proof fn lemma_settings_commute(q: QueryView, a: Setting, b: Setting)
    requires
        a.field() != b.field(),
    ensures
        q.set(a).set(b) == q.set(b).set(a),
        q.set(a).set(b).url() == q.set(b).set(a).url(),
        forall|f: Field| #[trigger] q.set(a).set(b).segment(f) == q.set(b).set(a).segment(f),
{
}

/// Of two settings of one parameter the later one wins: the query, its URL
/// and the parameter's value are those of the later setting alone.
pub proof fn lemma_last_setting_wins(q: QueryView, a: Setting, b: Setting)
    requires
        a.field() == b.field(),
    ensures
        q.set(a).set(b) == q.set(b),
        q.set(a).set(b).url() == q.set(b).url(),
        q.set(a).set(b).value(b.field()) == Some(b.rendered()),
        q.set(a).set(b).segment(b.field()) == b.field().key() + b.rendered(),
{
}

/// A setting writes its own value under its own key and leaves what every
/// other parameter adds to the URL as it was.
pub proof fn lemma_setting_is_local(q: QueryView, s: Setting, f: Field)
    ensures
        q.set(s).query == q.query,
        q.set(s).head() == q.head(),
        f == s.field() ==> q.set(s).segment(f) == f.key() + s.rendered(),
        f != s.field() ==> q.set(s).segment(f) == q.segment(f),
{
}

/// A parameter adds something to the URL if and only if it is set, and what
/// it then adds begins with its key. A new query has no parameter set, and
/// a setting sets its own parameter and no other.
pub proof fn lemma_presence(q: QueryView, f: Field)
    ensures
        q.is_set(f) <==> q.value(f) is Some,
        q.is_set(f) <==> q.segment(f).len() > 0,
        q.is_set(f) ==> f.key().is_prefix_of(q.segment(f)),
        !q.is_set(f) ==> q.segment(f) == Seq::<char>::empty(),
        forall|text: Seq<char>| !(#[trigger] QueryView::new(text)).is_set(f),
        forall|s: Setting| (#[trigger] q.set(s)).is_set(f) <==> (f == s.field() || q.is_set(f)),
{
    lemma_key_not_empty(f);
    if q.is_set(f) {
        let v = q.value(f).unwrap();
        assert(q.segment(f) == f.key() + v);
        assert(q.segment(f).subrange(0, f.key().len() as int) =~= f.key());
    }
}

/// The request for every facet is written as `*` and nothing else. A list
/// of facet names is written as the percent-encoding of its JSON text, the
/// empty list as `%5B%5D`; no such value holds a `*`, so the two can always
/// be told apart.
pub proof fn lemma_wildcard(q: QueryView, names: Seq<Seq<char>>)
    ensures
        q.set(Setting::FacetsDistribution(None)).value(Field::FacetsDistribution) == Some(
            seq!['*'],
        ),
        q.set(Setting::FacetsDistribution(Some(names))).value(Field::FacetsDistribution) == Some(
            percent_encode(json_names(names)),
        ),
        q.set(Setting::FacetsDistribution(Some(Seq::empty()))).value(Field::FacetsDistribution)
            == Some(seq!['%', '5', 'B', '%', '5', 'D']),
        !percent_encode(json_names(names)).contains('*'),
        percent_encode(json_names(names)) != seq!['*'],
{
    reveal_strlit("*");
    assert("*"@ =~= seq!['*']);
    lemma_encoded_brackets();
    let e = percent_encode(json_names(names));
    lemma_encoded_alphabet(encode_utf8(json_names(names)));
    assert forall|i: int| 0 <= i < e.len() implies e[i] != '*' by {
        assert(is_encoded_char(e[i]));
    }
    if e == seq!['*'] {
        assert(e[0] == '*');
    }
}

/// A parameter that is set to an empty value still appears: empty facet
/// filters are written as `&facetFilters=%5B%5D`, and an empty free text as
/// its key alone.
pub proof fn lemma_empty_values_appear(q: QueryView)
    ensures
        q.set(Setting::FacetFilters(Seq::empty())).segment(Field::FacetFilters)
            == Field::FacetFilters.key() + seq!['%', '5', 'B', '%', '5', 'D'],
        q.set(Setting::Filters(Seq::empty())).segment(Field::Filters) == Field::Filters.key(),
        q.set(Setting::Offset(0)).segment(Field::Offset) == Field::Offset.key() + seq!['0'],
{
    lemma_encoded_brackets();
    assert(json_groups(Seq::empty()) == seq!['[', ']']);
    assert(encode_utf8(Seq::<char>::empty()) =~= Seq::<u8>::empty());
    assert(percent_encode(Seq::<char>::empty()) =~= Seq::<char>::empty());
    assert(Field::Filters.key() + Seq::<char>::empty() =~= Field::Filters.key());
    assert(decimal(0) =~= seq!['0']);
}

/// A rendered number is its own percent-encoding: digits need none.
pub proof fn lemma_numbers_need_no_encoding(n: nat)
    ensures
        percent_encode(decimal(n)) == decimal(n),
{
    lemma_decimal_digits(n);
    lemma_unreserved_text_unchanged(decimal(n));
}

/// The value written for a parameter holds no `&`.
pub proof fn lemma_value_has_no_ampersand(q: QueryView, f: Field)
    requires
        q.is_set(f),
    ensures
        q.value(f) is Some,
        no_ampersand(q.value(f).unwrap()),
{
    reveal_strlit("*");
    let v = q.value(f).unwrap();
    match f {
        Field::Offset => lemma_decimal_digits(q.offset.unwrap()),
        Field::Limit => lemma_decimal_digits(q.limit.unwrap()),
        Field::CropLength => lemma_decimal_digits(q.crop_length.unwrap()),
        Field::Filters => lemma_encoded_alphabet(encode_utf8(q.filters.unwrap())),
        Field::FacetFilters => lemma_encoded_alphabet(encode_utf8(q.groups_json())),
        Field::FacetsDistribution => lemma_encoded_alphabet(encode_utf8(q.names_json())),
        Field::AttributesToRetrieve => lemma_encoded_alphabet(
            encode_utf8(q.attributes_to_retrieve.unwrap()),
        ),
        Field::AttributesToCrop => lemma_encoded_alphabet(
            encode_utf8(q.attributes_to_crop.unwrap()),
        ),
        Field::AttributesToHighlight => lemma_encoded_alphabet(
            encode_utf8(q.attributes_to_highlight.unwrap()),
        ),
    }
    assert forall|i: int| 0 <= i < v.len() implies #[trigger] v[i] != '&' by {
        if f == Field::Offset || f == Field::Limit || f == Field::CropLength {
            assert(is_digit(v[i]));
        } else if f == Field::FacetsDistribution && q.facets_distribution == Some(
            None::<Seq<Seq<char>>>,
        ) {
            assert(v[i] == '*');
        } else {
            assert(is_encoded_char(v[i]));
        }
    }
}

/// The URL holds one `&` for each parameter that is set and no other: the
/// head holds none, and what a set parameter adds begins with `&` and holds
/// none after it. Cut at each `&`, the URL falls into its head and its
/// parameters.
pub proof fn lemma_one_ampersand_per_parameter(q: QueryView, f: Field)
    ensures
        no_ampersand(q.head()),
        q.is_set(f) ==> q.segment(f).len() > 0 && q.segment(f)[0] == '&' && no_ampersand(
            q.segment(f).subrange(1, q.segment(f).len() as int),
        ),
{
    reveal_strlit("?q=");
    lemma_encoded_alphabet(encode_utf8(q.query));
    let h = q.head();
    assert forall|i: int| 0 <= i < h.len() implies #[trigger] h[i] != '&' by {
        if i >= 3 {
            assert(h[i] == percent_encode(q.query)[i - 3]);
            assert(is_encoded_char(h[i]));
        }
    }
    if q.is_set(f) {
        lemma_key_not_empty(f);
        lemma_value_has_no_ampersand(q, f);
        let k = f.key();
        let v = q.value(f).unwrap();
        let s = q.segment(f);
        assert(s == k + v);
        let rest = s.subrange(1, s.len() as int);
        assert forall|i: int| 0 <= i < rest.len() implies #[trigger] rest[i] != '&' by {
            if i + 1 < k.len() {
                assert(rest[i] == k[i + 1]);
            } else {
                assert(rest[i] == v[i + 1 - k.len()]);
            }
        }
    }
}

} // verus!
