//! Typed request values and their canonical textual encodings: the search
//! query's parameter string, the partial-update query parameter, the
//! settings body values, and the restriction set of a derived key with its
//! canonical query-style encoding.

use crate::filter::CommonFilter;
use crate::filter::CommonFilterKind;
use crate::filter::EmptyFilter;
use crate::filter::Filterable;
use crate::filter::Sealed;
use crate::model::attribute::FacetAttribute;
use crate::model::attribute::SearchableAttributes;
use crate::text::dec_int;
use crate::text::form_encoded;
use crate::text::join_with;
use crate::text::lemma_join_with_snoc;
use crate::text::opt_str_view;
use crate::text::opt_string_view;
use crate::text::push_dec_i64;
use crate::text::push_dec_u64;
use crate::text::push_form_encoded;
use vstd::prelude::*;
use vstd::string::StringSliceAdditionalSpecFns;
use vstd::utf8::encode_utf8;

verus! {

/// The restrictions a derived ("virtual") key is scoped by. All fields are
/// optional; an absent field places no restriction.
#[derive(Clone, Debug, PartialEq, Eq)]
pub struct VirtualKeyRestrictions {
    /// An identifier the rate-limit system uses to tell users behind one IP
    /// address apart.
    pub user_token: Option<String>,
    /// The instant the derived key expires, in seconds since the Unix
    /// epoch.
    pub valid_until: Option<i64>,
}

impl Default for VirtualKeyRestrictions {
    /// The empty restriction set.
    fn default() -> (r: Self)
        ensures
            r.user_token is None,
            r.valid_until is None,
    {
        VirtualKeyRestrictions { user_token: None, valid_until: None }
    }
}

/// The canonical query-style encoding of a restriction set: `userToken=`
/// then the form-encoded token, `validUntil=` then the decimal epoch
/// seconds; fields in that fixed order, absent fields omitted, present
/// fields joined by `&`.
pub open spec fn spec_restrictions_encoding(token: Option<Seq<char>>, valid_until: Option<
    i64,
>) -> Seq<char> {
    match (token, valid_until) {
        (None, None) => Seq::<char>::empty(),
        (Some(t), None) => "userToken="@ + form_encoded(encode_utf8(t)),
        (None, Some(v)) => "validUntil="@ + dec_int(v as int),
        (Some(t), Some(v)) => "userToken="@ + form_encoded(encode_utf8(t)) + "&validUntil="@
            + dec_int(v as int),
    }
}

/// The payload the key derivation signs: the canonical encoding, except
/// that an empty encoding is replaced by the literal `userToken=` — the
/// derivation endpoint does not accept an empty restriction string, so the
/// empty set is signed as that placeholder.
pub open spec fn spec_signed_payload(token: Option<Seq<char>>, valid_until: Option<i64>) -> Seq<
    char,
> {
    let encoding = spec_restrictions_encoding(token, valid_until);
    if encoding.len() == 0 {
        "userToken="@
    } else {
        encoding
    }
}

/// Law: the empty restriction set is signed as the literal substituted
/// payload `userToken=`.
pub proof fn lemma_empty_restrictions_payload()
    ensures
        spec_signed_payload(None, None) == "userToken="@,
{
}

impl VirtualKeyRestrictions {
    /// The canonical query-style encoding of this restriction set.
    pub fn canonical_encoding(&self) -> (r: String)
        ensures
            r@ == spec_restrictions_encoding(opt_string_view(self.user_token), self.valid_until),
    {
        let mut out = String::new();
        if let Some(token) = &self.user_token {
            out.append("userToken=");
            push_form_encoded(&mut out, token.as_str());
        }
        if let Some(valid_until) = self.valid_until {
            if self.user_token.is_some() {
                out.append("&");
            }
            out.append("validUntil=");
            push_dec_i64(&mut out, valid_until);
        }
        proof {
            reveal_strlit("&");
            reveal_strlit("validUntil=");
            reveal_strlit("&validUntil=");
            assert(out@ =~= spec_restrictions_encoding(
                opt_string_view(self.user_token),
                self.valid_until,
            ));
        }
        out
    }

    /// The payload the key derivation signs; see [`spec_signed_payload`].
    pub fn signed_payload(&self) -> (r: String)
        ensures
            r@ == spec_signed_payload(opt_string_view(self.user_token), self.valid_until),
    {
        let encoding = self.canonical_encoding();
        if encoding.as_str().is_empty() {
            String::from_str("userToken=")
        } else {
            encoding
        }
    }
}

/// The query parameter of a partial update. When true (the default), a
/// partial update of an absent object creates it; when false, such an
/// update is ignored.
#[derive(Copy, Clone, Debug, PartialEq, Eq, Structural)]
pub struct PartialUpdateQuery {
    pub create_if_not_exists: bool,
}

impl Default for PartialUpdateQuery {
    fn default() -> (r: Self)
        ensures
            r.create_if_not_exists,
    {
        PartialUpdateQuery { create_if_not_exists: true }
    }
}

/// The query string a partial-update query serializes to: the flag is
/// spelled out only when it is set.
pub open spec fn spec_partial_update_query(create_if_not_exists: bool) -> Seq<char> {
    if create_if_not_exists {
        "createIfNotExists=true"@
    } else {
        Seq::<char>::empty()
    }
}

impl PartialUpdateQuery {
    /// The query string this value serializes to.
    pub fn to_query(&self) -> (r: String)
        ensures
            r@ == spec_partial_update_query(self.create_if_not_exists),
    {
        if self.create_if_not_exists {
            String::from_str("createIfNotExists=true")
        } else {
            String::new()
        }
    }
}

/// A settings update: each field, when present, replaces the index's
/// setting of the same name.
#[derive(Clone, Debug)]
pub struct SetSettings {
    pub searchable_attributes: Option<SearchableAttributes>,
    pub attributes_for_faceting: Option<Vec<FacetAttribute>>,
}

impl Default for SetSettings {
    /// A settings update that changes nothing.
    fn default() -> (r: Self)
        ensures
            r.searchable_attributes is None,
            r.attributes_for_faceting is None,
    {
        SetSettings { searchable_attributes: None, attributes_for_faceting: None }
    }
}

/// A search request. Fields left at their service-side defaults are omitted
/// from the parameter string.
pub struct SearchQuery<'a, T: CommonFilterKind, U: Filterable = EmptyFilter> {
    /// The text to search for.
    pub query: Option<&'a str>,
    /// The page to retrieve.
    pub page: Option<u32>,
    /// How many hits one page holds.
    pub hits_per_page: Option<u16>,
    /// The filter expression of the search.
    pub filters: Option<U>,
    /// Optional filters, affecting ranking only; not part of the parameter
    /// string.
    pub optional_filters: Option<Vec<CommonFilter<T>>>,
    /// Whether to retrieve detailed ranking information.
    pub get_ranking_info: bool,
    /// Whether the scores of scored OR filters are summed.
    pub sum_or_filters_scores: bool,
    /// The number of hits reachable through pagination.
    pub pagination_limited_to: Option<u32>,
}

impl<'a, T: CommonFilterKind, U: Filterable> Default for SearchQuery<'a, T, U> {
    /// A search request with every field at the service-side default.
    fn default() -> (r: Self)
        ensures
            r.query is None,
            r.page is None,
            r.hits_per_page is None,
            r.filters is None,
            r.optional_filters is None,
            !r.get_ranking_info,
            !r.sum_or_filters_scores,
            r.pagination_limited_to is None,
    {
        SearchQuery {
            query: None,
            page: None,
            hits_per_page: None,
            filters: None,
            optional_filters: None,
            get_ranking_info: false,
            sum_or_filters_scores: false,
            pagination_limited_to: None,
        }
    }
}

/// The `key=value` pieces of a search request's parameter string, in their
/// fixed order. A piece is present exactly when its field differs from the
/// service-side default: an empty query text, page `0`, `20` hits per page
/// and pagination limit `0` are the defaults and are omitted; the service
/// assumes ranking information on and score summing off, so
/// `getRankingInfo=false` appears when ranking information is off and
/// `sumOrFiltersScores=true` when summing is on.
pub open spec fn spec_search_params(
    query: Option<Seq<char>>,
    page: Option<u32>,
    hits_per_page: Option<u16>,
    filters: Option<Seq<char>>,
    get_ranking_info: bool,
    sum_or_filters_scores: bool,
    pagination_limited_to: Option<u32>,
) -> Seq<Seq<char>> {
    (match query {
        Some(q) => if q.len() > 0 {
            seq!["query="@ + form_encoded(encode_utf8(q))]
        } else {
            Seq::<Seq<char>>::empty()
        },
        None => Seq::<Seq<char>>::empty(),
    }) + (match page {
        Some(p) => if p != 0 {
            seq!["page="@ + dec_int(p as int)]
        } else {
            Seq::<Seq<char>>::empty()
        },
        None => Seq::<Seq<char>>::empty(),
    }) + (match hits_per_page {
        Some(h) => if h != 20 {
            seq!["hitsPerPage="@ + dec_int(h as int)]
        } else {
            Seq::<Seq<char>>::empty()
        },
        None => Seq::<Seq<char>>::empty(),
    }) + (match filters {
        Some(f) => seq!["filters="@ + form_encoded(encode_utf8(f))],
        None => Seq::<Seq<char>>::empty(),
    }) + (if !get_ranking_info {
        seq!["getRankingInfo=false"@]
    } else {
        Seq::<Seq<char>>::empty()
    }) + (if sum_or_filters_scores {
        seq!["sumOrFiltersScores=true"@]
    } else {
        Seq::<Seq<char>>::empty()
    }) + (match pagination_limited_to {
        Some(p) => if p != 0 {
            seq!["paginationLimitedTo="@ + dec_int(p as int)]
        } else {
            Seq::<Seq<char>>::empty()
        },
        None => Seq::<Seq<char>>::empty(),
    })
}

/// The view of the filters field: what it renders to, when present.
pub open spec fn spec_filters_view<U: Filterable>(filters: Option<U>) -> Option<Seq<char>> {
    match filters {
        Some(f) => Some(f.rendered()),
        None => None,
    }
}

impl<'a, T: CommonFilterKind, U: Filterable> SearchQuery<'a, T, U> {
    /// The pieces of this request's parameter string.
    pub open spec fn spec_params(&self) -> Seq<Seq<char>> {
        spec_search_params(
            opt_str_view(self.query),
            self.page,
            self.hits_per_page,
            spec_filters_view(self.filters),
            self.get_ranking_info,
            self.sum_or_filters_scores,
            self.pagination_limited_to,
        )
    }

    /// Builds the parameter string: the present pieces joined by `&`.
    #[verifier::rlimit(60)]
    pub fn to_params(&self) -> (r: String)
        requires
            self.filters matches Some(f) ==> f.wf(),
        ensures
            r@ == join_with(self.spec_params(), "&"@),
    {
        let ghost pieces = self.spec_params();
        let mut out = String::new();
        let mut first = true;
        let ghost mut done: Seq<Seq<char>> = Seq::empty();

        if let Some(q) = self.query {
            if !q.is_empty() {
                let mut piece = String::from_str("query=");
                push_form_encoded(&mut piece, q);
                append_param(&mut out, first, &piece, Ghost(done));
                proof {
                    done = done.push(piece@);
                }
                first = false;
            }
        }

        if let Some(p) = self.page {
            if p != 0 {
                let mut piece = String::from_str("page=");
                push_dec_u64(&mut piece, p as u64);
                append_param(&mut out, first, &piece, Ghost(done));
                proof {
                    done = done.push(piece@);
                }
                first = false;
            }
        }

        if let Some(h) = self.hits_per_page {
            if h != 20 {
                let mut piece = String::from_str("hitsPerPage=");
                push_dec_u64(&mut piece, h as u64);
                append_param(&mut out, first, &piece, Ghost(done));
                proof {
                    done = done.push(piece@);
                }
                first = false;
            }
        }

        if let Some(f) = &self.filters {
            let mut piece = String::from_str("filters=");
            let rendered = f.render();
            push_form_encoded(&mut piece, rendered.as_str());
            append_param(&mut out, first, &piece, Ghost(done));
            proof {
                done = done.push(piece@);
            }
            first = false;
        }

        if !self.get_ranking_info {
            let piece = String::from_str("getRankingInfo=false");
            append_param(&mut out, first, &piece, Ghost(done));
            proof {
                done = done.push(piece@);
            }
            first = false;
        }

        if self.sum_or_filters_scores {
            let piece = String::from_str("sumOrFiltersScores=true");
            append_param(&mut out, first, &piece, Ghost(done));
            proof {
                done = done.push(piece@);
            }
            first = false;
        }

        if let Some(p) = self.pagination_limited_to {
            if p != 0 {
                let mut piece = String::from_str("paginationLimitedTo=");
                push_dec_u64(&mut piece, p as u64);
                append_param(&mut out, first, &piece, Ghost(done));
                proof {
                    done = done.push(piece@);
                }
                first = false;
            }
        }

        proof {
            assert(done =~= pieces);
        }
        out
    }
}

/// Appends one ready-made `key=value` piece to the parameter string,
/// preceded by `&` when pieces came before it.
fn append_param(out: &mut String, first: bool, piece: &String, Ghost(done): Ghost<Seq<Seq<char>>>)
    requires
        old(out)@ == join_with(done, "&"@),
        first <==> done.len() == 0,
    ensures
        final(out)@ == join_with(done.push(piece@), "&"@),
{
    if !first {
        out.append("&");
    }
    out.append(piece.as_str());
    proof {
        lemma_join_with_snoc(done, piece@, "&"@);
        assert(final(out)@ =~= join_with(done.push(piece@), "&"@));
    }
}

} // verus!
