//! The path and query-string pairs of each indexer endpoint the client calls.

use vstd::prelude::*;
use vstd::string::*;

use super::query::{
    OfferListParams, lemma_pairs_view_push, lemma_present_drawn_from_slots,
    lemma_query_keys_are_distinct, lemma_query_keys_unique, pairs_view, query_keys, query_of,
    query_slots,
};
use crate::text::{uuid_hyphenated, uuid_text};

verus! {

/// A GET request to the indexer: the path below the base URL and the
/// query-string pairs, in the order in which they are sent.
#[derive(Debug)]
pub struct ApiRequest {
    pub path: String,
    pub query: Vec<(&'static str, String)>,
}

/// The single pair that selects a script.
pub open spec fn script_pair(script_pubkey: Seq<char>) -> (Seq<char>, Seq<char>) {
    ("script_pubkey"@, script_pubkey)
}

fn request(path: &str, query: Vec<(&'static str, String)>) -> (r: ApiRequest)
    ensures
        r.path@ == path@,
        r.query == query,
{
    ApiRequest { path: String::from_str(path), query }
}

fn with_script(query: Vec<(&'static str, String)>, script_pubkey: &str) -> (r: Vec<
    (&'static str, String),
>)
    ensures
        pairs_view(r@) == pairs_view(query@).push(script_pair(script_pubkey@)),
{
    let mut query = query;
    let pair = ("script_pubkey", String::from_str(script_pubkey));
    proof {
        lemma_pairs_view_push(query@, pair);
    }
    query.push(pair);
    query
}

/// The listing of offers that match `params`.
pub fn list_offers_request(params: &OfferListParams) -> (r: ApiRequest)
    ensures
        r.path@ == "/offers"@,
        pairs_view(r.query@) == query_of(*params),
{
    request("/offers", params.to_query_pairs())
}

/// The details of the offer `offer_id`.
pub fn get_offer_request(offer_id: &str) -> (r: ApiRequest)
    ensures
        r.path@ == "/offers/"@ + offer_id@,
        r.query@.len() == 0,
{
    let mut path = String::from_str("/offers/");
    path.append(offer_id);
    ApiRequest { path, query: Vec::new() }
}

/// The ids of the offers in which `script_pubkey` takes part.
pub fn get_offer_ids_by_script_request(script_pubkey: &str) -> (r: ApiRequest)
    ensures
        r.path@ == "/offers/by-script"@,
        pairs_view(r.query@) == seq![script_pair(script_pubkey@)],
{
    request("/offers/by-script", with_script(Vec::new(), script_pubkey))
}

/// The totals over all offers.
pub fn get_offers_overview_request() -> (r: ApiRequest)
    ensures
        r.path@ == "/offers/overview"@,
        r.query@.len() == 0,
{
    request("/offers/overview", Vec::new())
}

/// The listing of the offers of borrower `script_pubkey` that match
/// `params`: the pairs of `params`, then the script.
pub fn list_borrower_offers_request(script_pubkey: &str, params: &OfferListParams) -> (r:
    ApiRequest)
    ensures
        r.path@ == "/borrowers/offers"@,
        pairs_view(r.query@) == query_of(*params).push(script_pair(script_pubkey@)),
{
    request("/borrowers/offers", with_script(params.to_query_pairs(), script_pubkey))
}

/// The totals of borrower `script_pubkey`.
pub fn get_borrower_overview_request(script_pubkey: &str) -> (r: ApiRequest)
    ensures
        r.path@ == "/borrowers/overview"@,
        pairs_view(r.query@) == seq![script_pair(script_pubkey@)],
{
    request("/borrowers/overview", with_script(Vec::new(), script_pubkey))
}

/// The listing of the offers of lender `script_pubkey` that match `params`:
/// the pairs of `params`, then the script.
pub fn list_lender_offers_request(script_pubkey: &str, params: &OfferListParams) -> (r:
    ApiRequest)
    ensures
        r.path@ == "/lenders/offers"@,
        pairs_view(r.query@) == query_of(*params).push(script_pair(script_pubkey@)),
{
    request("/lenders/offers", with_script(params.to_query_pairs(), script_pubkey))
}

/// The totals of lender `script_pubkey`.
pub fn get_lender_overview_request(script_pubkey: &str) -> (r: ApiRequest)
    ensures
        r.path@ == "/lenders/overview"@,
        pairs_view(r.query@) == seq![script_pair(script_pubkey@)],
{
    request("/lenders/overview", with_script(Vec::new(), script_pubkey))
}

/// The factories whose program is `script_pubkey`.
pub fn get_factories_by_script_request(script_pubkey: &str) -> (r: ApiRequest)
    ensures
        r.path@ == "/factories/by-script"@,
        pairs_view(r.query@) == seq![script_pair(script_pubkey@)],
{
    request("/factories/by-script", with_script(Vec::new(), script_pubkey))
}

/// The details of the factory whose UUID has the value `factory_id`; the
/// UUID stands in the path in its hyphenated form.
pub fn get_factory_request(factory_id: u128) -> (r: ApiRequest)
    ensures
        r.path@ == "/factories/"@ + uuid_hyphenated(factory_id),
        r.query@.len() == 0,
{
    let mut path = String::from_str("/factories/");
    let id = uuid_text(factory_id);
    path.append(id.as_str());
    ApiRequest { path, query: Vec::new() }
}

/// A participant's listing query names each key once: the listing filters
/// never use the `script_pubkey` key that is appended after them.
pub proof fn lemma_participant_query_keys_unique(params: OfferListParams, script_pubkey: Seq<char>)
    ensures
        ({
            let q = query_of(params).push(script_pair(script_pubkey));
            forall|i: int, j: int| 0 <= i < j < q.len() ==> q[i].0 != q[j].0
        }),
{
    let p = query_of(params);
    let q = p.push(script_pair(script_pubkey));
    let keys = query_keys();
    lemma_query_keys_unique(params);
    lemma_query_keys_are_distinct();
    lemma_present_drawn_from_slots(keys, query_slots(params));
    reveal_strlit("script_pubkey");
    reveal_strlit("status");
    reveal_strlit("collateral_asset");
    reveal_strlit("principal_asset");
    reveal_strlit("factory_id");
    reveal_strlit("exclude_participant_script");
    reveal_strlit("exclude_participant_role");
    reveal_strlit("not_expired");
    reveal_strlit("limit");
    reveal_strlit("offset");
    reveal_strlit("sort_by");
    reveal_strlit("sort_dir");
    assert forall|i: int, j: int| 0 <= i < j < q.len() implies q[i].0 != q[j].0 by {
        if j < p.len() {
            assert(q[i] == p[i] && q[j] == p[j]);
        } else {
            assert(q[i] == p[i]);
            let r = choose|r: int|
                0 <= r < 11 && keys[r] == p[i].0 && query_slots(params)[r] == Some(p[i].1);
            assert(keys[r] != "script_pubkey"@) by {
                if keys[r].len() == "script_pubkey"@.len() {
                    assert(keys[r][1] != 'c' || keys[r][0] != 's');
                }
            }
        }
    }
}

} // verus!
