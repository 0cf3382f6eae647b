//! Filters, pagination and sorting of the offer listing endpoints, and their
//! encoding as query-string pairs.

use vstd::prelude::*;
use vstd::string::*;

use crate::models::{OfferStatus, ParticipantType, status_text};
use crate::text::{
    decimal_digits, decimal_text, join_texts, lemma_split_join, split_text, uuid_hyphenated,
    uuid_text,
};

verus! {

/// Field by which the indexer orders an offer listing.
#[derive(Debug, Clone, Copy, PartialEq, Eq, Structural)]
pub enum OfferSortBy {
    UpdatedAtHeight,
    CreatedAtHeight,
    CollateralAmount,
    PrincipalAmount,
    InterestRate,
    LoanExpirationHeight,
}

/// The wire name of a sort field.
pub open spec fn sort_by_text(sort_by: OfferSortBy) -> Seq<char> {
    match sort_by {
        OfferSortBy::UpdatedAtHeight => "updated_at_height"@,
        OfferSortBy::CreatedAtHeight => "created_at_height"@,
        OfferSortBy::CollateralAmount => "collateral_amount"@,
        OfferSortBy::PrincipalAmount => "principal_amount"@,
        OfferSortBy::InterestRate => "interest_rate"@,
        OfferSortBy::LoanExpirationHeight => "loan_expiration_height"@,
    }
}

impl OfferSortBy {
    /// The name of the sort field in the indexer's query strings.
    pub fn as_query_str(self) -> (r: &'static str)
        ensures
            r@ == sort_by_text(self),
    {
        match self {
            OfferSortBy::UpdatedAtHeight => "updated_at_height",
            OfferSortBy::CreatedAtHeight => "created_at_height",
            OfferSortBy::CollateralAmount => "collateral_amount",
            OfferSortBy::PrincipalAmount => "principal_amount",
            OfferSortBy::InterestRate => "interest_rate",
            OfferSortBy::LoanExpirationHeight => "loan_expiration_height",
        }
    }
}

/// Direction of an ordering.
#[derive(Debug, Clone, Copy, PartialEq, Eq, Structural)]
pub enum SortDir {
    Asc,
    Desc,
}

/// The wire name of a sort direction.
pub open spec fn sort_dir_text(dir: SortDir) -> Seq<char> {
    match dir {
        SortDir::Asc => "asc"@,
        SortDir::Desc => "desc"@,
    }
}

impl SortDir {
    /// The name of the direction in the indexer's query strings.
    pub fn as_query_str(self) -> (r: &'static str)
        ensures
            r@ == sort_dir_text(self),
    {
        match self {
            SortDir::Asc => "asc",
            SortDir::Desc => "desc",
        }
    }
}

/// The wire name of a participant role.
pub open spec fn role_text(role: ParticipantType) -> Seq<char> {
    match role {
        ParticipantType::Borrower => "borrower"@,
        ParticipantType::Lender => "lender"@,
    }
}

/// The value of the `exclude_participant_role` filter for `role`.
pub fn participant_role_query(role: ParticipantType) -> (r: String)
    ensures
        r@ == role_text(role),
{
    match role {
        ParticipantType::Borrower => String::from_str("borrower"),
        ParticipantType::Lender => String::from_str("lender"),
    }
}

/// Filters, pagination and ordering of an offer listing. A field left at
/// `None` (or an empty `status`, or `not_expired == false`) does not
/// constrain the listing.
#[derive(Debug, Clone, PartialEq, Eq)]
pub struct OfferListParams {
    pub status: Vec<OfferStatus>,
    pub collateral_asset: Option<String>,
    pub principal_asset: Option<String>,
    /// The factory's UUID, as its 128-bit big-endian value.
    pub factory_id: Option<u128>,
    pub exclude_participant_script: Option<String>,
    pub exclude_participant_role: Option<ParticipantType>,
    pub not_expired: bool,
    pub limit: Option<u64>,
    pub offset: Option<u64>,
    pub sort_by: Option<OfferSortBy>,
    pub sort_dir: Option<SortDir>,
}

/// The text of an optional string.
pub open spec fn opt_text(s: Option<String>) -> Option<Seq<char>> {
    match s {
        Some(t) => Some(t@),
        None => None,
    }
}

/// The `status` filter's value: the statuses' wire names joined by commas,
/// or nothing when no status is selected.
pub open spec fn status_value(statuses: Seq<OfferStatus>) -> Option<Seq<char>> {
    if statuses.len() == 0 {
        None
    } else {
        Some(join_texts(statuses.map_values(|s: OfferStatus| status_text(s)), ","@))
    }
}

/// The query-string keys, in the order in which the pairs are sent.
pub open spec fn query_keys() -> Seq<Seq<char>> {
    seq![
        "status"@,
        "collateral_asset"@,
        "principal_asset"@,
        "factory_id"@,
        "exclude_participant_script"@,
        "exclude_participant_role"@,
        "not_expired"@,
        "limit"@,
        "offset"@,
        "sort_by"@,
        "sort_dir"@,
    ]
}

/// For each key of `query_keys()`, the value that `params` gives it, if any.
pub open spec fn query_slots(params: OfferListParams) -> Seq<Option<Seq<char>>> {
    seq![
        status_value(params.status@),
        opt_text(params.collateral_asset),
        opt_text(params.principal_asset),
        match params.factory_id {
            Some(id) => Some(uuid_hyphenated(id)),
            None => None,
        },
        opt_text(params.exclude_participant_script),
        match params.exclude_participant_role {
            Some(role) => Some(role_text(role)),
            None => None,
        },
        if params.not_expired { Some("true"@) } else { None },
        match params.limit {
            Some(n) => Some(decimal_digits(n as nat)),
            None => None,
        },
        match params.offset {
            Some(n) => Some(decimal_digits(n as nat)),
            None => None,
        },
        match params.sort_by {
            Some(s) => Some(sort_by_text(s)),
            None => None,
        },
        match params.sort_dir {
            Some(d) => Some(sort_dir_text(d)),
            None => None,
        },
    ]
}

/// The pairs `(keys[i], v)` for each slot `i` that holds `Some(v)`, in slot
/// order.
pub open spec fn present_pairs(keys: Seq<Seq<char>>, slots: Seq<Option<Seq<char>>>) -> Seq<
    (Seq<char>, Seq<char>),
>
    decreases slots.len(),
{
    if slots.len() == 0 {
        Seq::empty()
    } else {
        let rest = present_pairs(keys.drop_last(), slots.drop_last());
        match slots.last() {
            Some(v) => rest.push((keys.last(), v)),
            None => rest,
        }
    }
}

/// The query-string pairs that describe `params`.
pub open spec fn query_of(params: OfferListParams) -> Seq<(Seq<char>, Seq<char>)> {
    present_pairs(query_keys(), query_slots(params))
}

/// The texts of a list of query-string pairs.
pub open spec fn pairs_view(pairs: Seq<(&'static str, String)>) -> Seq<(Seq<char>, Seq<char>)> {
    pairs.map_values(|p: (&'static str, String)| (p.0@, p.1@))
}

proof fn lemma_present_step(keys: Seq<Seq<char>>, slots: Seq<Option<Seq<char>>>, k: int)
    requires
        0 <= k < slots.len(),
        slots.len() <= keys.len(),
    ensures
        present_pairs(keys.take(k + 1), slots.take(k + 1)) == match slots[k] {
            Some(v) => present_pairs(keys.take(k), slots.take(k)).push((keys[k], v)),
            None => present_pairs(keys.take(k), slots.take(k)),
        },
{
    assert(keys.take(k + 1).drop_last() =~= keys.take(k));
    assert(slots.take(k + 1).drop_last() =~= slots.take(k));
}

/// The comma-joined wire names of `statuses`.
fn status_query_value(statuses: &Vec<OfferStatus>) -> (s: String)
    ensures
        s@ == join_texts(statuses@.map_values(|x: OfferStatus| status_text(x)), ","@),
{
    let ghost names = statuses@.map_values(|x: OfferStatus| status_text(x));
    let mut s = String::new();
    let mut i: usize = 0;
    while i < statuses.len()
        invariant
            i <= statuses.len(),
            names == statuses@.map_values(|x: OfferStatus| status_text(x)),
            s@ == join_texts(names.take(i as int), ","@),
        decreases statuses.len() - i,
    {
        if i > 0 {
            s.append(",");
        }
        s.append(statuses[i].as_query_str());
        proof {
            assert(names.take(i + 1).drop_last() =~= names.take(i as int));
            if i == 0 {
                assert(join_texts(names.take(0), ","@) =~= Seq::<char>::empty());
            }
        }
        i = i + 1;
    }
    assert(names.take(statuses.len() as int) =~= names);
    s
}

pub(crate) proof fn lemma_pairs_view_push(pairs: Seq<(&'static str, String)>, p: (&'static str, String))
    ensures
        pairs_view(pairs.push(p)) == pairs_view(pairs).push((p.0@, p.1@)),
{
    assert(pairs_view(pairs.push(p)) =~= pairs_view(pairs).push((p.0@, p.1@)));
}

impl Default for OfferListParams {
    fn default() -> (r: Self)
        ensures
            r.status@.len() == 0,
            r.collateral_asset is None,
            r.principal_asset is None,
            r.factory_id is None,
            r.exclude_participant_script is None,
            r.exclude_participant_role is None,
            !r.not_expired,
            r.limit is None,
            r.offset is None,
            r.sort_by is None,
            r.sort_dir is None,
    {
        OfferListParams {
            status: Vec::new(),
            collateral_asset: None,
            principal_asset: None,
            factory_id: None,
            exclude_participant_script: None,
            exclude_participant_role: None,
            not_expired: false,
            limit: None,
            offset: None,
            sort_by: None,
            sort_dir: None,
        }
    }
}

/// No filter, pagination or ordering is set.
pub open spec fn is_unconstrained(p: OfferListParams) -> bool {
    &&& p.status@.len() == 0
    &&& p.collateral_asset is None
    &&& p.principal_asset is None
    &&& p.factory_id is None
    &&& p.exclude_participant_script is None
    &&& p.exclude_participant_role is None
    &&& !p.not_expired
    &&& p.limit is None
    &&& p.offset is None
    &&& p.sort_by is None
    &&& p.sort_dir is None
}

impl OfferListParams {
    /// Parameters that constrain nothing.
    pub fn new() -> (r: Self)
        ensures
            is_unconstrained(r),
    {
        Self::default()
    }

    /// Restricts the listing to offers in one of `status`.
    pub fn with_status(self, status: Vec<OfferStatus>) -> (r: Self)
        ensures
            r == (OfferListParams { status, ..self }),
    {
        let mut s = self;
        s.status = status;
        s
    }

    /// Restricts the listing to offers with this collateral asset.
    pub fn with_collateral_asset(self, collateral_asset: &str) -> (r: Self)
        ensures
            r.collateral_asset matches Some(a) && a@ == collateral_asset@,
            r == (OfferListParams { collateral_asset: r.collateral_asset, ..self }),
    {
        let mut s = self;
        s.collateral_asset = Some(String::from_str(collateral_asset));
        s
    }

    /// Restricts the listing to offers with this principal asset.
    pub fn with_principal_asset(self, principal_asset: &str) -> (r: Self)
        ensures
            r.principal_asset matches Some(a) && a@ == principal_asset@,
            r == (OfferListParams { principal_asset: r.principal_asset, ..self }),
    {
        let mut s = self;
        s.principal_asset = Some(String::from_str(principal_asset));
        s
    }

    /// Restricts the listing to offers issued by this factory.
    pub fn with_factory_id(self, factory_id: u128) -> (r: Self)
        ensures
            r == (OfferListParams { factory_id: Some(factory_id), ..self }),
    {
        let mut s = self;
        s.factory_id = Some(factory_id);
        s
    }

    /// Leaves out offers in which this script takes part.
    pub fn with_exclude_participant_script(self, script: &str) -> (r: Self)
        ensures
            r.exclude_participant_script matches Some(a) && a@ == script@,
            r == (OfferListParams {
                exclude_participant_script: r.exclude_participant_script,
                ..self
            }),
    {
        let mut s = self;
        s.exclude_participant_script = Some(String::from_str(script));
        s
    }

    /// Narrows the excluded participant to this role.
    pub fn with_exclude_participant_role(self, role: ParticipantType) -> (r: Self)
        ensures
            r == (OfferListParams { exclude_participant_role: Some(role), ..self }),
    {
        let mut s = self;
        s.exclude_participant_role = Some(role);
        s
    }

    /// Keeps only offers whose loan has not expired, when `not_expired`.
    pub fn with_not_expired(self, not_expired: bool) -> (r: Self)
        ensures
            r == (OfferListParams { not_expired, ..self }),
    {
        let mut s = self;
        s.not_expired = not_expired;
        s
    }

    /// Returns at most `limit` offers.
    pub fn with_limit(self, limit: u64) -> (r: Self)
        ensures
            r == (OfferListParams { limit: Some(limit), ..self }),
    {
        let mut s = self;
        s.limit = Some(limit);
        s
    }

    /// Skips the first `offset` offers.
    pub fn with_offset(self, offset: u64) -> (r: Self)
        ensures
            r == (OfferListParams { offset: Some(offset), ..self }),
    {
        let mut s = self;
        s.offset = Some(offset);
        s
    }

    /// Orders the listing by `sort_by` in direction `sort_dir`.
    pub fn with_sort(self, sort_by: OfferSortBy, sort_dir: SortDir) -> (r: Self)
        ensures
            r == (OfferListParams { sort_by: Some(sort_by), sort_dir: Some(sort_dir), ..self }),
    {
        let mut s = self;
        s.sort_by = Some(sort_by);
        s.sort_dir = Some(sort_dir);
        s
    }

    /// The query-string pairs that the indexer reads these parameters from:
    /// one pair for each filter that is set, in the order of `query_keys()`.
    pub fn to_query_pairs(&self) -> (pairs: Vec<(&'static str, String)>)
        ensures
            pairs_view(pairs@) == query_of(*self),
    {
        let ghost keys = query_keys();
        let ghost slots = query_slots(*self);
        let mut pairs: Vec<(&'static str, String)> = Vec::new();
        assert(pairs_view(pairs@) =~= present_pairs(keys.take(0), slots.take(0)));

        if self.status.len() > 0 {
            let joined = status_query_value(&self.status);
            proof { lemma_pairs_view_push(pairs@, ("status", joined)); }
            pairs.push(("status", joined));
        }
        proof { lemma_present_step(keys, slots, 0); }

        if let Some(collateral_asset) = &self.collateral_asset {
            let v = collateral_asset.clone();
            proof { lemma_pairs_view_push(pairs@, ("collateral_asset", v)); }
            pairs.push(("collateral_asset", v));
        }
        proof { lemma_present_step(keys, slots, 1); }

        if let Some(principal_asset) = &self.principal_asset {
            let v = principal_asset.clone();
            proof { lemma_pairs_view_push(pairs@, ("principal_asset", v)); }
            pairs.push(("principal_asset", v));
        }
        proof { lemma_present_step(keys, slots, 2); }

        if let Some(factory_id) = self.factory_id {
            let v = uuid_text(factory_id);
            proof { lemma_pairs_view_push(pairs@, ("factory_id", v)); }
            pairs.push(("factory_id", v));
        }
        proof { lemma_present_step(keys, slots, 3); }

        if let Some(script) = &self.exclude_participant_script {
            let v = script.clone();
            proof { lemma_pairs_view_push(pairs@, ("exclude_participant_script", v)); }
            pairs.push(("exclude_participant_script", v));
        }
        proof { lemma_present_step(keys, slots, 4); }

        if let Some(role) = self.exclude_participant_role {
            let v = participant_role_query(role);
            proof { lemma_pairs_view_push(pairs@, ("exclude_participant_role", v)); }
            pairs.push(("exclude_participant_role", v));
        }
        proof { lemma_present_step(keys, slots, 5); }

        if self.not_expired {
            let v = String::from_str("true");
            proof { lemma_pairs_view_push(pairs@, ("not_expired", v)); }
            pairs.push(("not_expired", v));
        }
        proof { lemma_present_step(keys, slots, 6); }

        if let Some(limit) = self.limit {
            let v = decimal_text(limit);
            proof { lemma_pairs_view_push(pairs@, ("limit", v)); }
            pairs.push(("limit", v));
        }
        proof { lemma_present_step(keys, slots, 7); }

        if let Some(offset) = self.offset {
            let v = decimal_text(offset);
            proof { lemma_pairs_view_push(pairs@, ("offset", v)); }
            pairs.push(("offset", v));
        }
        proof { lemma_present_step(keys, slots, 8); }

        if let Some(sort_by) = self.sort_by {
            let v = String::from_str(sort_by.as_query_str());
            proof { lemma_pairs_view_push(pairs@, ("sort_by", v)); }
            pairs.push(("sort_by", v));
        }
        proof { lemma_present_step(keys, slots, 9); }

        if let Some(sort_dir) = self.sort_dir {
            let v = String::from_str(sort_dir.as_query_str());
            proof { lemma_pairs_view_push(pairs@, ("sort_dir", v)); }
            pairs.push(("sort_dir", v));
        }
        proof {
            lemma_present_step(keys, slots, 10);
            assert(keys.take(11) =~= keys);
            assert(slots.take(11) =~= slots);
        }
        pairs
    }
}

/// No two entries of `keys` are equal.
pub open spec fn keys_distinct(keys: Seq<Seq<char>>) -> bool {
    forall|i: int, j: int| 0 <= i < keys.len() && 0 <= j < keys.len() && i != j ==> keys[i] != keys[j]
}

pub(crate) proof fn lemma_present_drawn_from_slots(keys: Seq<Seq<char>>, slots: Seq<Option<Seq<char>>>)
    requires
        keys.len() == slots.len(),
    ensures
        forall|i: int|
            #![trigger present_pairs(keys, slots)[i]]
            0 <= i < present_pairs(keys, slots).len() ==> exists|r: int|
                0 <= r < slots.len() && keys[r] == present_pairs(keys, slots)[i].0 && slots[r]
                    == Some(present_pairs(keys, slots)[i].1),
    decreases slots.len(),
{
    if slots.len() > 0 {
        let ks = keys.drop_last();
        let ss = slots.drop_last();
        lemma_present_drawn_from_slots(ks, ss);
        let pp = present_pairs(keys, slots);
        let rest = present_pairs(ks, ss);
        assert forall|i: int| #![trigger pp[i]] 0 <= i < pp.len() implies exists|r: int|
            0 <= r < slots.len() && keys[r] == pp[i].0 && slots[r] == Some(pp[i].1) by {
            if i < rest.len() {
                assert(pp[i] == rest[i]);
                let r = choose|r: int|
                    0 <= r < ss.len() && ks[r] == rest[i].0 && ss[r] == Some(rest[i].1);
                assert(keys[r] == ks[r] && slots[r] == ss[r]);
            } else {
                let r = slots.len() - 1;
                assert(keys[r] == pp[i].0 && slots[r] == Some(pp[i].1));
            }
        }
    }
}

proof fn lemma_present_covers_slots(keys: Seq<Seq<char>>, slots: Seq<Option<Seq<char>>>)
    requires
        keys.len() == slots.len(),
    ensures
        forall|r: int|
            0 <= r < slots.len() && (#[trigger] slots[r]) is Some ==> present_pairs(
                keys,
                slots,
            ).contains((keys[r], slots[r]->0)),
    decreases slots.len(),
{
    if slots.len() > 0 {
        let ks = keys.drop_last();
        let ss = slots.drop_last();
        lemma_present_covers_slots(ks, ss);
        let pp = present_pairs(keys, slots);
        let rest = present_pairs(ks, ss);
        assert forall|r: int| 0 <= r < slots.len() && (#[trigger] slots[r]) is Some implies pp.contains(
            (keys[r], slots[r]->0),
        ) by {
            if r < ss.len() {
                assert(ss[r] == slots[r] && ks[r] == keys[r]);
                let i = choose|i: int| 0 <= i < rest.len() && rest[i] == (ks[r], ss[r]->0);
                assert(pp[i] == rest[i]);
            } else {
                assert(pp[pp.len() - 1] == (keys[r], slots[r]->0));
            }
        }
    }
}

proof fn lemma_present_keys_distinct(keys: Seq<Seq<char>>, slots: Seq<Option<Seq<char>>>)
    requires
        keys.len() == slots.len(),
        keys_distinct(keys),
    ensures
        forall|i: int, j: int|
            0 <= i < j < present_pairs(keys, slots).len() ==> present_pairs(keys, slots)[i].0
                != present_pairs(keys, slots)[j].0,
    decreases slots.len(),
{
    if slots.len() > 0 {
        let ks = keys.drop_last();
        let ss = slots.drop_last();
        assert(keys_distinct(ks));
        lemma_present_keys_distinct(ks, ss);
        lemma_present_drawn_from_slots(ks, ss);
        let pp = present_pairs(keys, slots);
        let rest = present_pairs(ks, ss);
        assert forall|i: int, j: int| 0 <= i < j < pp.len() implies pp[i].0 != pp[j].0 by {
            if j < rest.len() {
                assert(pp[i] == rest[i] && pp[j] == rest[j]);
            } else {
                assert(pp[i] == rest[i]);
                let r = choose|r: int|
                    0 <= r < ss.len() && ks[r] == rest[i].0 && ss[r] == Some(rest[i].1);
                assert(keys[r] == ks[r]);
                assert(pp[j].0 == keys[slots.len() - 1]);
            }
        }
    }
}

proof fn lemma_present_empty(keys: Seq<Seq<char>>, slots: Seq<Option<Seq<char>>>)
    ensures
        present_pairs(keys, slots).len() == 0 <==> forall|r: int|
            0 <= r < slots.len() ==> (#[trigger] slots[r]) is None,
    decreases slots.len(),
{
    if slots.len() > 0 {
        let ss = slots.drop_last();
        lemma_present_empty(keys.drop_last(), ss);
        if forall|r: int| 0 <= r < slots.len() ==> (#[trigger] slots[r]) is None {
            assert forall|r: int| 0 <= r < ss.len() implies (#[trigger] ss[r]) is None by {
                assert(ss[r] == slots[r]);
            }
        }
        if present_pairs(keys, slots).len() == 0 {
            assert forall|r: int| 0 <= r < slots.len() implies (#[trigger] slots[r]) is None by {
                if r < ss.len() {
                    assert(ss[r] == slots[r]);
                }
            }
        }
    }
}

pub(crate) proof fn lemma_query_keys_are_distinct()
    ensures
        keys_distinct(query_keys()),
        query_keys().len() == 11,
{
    reveal_strlit("status");
    reveal_strlit("collateral_asset");
    reveal_strlit("principal_asset");
    reveal_strlit("factory_id");
    reveal_strlit("exclude_participant_script");
    reveal_strlit("exclude_participant_role");
    reveal_strlit("not_expired");
    reveal_strlit("limit");
    reveal_strlit("offset");
    reveal_strlit("sort_by");
    reveal_strlit("sort_dir");
    let k = query_keys();
    assert forall|i: int, j: int| 0 <= i < k.len() && 0 <= j < k.len() && i != j implies k[i]
        != k[j] by {
        if k[i].len() == k[j].len() {
            assert(k[i][0] != k[j][0] || k[i][1] != k[j][1] || k[i][5] != k[j][5]);
        }
    }
}

/// An offer query sends no pair exactly when no filter, pagination or
/// ordering is set.
pub proof fn lemma_query_empty_iff_unconstrained(params: OfferListParams)
    ensures
        query_of(params).len() == 0 <==> is_unconstrained(params),
{
    let slots = query_slots(params);
    lemma_present_empty(query_keys(), slots);
    if is_unconstrained(params) {
        assert forall|r: int| 0 <= r < slots.len() implies (#[trigger] slots[r]) is None by {}
    } else {
        if params.status@.len() != 0 {
            assert(slots[0] is Some);
        } else if params.collateral_asset is Some {
            assert(slots[1] is Some);
        } else if params.principal_asset is Some {
            assert(slots[2] is Some);
        } else if params.factory_id is Some {
            assert(slots[3] is Some);
        } else if params.exclude_participant_script is Some {
            assert(slots[4] is Some);
        } else if params.exclude_participant_role is Some {
            assert(slots[5] is Some);
        } else if params.not_expired {
            assert(slots[6] is Some);
        } else if params.limit is Some {
            assert(slots[7] is Some);
        } else if params.offset is Some {
            assert(slots[8] is Some);
        } else if params.sort_by is Some {
            assert(slots[9] is Some);
        } else {
            assert(slots[10] is Some);
        }
    }
}

/// No key occurs twice in an offer query.
pub proof fn lemma_query_keys_unique(params: OfferListParams)
    ensures
        forall|i: int, j: int|
            0 <= i < j < query_of(params).len() ==> query_of(params)[i].0 != query_of(params)[j].0,
{
    lemma_query_keys_are_distinct();
    lemma_present_keys_distinct(query_keys(), query_slots(params));
}

/// The query carries the pair `(key, v)` for the `r`-th key exactly when the
/// parameters give that key the value `v`: every filter that is set is sent
/// with its value, and nothing else is.
pub proof fn lemma_query_carries_set_filters(params: OfferListParams, r: int, v: Seq<char>)
    requires
        0 <= r < 11,
    ensures
        query_of(params).contains((query_keys()[r], v)) <==> query_slots(params)[r] == Some(v),
{
    let keys = query_keys();
    let slots = query_slots(params);
    lemma_query_keys_are_distinct();
    lemma_present_covers_slots(keys, slots);
    lemma_present_drawn_from_slots(keys, slots);
    let pp = query_of(params);
    if pp.contains((keys[r], v)) {
        let i = choose|i: int| 0 <= i < pp.len() && pp[i] == (keys[r], v);
        let r2 = choose|r2: int|
            0 <= r2 < slots.len() && keys[r2] == pp[i].0 && slots[r2] == Some(pp[i].1);
        assert(r2 == r);
    }
    if slots[r] == Some(v) {
        assert(slots[r] is Some);
    }
}

/// For each filter: the query holds a pair with the filter's key exactly when
/// the filter is set, and its value is then the filter's value as text (the
/// assets and script as given, the factory as a hyphenated UUID, numbers in
/// decimal, enums by their wire names, statuses joined by commas, and
/// "true" for `not_expired`). An unset filter is never sent, and no filter's
/// value is sent under another filter's key.
pub proof fn lemma_query_sends_each_filter(params: OfferListParams)
    ensures
        forall|v: Seq<char>|
            #[trigger] query_of(params).contains(("status"@, v)) <==> params.status@.len() > 0 && v == join_texts(params.status@.map_values(|s: OfferStatus| status_text(s)), ","@),
        forall|v: Seq<char>|
            #[trigger] query_of(params).contains(("collateral_asset"@, v)) <==> (params.collateral_asset matches Some(a) && a@ == v),
        forall|v: Seq<char>|
            #[trigger] query_of(params).contains(("principal_asset"@, v)) <==> (params.principal_asset matches Some(a) && a@ == v),
        forall|v: Seq<char>|
            #[trigger] query_of(params).contains(("factory_id"@, v)) <==> (params.factory_id matches Some(id) && v == uuid_hyphenated(id)),
        forall|v: Seq<char>|
            #[trigger] query_of(params).contains(("exclude_participant_script"@, v)) <==> (params.exclude_participant_script matches Some(a) && a@ == v),
        forall|v: Seq<char>|
            #[trigger] query_of(params).contains(("exclude_participant_role"@, v)) <==> (params.exclude_participant_role matches Some(role) && v == role_text(role)),
        forall|v: Seq<char>|
            #[trigger] query_of(params).contains(("not_expired"@, v)) <==> params.not_expired && v == "true"@,
        forall|v: Seq<char>|
            #[trigger] query_of(params).contains(("limit"@, v)) <==> (params.limit matches Some(n) && v == decimal_digits(n as nat)),
        forall|v: Seq<char>|
            #[trigger] query_of(params).contains(("offset"@, v)) <==> (params.offset matches Some(n) && v == decimal_digits(n as nat)),
        forall|v: Seq<char>|
            #[trigger] query_of(params).contains(("sort_by"@, v)) <==> (params.sort_by matches Some(f) && v == sort_by_text(f)),
        forall|v: Seq<char>|
            #[trigger] query_of(params).contains(("sort_dir"@, v)) <==> (params.sort_dir matches Some(d) && v == sort_dir_text(d)),
{
    reveal_strlit("status");
    reveal_strlit("collateral_asset");
    reveal_strlit("principal_asset");
    reveal_strlit("factory_id");
    reveal_strlit("exclude_participant_script");
    reveal_strlit("exclude_participant_role");
    reveal_strlit("not_expired");
    reveal_strlit("limit");
    reveal_strlit("offset");
    reveal_strlit("sort_by");
    reveal_strlit("sort_dir");
    assert forall|v: Seq<char>|
        #[trigger] query_of(params).contains(("status"@, v)) <==> params.status@.len() > 0 && v == join_texts(params.status@.map_values(|s: OfferStatus| status_text(s)), ","@) by {
        lemma_query_carries_set_filters(params, 0, v);
    }
    assert forall|v: Seq<char>|
        #[trigger] query_of(params).contains(("collateral_asset"@, v)) <==> (params.collateral_asset matches Some(a) && a@ == v) by {
        lemma_query_carries_set_filters(params, 1, v);
    }
    assert forall|v: Seq<char>|
        #[trigger] query_of(params).contains(("principal_asset"@, v)) <==> (params.principal_asset matches Some(a) && a@ == v) by {
        lemma_query_carries_set_filters(params, 2, v);
    }
    assert forall|v: Seq<char>|
        #[trigger] query_of(params).contains(("factory_id"@, v)) <==> (params.factory_id matches Some(id) && v == uuid_hyphenated(id)) by {
        lemma_query_carries_set_filters(params, 3, v);
    }
    assert forall|v: Seq<char>|
        #[trigger] query_of(params).contains(("exclude_participant_script"@, v)) <==> (params.exclude_participant_script matches Some(a) && a@ == v) by {
        lemma_query_carries_set_filters(params, 4, v);
    }
    assert forall|v: Seq<char>|
        #[trigger] query_of(params).contains(("exclude_participant_role"@, v)) <==> (params.exclude_participant_role matches Some(role) && v == role_text(role)) by {
        lemma_query_carries_set_filters(params, 5, v);
    }
    assert forall|v: Seq<char>|
        #[trigger] query_of(params).contains(("not_expired"@, v)) <==> params.not_expired && v == "true"@ by {
        lemma_query_carries_set_filters(params, 6, v);
    }
    assert forall|v: Seq<char>|
        #[trigger] query_of(params).contains(("limit"@, v)) <==> (params.limit matches Some(n) && v == decimal_digits(n as nat)) by {
        lemma_query_carries_set_filters(params, 7, v);
    }
    assert forall|v: Seq<char>|
        #[trigger] query_of(params).contains(("offset"@, v)) <==> (params.offset matches Some(n) && v == decimal_digits(n as nat)) by {
        lemma_query_carries_set_filters(params, 8, v);
    }
    assert forall|v: Seq<char>|
        #[trigger] query_of(params).contains(("sort_by"@, v)) <==> (params.sort_by matches Some(f) && v == sort_by_text(f)) by {
        lemma_query_carries_set_filters(params, 9, v);
    }
    assert forall|v: Seq<char>|
        #[trigger] query_of(params).contains(("sort_dir"@, v)) <==> (params.sort_dir matches Some(d) && v == sort_dir_text(d)) by {
        lemma_query_carries_set_filters(params, 10, v);
    }
}

/// The `status` value names the selected statuses in order, separated by
/// commas, so that splitting it at the commas gives the names back.
pub proof fn lemma_status_value_splits_back(statuses: Seq<OfferStatus>)
    requires
        statuses.len() > 0,
    ensures
        status_value(statuses) matches Some(v) && split_text(v, ',') == statuses.map_values(
            |s: OfferStatus| status_text(s),
        ),
{
    reveal_strlit(",");
    reveal_strlit("pending");
    reveal_strlit("active");
    let names = statuses.map_values(|s: OfferStatus| status_text(s));
    assert forall|i: int| 0 <= i < names.len() implies !(#[trigger] names[i]).contains(',') by {
        if names[i].contains(',') {
            let k = choose|k: int| 0 <= k < names[i].len() && names[i][k] == ',';
            assert(names[i] == status_text(statuses[i]));
        }
    }
    assert(","@ =~= seq![',']);
    lemma_split_join(names, ',');
}

/// Different sort fields, directions and roles have different wire names.
pub proof fn lemma_wire_names_distinct()
    ensures
        forall|a: OfferSortBy, b: OfferSortBy| a != b ==> sort_by_text(a) != sort_by_text(b),
        forall|a: SortDir, b: SortDir| a != b ==> sort_dir_text(a) != sort_dir_text(b),
        forall|a: ParticipantType, b: ParticipantType| a != b ==> role_text(a) != role_text(b),
{
    reveal_strlit("updated_at_height");
    reveal_strlit("created_at_height");
    reveal_strlit("collateral_amount");
    reveal_strlit("principal_amount");
    reveal_strlit("interest_rate");
    reveal_strlit("loan_expiration_height");
    reveal_strlit("asc");
    reveal_strlit("desc");
    reveal_strlit("borrower");
    reveal_strlit("lender");
    assert("asc"@.len() != "desc"@.len());
    assert("borrower"@.len() != "lender"@.len());
    assert forall|a: OfferSortBy, b: OfferSortBy| a != b implies sort_by_text(a) != sort_by_text(
        b,
    ) by {
        if sort_by_text(a).len() == sort_by_text(b).len() {
            assert(sort_by_text(a)[0] != sort_by_text(b)[0] || sort_by_text(a)[1] != sort_by_text(
                b,
            )[1]);
        }
    }
}

} // verus!
