//! Domain enums shared by the client's queries.

use vstd::prelude::*;

verus! {

/// Lifecycle state of an offer, as the indexer names it in queries.
#[derive(Debug, Clone, Copy, PartialEq, Eq, Structural)]
pub enum OfferStatus {
    Pending,
    Active,
}

/// The side a participant takes in an offer.
#[derive(Debug, Clone, Copy, PartialEq, Eq, Structural)]
pub enum ParticipantType {
    Borrower,
    Lender,
}

/// The wire name of an offer status.
pub open spec fn status_text(status: OfferStatus) -> Seq<char> {
    match status {
        OfferStatus::Pending => "pending"@,
        OfferStatus::Active => "active"@,
    }
}

impl OfferStatus {
    /// The name of the status in the indexer's query strings.
    pub fn as_query_str(self) -> (r: &'static str)
        ensures
            r@ == status_text(self),
    {
        match self {
            OfferStatus::Pending => "pending",
            OfferStatus::Active => "active",
        }
    }
}

/// Different statuses have different wire names.
pub proof fn lemma_status_names_distinct(a: OfferStatus, b: OfferStatus)
    ensures
        a != b ==> status_text(a) != status_text(b),
{
    reveal_strlit("pending");
    reveal_strlit("active");
    assert("pending"@.len() != "active"@.len());
}

} // verus!
