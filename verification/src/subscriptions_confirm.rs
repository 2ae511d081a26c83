//! The confirmation click: a token is looked up and, when it is known,
//! the subscriber it refers to becomes `confirmed`. Unknown or
//! malformed tokens are answered with `Unauthorized` and change
//! nothing — the caller learns no more than that.

use crate::store::{confirm_subscriber, get_subscriber_id_from_token, Store, SubscriberRow,
    SubscriberStatus};
use vstd::prelude::*;

verus! {

/// The query parameter a confirmation link carries.
pub struct Parameters {
    pub subscription_token: String,
}

/// What a confirmation attempt answers.
#[derive(Debug)]
pub enum ConfirmOutcome {
    Confirmed,
    Unauthorized,
}

/// The subscriber rows after the row with the given identifier is
/// marked confirmed; every other row keeps its state.
pub open spec fn spec_confirm_rows(rows: Seq<SubscriberRow>, id: u128) -> Seq<SubscriberRow> {
    rows.map_values(
        |r: SubscriberRow|
            if r.id == id {
                SubscriberRow { status: SubscriberStatus::Confirmed, ..r }
            } else {
                r
            },
    )
}

/// Confirming is idempotent: marking the same subscriber confirmed a
/// second time changes nothing further.
pub proof fn lemma_confirm_idempotent(rows: Seq<SubscriberRow>, id: u128)
    ensures
        spec_confirm_rows(spec_confirm_rows(rows, id), id) == spec_confirm_rows(rows, id),
{
    assert(spec_confirm_rows(spec_confirm_rows(rows, id), id) =~= spec_confirm_rows(rows, id));
}

/// Handles one confirmation click. A known token flips its subscriber
/// to confirmed — doing so again is harmless — and an unknown token
/// is refused with no state change at all.
pub fn confirm(store: &mut Store, params: &Parameters) -> (r: ConfirmOutcome)
    requires
        old(store).wf(),
    ensures
        final(store).wf(),
        old(store).pending_covered() ==> final(store).pending_covered(),
        !old(store).spec_has_token(params.subscription_token@) ==> r is Unauthorized && *final(store) == *old(store),
        old(store).spec_has_token(params.subscription_token@) ==> r is Confirmed && final(store).subscribers@ == spec_confirm_rows(
            old(store).subscribers@,
            old(store).spec_token_subscriber(params.subscription_token@),
        ) && final(store).subscription_tokens@ == old(store).subscription_tokens@ && final(store).users@ == old(store).users@,
{
    match get_subscriber_id_from_token(store, params.subscription_token.as_str()) {
        None => ConfirmOutcome::Unauthorized,
        Some(id) => {
            confirm_subscriber(store, id);
            proof {
                assert(store.subscribers@ =~= spec_confirm_rows(old(store).subscribers@, id));
            }
            ConfirmOutcome::Confirmed
        },
    }
}

} // verus!
