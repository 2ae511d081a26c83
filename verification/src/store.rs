//! A model of the transactional relational store the service rides on:
//! subscriber rows, confirmation-token rows and stored credentials,
//! with the uniqueness and reference constraints the schema enforces.
//! Writes made inside a [`Transaction`] become visible only at commit,
//! and a commit that would break a constraint changes nothing.

use crate::domain::NewSubscriber;
use crate::encoding::str_eq;
use vstd::prelude::*;

verus! {

/// Lifecycle state of a subscriber row.
#[derive(Clone, Copy, Debug, PartialEq, Eq, Structural)]
pub enum SubscriberStatus {
    PendingConfirmation,
    Confirmed,
}

/// One row of the subscriptions table.
pub struct SubscriberRow {
    pub id: u128,
    pub email: String,
    pub name: String,
    pub subscribed_at: String,
    pub status: SubscriberStatus,
}

/// One row of the subscription-tokens table: the token is a capability
/// referring to a subscriber row, not an owner of it.
pub struct TokenRow {
    pub subscription_token: String,
    pub subscriber_id: u128,
}

/// One stored credential: persisted out of band and read-only here.
pub struct UserRow {
    pub user_id: u128,
    pub username: String,
    pub password_hash: String,
}

/// The store's visible (committed) contents.
pub struct Store {
    pub subscribers: Vec<SubscriberRow>,
    pub subscription_tokens: Vec<TokenRow>,
    pub users: Vec<UserRow>,
}

/// Writes staged by one atomic unit, applied only by [`Store::commit`].
pub struct Transaction {
    pub new_subscribers: Vec<SubscriberRow>,
    pub new_tokens: Vec<TokenRow>,
}

impl Store {
    pub open spec fn spec_has_subscriber_id(self, id: u128) -> bool {
        exists|i: int|
            0 <= i < self.subscribers@.len() && #[trigger] self.subscribers@[i].id == id
    }

    pub open spec fn spec_has_token(self, t: Seq<char>) -> bool {
        exists|i: int|
            0 <= i < self.subscription_tokens@.len()
                && #[trigger] self.subscription_tokens@[i].subscription_token@ == t
    }

    /// The subscriber a present token refers to.
    pub open spec fn spec_token_subscriber(self, t: Seq<char>) -> u128 {
        let i = choose|i: int|
            0 <= i < self.subscription_tokens@.len()
                && #[trigger] self.subscription_tokens@[i].subscription_token@ == t;
        self.subscription_tokens@[i].subscriber_id
    }

    pub open spec fn spec_has_user(self, u: Seq<char>) -> bool {
        exists|i: int|
            0 <= i < self.users@.len() && #[trigger] self.users@[i].username@ == u
    }

    pub open spec fn spec_user_index(self, u: Seq<char>) -> int {
        choose|i: int| 0 <= i < self.users@.len() && #[trigger] self.users@[i].username@ == u
    }

    pub open spec fn spec_user_id(self, u: Seq<char>) -> u128 {
        self.users@[self.spec_user_index(u)].user_id
    }

    pub open spec fn spec_user_hash(self, u: Seq<char>) -> Seq<char> {
        self.users@[self.spec_user_index(u)].password_hash@
    }

    /// The constraints the schema enforces: unique subscriber ids,
    /// unique tokens, unique usernames, and every token referring to an
    /// existing subscriber row.
    pub open spec fn wf(self) -> bool {
        &&& forall|i: int, j: int|
            0 <= i < j < self.subscribers@.len() ==> #[trigger] self.subscribers@[i].id
                != #[trigger] self.subscribers@[j].id
        &&& forall|i: int, j: int|
            0 <= i < j < self.subscription_tokens@.len()
                ==> #[trigger] self.subscription_tokens@[i].subscription_token@
                != #[trigger] self.subscription_tokens@[j].subscription_token@
        &&& forall|i: int, j: int|
            0 <= i < j < self.users@.len() ==> #[trigger] self.users@[i].username@
                != #[trigger] self.users@[j].username@
        &&& forall|i: int|
            0 <= i < self.subscription_tokens@.len() ==> self.spec_has_subscriber_id(
                #[trigger] self.subscription_tokens@[i].subscriber_id,
            )
    }

    /// The workflow invariant behind atomic sign-up: every subscriber
    /// still waiting for confirmation has a token that can confirm it.
    pub open spec fn pending_covered(self) -> bool {
        forall|i: int|
            0 <= i < self.subscribers@.len() && #[trigger] self.subscribers@[i].status
                is PendingConfirmation ==> exists|j: int|
                0 <= j < self.subscription_tokens@.len()
                    && #[trigger] self.subscription_tokens@[j].subscriber_id
                    == self.subscribers@[i].id
    }

    /// An empty store.
    pub fn new() -> (s: Store)
        ensures
            s.subscribers@.len() == 0,
            s.subscription_tokens@.len() == 0,
            s.users@.len() == 0,
            s.wf(),
            s.pending_covered(),
    {
        Store { subscribers: Vec::new(), subscription_tokens: Vec::new(), users: Vec::new() }
    }

    /// Registers a stored credential, as provisioning out of band would;
    /// refused when the username is taken.
    pub fn add_user(&mut self, user_id: u128, username: String, password_hash: String) -> (r:
        Result<(), StoreError>)
        requires
            old(self).wf(),
        ensures
            final(self).wf(),
            r is Ok <==> !old(self).spec_has_user(username@),
            r is Ok ==> final(self).users@ == old(self).users@.push(final(self).users@.last())
                && final(self).users@.last().username@ == username@
                && final(self).users@.last().user_id == user_id
                && final(self).users@.last().password_hash@ == password_hash@,
            r is Err ==> final(self).users@ == old(self).users@,
            final(self).subscribers@ == old(self).subscribers@,
            final(self).subscription_tokens@ == old(self).subscription_tokens@,
            old(self).pending_covered() ==> final(self).pending_covered(),
    {
        if has_username(&self.users, username.as_str()) {
            Err(StoreError::ConstraintViolation)
        } else {
            let row = UserRow { user_id, username, password_hash };
            self.users.push(row);
            Ok(())
        }
    }

    /// Opens an atomic unit of work against this store.
    pub fn begin(&self) -> (t: Transaction)
        ensures
            t.new_subscribers@.len() == 0,
            t.new_tokens@.len() == 0,
    {
        Transaction { new_subscribers: Vec::new(), new_tokens: Vec::new() }
    }

    /// Whether committing the staged writes would respect every
    /// constraint.
    pub open spec fn spec_admissible(self, txn: Transaction) -> bool {
        &&& forall|k: int|
            0 <= k < txn.new_subscribers@.len() ==> !self.spec_has_subscriber_id(
                #[trigger] txn.new_subscribers@[k].id,
            )
        &&& forall|j: int, k: int|
            0 <= j < k < txn.new_subscribers@.len() ==> #[trigger] txn.new_subscribers@[j].id
                != #[trigger] txn.new_subscribers@[k].id
        &&& forall|k: int|
            0 <= k < txn.new_tokens@.len() ==> !self.spec_has_token(
                #[trigger] txn.new_tokens@[k].subscription_token@,
            )
        &&& forall|j: int, k: int|
            0 <= j < k < txn.new_tokens@.len() ==> #[trigger] txn.new_tokens@[j].subscription_token@
                != #[trigger] txn.new_tokens@[k].subscription_token@
        &&& forall|k: int|
            0 <= k < txn.new_tokens@.len() ==> self.spec_has_subscriber_id(
                #[trigger] txn.new_tokens@[k].subscriber_id,
            ) || exists|j: int|
                0 <= j < txn.new_subscribers@.len()
                    && #[trigger] txn.new_subscribers@[j].id == txn.new_tokens@[k].subscriber_id
    }

    /// Applies the staged writes as one unit: either every row becomes
    /// visible, or — when a constraint would break — none does.
    pub fn commit(&mut self, txn: Transaction) -> (r: Result<(), StoreError>)
        requires
            old(self).wf(),
        ensures
            final(self).wf(),
            r is Ok <==> old(self).spec_admissible(txn),
            r is Ok ==> final(self).subscribers@ == old(self).subscribers@ + txn.new_subscribers@
                && final(self).subscription_tokens@ == old(self).subscription_tokens@
                + txn.new_tokens@,
            r is Err ==> final(self).subscribers@ == old(self).subscribers@
                && final(self).subscription_tokens@ == old(self).subscription_tokens@,
            final(self).users@ == old(self).users@,
    {
        let sub_n = txn.new_subscribers.len();
        let mut k: usize = 0;
        while k < sub_n
            invariant
                old(self).wf(),
                *self == *old(self),
                sub_n == txn.new_subscribers@.len(),
                k <= sub_n,
                forall|m: int|
                    0 <= m < k ==> !self.spec_has_subscriber_id(
                        #[trigger] txn.new_subscribers@[m].id,
                    ),
                forall|j: int, m: int|
                    0 <= j < m < k ==> #[trigger] txn.new_subscribers@[j].id
                        != #[trigger] txn.new_subscribers@[m].id,
            decreases sub_n - k,
        {
            let id = txn.new_subscribers[k].id;
            if has_subscriber_id(&self.subscribers, id) {
                return Err(StoreError::ConstraintViolation);
            }
            let mut j: usize = 0;
            while j < k
                invariant
                    old(self).wf(),
                    *self == *old(self),
                    k < sub_n == txn.new_subscribers@.len(),
                    j <= k,
                    id == txn.new_subscribers@[k as int].id,
                    forall|m: int|
                        0 <= m < j ==> #[trigger] txn.new_subscribers@[m].id != id,
                decreases k - j,
            {
                if txn.new_subscribers[j].id == id {
                    return Err(StoreError::ConstraintViolation);
                }
                j = j + 1;
            }
            k = k + 1;
        }
        let tok_n = txn.new_tokens.len();
        let mut k: usize = 0;
        while k < tok_n
            invariant
                old(self).wf(),
                *self == *old(self),
                tok_n == txn.new_tokens@.len(),
                k <= tok_n,
                forall|m: int|
                    0 <= m < k ==> !self.spec_has_token(
                        #[trigger] txn.new_tokens@[m].subscription_token@,
                    ),
                forall|j: int, m: int|
                    0 <= j < m < k ==> #[trigger] txn.new_tokens@[j].subscription_token@
                        != #[trigger] txn.new_tokens@[m].subscription_token@,
                forall|m: int|
                    0 <= m < k ==> self.spec_has_subscriber_id(
                        #[trigger] txn.new_tokens@[m].subscriber_id,
                    ) || exists|j: int|
                        0 <= j < txn.new_subscribers@.len()
                            && #[trigger] txn.new_subscribers@[j].id
                            == txn.new_tokens@[m].subscriber_id,
            decreases tok_n - k,
        {
            let tok = &txn.new_tokens[k];
            if has_token(&self.subscription_tokens, tok.subscription_token.as_str()) {
                return Err(StoreError::ConstraintViolation);
            }
            let mut j: usize = 0;
            while j < k
                invariant
                    old(self).wf(),
                    *self == *old(self),
                    k < tok_n == txn.new_tokens@.len(),
                    j <= k,
                    tok == txn.new_tokens@[k as int],
                    forall|m: int|
                        0 <= m < j ==> #[trigger] txn.new_tokens@[m].subscription_token@
                            != txn.new_tokens@[k as int].subscription_token@,
                decreases k - j,
            {
                if str_eq(
                    txn.new_tokens[j].subscription_token.as_str(),
                    tok.subscription_token.as_str(),
                ) {
                    return Err(StoreError::ConstraintViolation);
                }
                j = j + 1;
            }
            if !has_subscriber_id(&self.subscribers, tok.subscriber_id) && !has_subscriber_id(
                &txn.new_subscribers,
                tok.subscriber_id,
            ) {
                return Err(StoreError::ConstraintViolation);
            }
            k = k + 1;
        }
        let Transaction { mut new_subscribers, mut new_tokens } = txn;
        let ghost pre = *self;
        let ghost staged_subs = new_subscribers@;
        let ghost staged_toks = new_tokens@;
        self.subscribers.append(&mut new_subscribers);
        self.subscription_tokens.append(&mut new_tokens);
        proof {
            lemma_commit_preserves_wf(pre, staged_subs, staged_toks, *self);
        }
        Ok(())
    }
}

/// Appending admissible staged rows keeps the store's constraints.
proof fn lemma_commit_preserves_wf(
    pre: Store,
    staged_subs: Seq<SubscriberRow>,
    staged_toks: Seq<TokenRow>,
    post: Store,
)
    requires
        pre.wf(),
        post.subscribers@ == pre.subscribers@ + staged_subs,
        post.subscription_tokens@ == pre.subscription_tokens@ + staged_toks,
        post.users@ == pre.users@,
        forall|k: int|
            0 <= k < staged_subs.len() ==> !pre.spec_has_subscriber_id(
                #[trigger] staged_subs[k].id,
            ),
        forall|j: int, k: int|
            0 <= j < k < staged_subs.len() ==> #[trigger] staged_subs[j].id
                != #[trigger] staged_subs[k].id,
        forall|k: int|
            0 <= k < staged_toks.len() ==> !pre.spec_has_token(
                #[trigger] staged_toks[k].subscription_token@,
            ),
        forall|j: int, k: int|
            0 <= j < k < staged_toks.len() ==> #[trigger] staged_toks[j].subscription_token@
                != #[trigger] staged_toks[k].subscription_token@,
        forall|k: int|
            0 <= k < staged_toks.len() ==> pre.spec_has_subscriber_id(
                #[trigger] staged_toks[k].subscriber_id,
            ) || exists|j: int|
                0 <= j < staged_subs.len() && #[trigger] staged_subs[j].id
                    == staged_toks[k].subscriber_id,
    ensures
        post.wf(),
{
    let pn = pre.subscribers@.len() as int;
    assert forall|i: int, j: int|
        0 <= i < j < post.subscribers@.len() implies #[trigger] post.subscribers@[i].id
        != #[trigger] post.subscribers@[j].id by {
        if j >= pn {
            assert(post.subscribers@[j] == staged_subs[j - pn]);
            if i >= pn {
                assert(post.subscribers@[i] == staged_subs[i - pn]);
            } else {
                assert(post.subscribers@[i] == pre.subscribers@[i]);
                if post.subscribers@[i].id == staged_subs[j - pn].id {
                    assert(pre.spec_has_subscriber_id(staged_subs[j - pn].id));
                }
            }
        }
    }
    let tn = pre.subscription_tokens@.len() as int;
    assert forall|i: int, j: int|
        0 <= i < j < post.subscription_tokens@.len() implies #[trigger] post.subscription_tokens@[i].subscription_token@
        != #[trigger] post.subscription_tokens@[j].subscription_token@ by {
        if j >= tn {
            assert(post.subscription_tokens@[j] == staged_toks[j - tn]);
            if i >= tn {
                assert(post.subscription_tokens@[i] == staged_toks[i - tn]);
            } else {
                assert(post.subscription_tokens@[i] == pre.subscription_tokens@[i]);
                if post.subscription_tokens@[i].subscription_token@ == staged_toks[j
                    - tn].subscription_token@ {
                    assert(pre.spec_has_token(staged_toks[j - tn].subscription_token@));
                }
            }
        }
    }
    assert forall|i: int|
        0 <= i < post.subscription_tokens@.len() implies post.spec_has_subscriber_id(
        #[trigger] post.subscription_tokens@[i].subscriber_id,
    ) by {
        if i < tn {
            assert(post.subscription_tokens@[i] == pre.subscription_tokens@[i]);
            assert(pre.spec_has_subscriber_id(pre.subscription_tokens@[i].subscriber_id));
            let w = choose|w: int|
                0 <= w < pre.subscribers@.len() && #[trigger] pre.subscribers@[w].id
                    == pre.subscription_tokens@[i].subscriber_id;
            assert(post.subscribers@[w] == pre.subscribers@[w]);
        } else {
            assert(post.subscription_tokens@[i] == staged_toks[i - tn]);
            if pre.spec_has_subscriber_id(staged_toks[i - tn].subscriber_id) {
                let w = choose|w: int|
                    0 <= w < pre.subscribers@.len() && #[trigger] pre.subscribers@[w].id
                        == staged_toks[i - tn].subscriber_id;
                assert(post.subscribers@[w] == pre.subscribers@[w]);
            } else {
                let w = choose|w: int|
                    0 <= w < staged_subs.len() && #[trigger] staged_subs[w].id == staged_toks[i
                        - tn].subscriber_id;
                assert(post.subscribers@[pn + w] == staged_subs[w]);
            }
        }
    }
}

/// Why a store write was refused.
#[derive(Debug)]
pub enum StoreError {
    ConstraintViolation,
}

/// Relies on uuid's `Uuid::new_v4`: a freshly drawn random identifier.
/// The value is random, so nothing is promised of it.
#[verifier::external_body]
fn new_random_id() -> u128 {
    uuid::Uuid::new_v4().as_u128()
}

/// Relies on chrono's `Utc::now` and its formatter: the current moment
/// rendered as a timestamp. The value depends on the clock, so nothing
/// is promised of it.
#[verifier::external_body]
fn get_current_utc_timestamp() -> String {
    let now: chrono::DateTime<chrono::Utc> = chrono::Utc::now();
    now.format("%Y-%m-%d %H:%M:%S").to_string()
}

/// Stages one subscriber row in `pending_confirmation` state under the
/// given identifier. Succeeds exactly when the identifier is fresh —
/// in neither the visible rows nor the staged ones — and then stages
/// exactly the one row; a collision stages nothing.
pub fn stage_subscriber(
    store: &Store,
    txn: &mut Transaction,
    new_subscriber: &NewSubscriber,
    subscriber_id: u128,
) -> (r: Result<u128, StoreError>)
    ensures
        r is Ok <==> !store.spec_has_subscriber_id(subscriber_id) && !(exists|j: int|
            0 <= j < old(txn).new_subscribers@.len()
                && #[trigger] old(txn).new_subscribers@[j].id == subscriber_id),
        r is Err ==> *final(txn) == *old(txn),
        r is Ok ==> ({
            let row = final(txn).new_subscribers@.last();
            &&& final(txn).new_subscribers@ == old(txn).new_subscribers@.push(row)
            &&& final(txn).new_tokens@ == old(txn).new_tokens@
            &&& row.id == subscriber_id
            &&& r.unwrap() == subscriber_id
            &&& row.email@ == new_subscriber.email@
            &&& row.name@ == new_subscriber.name@
            &&& row.status is PendingConfirmation
        }),
{
    if has_subscriber_id(&store.subscribers, subscriber_id) || has_subscriber_id(
        &txn.new_subscribers,
        subscriber_id,
    ) {
        return Err(StoreError::ConstraintViolation);
    }
    let row = SubscriberRow {
        id: subscriber_id,
        email: String::from_str(new_subscriber.email.as_ref()),
        name: String::from_str(new_subscriber.name.inner_ref()),
        subscribed_at: get_current_utc_timestamp(),
        status: SubscriberStatus::PendingConfirmation,
    };
    txn.new_subscribers.push(row);
    Ok(subscriber_id)
}

/// Draws a fresh random identifier and stages one subscriber row under
/// it. The identifier is random, so success cannot be promised here:
/// [`stage_subscriber`] says exactly when a given identifier goes
/// through, and this layer says what holds whichever way the draw
/// went — a collision stages nothing.
pub fn insert_subscriber(
    store: &Store,
    txn: &mut Transaction,
    new_subscriber: &NewSubscriber,
) -> (r: Result<u128, StoreError>)
    ensures
        r is Err ==> *final(txn) == *old(txn),
        r is Ok ==> ({
            let row = final(txn).new_subscribers@.last();
            &&& final(txn).new_subscribers@ == old(txn).new_subscribers@.push(row)
            &&& final(txn).new_tokens@ == old(txn).new_tokens@
            &&& row.id == r.unwrap()
            &&& row.email@ == new_subscriber.email@
            &&& row.name@ == new_subscriber.name@
            &&& row.status is PendingConfirmation
            &&& !store.spec_has_subscriber_id(row.id)
            &&& forall|j: int|
                0 <= j < old(txn).new_subscribers@.len()
                    ==> #[trigger] old(txn).new_subscribers@[j].id != row.id
        }),
{
    let subscriber_id = new_random_id();
    stage_subscriber(store, txn, new_subscriber, subscriber_id)
}

/// Stages the token-to-subscriber mapping in the same atomic unit.
/// Fails exactly when the token is already present, visible or staged,
/// and then stages nothing.
pub fn store_token(
    store: &Store,
    txn: &mut Transaction,
    subscriber_id: u128,
    subscription_token: &str,
) -> (r: Result<(), StoreError>)
    ensures
        r is Ok <==> !store.spec_has_token(subscription_token@) && !(exists|j: int|
            0 <= j < old(txn).new_tokens@.len()
                && #[trigger] old(txn).new_tokens@[j].subscription_token@
                == subscription_token@),
        r is Err ==> *final(txn) == *old(txn),
        r is Ok ==> ({
            let row = final(txn).new_tokens@.last();
            &&& final(txn).new_tokens@ == old(txn).new_tokens@.push(row)
            &&& final(txn).new_subscribers@ == old(txn).new_subscribers@
            &&& row.subscription_token@ == subscription_token@
            &&& row.subscriber_id == subscriber_id
        }),
{
    if has_token(&store.subscription_tokens, subscription_token) || has_token(
        &txn.new_tokens,
        subscription_token,
    ) {
        return Err(StoreError::ConstraintViolation);
    }
    let row = TokenRow {
        subscription_token: String::from_str(subscription_token),
        subscriber_id,
    };
    txn.new_tokens.push(row);
    Ok(())
}

/// Looks a token up and returns the subscriber it refers to, if any.
pub fn get_subscriber_id_from_token(store: &Store, subscription_token: &str) -> (r: Option<
    u128,
>)
    requires
        store.wf(),
    ensures
        r is Some <==> store.spec_has_token(subscription_token@),
        r is Some ==> r.unwrap() == store.spec_token_subscriber(subscription_token@),
{
    let n = store.subscription_tokens.len();
    let mut i: usize = 0;
    while i < n
        invariant
            store.wf(),
            n == store.subscription_tokens@.len(),
            i <= n,
            forall|j: int|
                0 <= j < i ==> #[trigger] store.subscription_tokens@[j].subscription_token@
                    != subscription_token@,
        decreases n - i,
    {
        if str_eq(
            store.subscription_tokens[i].subscription_token.as_str(),
            subscription_token,
        ) {
            return Some(store.subscription_tokens[i].subscriber_id);
        }
        i = i + 1;
    }
    None
}

/// Marks every row carrying the identifier as confirmed — by
/// uniqueness, the one row — and touches nothing else. Confirming an
/// already confirmed subscriber rewrites the same status: a no-op.
pub fn confirm_subscriber(store: &mut Store, subscriber_id: u128)
    requires
        old(store).wf(),
    ensures
        final(store).wf(),
        final(store).subscribers@.len() == old(store).subscribers@.len(),
        forall|i: int|
            0 <= i < old(store).subscribers@.len() ==> #[trigger] final(store).subscribers@[i]
                == (if old(store).subscribers@[i].id == subscriber_id {
                SubscriberRow {
                    status: SubscriberStatus::Confirmed,
                    ..old(store).subscribers@[i]
                }
            } else {
                old(store).subscribers@[i]
            }),
        final(store).subscription_tokens@ == old(store).subscription_tokens@,
        final(store).users@ == old(store).users@,
        old(store).pending_covered() ==> final(store).pending_covered(),
{
    let n = store.subscribers.len();
    let mut i: usize = 0;
    while i < n
        invariant
            n == store.subscribers@.len() == old(store).subscribers@.len(),
            i <= n,
            store.subscription_tokens@ == old(store).subscription_tokens@,
            store.users@ == old(store).users@,
            forall|j: int|
                0 <= j < i ==> #[trigger] store.subscribers@[j] == (if old(store).subscribers@[j].id == subscriber_id {
                    SubscriberRow {
                        status: SubscriberStatus::Confirmed,
                        ..old(store).subscribers@[j]
                    }
                } else {
                    old(store).subscribers@[j]
                }),
            forall|j: int| i <= j < n ==> #[trigger] store.subscribers@[j] == old(store).subscribers@[j],
        decreases n - i,
    {
        if store.subscribers[i].id == subscriber_id {
            store.subscribers[i].status = SubscriberStatus::Confirmed;
        }
        i = i + 1;
    }
    proof {
        assert forall|i: int, j: int|
            0 <= i < j < final(store).subscribers@.len() implies #[trigger] final(store).subscribers@[i].id
            != #[trigger] final(store).subscribers@[j].id by {
            assert(final(store).subscribers@[i].id == old(store).subscribers@[i].id);
            assert(final(store).subscribers@[j].id == old(store).subscribers@[j].id);
        }
        assert forall|t: int|
            0 <= t < final(store).subscription_tokens@.len() implies final(store).spec_has_subscriber_id(
            #[trigger] final(store).subscription_tokens@[t].subscriber_id,
        ) by {
            let id0 = old(store).subscription_tokens@[t].subscriber_id;
            assert(old(store).spec_has_subscriber_id(id0));
            let w = choose|w: int|
                0 <= w < old(store).subscribers@.len() && #[trigger] old(store).subscribers@[w].id
                    == id0;
            assert(final(store).subscribers@[w].id == id0);
        }
    }
}

/// The e-mail addresses of every confirmed subscriber, in row order: a
/// snapshot taken at one point in time.
pub open spec fn spec_confirmed_emails(rows: Seq<SubscriberRow>) -> Seq<Seq<char>>
    decreases rows.len(),
{
    if rows.len() == 0 {
        Seq::empty()
    } else {
        let prefix = spec_confirmed_emails(rows.drop_last());
        if rows.last().status is Confirmed {
            prefix.push(rows.last().email@)
        } else {
            prefix
        }
    }
}

/// Reads the confirmed subscribers' stored e-mail spellings.
pub fn get_confirmed_subscribers(store: &Store) -> (r: Vec<String>)
    ensures
        r@.map_values(|s: String| s@) == spec_confirmed_emails(store.subscribers@),
{
    let n = store.subscribers.len();
    let mut out: Vec<String> = Vec::new();
    let mut i: usize = 0;
    while i < n
        invariant
            n == store.subscribers@.len(),
            i <= n,
            out@.map_values(|s: String| s@) == spec_confirmed_emails(
                store.subscribers@.take(i as int),
            ),
        decreases n - i,
    {
        let row = &store.subscribers[i];
        proof {
            assert(store.subscribers@.take(i + 1).drop_last() =~= store.subscribers@.take(
                i as int,
            ));
            assert(store.subscribers@.take(i + 1).last() == store.subscribers@[i as int]);
        }
        match row.status {
            SubscriberStatus::Confirmed => {
                let email = row.email.clone();
                out.push(email);
                proof {
                    assert(out@.map_values(|s: String| s@) =~= spec_confirmed_emails(
                        store.subscribers@.take(i + 1),
                    ));
                }
            },
            SubscriberStatus::PendingConfirmation => {},
        }
        i = i + 1;
    }
    proof {
        assert(store.subscribers@.take(n as int) =~= store.subscribers@);
    }
    out
}

/// Looks a username up and hands back the stored identifier and
/// password hash.
pub fn lookup_user(store: &Store, username: &str) -> (r: Option<(u128, String)>)
    requires
        store.wf(),
    ensures
        r is Some <==> store.spec_has_user(username@),
        r is Some ==> r.unwrap().0 == store.spec_user_id(username@) && r.unwrap().1@
            == store.spec_user_hash(username@),
{
    let n = store.users.len();
    let mut i: usize = 0;
    while i < n
        invariant
            store.wf(),
            n == store.users@.len(),
            i <= n,
            forall|j: int| 0 <= j < i ==> #[trigger] store.users@[j].username@ != username@,
        decreases n - i,
    {
        if str_eq(store.users[i].username.as_str(), username) {
            let hash = store.users[i].password_hash.clone();
            return Some((store.users[i].user_id, hash));
        }
        i = i + 1;
    }
    None
}

fn has_subscriber_id(rows: &Vec<SubscriberRow>, id: u128) -> (r: bool)
    ensures
        r == exists|i: int| 0 <= i < rows@.len() && #[trigger] rows@[i].id == id,
{
    let n = rows.len();
    let mut i: usize = 0;
    while i < n
        invariant
            n == rows@.len(),
            i <= n,
            forall|j: int| 0 <= j < i ==> #[trigger] rows@[j].id != id,
        decreases n - i,
    {
        if rows[i].id == id {
            return true;
        }
        i = i + 1;
    }
    false
}

fn has_token(rows: &Vec<TokenRow>, t: &str) -> (r: bool)
    ensures
        r == exists|i: int|
            0 <= i < rows@.len() && #[trigger] rows@[i].subscription_token@ == t@,
{
    let n = rows.len();
    let mut i: usize = 0;
    while i < n
        invariant
            n == rows@.len(),
            i <= n,
            forall|j: int| 0 <= j < i ==> #[trigger] rows@[j].subscription_token@ != t@,
        decreases n - i,
    {
        if str_eq(rows[i].subscription_token.as_str(), t) {
            return true;
        }
        i = i + 1;
    }
    false
}

fn has_username(rows: &Vec<UserRow>, u: &str) -> (r: bool)
    ensures
        r == exists|i: int| 0 <= i < rows@.len() && #[trigger] rows@[i].username@ == u@,
{
    let n = rows.len();
    let mut i: usize = 0;
    while i < n
        invariant
            n == rows@.len(),
            i <= n,
            forall|j: int| 0 <= j < i ==> #[trigger] rows@[j].username@ != u@,
        decreases n - i,
    {
        if str_eq(rows[i].username.as_str(), u) {
            return true;
        }
        i = i + 1;
    }
    false
}

} // verus!
