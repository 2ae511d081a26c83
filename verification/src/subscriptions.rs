//! The sign-up workflow: validate the submitted fields, persist the
//! subscriber row and its confirmation token as one atomic unit, and
//! only after the commit hand the confirmation link to the send
//! capability. A failure before the commit leaves the store untouched;
//! a failed notification leaves the committed rows in place.

use crate::domain::{email_accepted, subscriber_name_ok, NewSubscriber, SubscriberEmail,
    SubscriberName};
use crate::email_client::MailSink;
use crate::encoding::push_char;
use crate::store::{insert_subscriber, store_token, Store};
use rand::Rng;
use vstd::prelude::*;

verus! {

/// The raw form fields of one sign-up submission.
pub struct SignUp {
    pub name: String,
    pub email: String,
}

/// How a sign-up fails: rejected input, a store that refused the
/// write, or a committed sign-up whose notification did not go out.
#[derive(Debug)]
pub enum SubscriptionsError {
    ValidationError(String),
    PersistenceError,
    NotificationError,
}

/// The address the service is reached under; confirmation links are
/// built against it.
#[derive(Clone)]
pub struct ApplicationBaseUrl(pub String);

impl NewSubscriber {
    /// Parses both submitted fields; any failure rejects the whole
    /// submission.
    pub fn try_from(sign_up: SignUp) -> (r: Result<NewSubscriber, String>)
        ensures
            r is Ok <==> subscriber_name_ok(sign_up.name@) && email_accepted(sign_up.email@),
            r is Ok ==> r.unwrap().name@ == sign_up.name@ && r.unwrap().email@ == sign_up.email@,
    {
        let name = match SubscriberName::parse(sign_up.name) {
            Ok(n) => n,
            Err(e) => {
                return Err(e);
            },
        };
        let email = match SubscriberEmail::parse(sign_up.email) {
            Ok(e) => e,
            Err(e) => {
                return Err(e);
            },
        };
        Ok(NewSubscriber { email, name })
    }
}

/// The alphabet confirmation tokens are drawn from.
pub open spec fn is_token_char(c: char) -> bool {
    let u = c as u32;
    (48 <= u <= 57) || (65 <= u <= 90) || (97 <= u <= 122)
}

/// Relies on rand's `thread_rng` and its `Alphanumeric` distribution:
/// every sample is one of the 62 ASCII alphanumeric characters. Which
/// one is random, so nothing more is promised.
#[verifier::external_body]
fn sample_alphanumeric() -> (c: char)
    ensures
        is_token_char(c),
{
    char::from(rand::thread_rng().sample(rand::distributions::Alphanumeric))
}

/// Draws a 25-character token from the alphanumeric alphabet. No
/// collision check happens here; the store's uniqueness constraint is
/// the backstop.
pub fn generate_subscription_token() -> (t: String)
    ensures
        t@.len() == 25,
        forall|i: int| 0 <= i < t@.len() ==> is_token_char(#[trigger] t@[i]),
{
    let mut t = String::new();
    let mut i: usize = 0;
    while i < 25
        invariant
            t@.len() == i,
            i <= 25,
            forall|j: int| 0 <= j < i ==> is_token_char(#[trigger] t@[j]),
        decreases 25 - i,
    {
        let c = sample_alphanumeric();
        push_char(&mut t, c);
        i = i + 1;
    }
    t
}

/// The confirmation link for a token, relative to the base address.
pub open spec fn spec_confirmation_link(base_url: Seq<char>, token: Seq<char>) -> Seq<char> {
    base_url + "subscriptions/confirm?subscription_token="@ + token
}

/// The message bodies a confirmation email carries.
pub open spec fn spec_confirmation_html(link: Seq<char>) -> Seq<char> {
    "Welcome to our newsletter!<br />Click <a href=\""@ + link
        + "\">here</a> to confirm your subscription."@
}

pub open spec fn spec_confirmation_text(link: Seq<char>) -> Seq<char> {
    "Welcome to our newsletter!\n Visit "@ + link + " to confirm your subscription."@
}

/// The confirmation link for a token, relative to the base address.
pub fn confirmation_link(base_url: &str, subscription_token: &str) -> (r: String)
    ensures
        r@ == spec_confirmation_link(base_url@, subscription_token@),
{
    String::from_str(base_url).concat("subscriptions/confirm?subscription_token=").concat(
        subscription_token,
    )
}

/// The HTML body of the welcome message around a confirmation link.
pub fn confirmation_html_body(confirmation_link: &str) -> (r: String)
    ensures
        r@ == spec_confirmation_html(confirmation_link@),
{
    String::from_str("Welcome to our newsletter!<br />Click <a href=\"").concat(
        confirmation_link,
    ).concat("\">here</a> to confirm your subscription.")
}

/// The plain-text body of the welcome message around a confirmation
/// link.
pub fn confirmation_text_body(confirmation_link: &str) -> (r: String)
    ensures
        r@ == spec_confirmation_text(confirmation_link@),
{
    String::from_str("Welcome to our newsletter!\n Visit ").concat(confirmation_link).concat(
        " to confirm your subscription.",
    )
}

/// Builds the confirmation link and hands the welcome message to the
/// send capability; reports failure without retrying.
pub fn send_confirmation_email(
    email_client: &mut MailSink,
    new_subscriber: &NewSubscriber,
    base_url: &str,
    subscription_token: &str,
) -> (r: Result<(), SubscriptionsError>)
    ensures
        r is Ok <==> old(email_client).spec_next_ok(),
        r is Err ==> r matches Err(SubscriptionsError::NotificationError),
        final(email_client).script@ == old(email_client).script@,
        old(email_client).cursor <= old(email_client).script@.len() ==> final(email_client).cursor <= final(email_client).script@.len(),
        r is Ok ==> final(email_client).sent@ == old(email_client).sent@.push(
            final(email_client).sent@.last(),
        ) && ({
            let mail = final(email_client).sent@.last();
            let link = spec_confirmation_link(base_url@, subscription_token@);
            &&& mail.recipient@ == new_subscriber.email@
            &&& mail.subject@ == "Welcome!"@
            &&& mail.html_content@ == spec_confirmation_html(link)
            &&& mail.text_content@ == spec_confirmation_text(link)
        }),
        r is Err ==> final(email_client).sent@ == old(email_client).sent@,
{
    let link = confirmation_link(base_url, subscription_token);
    let html_body = confirmation_html_body(link.as_str());
    let text_body = confirmation_text_body(link.as_str());
    let ok = email_client.send_email(
        &new_subscriber.email,
        "Welcome!",
        html_body.as_str(),
        text_body.as_str(),
    );
    if ok {
        Ok(())
    } else {
        Err(SubscriptionsError::NotificationError)
    }
}

/// What a successful persistence step leaves behind: one new pending
/// subscriber row and one new token row referring to it, both fresh,
/// and nothing else changed.
pub open spec fn spec_subscribed(
    old_store: Store,
    new_store: Store,
    id: u128,
    token: Seq<char>,
    email: Seq<char>,
    name: Seq<char>,
) -> bool {
    &&& new_store.subscribers@ == old_store.subscribers@.push(new_store.subscribers@.last())
    &&& new_store.subscribers@.len() == old_store.subscribers@.len() + 1
    &&& new_store.subscribers@.last().id == id
    &&& new_store.subscribers@.last().email@ == email
    &&& new_store.subscribers@.last().name@ == name
    &&& new_store.subscribers@.last().status is PendingConfirmation
    &&& !old_store.spec_has_subscriber_id(id)
    &&& new_store.subscription_tokens@ == old_store.subscription_tokens@.push(
        new_store.subscription_tokens@.last(),
    )
    &&& new_store.subscription_tokens@.len() == old_store.subscription_tokens@.len() + 1
    &&& new_store.subscription_tokens@.last().subscription_token@ == token
    &&& new_store.subscription_tokens@.last().subscriber_id == id
    &&& !old_store.spec_has_token(token)
    &&& new_store.users@ == old_store.users@
}

/// A well-formed confirmation token: 25 characters, all alphanumeric.
pub open spec fn spec_token_shape(token: Seq<char>) -> bool {
    token.len() == 25 && forall|i: int| 0 <= i < token.len() ==> is_token_char(#[trigger] token[i])
}

/// One sign-up request, end to end: validation, one atomic store
/// transaction, and — strictly after the commit — the notification.
///
/// Atomicity: on a validation or persistence failure the store and the
/// send capability are exactly as before, so no pending subscriber
/// ever exists without its token. A notification failure is reported
/// as its own error class and leaves the committed rows in place: the
/// sign-up is not lost, and no retry happens here.
pub fn subscribe(
    store: &mut Store,
    email_client: &mut MailSink,
    base_url: &ApplicationBaseUrl,
    sign_up: SignUp,
) -> (r: Result<(), SubscriptionsError>)
    requires
        old(store).wf(),
    ensures
        final(store).wf(),
        old(store).pending_covered() ==> final(store).pending_covered(),
        r matches Err(SubscriptionsError::ValidationError(_)) <==> !(subscriber_name_ok(
            sign_up.name@,
        ) && email_accepted(sign_up.email@)),
        (r matches Err(SubscriptionsError::ValidationError(_)) || r matches Err(
            SubscriptionsError::PersistenceError,
        )) ==> *final(store) == *old(store) && *final(email_client) == *old(email_client),
        (r is Ok || r matches Err(SubscriptionsError::NotificationError)) ==> exists|
            id: u128,
            token: Seq<char>,
        |
            #[trigger] spec_subscribed(
                *old(store),
                *final(store),
                id,
                token,
                sign_up.email@,
                sign_up.name@,
            ) && spec_token_shape(token),
        r is Ok ==> exists|id: u128, token: Seq<char>|
            #[trigger] spec_subscribed(
                *old(store),
                *final(store),
                id,
                token,
                sign_up.email@,
                sign_up.name@,
            ) && spec_token_shape(token) && ({
                let mail = final(email_client).sent@.last();
                let link = spec_confirmation_link(base_url.0@, token);
                &&& final(email_client).sent@ == old(email_client).sent@.push(mail)
                &&& mail.recipient@ == sign_up.email@
                &&& mail.subject@ == "Welcome!"@
                &&& mail.html_content@ == spec_confirmation_html(link)
                &&& mail.text_content@ == spec_confirmation_text(link)
            }),
        r matches Err(SubscriptionsError::NotificationError) ==> final(email_client).sent@ == old(email_client).sent@,
        final(email_client).script@ == old(email_client).script@,
        old(email_client).cursor <= old(email_client).script@.len() ==> final(email_client).cursor <= final(email_client).script@.len(),
{
    let ghost name_view = sign_up.name@;
    let ghost email_view = sign_up.email@;
    let new_subscriber = match NewSubscriber::try_from(sign_up) {
        Ok(ns) => ns,
        Err(e) => {
            return Err(SubscriptionsError::ValidationError(e));
        },
    };
    let mut txn = store.begin();
    let subscriber_id = match insert_subscriber(store, &mut txn, &new_subscriber) {
        Ok(id) => id,
        Err(_) => {
            return Err(SubscriptionsError::PersistenceError);
        },
    };
    let subscription_token = generate_subscription_token();
    match store_token(store, &mut txn, subscriber_id, subscription_token.as_str()) {
        Ok(()) => {},
        Err(_) => {
            return Err(SubscriptionsError::PersistenceError);
        },
    }
    let ghost pre = *store;
    let ghost staged = txn;
    proof {
        assert(pre.spec_admissible(staged));
    }
    match store.commit(txn) {
        Ok(()) => {},
        Err(_) => {
            return Err(SubscriptionsError::PersistenceError);
        },
    }
    proof {
        assert(store.subscribers@ =~= pre.subscribers@.push(
            staged.new_subscribers@[0],
        ));
        assert(store.subscription_tokens@ =~= pre.subscription_tokens@.push(
            staged.new_tokens@[0],
        ));
        assert(spec_subscribed(
            pre,
            *store,
            subscriber_id,
            subscription_token@,
            email_view,
            name_view,
        ));
        assert forall|i: int|
            0 <= i < store.subscribers@.len() && #[trigger] store.subscribers@[i].status is PendingConfirmation && pre.pending_covered() implies exists|
            j: int,
        |
            0 <= j < store.subscription_tokens@.len() && #[trigger] store.subscription_tokens@[j].subscriber_id == store.subscribers@[i].id by {
            if i < pre.subscribers@.len() {
                let j0 = choose|j0: int|
                    0 <= j0 < pre.subscription_tokens@.len()
                        && #[trigger] pre.subscription_tokens@[j0].subscriber_id
                        == pre.subscribers@[i].id;
                assert(store.subscription_tokens@[j0].subscriber_id == store.subscribers@[i].id);
            } else {
                let j1 = store.subscription_tokens@.len() - 1;
                assert(store.subscription_tokens@[j1].subscriber_id == store.subscribers@[i].id);
            }
        }
    }
    match send_confirmation_email(
        email_client,
        &new_subscriber,
        base_url.0.as_str(),
        subscription_token.as_str(),
    ) {
        Ok(()) => {
            proof {
                assert(spec_subscribed(
                    *old(store),
                    *store,
                    subscriber_id,
                    subscription_token@,
                    email_view,
                    name_view,
                ));
                assert(spec_token_shape(subscription_token@));
            }
            Ok(())
        },
        Err(e) => Err(e),
    }
}

/// The capability mailed out confirms exactly the subscriber it was
/// issued for: after a committed sign-up, the token stands in the
/// store and refers to the new row, so a confirmation click carrying
/// it reaches that row and no other.
pub proof fn lemma_mailed_token_confirms_new_subscriber(
    old_store: Store,
    new_store: Store,
    id: u128,
    token: Seq<char>,
    email: Seq<char>,
    name: Seq<char>,
)
    requires
        new_store.wf(),
        spec_subscribed(old_store, new_store, id, token, email, name),
    ensures
        new_store.spec_has_token(token),
        new_store.spec_token_subscriber(token) == id,
{
    let n = new_store.subscription_tokens@.len() - 1;
    assert(new_store.subscription_tokens@[n].subscription_token@ == token);
    let i = choose|i: int|
        0 <= i < new_store.subscription_tokens@.len()
            && #[trigger] new_store.subscription_tokens@[i].subscription_token@ == token;
    assert(new_store.subscription_tokens@[i].subscription_token@ == token);
    assert(i == n);
}

} // verus!
