//! Newsletter publication: Basic-Auth credential verification, then a
//! fan-out over the confirmed subscribers. A stored address that no
//! longer parses is skipped — stale data for one recipient must not
//! block the rest — while a transport-level send failure aborts the
//! remaining fan-out at once, because it may be a systemic outage.

use crate::authentication::{basic_authentication, password_matches, phc_valid,
    spec_basic_credentials, validate_credentials, AuthError};
use crate::domain::{email_accepted, SubscriberEmail};
use crate::email_client::MailSink;
use crate::store::{get_confirmed_subscribers, spec_confirmed_emails, Store};
use vstd::prelude::*;

verus! {

/// The two renderings of one issue.
pub struct Content {
    pub html: String,
    pub text: String,
}

/// The body of a publish request: a title and the issue's content.
pub struct BodyData {
    pub title: String,
    pub content: Content,
}

/// How publication fails: a failed or malformed authentication, or a
/// failure while the work was being done.
#[derive(Debug)]
pub enum PublishError {
    AuthError,
    UnexpectedError,
}

/// The addresses actually sent to, in order: the confirmed
/// subscribers whose stored spelling still parses as an address.
pub open spec fn spec_delivery_plan(emails: Seq<Seq<char>>) -> Seq<Seq<char>>
    decreases emails.len(),
{
    if emails.len() == 0 {
        Seq::empty()
    } else {
        let prefix = spec_delivery_plan(emails.drop_last());
        if email_accepted(emails.last()) {
            prefix.push(emails.last())
        } else {
            prefix
        }
    }
}

/// The plan of a prefix is a prefix of the plan.
proof fn lemma_plan_prefix(emails: Seq<Seq<char>>, k: int)
    requires
        0 <= k <= emails.len(),
    ensures
        spec_delivery_plan(emails.take(k)).len() <= spec_delivery_plan(emails).len(),
        forall|m: int|
            0 <= m < spec_delivery_plan(emails.take(k)).len() ==> #[trigger] spec_delivery_plan(
                emails.take(k),
            )[m] == spec_delivery_plan(emails)[m],
    decreases emails.len() - k,
{
    if k == emails.len() {
        assert(emails.take(k) =~= emails);
    } else {
        lemma_plan_prefix(emails, k + 1);
        assert(emails.take(k + 1).drop_last() =~= emails.take(k));
        assert(emails.take(k + 1).last() == emails[k]);
        assert forall|m: int|
            0 <= m < spec_delivery_plan(emails.take(k)).len() implies #[trigger] spec_delivery_plan(
            emails.take(k),
        )[m] == spec_delivery_plan(emails)[m] by {
            assert(spec_delivery_plan(emails.take(k))[m] == spec_delivery_plan(
                emails.take(k + 1),
            )[m]);
        }
    }
}

/// The fan-out stopped after exactly `m` deliveries: every earlier
/// send succeeded, the `m`-th — if any part of the plan remained —
/// failed, and exactly the first `m` planned messages were recorded,
/// each carrying the issue.
pub open spec fn spec_fanout_stopped_at(
    old_sink: MailSink,
    new_sink: MailSink,
    plan: Seq<Seq<char>>,
    body: BodyData,
    ok: bool,
    m: int,
) -> bool {
    &&& 0 <= m <= plan.len()
    &&& forall|j: int| 0 <= j < m ==> #[trigger] old_sink.spec_ok_at(j)
    &&& (m == plan.len() || !old_sink.spec_ok_at(m))
    &&& (ok <==> m == plan.len())
    &&& new_sink.sent@.len() == old_sink.sent@.len() + m
    &&& forall|j: int| 0 <= j < old_sink.sent@.len() ==> #[trigger] new_sink.sent@[j] == old_sink.sent@[j]
    &&& forall|j: int|
        0 <= j < m ==> (#[trigger] new_sink.sent@[old_sink.sent@.len() + j].recipient@ == plan[j]
            && new_sink.sent@[old_sink.sent@.len() + j].subject@ == body.title@
            && new_sink.sent@[old_sink.sent@.len() + j].html_content@ == body.content.html@
            && new_sink.sent@[old_sink.sent@.len() + j].text_content@ == body.content.text@)
}

/// What the fan-out did, for some stopping point.
pub open spec fn spec_fanout_outcome(
    old_sink: MailSink,
    new_sink: MailSink,
    plan: Seq<Seq<char>>,
    body: BodyData,
    ok: bool,
) -> bool {
    exists|m: int| #[trigger] spec_fanout_stopped_at(old_sink, new_sink, plan, body, ok, m)
}

/// Publishes one issue: the `Authorization` header must carry Basic
/// credentials that verify, and then one send is attempted per
/// confirmed subscriber with a parseable address, in order, stopping
/// at the first transport failure.
#[verifier::loop_isolation(false)]
pub fn publish_newsletter(
    store: &Store,
    email_client: &mut MailSink,
    authorization: Option<&[u8]>,
    body: &BodyData,
) -> (r: Result<(), PublishError>)
    requires
        store.wf(),
        old(email_client).cursor <= old(email_client).script@.len(),
    ensures
        final(email_client).script@ == old(email_client).script@,
        final(email_client).cursor <= final(email_client).script@.len(),
        match authorization {
            None => r matches Err(PublishError::AuthError) && *final(email_client) == *old(
                email_client,
            ),
            Some(h) => match spec_basic_credentials(h@) {
                None => r matches Err(PublishError::AuthError) && *final(email_client) == *old(
                    email_client,
                ),
                Some(creds) => {
                    let u = creds.0;
                    let p = creds.1;
                    if !store.spec_has_user(u) {
                        r matches Err(PublishError::AuthError) && *final(email_client) == *old(
                            email_client,
                        )
                    } else if !phc_valid(store.spec_user_hash(u)) {
                        r matches Err(PublishError::UnexpectedError) && *final(email_client)
                            == *old(email_client)
                    } else if !password_matches(store.spec_user_hash(u), p) {
                        r matches Err(PublishError::AuthError) && *final(email_client) == *old(
                            email_client,
                        )
                    } else {
                        (r is Ok || r matches Err(PublishError::UnexpectedError))
                            && spec_fanout_outcome(
                            *old(email_client),
                            *final(email_client),
                            spec_delivery_plan(spec_confirmed_emails(store.subscribers@)),
                            *body,
                            r is Ok,
                        )
                    }
                },
            },
        },
{
    let header = match authorization {
        Some(h) => h,
        None => {
            return Err(PublishError::AuthError);
        },
    };
    let credentials = match basic_authentication(header) {
        Ok(c) => c,
        Err(_) => {
            return Err(PublishError::AuthError);
        },
    };
    match validate_credentials(&credentials, store) {
        Ok(_) => {},
        Err(AuthError::InvalidCredentials) => {
            return Err(PublishError::AuthError);
        },
        Err(AuthError::UnexpectedError) => {
            return Err(PublishError::UnexpectedError);
        },
    }
    let emails = get_confirmed_subscribers(store);
    let ghost emails_v = emails@.map_values(|s: String| s@);
    let ghost plan_all = spec_delivery_plan(emails_v);
    let ghost sink0 = *email_client;
    let n = emails.len();
    let mut k: usize = 0;
    while k < n
        invariant
            n == emails@.len(),
            emails_v == emails@.map_values(|s: String| s@),
            plan_all == spec_delivery_plan(emails_v),
            sink0.cursor <= sink0.script@.len(),
            k <= n,
            email_client.script@ == sink0.script@,
            email_client.sent@.len() == sink0.sent@.len() + spec_delivery_plan(
                emails_v.take(k as int),
            ).len(),
            forall|j: int|
                0 <= j < sink0.sent@.len() ==> #[trigger] email_client.sent@[j] == sink0.sent@[j],
            forall|j: int|
                0 <= j < spec_delivery_plan(emails_v.take(k as int)).len()
                    ==> (#[trigger] email_client.sent@[sink0.sent@.len() + j].recipient@
                    == spec_delivery_plan(emails_v.take(k as int))[j]
                    && email_client.sent@[sink0.sent@.len() + j].subject@ == body.title@
                    && email_client.sent@[sink0.sent@.len() + j].html_content@
                    == body.content.html@
                    && email_client.sent@[sink0.sent@.len() + j].text_content@
                    == body.content.text@),
            forall|j: int|
                0 <= j < spec_delivery_plan(emails_v.take(k as int)).len()
                    ==> #[trigger] sink0.spec_ok_at(j),
            sink0.cursor + spec_delivery_plan(emails_v.take(k as int)).len()
                <= sink0.script@.len() ==> email_client.cursor == sink0.cursor
                + spec_delivery_plan(emails_v.take(k as int)).len(),
            sink0.cursor + spec_delivery_plan(emails_v.take(k as int)).len()
                > sink0.script@.len() ==> email_client.cursor == sink0.script@.len(),
        decreases n - k,
    {
        let ghost done = spec_delivery_plan(emails_v.take(k as int)).len() as int;
        proof {
            assert(emails_v.take(k + 1).drop_last() =~= emails_v.take(k as int));
            assert(emails_v.take(k + 1).last() == emails_v[k as int]);
        }
        let email_string = emails[k].clone();
        match SubscriberEmail::parse(email_string) {
            Err(_) => {
                // A corrupted stored address: skip this recipient and
                // carry on with the rest.
                proof {
                    assert(emails_v[k as int] == emails@[k as int]@);
                    assert(!email_accepted(emails_v[k as int]));
                    assert(spec_delivery_plan(emails_v.take(k + 1)) =~= spec_delivery_plan(
                        emails_v.take(k as int),
                    ));
                }
            },
            Ok(subscriber_email) => {
                let ghost pre_sink = *email_client;
                let ok = email_client.send_email(
                    &subscriber_email,
                    body.title.as_str(),
                    body.content.html.as_str(),
                    body.content.text.as_str(),
                );
                if !ok {
                    proof {
                        assert(emails_v[k as int] == emails@[k as int]@);
                        assert(email_accepted(emails_v[k as int]));
                        lemma_plan_prefix(emails_v, k + 1);
                        lemma_plan_prefix(emails_v, k as int);
                        assert(spec_delivery_plan(emails_v.take(k + 1)).len() == done + 1);
                        assert(spec_delivery_plan(emails_v.take(k + 1))[done] == emails_v[k as int]);
                        assert(!sink0.spec_ok_at(done));
                        assert(spec_fanout_stopped_at(
                            sink0,
                            *email_client,
                            plan_all,
                            *body,
                            false,
                            done,
                        ));
                    }
                    return Err(PublishError::UnexpectedError);
                }
                proof {
                    assert(emails_v[k as int] == emails@[k as int]@);
                    assert(email_accepted(emails_v[k as int]));
                    assert(spec_delivery_plan(emails_v.take(k + 1)) =~= spec_delivery_plan(
                        emails_v.take(k as int),
                    ).push(emails_v[k as int]));
                    assert(sink0.spec_ok_at(done));
                    assert(email_client.sent@ == pre_sink.sent@.push(
                        email_client.sent@.last(),
                    ));
                    assert forall|j: int|
                        0 <= j < done + 1 implies (#[trigger] email_client.sent@[sink0.sent@.len()
                        + j].recipient@ == spec_delivery_plan(emails_v.take(k + 1))[j]
                        && email_client.sent@[sink0.sent@.len() + j].subject@ == body.title@
                        && email_client.sent@[sink0.sent@.len() + j].html_content@
                        == body.content.html@ && email_client.sent@[sink0.sent@.len()
                        + j].text_content@ == body.content.text@) by {
                        if j < done {
                            assert(email_client.sent@[sink0.sent@.len() + j] == pre_sink.sent@[sink0.sent@.len() + j]);
                            assert(spec_delivery_plan(emails_v.take(k + 1))[j]
                                == spec_delivery_plan(emails_v.take(k as int))[j]);
                        } else {
                            assert(sink0.sent@.len() + j == email_client.sent@.len() - 1);
                        }
                    }
                }
            },
        }
        k = k + 1;
    }
    proof {
        assert(emails_v.take(n as int) =~= emails_v);
        assert(spec_fanout_stopped_at(
            sink0,
            *email_client,
            plan_all,
            *body,
            true,
            plan_all.len() as int,
        ));
    }
    Ok(())
}

} // verus!
