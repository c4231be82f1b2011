//! The notification helper: fanning one message body out to a set of
//! recipients. The plan pairs every recipient with the body, exactly once
//! each; delivery (and tolerance of individual failures) is the caller's.

use vstd::prelude::*;

use crate::model::Person;

verus! {

/// One private message to send: a recipient and a body.
pub struct Notification {
    pub recipient_id: i32,
    pub body: String,
}

/// The mathematical shape of a notification.
pub ghost struct NotificationV {
    pub recipient_id: i32,
    pub body: Seq<char>,
}

impl View for Notification {
    type V = NotificationV;

    open spec fn view(&self) -> NotificationV {
        NotificationV { recipient_id: self.recipient_id, body: self.body@ }
    }
}

/// One notification per recipient, in the recipients' order, all with the
/// same body.
pub open spec fn fan_out(recipients: Seq<Person>, body: Seq<char>) -> Seq<NotificationV> {
    recipients.map_values(|p: Person| NotificationV { recipient_id: p.id, body })
}

pub open spec fn notifications_view(v: Seq<Notification>) -> Seq<NotificationV> {
    v.map_values(|n: Notification| n@)
}

/// Plans the fan-out of `body` to every person in `recipients`: exactly
/// one notification per recipient, carrying the body unchanged.
pub fn notification_plan(recipients: &Vec<Person>, body: &String) -> (r: Vec<Notification>)
    ensures
        notifications_view(r@) == fan_out(recipients@, body@),
{
    let mut r: Vec<Notification> = Vec::new();
    let mut i: usize = 0;
    while i < recipients.len()
        invariant
            0 <= i <= recipients@.len(),
            notifications_view(r@) == fan_out(recipients@.take(i as int), body@),
        decreases recipients@.len() - i,
    {
        let ghost r0 = r@;
        r.push(Notification { recipient_id: recipients[i].id, body: body.clone() });
        proof {
            let k = i as int;
            assert(notifications_view(r@) =~= notifications_view(r0).push(
                NotificationV { recipient_id: recipients@[k].id, body: body@ },
            ));
            assert(recipients@.take(k + 1) =~= recipients@.take(k).push(recipients@[k]));
            assert(fan_out(recipients@.take(k + 1), body@) =~= fan_out(
                recipients@.take(k),
                body@,
            ).push(NotificationV { recipient_id: recipients@[k].id, body: body@ }));
        }
        i = i + 1;
    }
    proof {
        assert(recipients@.take(recipients@.len() as int) =~= recipients@);
    }
    r
}

} // verus!
