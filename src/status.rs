use vstd::prelude::*;
use crate::events::Event;
use crate::text::{has_prefix, starts_with};

verus! {

/// Where a payment stands. `Pending` comes first; `Settled` and `Failed` are terminal.
#[derive(Debug, Clone, Copy, PartialEq, Eq)]
pub enum PaymentStatus {
    Pending,
    Settled,
    Failed,
}

pub open spec fn is_terminal(s: PaymentStatus) -> bool {
    !(s is Pending)
}

/// The status after an update to `update`: an update never moves a payment
/// back to pending, and among terminal statuses the last one wins.
pub open spec fn status_after_spec(current: PaymentStatus, update: PaymentStatus) -> PaymentStatus {
    if update is Pending {
        current
    } else {
        update
    }
}

/// The status after an update, as `status_after_spec` states.
pub fn status_after(current: PaymentStatus, update: PaymentStatus) -> (r: PaymentStatus)
    ensures
        r == status_after_spec(current, update),
{
    match update {
        PaymentStatus::Pending => current,
        _ => update,
    }
}

/// The status that an event's text names: `pending`, `settled` or `failed`.
pub open spec fn status_named(s: Seq<char>) -> Option<PaymentStatus> {
    if s == "pending"@ {
        Some(PaymentStatus::Pending)
    } else if s == "settled"@ {
        Some(PaymentStatus::Settled)
    } else if s == "failed"@ {
        Some(PaymentStatus::Failed)
    } else {
        None
    }
}

fn same_text(a: &str, b: &str) -> (r: bool)
    ensures
        r == (a@ == b@),
{
    let r = a.unicode_len() == b.unicode_len() && has_prefix(a, b);
    proof {
        if a@.len() == b@.len() && starts_with(a@, b@) {
            assert(a@ =~= a@.subrange(0, b@.len() as int));
        }
        if a@ == b@ {
            assert(a@.subrange(0, b@.len() as int) =~= a@);
        }
    }
    r
}

/// Reads the status text of a payment or update event.
pub fn parse_status(s: &str) -> (r: Option<PaymentStatus>)
    ensures
        r == status_named(s@),
{
    if same_text(s, "pending") {
        Some(PaymentStatus::Pending)
    } else if same_text(s, "settled") {
        Some(PaymentStatus::Settled)
    } else if same_text(s, "failed") {
        Some(PaymentStatus::Failed)
    } else {
        None
    }
}

/// Delivering the same update again changes nothing, and a terminal status
/// never goes back to pending.
pub proof fn lemma_update_idempotent(current: PaymentStatus, update: PaymentStatus)
    ensures
        status_after_spec(status_after_spec(current, update), update) == status_after_spec(
            current,
            update,
        ),
        is_terminal(current) ==> is_terminal(status_after_spec(current, update)),
        is_terminal(update) ==> status_after_spec(current, update) == update,
{
}

/// The status recorded last for `id` in `log`, newest entry first.
pub open spec fn status_in(log: Seq<(Seq<char>, PaymentStatus)>, id: Seq<char>) -> Option<
    PaymentStatus,
>
    decreases log.len(),
{
    if log.len() == 0 {
        None
    } else if log[0].0 == id {
        Some(log[0].1)
    } else {
        status_in(log.drop_first(), id)
    }
}

/// The status of a payment after an event reports `reported` for it.
pub open spec fn tracked_after(known: Option<PaymentStatus>, reported: PaymentStatus) -> PaymentStatus {
    match known {
        Some(c) => status_after_spec(c, reported),
        None => reported,
    }
}

/// The id and status text that an event reports, if it concerns a payment.
pub open spec fn reported(e: Event) -> Option<(Seq<char>, Seq<char>)> {
    match e {
        Event::Payment(p) => Some((p.id@, p.status@)),
        Event::Update(u) => Some((u.id@, u.status@)),
        Event::Balance(_) => None,
    }
}

/// The status of each payment over a stream of events: statuses only move
/// forward, repeats change nothing, and the last terminal status wins.
pub struct PaymentTracker {
    log: Vec<(String, PaymentStatus)>,
}

impl PaymentTracker {
    pub closed spec fn log_view(&self) -> Seq<(Seq<char>, PaymentStatus)> {
        self.log@.map_values(|e: (String, PaymentStatus)| (e.0@, e.1))
    }

    /// The status of payment `id`, if an event has reported one.
    pub open spec fn status(&self, id: Seq<char>) -> Option<PaymentStatus> {
        status_in(self.log_view(), id)
    }

    /// A tracker that knows no payment.
    pub fn new() -> (r: Self)
        ensures
            forall|id: Seq<char>| r.status(id) == None::<PaymentStatus>,
    {
        let r = PaymentTracker { log: Vec::new() };
        assert(r.log_view() =~= Seq::<(Seq<char>, PaymentStatus)>::empty());
        r
    }

    /// The status of payment `id`.
    pub fn status_of(&self, id: &String) -> (r: Option<PaymentStatus>)
        ensures
            r == self.status(id@),
    {
        let mut i: usize = 0;
        assert(self.log_view().subrange(0, self.log_view().len() as int) =~= self.log_view());
        while i < self.log.len()
            invariant
                i <= self.log@.len(),
                self.log_view().len() == self.log@.len(),
                status_in(self.log_view(), id@) == status_in(
                    self.log_view().subrange(i as int, self.log_view().len() as int),
                    id@,
                ),
            decreases self.log@.len() - i,
        {
            let ghost rest = self.log_view().subrange(i as int, self.log_view().len() as int);
            assert(rest.drop_first() =~= self.log_view().subrange(i + 1, self.log_view().len() as int));
            assert(rest[0] == self.log_view()[i as int]);
            if self.log[i].0 == *id {
                return Some(self.log[i].1);
            }
            i = i + 1;
        }
        assert(self.log_view().subrange(i as int, self.log_view().len() as int).len() == 0);
        None
    }

    /// Takes in an event as `next_event` returns it. A payment or update whose
    /// status text names a status moves that payment's status as
    /// `status_after` does and returns the new one; any other event changes
    /// nothing and returns `None`.
    pub fn observe(&mut self, event: &Event) -> (r: Option<PaymentStatus>)
        ensures
            match reported(*event) {
                Some((id, text)) => match status_named(text) {
                    Some(s) => {
                        &&& r == Some(tracked_after(old(self).status(id), s))
                        &&& final(self).status(id) == r
                        &&& forall|other: Seq<char>|
                            other != id ==> #[trigger] final(self).status(other) == old(
                                self,
                            ).status(other)
                    },
                    None => r.is_none() && final(self).log_view() == old(self).log_view(),
                },
                None => r.is_none() && final(self).log_view() == old(self).log_view(),
            },
    {
        let (id, text) = match event {
            Event::Payment(p) => (&p.id, &p.status),
            Event::Update(u) => (&u.id, &u.status),
            Event::Balance(_) => return None,
        };
        let s = match parse_status(text.as_str()) {
            Some(s) => s,
            None => return None,
        };
        let next = match self.status_of(id) {
            Some(c) => status_after(c, s),
            None => s,
        };
        let ghost before = self.log_view();
        self.log.insert(0, (id.clone(), next));
        assert(self.log_view() =~= seq![(id@, next)] + before);
        assert(self.log_view().drop_first() =~= before);
        Some(next)
    }
}

} // verus!
