//! Shutdown broadcaster: a one-shot cancellation signal with any number of
//! waiters. This is the broadcaster's state and decisions; the surrounding
//! process wraps it in a lock and resolves the woken waiters' channels.

use vstd::prelude::*;

verus! {

/// What `register` hands back.
#[derive(Clone, Copy, Debug, PartialEq, Eq, Structural)]
pub enum Registration {
    /// The waiter with this ticket will be woken by `shutdown`.
    Pending(u64),
    /// Shutdown already fired: the waiter resolves immediately.
    ReadyNow,
}

/// The broadcaster's state: the tickets of waiters not yet notified, or
/// `None` once shutdown has fired and no new waiter may be enqueued.
pub struct Shutdown {
    pub queue: Option<Vec<u64>>,
    pub next_ticket: u64,
}

/// The broadcaster's state as the contracts speak of it.
pub struct ShutdownModel {
    pub queue: Option<Seq<u64>>,
    pub next_ticket: u64,
}

pub open spec fn model(s: &Shutdown) -> ShutdownModel {
    ShutdownModel {
        queue: match s.queue {
            Some(q) => Some(q@),
            None => None,
        },
        next_ticket: s.next_ticket,
    }
}

/// Whether shutdown has fired.
pub open spec fn has_fired(m: ShutdownModel) -> bool {
    m.queue is None
}

/// What `register` does: enqueue a fresh ticket before shutdown fires,
/// resolve immediately after.
pub open spec fn register_model(m: ShutdownModel) -> (ShutdownModel, Registration) {
    match m.queue {
        Some(q) => (
            ShutdownModel {
                queue: Some(q.push(m.next_ticket)),
                next_ticket: (m.next_ticket + 1) as u64,
            },
            Registration::Pending(m.next_ticket),
        ),
        None => (m, Registration::ReadyNow),
    }
}

/// What `shutdown` does: the first call empties the queue and hands its
/// tickets back to be woken; any later call changes nothing and wakes
/// nobody.
pub open spec fn shutdown_model(m: ShutdownModel) -> (ShutdownModel, Seq<u64>) {
    match m.queue {
        Some(q) => (ShutdownModel { queue: None, next_ticket: m.next_ticket }, q),
        None => (m, Seq::empty()),
    }
}

impl Shutdown {
    pub fn create() -> (s: Self)
        ensures
            !has_fired(model(&s)),
            model(&s).queue == Some(Seq::<u64>::empty()),
            s.next_ticket == 0,
    {
        Shutdown { queue: Some(Vec::new()), next_ticket: 0 }
    }

    /// Register a waiter. Every call lands in exactly one of two cases:
    /// enqueued under a fresh ticket, or resolved immediately because
    /// shutdown already fired.
    pub fn register(&mut self) -> (r: Registration)
        requires
            old(self).next_ticket < u64::MAX,
        ensures
            model(final(self)) == register_model(model(old(self))).0,
            r == register_model(model(old(self))).1,
    {
        match &mut self.queue {
            Some(q) => {
                let ticket = self.next_ticket;
                q.push(ticket);
                self.next_ticket = self.next_ticket + 1;
                Registration::Pending(ticket)
            },
            None => Registration::ReadyNow,
        }
    }

    /// Fire the shutdown signal; hands back the waiters to be woken.
    pub fn shutdown(&mut self) -> (woken: Vec<u64>)
        ensures
            model(final(self)) == shutdown_model(model(old(self))).0,
            woken@ == shutdown_model(model(old(self))).1,
            has_fired(model(final(self))),
    {
        match self.queue.take() {
            Some(q) => q,
            None => Vec::new(),
        }
    }
}

/// Shutdown idempotence: from any state, calling `shutdown` twice is a
/// no-op the second time — the state stays as the first call left it and
/// nobody further is woken.
pub proof fn lemma_shutdown_idempotent(m: ShutdownModel)
    ensures
        shutdown_model(shutdown_model(m).0).0 == shutdown_model(m).0,
        shutdown_model(shutdown_model(m).0).1 == Seq::<u64>::empty(),
{
}

/// No missed wakeup: a waiter that registers after shutdown fired resolves
/// immediately without changing the state, and one that registered before
/// is among the tickets the firing call hands back to be woken.
pub proof fn lemma_no_missed_wakeup(m: ShutdownModel)
    ensures
        has_fired(m) ==> register_model(m) == (m, Registration::ReadyNow),
        !has_fired(m) ==> shutdown_model(register_model(m).0).1 == shutdown_model(m).1.push(
            m.next_ticket,
        ),
{
}

} // verus!
