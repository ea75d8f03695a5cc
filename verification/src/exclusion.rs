//! Concurrent calls over the one shared mailer.
//!
//! Any number of `send_email` calls may be in progress at once, each advancing
//! as [`crate::rpc::advance`] says, while the guard over the mailer is granted
//! to one call at a time. This module models that system and proves that the
//! sends of different calls never interleave in the mailer's invocation
//! sequence.

use vstd::prelude::*;
use crate::mailer::DeliveryView;
use crate::rpc::{advance, delivery_at, initial, ActionView, CallView, Event, Phase};

verus! {

/// One send as the mailer sees it, with the call that asked for it.
pub struct Invocation {
    pub call: nat,
    pub delivery: DeliveryView,
}

/// The service as a whole: the calls received so far, the guard, and the
/// sequence of sends made through the mailer.
pub struct System {
    /// Every call received so far, under its identity.
    pub calls: Map<nat, CallView>,
    /// The call that holds the guard, if any does.
    pub holder: Option<nat>,
    /// Whether a holder has ended abnormally while holding the guard.
    pub poisoned: bool,
    /// The mailer's invocation sequence.
    pub journal: Seq<Invocation>,
}

/// What can happen in the system.
pub enum Step {
    /// A request arrives and becomes a call under a fresh identity.
    Receive { call: nat, recipients: Seq<Seq<char>>, subject: Seq<char>, text: Seq<char> },
    /// The host hands an event to a call and performs the action it answers.
    Deliver { call: nat, event: Event },
    /// The holder of the guard ends abnormally, which poisons the guard.
    Panic { call: nat },
}

/// The service at start: no call, the guard free and sound, nothing sent.
pub open spec fn start() -> System {
    System { calls: Map::empty(), holder: None, poisoned: false, journal: Seq::empty() }
}

/// Whether `step` can happen in `system`. The guard is granted only while it
/// is free and sound and only to a call that waits for it; it is refused as
/// poisoned only when it is; a send returns only to the call that holds the
/// guard; and only the holder can poison it.
pub open spec fn enabled(system: System, step: Step) -> bool {
    match step {
        Step::Receive { call, .. } => !system.calls.dom().contains(call),
        Step::Deliver { call, event } => system.calls.dom().contains(call) && match event {
            Event::GuardAcquired => system.holder is None && !system.poisoned
                && system.calls[call].phase == Phase::AwaitingGuard,
            Event::GuardPoisoned => system.poisoned && system.calls[call].phase
                == Phase::AwaitingGuard,
            Event::SendReturned(_) => system.holder == Some(call),
        },
        Step::Panic { call } => system.holder == Some(call),
    }
}

/// The journal after the host has performed `action` for `call`.
pub open spec fn record(journal: Seq<Invocation>, call: nat, action: ActionView) -> Seq<
    Invocation,
> {
    match action {
        ActionView::Send(delivery) => journal.push(Invocation { call, delivery }),
        _ => journal,
    }
}

/// The system after `step`.
pub open spec fn apply(system: System, step: Step) -> System {
    match step {
        Step::Receive { call, recipients, subject, text } => System {
            calls: system.calls.insert(call, initial(recipients, subject, text)),
            ..system
        },
        Step::Deliver { call, event } => {
            let (next, action) = advance(system.calls[call], event);
            System {
                calls: system.calls.insert(call, next),
                holder: if action is Send {
                    Some(call)
                } else {
                    None
                },
                journal: record(system.journal, call, action),
                ..system
            }
        },
        Step::Panic { call } => System { holder: None, poisoned: true, ..system },
    }
}

/// Whether `steps` can happen one after the other from the start.
pub open spec fn admissible(steps: Seq<Step>) -> bool
    decreases steps.len(),
{
    steps.len() > 0 ==> admissible(steps.drop_last()) && enabled(
        after(steps.drop_last()),
        steps.last(),
    )
}

/// The system after `steps`, taken from the start.
pub open spec fn after(steps: Seq<Step>) -> System
    decreases steps.len(),
{
    if steps.len() == 0 {
        start()
    } else {
        apply(after(steps.drop_last()), steps.last())
    }
}

/// The sends of each call form one block of the journal: between two sends
/// of a call there is no send of another.
pub open spec fn contiguous(journal: Seq<Invocation>) -> bool {
    forall|i: int, j: int, k: int|
        #![trigger journal[i], journal[j], journal[k]]
        0 <= i < j < k < journal.len() && journal[i].call == journal[k].call ==> journal[j].call
            == journal[i].call
}

/// What holds of the system whatever has happened.
pub open spec fn sound(system: System) -> bool {
    &&& contiguous(system.journal)
    &&& forall|i: int|
        0 <= i < system.journal.len() ==> system.calls.dom().contains(
            (#[trigger] system.journal[i]).call,
        ) && system.calls[system.journal[i].call].phase != Phase::AwaitingGuard
    &&& system.holder matches Some(holder) ==> {
        &&& !system.poisoned
        &&& system.calls.dom().contains(holder)
        &&& system.calls[holder].phase == Phase::Sending
        &&& system.journal.len() > 0
        &&& system.journal.last().call == holder
    }
}

/// Every step that can happen keeps the system sound.
pub proof fn lemma_step_keeps_sound(system: System, step: Step)
    requires
        sound(system),
        enabled(system, step),
    ensures
        sound(apply(system, step)),
{
    let next = apply(system, step);
    match step {
        Step::Receive { call, .. } => {
            assert forall|i: int| 0 <= i < next.journal.len() implies next.calls.dom().contains(
                (#[trigger] next.journal[i]).call,
            ) && next.calls[next.journal[i].call].phase != Phase::AwaitingGuard by {
                assert(system.journal[i].call != call);
            }
        },
        Step::Deliver { call, event } => {
            let action = advance(system.calls[call], event).1;
            let sent = system.journal.len() as int;
            assert forall|i: int| 0 <= i < next.journal.len() implies next.calls.dom().contains(
                (#[trigger] next.journal[i]).call,
            ) && next.calls[next.journal[i].call].phase != Phase::AwaitingGuard by {
                if i < sent {
                    assert(system.calls.dom().contains(system.journal[i].call));
                }
            }
            if action is Send {
                assert forall|i: int, j: int, k: int|
                    #![trigger next.journal[i], next.journal[j], next.journal[k]]
                    0 <= i < j < k < next.journal.len() && next.journal[i].call
                        == next.journal[k].call implies next.journal[j].call
                        == next.journal[i].call by {
                    if k == sent {
                        // The call has sent before, so it is the holder and
                        // made the last send of the journal as it was.
                        assert(system.journal[i].call == call);
                        if j < sent - 1 {
                            assert(system.journal[i].call == system.journal[sent - 1].call);
                            assert(system.journal[j].call == system.journal[i].call);
                        }
                    } else {
                        assert(system.journal[j].call == system.journal[i].call);
                    }
                }
            }
        },
        Step::Panic { .. } => {},
    }
}

/// Whatever has happened, the system is sound.
pub proof fn lemma_always_sound(steps: Seq<Step>)
    requires
        admissible(steps),
    ensures
        sound(after(steps)),
    decreases steps.len(),
{
    if steps.len() > 0 {
        lemma_always_sound(steps.drop_last());
        lemma_step_keeps_sound(after(steps.drop_last()), steps.last());
    }
}

/// The sends of concurrent calls never interleave: whatever calls arrive and
/// however the host schedules them, the sends of each call form one
/// contiguous block of the mailer's invocation sequence.
pub proof fn lemma_sends_never_interleave(steps: Seq<Step>)
    requires
        admissible(steps),
    ensures
        contiguous(after(steps).journal),
{
    lemma_always_sound(steps);
}

/// The sends that `call` has made, in the order of the journal.
pub open spec fn sends_by(journal: Seq<Invocation>, call: nat) -> Seq<DeliveryView>
    decreases journal.len(),
{
    if journal.len() == 0 {
        Seq::empty()
    } else if journal.last().call == call {
        sends_by(journal.drop_last(), call).push(journal.last().delivery)
    } else {
        sends_by(journal.drop_last(), call)
    }
}

/// The sends for the first `call.attempted` recipients of a call, in list order.
pub open spec fn attempted_sends(call: CallView) -> Seq<DeliveryView> {
    Seq::new(call.attempted, |index: int| delivery_at(call, index))
}

/// Every call has made the sends for a prefix of its recipient list, in list
/// order and nothing else, and a completed call has made them all.
pub open spec fn orderly(system: System) -> bool {
    &&& forall|call: nat|
        !system.calls.dom().contains(call) ==> #[trigger] sends_by(system.journal, call)
            == Seq::<DeliveryView>::empty()
    &&& forall|call: nat| #[trigger]
        system.calls.dom().contains(call) ==> {
            &&& sends_by(system.journal, call) == attempted_sends(system.calls[call])
            &&& system.calls[call].attempted <= system.calls[call].recipients.len()
            &&& system.calls[call].phase == Phase::Completed ==> system.calls[call].attempted
                == system.calls[call].recipients.len()
            &&& system.calls[call].phase == Phase::AwaitingGuard ==> system.calls[call].attempted
                == 0
        }
}

/// Every step that can happen keeps the system orderly.
pub proof fn lemma_step_keeps_orderly(system: System, step: Step)
    requires
        orderly(system),
        enabled(system, step),
    ensures
        orderly(apply(system, step)),
{
    let next = apply(system, step);
    match step {
        Step::Receive { call, recipients, subject, text } => {
            assert(attempted_sends(initial(recipients, subject, text))
                == Seq::<DeliveryView>::empty());
            assert(sends_by(system.journal, call) == Seq::<DeliveryView>::empty());
            assert forall|other: nat| #[trigger]
                next.calls.dom().contains(other) implies sends_by(next.journal, other)
                == attempted_sends(next.calls[other]) by {
                if other != call {
                    assert(system.calls.dom().contains(other));
                }
            }
        },
        Step::Deliver { call, event } => {
            let before = system.calls[call];
            let (moved, action) = advance(before, event);
            assert(system.calls.dom().contains(call));
            match action {
                ActionView::Send(delivery) => {
                    assert(next.journal.drop_last() == system.journal);
                    assert(attempted_sends(moved) == attempted_sends(before).push(delivery));
                },
                _ => {
                    assert(attempted_sends(moved) == attempted_sends(before));
                },
            }
            assert forall|other: nat|
                !next.calls.dom().contains(other) implies #[trigger] sends_by(
                next.journal,
                other,
            ) == Seq::<DeliveryView>::empty() by {
                assert(sends_by(system.journal, other) == Seq::<DeliveryView>::empty());
            }
            assert forall|other: nat| #[trigger]
                next.calls.dom().contains(other) implies sends_by(next.journal, other)
                == attempted_sends(next.calls[other]) by {
                assert(system.calls.dom().contains(other));
            }
        },
        Step::Panic { .. } => {},
    }
}

/// Whatever has happened, the system is orderly.
pub proof fn lemma_always_orderly(steps: Seq<Step>)
    requires
        admissible(steps),
    ensures
        orderly(after(steps)),
    decreases steps.len(),
{
    if steps.len() > 0 {
        lemma_always_orderly(steps.drop_last());
        lemma_step_keeps_orderly(after(steps.drop_last()), steps.last());
    }
}

/// Also among concurrent calls, the sends that one call has made are those
/// for the first recipients of its list, one each and in list order; a call
/// that has completed has sent to every recipient, and one that still waits
/// for the guard to none.
pub proof fn lemma_each_call_sends_in_list_order(steps: Seq<Step>, call: nat)
    requires
        admissible(steps),
        after(steps).calls.dom().contains(call),
    ensures
        sends_by(after(steps).journal, call) == attempted_sends(after(steps).calls[call]),
        after(steps).calls[call].attempted <= after(steps).calls[call].recipients.len(),
        after(steps).calls[call].phase == Phase::Completed ==> after(steps).calls[call].attempted
            == after(steps).calls[call].recipients.len(),
        after(steps).calls[call].phase == Phase::AwaitingGuard ==> after(
            steps,
        ).calls[call].attempted == 0,
{
    lemma_always_orderly(steps);
}

/// Once the guard is poisoned the mailer is never used again: whatever
/// happens next, the guard stays poisoned and free, and nothing is sent.
pub proof fn lemma_poisoned_guard_ends_all_sending(steps: Seq<Step>, step: Step)
    requires
        admissible(steps),
        after(steps).poisoned,
        enabled(after(steps), step),
    ensures
        apply(after(steps), step).poisoned,
        apply(after(steps), step).holder is None,
        apply(after(steps), step).journal == after(steps).journal,
{
    lemma_always_sound(steps);
}

} // verus!
