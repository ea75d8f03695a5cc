//! The `send_email` procedure as a state machine.
//!
//! One call fans its recipient list out into single-recipient sends, all of
//! them made while the call holds the exclusive guard over the shared mailer.
//! Taking the guard and sending are the host's work; what to do next is
//! decided here. The host creates a [`SendEmailCall`], tries to take the
//! guard, and from then on hands every outcome to [`SendEmailCall::advance`]
//! and performs the [`Action`] that comes back.

use vstd::prelude::*;
use crate::mailer::{Delivery, DeliveryView};
use crate::text::views_of;

verus! {

/// Where a call stands.
#[derive(Debug, Clone, Copy, PartialEq, Eq, Structural)]
pub enum Phase {
    /// Created; the guard over the mailer has not been granted yet.
    AwaitingGuard,
    /// Holding the guard, with one send handed to the transport.
    Sending,
    /// Every recipient was attempted, the guard is released, success is reported.
    Completed,
    /// The guard was found poisoned; the call must not touch the mailer.
    Faulted,
}

/// What the transport reported of one send.
#[derive(Debug, Clone, Copy, PartialEq, Eq, Structural)]
pub enum SendOutcome {
    Delivered,
    Failed,
}

/// What the host reports back to a call.
#[derive(Debug, Clone, Copy, PartialEq, Eq, Structural)]
pub enum Event {
    /// The guard over the mailer was granted to this call.
    GuardAcquired,
    /// The guard is poisoned: an earlier holder ended abnormally.
    GuardPoisoned,
    /// The send that was last asked for has returned.
    SendReturned(SendOutcome),
}

/// What the host is to do next for a call.
#[derive(Debug, PartialEq, Eq)]
pub enum Action {
    /// Make this one send through the mailer, still holding the guard.
    Send(Delivery),
    /// Release the guard and report success to the caller.
    ReleaseAndReply,
    /// Give the call up as a process-level fault, without using the mailer.
    Abort,
    /// The event was not expected where the call stands; nothing is to be done.
    Ignore,
}

/// Mathematical model of an [`Action`].
pub enum ActionView {
    Send(DeliveryView),
    ReleaseAndReply,
    Abort,
    Ignore,
}

impl View for Action {
    type V = ActionView;

    open spec fn view(&self) -> ActionView {
        match self {
            Action::Send(delivery) => ActionView::Send(delivery@),
            Action::ReleaseAndReply => ActionView::ReleaseAndReply,
            Action::Abort => ActionView::Abort,
            Action::Ignore => ActionView::Ignore,
        }
    }
}

/// Mathematical model of a call: the request as received, the number of sends
/// asked for so far, and the phase.
pub struct CallView {
    pub recipients: Seq<Seq<char>>,
    pub subject: Seq<char>,
    pub text: Seq<char>,
    pub attempted: nat,
    pub phase: Phase,
}

/// The call as it stands when the request has just been received.
pub open spec fn initial(
    recipients: Seq<Seq<char>>,
    subject: Seq<char>,
    text: Seq<char>,
) -> CallView {
    CallView { recipients, subject, text, attempted: 0, phase: Phase::AwaitingGuard }
}

/// The send for the recipient at position `index` of the call's list.
pub open spec fn delivery_at(call: CallView, index: int) -> DeliveryView {
    DeliveryView { recipient: call.recipients[index], subject: call.subject, text: call.text }
}

/// The step of a call that holds the guard and has no send in flight: the
/// next recipient in list order is sent to, or, when none is left, the call
/// completes.
pub open spec fn proceed(call: CallView) -> (CallView, ActionView) {
    if call.attempted < call.recipients.len() {
        (
            CallView { attempted: call.attempted + 1, phase: Phase::Sending, ..call },
            ActionView::Send(delivery_at(call, call.attempted as int)),
        )
    } else {
        (CallView { phase: Phase::Completed, ..call }, ActionView::ReleaseAndReply)
    }
}

/// The transition function of a call. What a send reported plays no part in
/// it: a failed send is followed by the next one like a delivered one.
pub open spec fn advance(call: CallView, event: Event) -> (CallView, ActionView) {
    match (call.phase, event) {
        (Phase::AwaitingGuard, Event::GuardAcquired) => proceed(call),
        (Phase::AwaitingGuard, Event::GuardPoisoned) => (
            CallView { phase: Phase::Faulted, ..call },
            ActionView::Abort,
        ),
        (Phase::Sending, Event::SendReturned(_)) => proceed(call),
        _ => (call, ActionView::Ignore),
    }
}

/// One `send_email` call in progress.
#[derive(Debug)]
pub struct SendEmailCall {
    recipients: Vec<String>,
    subject: String,
    text: String,
    attempted: usize,
    phase: Phase,
}

impl View for SendEmailCall {
    type V = CallView;

    closed spec fn view(&self) -> CallView {
        CallView {
            recipients: views_of(self.recipients@),
            subject: self.subject@,
            text: self.text@,
            attempted: self.attempted as nat,
            phase: self.phase,
        }
    }
}

impl SendEmailCall {
    /// Receives a request. The recipient list may be empty, and nothing of
    /// the three arguments is validated.
    pub fn new(recipients: Vec<String>, subject: String, text: String) -> (call: SendEmailCall)
        ensures
            call@ == initial(views_of(recipients@), subject@, text@),
    {
        SendEmailCall { recipients, subject, text, attempted: 0, phase: Phase::AwaitingGuard }
    }

    /// Where the call stands.
    pub fn phase(&self) -> (phase: Phase)
        ensures
            phase == self@.phase,
    {
        self.phase
    }

    /// The number of sends asked for so far.
    pub fn attempted(&self) -> (attempted: usize)
        ensures
            attempted == self@.attempted,
    {
        self.attempted
    }

    /// Takes one event and says what the host is to do next.
    pub fn advance(&mut self, event: Event) -> (action: Action)
        ensures
            (final(self)@, action@) == advance(old(self)@, event),
    {
        match (self.phase, event) {
            (Phase::AwaitingGuard, Event::GuardAcquired) => self.proceed(),
            (Phase::AwaitingGuard, Event::GuardPoisoned) => {
                self.phase = Phase::Faulted;
                Action::Abort
            },
            (Phase::Sending, Event::SendReturned(_)) => self.proceed(),
            _ => Action::Ignore,
        }
    }

    fn proceed(&mut self) -> (action: Action)
        ensures
            (final(self)@, action@) == proceed(old(self)@),
    {
        if self.attempted < self.recipients.len() {
            let delivery = Delivery {
                recipient: self.recipients[self.attempted].clone(),
                subject: self.subject.clone(),
                text: self.text.clone(),
            };
            self.attempted = self.attempted + 1;
            self.phase = Phase::Sending;
            Action::Send(delivery)
        } else {
            self.phase = Phase::Completed;
            Action::ReleaseAndReply
        }
    }
}

/// The state reached and the actions asked for, in order, when `events` are
/// handed to a call one after the other.
pub open spec fn run(call: CallView, events: Seq<Event>) -> (CallView, Seq<ActionView>)
    decreases events.len(),
{
    if events.len() == 0 {
        (call, Seq::empty())
    } else {
        let (before, actions) = run(call, events.drop_last());
        let (after, action) = advance(before, events.last());
        (after, actions.push(action))
    }
}

/// The events that a call sees when the guard is granted and the transport
/// then reports `outcomes`, one per send.
pub open spec fn served(outcomes: Seq<SendOutcome>) -> Seq<Event> {
    seq![Event::GuardAcquired] + outcomes.map_values(
        |outcome: SendOutcome| Event::SendReturned(outcome),
    )
}

/// One send per recipient of the call, in list order.
pub open spec fn sends_of(call: CallView) -> Seq<ActionView> {
    Seq::new(call.recipients.len(), |index: int| ActionView::Send(delivery_at(call, index)))
}

proof fn lemma_run_while_sending(call: CallView, outcomes: Seq<SendOutcome>, reported: nat)
    requires
        call.phase == Phase::AwaitingGuard,
        call.attempted == 0,
        reported < call.recipients.len(),
        reported <= outcomes.len(),
    ensures
        run(call, served(outcomes).take(reported as int + 1)) == (
            CallView { attempted: reported + 1, phase: Phase::Sending, ..call },
            sends_of(call).take(reported as int + 1),
        ),
    decreases reported,
{
    let events = served(outcomes).take(reported as int + 1);
    let earlier = served(outcomes).take(reported as int);
    assert(events.drop_last() == earlier);
    if reported == 0 {
        assert(run(call, earlier) == (call, Seq::<ActionView>::empty()));
        assert(events.last() == Event::GuardAcquired);
        assert(sends_of(call).take(1) == Seq::<ActionView>::empty().push(
            ActionView::Send(delivery_at(call, 0)),
        ));
    } else {
        lemma_run_while_sending(call, outcomes, (reported - 1) as nat);
        assert(events.last() == Event::SendReturned(outcomes[reported - 1]));
        assert(sends_of(call).take(reported as int + 1) == sends_of(call).take(
            reported as int,
        ).push(ActionView::Send(delivery_at(call, reported as int))));
    }
}

/// A call whose guard is granted asks for exactly one send per recipient, in
/// the order of the list, then releases the guard and reports success,
/// whatever the transport reported of the sends.
pub proof fn lemma_one_send_per_recipient_in_order(
    recipients: Seq<Seq<char>>,
    subject: Seq<char>,
    text: Seq<char>,
    outcomes: Seq<SendOutcome>,
)
    requires
        outcomes.len() == recipients.len(),
    ensures
        run(initial(recipients, subject, text), served(outcomes)) == (
            CallView {
                attempted: recipients.len(),
                phase: Phase::Completed,
                ..initial(recipients, subject, text)
            },
            sends_of(initial(recipients, subject, text)).push(ActionView::ReleaseAndReply),
        ),
{
    let call = initial(recipients, subject, text);
    let events = served(outcomes);
    let count = recipients.len();
    assert(events.drop_last() == events.take(count as int));
    if count == 0 {
        assert(run(call, events.drop_last()) == (call, Seq::<ActionView>::empty()));
        assert(events.last() == Event::GuardAcquired);
        assert(sends_of(call) == Seq::<ActionView>::empty());
    } else {
        lemma_run_while_sending(call, outcomes, (count - 1) as nat);
        assert(events.last() == Event::SendReturned(outcomes[count - 1]));
        assert(sends_of(call).take(count as int) == sends_of(call));
    }
}

/// A call with no recipient asks for no send: once the guard is granted it
/// releases it again and reports success.
pub proof fn lemma_no_recipient_no_send(subject: Seq<char>, text: Seq<char>)
    ensures
        advance(initial(Seq::empty(), subject, text), Event::GuardAcquired) == (
            CallView { phase: Phase::Completed, ..initial(Seq::empty(), subject, text) },
            ActionView::ReleaseAndReply,
        ),
{
}

/// A call that finds the guard poisoned is given up and never uses the
/// mailer: it answers the poisoned guard with an abort, and whatever it is
/// handed afterwards it ignores.
pub proof fn lemma_poisoned_guard_aborts_the_call(
    recipients: Seq<Seq<char>>,
    subject: Seq<char>,
    text: Seq<char>,
    later: Seq<Event>,
)
    ensures
        run(initial(recipients, subject, text), seq![Event::GuardPoisoned] + later) == (
            CallView { phase: Phase::Faulted, ..initial(recipients, subject, text) },
            seq![ActionView::Abort] + Seq::new(later.len(), |index: int| ActionView::Ignore),
        ),
    decreases later.len(),
{
    let call = initial(recipients, subject, text);
    let events = seq![Event::GuardPoisoned] + later;
    let ignored = Seq::new(later.len(), |index: int| ActionView::Ignore);
    if later.len() == 0 {
        assert(events.drop_last() == Seq::<Event>::empty());
        assert(run(call, events.drop_last()) == (call, Seq::<ActionView>::empty()));
        assert(seq![ActionView::Abort] + ignored == Seq::<ActionView>::empty().push(
            ActionView::Abort,
        ));
    } else {
        lemma_poisoned_guard_aborts_the_call(recipients, subject, text, later.drop_last());
        assert(events.drop_last() == seq![Event::GuardPoisoned] + later.drop_last());
        assert(seq![ActionView::Abort] + ignored == (seq![ActionView::Abort] + Seq::new(
            later.drop_last().len(),
            |index: int| ActionView::Ignore,
        )).push(ActionView::Ignore));
    }
}

} // verus!
