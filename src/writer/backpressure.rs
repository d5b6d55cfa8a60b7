//! The bounded command channel's overflow policy and its counters.
use vstd::prelude::*;
use crate::metrics::{MetricName, MetricUpdate};
use crate::settings::BackpressurePolicy;
use crate::writer::file_writer::FileWriterCommand;
use tokio::sync::mpsc::error::TrySendError;
use tokio::sync::mpsc::Sender;

verus! {

/// At most one backpressure warning per this many milliseconds.
pub const LOG_INTERVAL_MILLIS: u64 = 5000;

/// What a non-blocking send into the channel reported.
#[derive(Debug, Clone, Copy, PartialEq, Eq, Structural)]
pub enum TrySendOutcome {
    Accepted,
    Full,
    Closed,
}

/// What the producer does with its command after the non-blocking send.
#[derive(Debug, Clone, Copy, PartialEq, Eq, Structural)]
pub enum SendAction {
    /// The channel took the command.
    Delivered,
    /// Block: wait for a slot and send again.
    WaitForSlot,
    /// Discard: the command is dropped; the caller still sees success.
    Dropped,
    /// The sink is gone: report an error to the caller.
    ChannelClosed,
}

/// The action for a send outcome under a policy.
pub open spec fn send_action(policy: BackpressurePolicy, outcome: TrySendOutcome) -> SendAction {
    match outcome {
        TrySendOutcome::Accepted => SendAction::Delivered,
        TrySendOutcome::Closed => SendAction::ChannelClosed,
        TrySendOutcome::Full => match policy {
            BackpressurePolicy::Block => SendAction::WaitForSlot,
            BackpressurePolicy::Discard => SendAction::Dropped,
        },
    }
}

/// Chooses what to do after a non-blocking send.
pub fn decide(policy: BackpressurePolicy, outcome: TrySendOutcome) -> (r: SendAction)
    ensures
        r == send_action(policy, outcome),
{
    match outcome {
        TrySendOutcome::Accepted => SendAction::Delivered,
        TrySendOutcome::Closed => SendAction::ChannelClosed,
        TrySendOutcome::Full => match policy {
            BackpressurePolicy::Block => SendAction::WaitForSlot,
            BackpressurePolicy::Discard => SendAction::Dropped,
        },
    }
}

/// The channel was full.
pub fn event() -> (r: MetricUpdate)
    ensures
        r == MetricUpdate::Counter(MetricName::BackpressureEvents, 1),
{
    MetricUpdate::Counter(MetricName::BackpressureEvents, 1)
}

/// One more, stopping at the largest `u64`.
pub open spec fn bump(x: u64) -> u64 {
    if x < u64::MAX {
        (x + 1) as u64
    } else {
        x
    }
}

/// The result of one send attempt.
#[derive(Debug, Clone, Copy, PartialEq, Eq, Structural)]
pub struct SendStep {
    pub action: SendAction,
    /// Whether to print the rate-limited warning now.
    pub warn: bool,
}

/// The sender's counters of full-channel events and dropped commands, and the
/// time of its last warning. Under `Block` nothing is ever dropped.
#[derive(Debug, Clone, Copy)]
pub struct BackpressureCounters {
    policy: BackpressurePolicy,
    events: u64,
    dropped: u64,
    last_log_millis: u64,
}

impl BackpressureCounters {
    #[verifier::type_invariant]
    spec fn never_drops_when_blocking(self) -> bool {
        self.policy == BackpressurePolicy::Block ==> self.dropped == 0
    }

    pub closed spec fn policy_spec(self) -> BackpressurePolicy {
        self.policy
    }

    pub closed spec fn events_spec(self) -> u64 {
        self.events
    }

    pub closed spec fn dropped_spec(self) -> u64 {
        self.dropped
    }

    pub closed spec fn last_log_spec(self) -> u64 {
        self.last_log_millis
    }

    /// True when one send with `outcome` at `now_millis` prints the warning.
    pub closed spec fn warns(self, outcome: TrySendOutcome, now_millis: u64) -> bool {
        outcome == TrySendOutcome::Full && now_millis >= self.last_log_millis && now_millis
            - self.last_log_millis >= LOG_INTERVAL_MILLIS
    }

    /// The counters after one send with `outcome` at `now_millis`.
    pub closed spec fn after(self, outcome: TrySendOutcome, now_millis: u64) -> BackpressureCounters {
        if outcome == TrySendOutcome::Full {
            BackpressureCounters {
                policy: self.policy,
                events: bump(self.events),
                dropped: if self.policy == BackpressurePolicy::Discard {
                    bump(self.dropped)
                } else {
                    self.dropped
                },
                last_log_millis: if self.warns(outcome, now_millis) {
                    now_millis
                } else {
                    self.last_log_millis
                },
            }
        } else {
            self
        }
    }

    /// Fresh counters; the warning clock starts at `now_millis`.
    pub closed spec fn new_spec(policy: BackpressurePolicy, now_millis: u64) -> BackpressureCounters {
        BackpressureCounters { policy, events: 0, dropped: 0, last_log_millis: now_millis }
    }

    pub fn new(policy: BackpressurePolicy, now_millis: u64) -> (r: BackpressureCounters)
        ensures
            r == BackpressureCounters::new_spec(policy, now_millis),
            r.policy_spec() == policy,
            r.events_spec() == 0,
            r.dropped_spec() == 0,
            r.last_log_spec() == now_millis,
    {
        BackpressureCounters { policy, events: 0, dropped: 0, last_log_millis: now_millis }
    }

    /// Accounts for one non-blocking send at `now_millis`. A full channel
    /// counts one event under either policy and, under `Discard`, one dropped
    /// command. A warning is due when the channel is full and at least
    /// `LOG_INTERVAL_MILLIS` have passed since the last one.
    pub fn record(&mut self, outcome: TrySendOutcome, now_millis: u64) -> (r: SendStep)
        ensures
            r.action == send_action(old(self).policy_spec(), outcome),
            *final(self) == old(self).after(outcome, now_millis),
            r.warn == old(self).warns(outcome, now_millis),
            final(self).policy_spec() == old(self).policy_spec(),
            final(self).events_spec() == (if outcome == TrySendOutcome::Full {
                bump(old(self).events_spec())
            } else {
                old(self).events_spec()
            }),
            final(self).dropped_spec() == (if r.action == SendAction::Dropped {
                bump(old(self).dropped_spec())
            } else {
                old(self).dropped_spec()
            }),
            r.warn == (outcome == TrySendOutcome::Full && now_millis >= old(self).last_log_spec()
                && now_millis - old(self).last_log_spec() >= LOG_INTERVAL_MILLIS),
            final(self).last_log_spec() == (if r.warn {
                now_millis
            } else {
                old(self).last_log_spec()
            }),
            final(self).policy_spec() == BackpressurePolicy::Block ==> final(self).dropped_spec()
                == 0,
    {
        proof {
            use_type_invariant(&*self);
        }
        let action = decide(self.policy, outcome);
        let mut warn = false;
        if outcome == TrySendOutcome::Full {
            if self.events < u64::MAX {
                self.events = self.events + 1;
            }
            if action == SendAction::Dropped && self.dropped < u64::MAX {
                self.dropped = self.dropped + 1;
            }
            if now_millis >= self.last_log_millis && now_millis - self.last_log_millis
                >= LOG_INTERVAL_MILLIS {
                warn = true;
                self.last_log_millis = now_millis;
            }
        }
        proof {
            use_type_invariant(&*self);
        }
        SendStep { action, warn }
    }

    /// The number of full-channel events so far.
    pub fn backpressure_events(&self) -> (r: u64)
        ensures
            r == self.events_spec(),
    {
        self.events
    }

    /// The number of dropped commands so far; always 0 under `Block`.
    pub fn dropped_messages(&self) -> (r: u64)
        ensures
            r == self.dropped_spec(),
            self.policy_spec() == BackpressurePolicy::Block ==> r == 0,
    {
        proof {
            use_type_invariant(self);
        }
        self.dropped
    }

    /// Returns the event count and sets it to zero.
    pub fn reset_backpressure_events(&mut self) -> (r: u64)
        ensures
            r == old(self).events_spec(),
            final(self).events_spec() == 0,
            final(self).dropped_spec() == old(self).dropped_spec(),
            final(self).policy_spec() == old(self).policy_spec(),
            final(self).last_log_spec() == old(self).last_log_spec(),
    {
        proof {
            use_type_invariant(&*self);
        }
        let r = self.events;
        self.events = 0;
        r
    }

    /// Returns the dropped count and sets it to zero.
    pub fn reset_dropped_messages(&mut self) -> (r: u64)
        ensures
            r == old(self).dropped_spec(),
            final(self).dropped_spec() == 0,
            final(self).events_spec() == old(self).events_spec(),
            final(self).policy_spec() == old(self).policy_spec(),
            final(self).last_log_spec() == old(self).last_log_spec(),
    {
        let r = self.dropped;
        self.dropped = 0;
        r
    }
}

/// What a non-blocking send did with the command it was given.
pub enum TrySend {
    Accepted,
    Full(FileWriterCommand),
    Closed(FileWriterCommand),
}

/// Relies on tokio's `mpsc::Sender::try_send`: it takes the command, or hands
/// the same command back and says whether the channel was full or closed.
#[verifier::external_body]
fn try_send(sender: &Sender<FileWriterCommand>, cmd: FileWriterCommand) -> (r: TrySend)
    ensures
        r matches TrySend::Full(c) ==> c == cmd,
        r matches TrySend::Closed(c) ==> c == cmd,
{
    match sender.try_send(cmd) {
        Ok(()) => TrySend::Accepted,
        Err(TrySendError::Full(c)) => TrySend::Full(c),
        Err(TrySendError::Closed(c)) => TrySend::Closed(c),
    }
}

#[verifier::external_type_specification]
#[verifier::external_body]
#[verifier::reject_recursive_types(T)]
pub struct ExSender<T>(Sender<T>);

/// What became of an offered command.
pub enum Offer {
    /// The channel took it.
    Sent,
    /// The channel is full under `Block`: wait for a slot and send it.
    Wait(FileWriterCommand),
    /// The channel is full under `Discard`: it was dropped and counted.
    Dropped,
    /// The sink is gone: the command comes back with the error.
    Closed(FileWriterCommand),
}

/// The producer side of the command channel with its overflow policy.
pub struct ChannelProducer {
    pub sender: Sender<FileWriterCommand>,
    pub counters: BackpressureCounters,
}

impl ChannelProducer {
    pub fn new(sender: Sender<FileWriterCommand>, policy: BackpressurePolicy, now_millis: u64) -> (r:
        ChannelProducer)
        ensures
            r.counters == BackpressureCounters::new_spec(policy, now_millis),
    {
        ChannelProducer { sender, counters: BackpressureCounters::new(policy, now_millis) }
    }

    /// Offers `cmd` to the channel without waiting and applies the policy to
    /// what the channel answered; the flag says whether to print the
    /// rate-limited warning. Whatever the channel answers, the counters move as
    /// `record` says for that answer.
    pub fn offer(&mut self, cmd: FileWriterCommand, now_millis: u64) -> (r: (Offer, bool))
        ensures
            final(self).sender == old(self).sender,
            match r.0 {
                Offer::Sent => final(self).counters == old(self).counters.after(
                    TrySendOutcome::Accepted,
                    now_millis,
                ) && !r.1,
                Offer::Wait(c) => c == cmd && old(self).counters.policy_spec()
                    == BackpressurePolicy::Block && final(self).counters == old(
                    self,
                ).counters.after(TrySendOutcome::Full, now_millis) && r.1 == old(
                    self,
                ).counters.warns(TrySendOutcome::Full, now_millis),
                Offer::Dropped => old(self).counters.policy_spec() == BackpressurePolicy::Discard
                    && final(self).counters == old(self).counters.after(
                    TrySendOutcome::Full,
                    now_millis,
                ) && r.1 == old(self).counters.warns(TrySendOutcome::Full, now_millis),
                Offer::Closed(c) => c == cmd && final(self).counters == old(self).counters.after(
                    TrySendOutcome::Closed,
                    now_millis,
                ) && !r.1,
            },
    {
        match try_send(&self.sender, cmd) {
            TrySend::Accepted => {
                let step = self.counters.record(TrySendOutcome::Accepted, now_millis);
                (Offer::Sent, step.warn)
            },
            TrySend::Full(c) => {
                let step = self.counters.record(TrySendOutcome::Full, now_millis);
                if step.action == SendAction::WaitForSlot {
                    (Offer::Wait(c), step.warn)
                } else {
                    (Offer::Dropped, step.warn)
                }
            },
            TrySend::Closed(c) => {
                let step = self.counters.record(TrySendOutcome::Closed, now_millis);
                (Offer::Closed(c), step.warn)
            },
        }
    }
}

/// An event on the ingestion path: a producer's non-blocking send of one
/// received message, or the sink writing one dequeued command.
#[derive(Debug, Clone, Copy, PartialEq, Eq, Structural)]
pub enum PipelineEvent {
    Ingest(TrySendOutcome),
    Written,
}

/// Messages handed to the channel (`messages_received_total`).
pub open spec fn received_count(events: Seq<PipelineEvent>) -> nat
    decreases events.len(),
{
    if events.len() == 0 {
        0
    } else {
        received_count(events.drop_last()) + if events.last() is Ingest {
            1nat
        } else {
            0nat
        }
    }
}

/// Messages dropped by the policy (`messages_dropped_total`).
pub open spec fn dropped_count(policy: BackpressurePolicy, events: Seq<PipelineEvent>) -> nat
    decreases events.len(),
{
    if events.len() == 0 {
        0
    } else {
        dropped_count(policy, events.drop_last()) + match events.last() {
            PipelineEvent::Ingest(o) => if send_action(policy, o) == SendAction::Dropped {
                1nat
            } else {
                0nat
            },
            PipelineEvent::Written => 0nat,
        }
    }
}

/// Messages the channel took, at once or after waiting for a slot.
pub open spec fn accepted_count(policy: BackpressurePolicy, events: Seq<PipelineEvent>) -> nat
    decreases events.len(),
{
    if events.len() == 0 {
        0
    } else {
        accepted_count(policy, events.drop_last()) + match events.last() {
            PipelineEvent::Ingest(o) => if send_action(policy, o) == SendAction::Delivered
                || send_action(policy, o) == SendAction::WaitForSlot {
                1nat
            } else {
                0nat
            },
            PipelineEvent::Written => 0nat,
        }
    }
}

/// Commands the sink wrote (`messages_written_total`).
pub open spec fn written_count(events: Seq<PipelineEvent>) -> nat
    decreases events.len(),
{
    if events.len() == 0 {
        0
    } else {
        written_count(events.drop_last()) + if events.last() is Written {
            1nat
        } else {
            0nat
        }
    }
}

/// While the channel stays open, every received message is written, dropped,
/// or still in flight in the channel: received = written + dropped + in flight,
/// where in flight is what the channel took and the sink has not yet written.
pub proof fn lemma_every_message_accounted(policy: BackpressurePolicy, events: Seq<PipelineEvent>)
    requires
        forall|i: int|
            0 <= i < events.len() ==> #[trigger] events[i] != PipelineEvent::Ingest(
                TrySendOutcome::Closed,
            ),
        written_count(events) <= accepted_count(policy, events),
    ensures
        received_count(events) == written_count(events) + dropped_count(policy, events) + (
        accepted_count(policy, events) - written_count(events)),
{
    lemma_received_split(policy, events);
}

proof fn lemma_received_split(policy: BackpressurePolicy, events: Seq<PipelineEvent>)
    requires
        forall|i: int|
            0 <= i < events.len() ==> #[trigger] events[i] != PipelineEvent::Ingest(
                TrySendOutcome::Closed,
            ),
    ensures
        received_count(events) == accepted_count(policy, events) + dropped_count(policy, events),
    decreases events.len(),
{
    if events.len() > 0 {
        let init = events.drop_last();
        assert forall|i: int| 0 <= i < init.len() implies #[trigger] init[i]
            != PipelineEvent::Ingest(TrySendOutcome::Closed) by {
            assert(init[i] == events[i]);
        }
        lemma_received_split(policy, init);
        assert(events[events.len() - 1] == events.last());
    }
}

/// Under `Block` no message is ever dropped, whatever happens.
pub proof fn lemma_block_drops_nothing(events: Seq<PipelineEvent>)
    ensures
        dropped_count(BackpressurePolicy::Block, events) == 0,
    decreases events.len(),
{
    if events.len() > 0 {
        lemma_block_drops_nothing(events.drop_last());
    }
}

} // verus!
