//! Carrying out a transfer of LCD packets.

use vstd::prelude::*;

verus! {

/// What a [`Transferring`] does next.
#[derive(Clone, Copy, Debug, PartialEq, Eq, Structural)]
pub enum TransferAction {
    /// Write the packet with this number.
    Write(usize),
    /// Read the acknowledgement. What it says, and whether it comes, does not matter.
    ReadAck,
    /// Leave off. Says whether all packets were written.
    Done(bool),
}

/// What came of the last action.
#[derive(Clone, Copy, Debug, PartialEq, Eq, Structural)]
pub enum TransferEvent {
    /// Whether the packet was written.
    Written(bool),
    AckRead,
}

/// What a [`Transferring`] waits for.
#[derive(Clone, Copy, Debug, PartialEq, Eq, Structural)]
pub enum TransferPhase {
    /// For the packet with this number to be written.
    Writing(usize),
    /// For the acknowledgement.
    Acknowledging,
    /// For nothing: it is over.
    Over,
}

/// A transfer of some packets, one after the other. The first one that cannot be written ends it.
#[derive(Clone, Copy, Debug, PartialEq, Eq, Structural)]
pub struct Transferring {
    /// How many packets there are.
    pub count: usize,
    pub phase: TransferPhase,
}

impl Transferring {
    /// A packet that is being written is one of those that there are.
    pub open spec fn wf(self) -> bool {
        self.phase matches TransferPhase::Writing(at) ==> at < self.count
    }

    /// The event answers the last action.
    pub open spec fn expects(self, event: TransferEvent) -> bool {
        match self.phase {
            TransferPhase::Writing(_) => event is Written,
            TransferPhase::Acknowledging => event is AckRead,
            TransferPhase::Over => false,
        }
    }

    /// The transfer in another phase.
    pub open spec fn at(self, phase: TransferPhase) -> Transferring {
        Transferring { phase, ..self }
    }

    /// What an event does.
    pub open spec fn turn(self, event: TransferEvent) -> (Transferring, TransferAction) {
        match (self.phase, event) {
            (TransferPhase::Writing(at), TransferEvent::Written(true)) => if at + 1 < self.count {
                (
                    self.at(TransferPhase::Writing((at + 1) as usize)),
                    TransferAction::Write((at + 1) as usize),
                )
            } else {
                (self.at(TransferPhase::Acknowledging), TransferAction::ReadAck)
            },
            (TransferPhase::Writing(_), _) => (
                self.at(TransferPhase::Over),
                TransferAction::Done(false),
            ),
            _ => (self.at(TransferPhase::Over), TransferAction::Done(true)),
        }
    }

    /// A transfer at its start.
    pub open spec fn begin(count: usize) -> Transferring {
        Transferring { count, phase: TransferPhase::Writing(0) }
    }

    /// Starts the transfer of so many packets, with its first action.
    pub fn start(count: usize) -> (started: (Transferring, TransferAction))
        requires
            0 < count,
        ensures
            started.0 == Transferring::begin(count),
            started.0.wf(),
            started.1 == TransferAction::Write(0),
    {
        (Transferring { count, phase: TransferPhase::Writing(0) }, TransferAction::Write(0))
    }

    /// Whether an event can be handed to [`Transferring::resume`].
    pub fn can_take(&self, event: &TransferEvent) -> (can: bool)
        ensures
            can == self.expects(*event),
    {
        match (self.phase, event) {
            (TransferPhase::Writing(_), TransferEvent::Written(_))
            | (TransferPhase::Acknowledging, TransferEvent::AckRead) => true,
            _ => false,
        }
    }

    /// Takes what came of the last action, and gives the next one.
    pub fn resume(&mut self, event: TransferEvent) -> (action: TransferAction)
        requires
            old(self).wf(),
            old(self).expects(event),
        ensures
            (*final(self), action) == old(self).turn(event),
            final(self).wf(),
    {
        match (self.phase, event) {
            (TransferPhase::Writing(at), TransferEvent::Written(true)) => {
                if at + 1 < self.count {
                    self.phase = TransferPhase::Writing(at + 1);
                    TransferAction::Write(at + 1)
                } else {
                    self.phase = TransferPhase::Acknowledging;
                    TransferAction::ReadAck
                }
            },
            (TransferPhase::Writing(_), _) => {
                self.phase = TransferPhase::Over;
                TransferAction::Done(false)
            },
            _ => {
                self.phase = TransferPhase::Over;
                TransferAction::Done(true)
            },
        }
    }
}

/// A transfer with all that it has done.
pub struct TransferRun {
    pub state: Transferring,
    pub actions: Seq<TransferAction>,
}

/// The transfer behind these events.
pub open spec fn transfer_run(count: usize, events: Seq<TransferEvent>) -> TransferRun
    decreases events.len(),
{
    if events.len() == 0 {
        TransferRun { state: Transferring::begin(count), actions: seq![TransferAction::Write(0)] }
    } else {
        let before = transfer_run(count, events.drop_last());
        let (state, action) = before.state.turn(events.last());
        TransferRun { state, actions: before.actions.push(action) }
    }
}

/// Each of these events answers the action before it.
pub open spec fn transfer_events(count: usize, events: Seq<TransferEvent>) -> bool
    decreases events.len(),
{
    events.len() > 0 ==> {
        &&& transfer_events(count, events.drop_last())
        &&& transfer_run(count, events.drop_last()).state.expects(events.last())
    }
}

/// The packets are written in order, each once. A transfer succeeds exactly when all were written, and
/// then its acknowledgement has been read. The first packet that cannot be written ends it without
/// success: no other packet is written, and no acknowledgement is read.
pub proof fn first_failed_write_ends_the_transfer(count: usize, events: Seq<TransferEvent>)
    requires
        0 < count,
        transfer_events(count, events),
    ensures
        ({
            let actions = transfer_run(count, events).actions;
            let last = actions.len() - 1;
            &&& last == events.len()
            &&& forall|k: int| #![trigger actions[k]]
                0 <= k <= last ==> match actions[k] {
                    TransferAction::Write(at) => at == k && k < count,
                    TransferAction::ReadAck => k == count,
                    TransferAction::Done(true) => k == last && k == count + 1,
                    TransferAction::Done(false) => k == last && k <= count && events[k - 1]
                        == TransferEvent::Written(false),
                }
            &&& forall|k: int|
                0 <= k < last ==> #[trigger] events[k] == TransferEvent::Written(false)
                    ==> actions[last] == TransferAction::Done(false)
        }),
{
    transfer_in_step(count, events);
}

proof fn transfer_in_step(count: usize, events: Seq<TransferEvent>)
    requires
        0 < count,
        transfer_events(count, events),
    ensures
        ({
            let run = transfer_run(count, events);
            let actions = run.actions;
            let last = actions.len() - 1;
            &&& run.state.count == count
            &&& last == events.len()
            &&& match run.state.phase {
                TransferPhase::Writing(at) => at == last && at < count,
                TransferPhase::Acknowledging => last == count,
                TransferPhase::Over => actions[last] is Done,
            }
            &&& run.state.phase != TransferPhase::Over ==> forall|k: int|
                0 <= k < last ==> #[trigger] events[k] != TransferEvent::Written(false)
            &&& forall|k: int| #![trigger actions[k]]
                0 <= k <= last ==> match actions[k] {
                    TransferAction::Write(at) => at == k && k < count,
                    TransferAction::ReadAck => k == count,
                    TransferAction::Done(true) => k == last && k == count + 1,
                    TransferAction::Done(false) => k == last && k <= count && events[k - 1]
                        == TransferEvent::Written(false),
                }
            &&& forall|k: int|
                0 <= k < last ==> #[trigger] events[k] == TransferEvent::Written(false)
                    ==> actions[last] == TransferAction::Done(false)
            &&& run.state.phase != TransferPhase::Over ==> !(actions[last] is Done)
        }),
    decreases events.len(),
{
    if events.len() > 0 {
        let front = events.drop_last();
        transfer_in_step(count, front);
        let before = transfer_run(count, front).actions;
        let actions = transfer_run(count, events).actions;
        assert(forall|k: int| 0 <= k < before.len() ==> actions[k] == before[k]);
        assert(forall|k: int| 0 <= k < front.len() ==> front[k] == events[k]);
    }
}

/// A transfer takes the answer to its last action: whether a packet was written, or that the
/// acknowledgement was read. Once it has left off it takes nothing.
pub proof fn transfers_take_their_answers(
    count: usize,
    events: Seq<TransferEvent>,
    event: TransferEvent,
)
    requires
        0 < count,
        transfer_events(count, events),
    ensures
        transfer_run(count, events).state.expects(event) == match transfer_run(
            count,
            events,
        ).actions.last() {
            TransferAction::Write(_) => event is Written,
            TransferAction::ReadAck => event is AckRead,
            TransferAction::Done(_) => false,
        },
{
    transfer_in_step(count, events);
    transfer_shows(count, events);
}

proof fn transfer_shows(count: usize, events: Seq<TransferEvent>)
    requires
        0 < count,
        transfer_events(count, events),
    ensures
        match transfer_run(count, events).state.phase {
            TransferPhase::Writing(_) => transfer_run(count, events).actions.last() is Write,
            TransferPhase::Acknowledging => transfer_run(count, events).actions.last() is ReadAck,
            TransferPhase::Over => transfer_run(count, events).actions.last() is Done,
        },
    decreases events.len(),
{
    if events.len() > 0 {
        transfer_shows(count, events.drop_last());
    }
}

} // verus!
