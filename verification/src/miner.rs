//! The background miner as a state machine: it waits one interval, mines one
//! block to the reward address, and so on until a step fails. The failure
//! that stops it is what it ends with.

use crate::bootstrap::{Action, ActionView, Event, EventView};
use crate::failure::Failure;
use vstd::prelude::*;

verus! {

/// Where a miner stands.
#[derive(Clone, Copy, Debug, PartialEq, Eq, Structural)]
pub enum MinerPhase {
    /// The interval before the next block is being waited for.
    Waiting,
    /// One block is being mined.
    Mining,
    /// A step failed with this failure: no more blocks are mined.
    Stopped(Failure),
}

/// A background miner.
#[derive(Clone, Debug, PartialEq, Eq)]
pub struct Miner {
    pub reward_address: String,
    pub interval_seconds: u64,
    /// Where the miner stands; once it has stopped, the failure that stopped it.
    pub phase: MinerPhase,
}

/// A background miner as a mathematical value.
pub struct MinerView {
    pub reward_address: Seq<char>,
    pub interval_seconds: u64,
    pub phase: MinerPhase,
}

impl View for Miner {
    type V = MinerView;

    open spec fn view(&self) -> MinerView {
        MinerView {
            reward_address: self.reward_address@,
            interval_seconds: self.interval_seconds,
            phase: self.phase,
        }
    }
}

impl MinerView {
    /// The state that follows this one when `event` is reported. A pause
    /// that is over is followed by one block, a block by the next pause. A
    /// failure stops the miner with that failure, and so does, as a malformed
    /// response, an event that does not answer what was asked. A miner that
    /// has stopped stays as it is.
    pub open spec fn step(self, event: EventView) -> MinerView {
        match (self.phase, event) {
            (MinerPhase::Stopped(_), _) => self,
            (_, EventView::Failed(failure)) => MinerView {
                phase: MinerPhase::Stopped(failure),
                ..self
            },
            (MinerPhase::Waiting, EventView::Waited) => MinerView {
                phase: MinerPhase::Mining,
                ..self
            },
            (MinerPhase::Mining, EventView::BlocksGenerated { height }) => MinerView {
                phase: MinerPhase::Waiting,
                ..self
            },
            _ => MinerView { phase: MinerPhase::Stopped(Failure::MalformedResponse), ..self },
        }
    }

    /// What is to be done in this state.
    pub open spec fn pending_action(self) -> ActionView {
        match self.phase {
            MinerPhase::Waiting => ActionView::WaitSeconds { seconds: self.interval_seconds },
            MinerPhase::Mining => ActionView::GenerateBlocks {
                count: 1,
                reward_address: self.reward_address,
            },
            MinerPhase::Stopped(_) => ActionView::Stop,
        }
    }

    /// The failure that stopped the miner, once it has stopped.
    pub open spec fn failure(self) -> Option<Failure> {
        match self.phase {
            MinerPhase::Stopped(failure) => Some(failure),
            _ => None,
        }
    }

    /// The state after `events` were reported one after another.
    pub open spec fn run(self, events: Seq<EventView>) -> MinerView
        decreases events.len(),
    {
        if events.len() == 0 {
            self
        } else {
            self.run(events.drop_last()).step(events.last())
        }
    }
}

/// The number of blocks that were reported mined among `events`.
pub open spec fn blocks_in(events: Seq<EventView>) -> nat
    decreases events.len(),
{
    if events.len() == 0 {
        0
    } else if events.last() is BlocksGenerated {
        blocks_in(events.drop_last()) + 1
    } else {
        blocks_in(events.drop_last())
    }
}

/// The number of pauses that were reported over among `events`.
pub open spec fn pauses_in(events: Seq<EventView>) -> nat
    decreases events.len(),
{
    if events.len() == 0 {
        0
    } else if events.last() is Waited {
        pauses_in(events.drop_last()) + 1
    } else {
        pauses_in(events.drop_last())
    }
}

/// What is reported while block after block is mined without a failure: for
/// each of `heights` a pause that is over, then the block that gave it.
pub open spec fn smooth_rounds(heights: Seq<u32>) -> Seq<EventView>
    decreases heights.len(),
{
    if heights.len() == 0 {
        Seq::empty()
    } else {
        smooth_rounds(heights.drop_last()).push(EventView::Waited).push(
            EventView::BlocksGenerated { height: heights.last() },
        )
    }
}

impl Miner {
    /// A miner that mines to `reward_address`, one block every
    /// `interval_seconds`, beginning with a pause.
    pub fn new(reward_address: String, interval_seconds: u64) -> (miner: Miner)
        ensures
            miner@ == (MinerView {
                reward_address: reward_address@,
                interval_seconds,
                phase: MinerPhase::Waiting,
            }),
    {
        Miner { reward_address, interval_seconds, phase: MinerPhase::Waiting }
    }

    /// What the driver is to do now.
    pub fn pending(&self) -> (action: Action)
        ensures
            action@ == self@.pending_action(),
    {
        match self.phase {
            MinerPhase::Waiting => Action::WaitSeconds { seconds: self.interval_seconds },
            MinerPhase::Mining => Action::GenerateBlocks {
                count: 1,
                reward_address: self.reward_address.clone(),
            },
            MinerPhase::Stopped(_) => Action::Stop,
        }
    }

    /// Takes in what the driver reports and moves on.
    pub fn advance(self, event: Event) -> (next: Miner)
        ensures
            next@ == self@.step(event@),
    {
        let mut next = self;
        next.phase = match next.phase {
            MinerPhase::Stopped(failure) => MinerPhase::Stopped(failure),
            MinerPhase::Waiting => match event {
                Event::Failed(failure) => MinerPhase::Stopped(failure),
                Event::Waited => MinerPhase::Mining,
                _ => MinerPhase::Stopped(Failure::MalformedResponse),
            },
            MinerPhase::Mining => match event {
                Event::Failed(failure) => MinerPhase::Stopped(failure),
                Event::BlocksGenerated { height } => MinerPhase::Waiting,
                _ => MinerPhase::Stopped(Failure::MalformedResponse),
            },
        };
        next
    }

    /// The failure that stopped the miner: `None` while it runs.
    pub fn failure(&self) -> (end: Option<Failure>)
        ensures
            end == self@.failure(),
    {
        match self.phase {
            MinerPhase::Stopped(failure) => Some(failure),
            _ => None,
        }
    }
}

/// What is reported one event later is one step later, and counted.
pub proof fn miner_run_after_one_more(miner: MinerView, events: Seq<EventView>, event: EventView)
    ensures
        miner.run(events.push(event)) == miner.run(events).step(event),
        blocks_in(events.push(event)) == blocks_in(events) + if event is BlocksGenerated {
            1nat
        } else {
            0nat
        },
        pauses_in(events.push(event)) == pauses_in(events) + if event is Waited {
            1nat
        } else {
            0nat
        },
{
    assert(events.push(event).drop_last() =~= events);
}

/// A miner that runs has mined one block for every pause but, while it is
/// mining, the last: it mines exactly one block per interval, to the same
/// address throughout.
pub proof fn one_block_per_interval(miner: MinerView, events: Seq<EventView>)
    requires
        miner.phase == MinerPhase::Waiting,
        !(miner.run(events).phase is Stopped),
    ensures
        miner.run(events).reward_address == miner.reward_address,
        miner.run(events).interval_seconds == miner.interval_seconds,
        miner.run(events).pending_action() is GenerateBlocks ==> miner.run(events).pending_action()
            == (ActionView::GenerateBlocks { count: 1, reward_address: miner.reward_address }),
        miner.run(events).phase == MinerPhase::Waiting ==> blocks_in(events) == pauses_in(events),
        miner.run(events).phase == MinerPhase::Mining ==> blocks_in(events) + 1 == pauses_in(
            events,
        ),
    decreases events.len(),
{
    if events.len() > 0 {
        one_block_per_interval(miner, events.drop_last());
    }
}

/// A miner that has stopped stays stopped with the failure that stopped it,
/// and asks for no more blocks.
pub proof fn stopped_miner_stays_stopped(miner: MinerView, events: Seq<EventView>)
    requires
        miner.phase is Stopped,
    ensures
        miner.run(events) == miner,
        miner.pending_action() is Stop,
    decreases events.len(),
{
    if events.len() > 0 {
        stopped_miner_stays_stopped(miner, events.drop_last());
    }
}

/// The first failure that is reported to a running miner is what the miner
/// ends with, whatever is reported afterwards; a miner never ends otherwise.
pub proof fn miner_ends_with_the_failure_that_stopped_it(
    miner: MinerView,
    failure: Failure,
    later: Seq<EventView>,
)
    requires
        !(miner.phase is Stopped),
    ensures
        miner.step(EventView::Failed(failure)).run(later) == (MinerView {
            phase: MinerPhase::Stopped(failure),
            ..miner
        }),
        miner.step(EventView::Failed(failure)).run(later).failure() == Some(failure),
        miner.step(EventView::Failed(failure)).run(later).pending_action() is Stop,
{
    stopped_miner_stays_stopped(miner.step(EventView::Failed(failure)), later);
}

/// While every block succeeds the miner goes on: after each block it waits
/// again, and it has mined as many blocks as pauses are over.
pub proof fn smooth_rounds_keep_the_miner_waiting(miner: MinerView, heights: Seq<u32>)
    requires
        miner.phase == MinerPhase::Waiting,
    ensures
        miner.run(smooth_rounds(heights)) == miner,
        blocks_in(smooth_rounds(heights)) == heights.len(),
        pauses_in(smooth_rounds(heights)) == heights.len(),
    decreases heights.len(),
{
    if heights.len() > 0 {
        let before = smooth_rounds(heights.drop_last());
        smooth_rounds_keep_the_miner_waiting(miner, heights.drop_last());
        miner_run_after_one_more(miner, before, EventView::Waited);
        miner_run_after_one_more(
            miner,
            before.push(EventView::Waited),
            EventView::BlocksGenerated { height: heights.last() },
        );
    }
}

/// A miner whose blocks succeed until one fails has asked for one block
/// after each pause, the failed one included, each to its reward address;
/// it then ends with the failure of that block and asks for nothing more.
pub proof fn miner_stops_at_the_first_failed_block(
    miner: MinerView,
    heights: Seq<u32>,
    failure: Failure,
)
    requires
        miner.phase == MinerPhase::Waiting,
    ensures
        ({
            let asked = smooth_rounds(heights).push(EventView::Waited);
            let ended = asked.push(EventView::Failed(failure));
            &&& miner.run(asked).pending_action() == (ActionView::GenerateBlocks {
                count: 1,
                reward_address: miner.reward_address,
            })
            &&& pauses_in(asked) == heights.len() + 1
            &&& blocks_in(ended) == heights.len()
            &&& miner.run(ended).failure() == Some(failure)
            &&& miner.run(ended).pending_action() is Stop
        }),
{
    let rounds = smooth_rounds(heights);
    smooth_rounds_keep_the_miner_waiting(miner, heights);
    miner_run_after_one_more(miner, rounds, EventView::Waited);
    miner_run_after_one_more(miner, rounds.push(EventView::Waited), EventView::Failed(failure));
}

} // verus!
