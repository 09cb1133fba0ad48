//! Waiting for the GPU.

use vstd::prelude::*;

verus! {

/// Maximum time (in milliseconds) to wait for a GPU fence to complete.
///
/// A GPU hang must never block the calling thread forever, so the wait is bounded.
pub const FENCE_WAIT_TIMEOUT_MS: u32 = 5000;

/// A fence that counts what was submitted.
#[derive(Debug, Clone, Copy, PartialEq, Eq, Structural)]
pub struct RendererFence {
    pub fence_val: u64,
}

impl RendererFence {
    /// A fence that nothing was submitted with.
    pub fn new() -> (r: RendererFence)
        ensures
            r.fence_val == 0,
    {
        RendererFence { fence_val: 0 }
    }

    /// The value that the queue is to signal for the next submission.
    pub fn next_value(&self) -> (r: u64)
        requires
            self.fence_val < u64::MAX,
        ensures
            r == self.fence_val + 1,
    {
        self.fence_val + 1
    }

    /// Counts one more submission, if the queue signalled [`Self::next_value`] for it. A value
    /// that was not signalled is never reached, so it is not counted.
    pub fn register(&mut self, signalled: bool)
        requires
            signalled ==> old(self).fence_val < u64::MAX,
        ensures
            final(self).fence_val == (if signalled {
                old(self).fence_val + 1
            } else {
                old(self).fence_val as int
            }),
    {
        if signalled {
            self.fence_val += 1;
        }
    }

    /// Latest value signalled by [`Self::register`].
    pub fn current_value(&self) -> (r: u64)
        ensures
            r == self.fence_val,
    {
        self.fence_val
    }

    /// Begins to wait for everything that was submitted.
    pub fn wait_pending(&self) -> (r: FenceWait)
        ensures
            r == (FenceWait { value: self.fence_val, stage: WaitStage::Querying }),
    {
        self.wait_value(self.fence_val)
    }

    /// Begins to wait until the fence reaches `value`.
    pub fn wait_value(&self, value: u64) -> (r: FenceWait)
        ensures
            r == (FenceWait { value, stage: WaitStage::Querying }),
    {
        FenceWait { value, stage: WaitStage::Querying }
    }
}

/// What came back from the system.
#[derive(Debug, Clone, Copy, PartialEq, Eq, Structural)]
pub enum WaitReply {
    /// The value that the fence has reached.
    Completed(u64),
    /// Whether the call succeeded.
    Done(bool),
}

/// What to ask of the system.
#[derive(Debug, Clone, Copy, PartialEq, Eq, Structural)]
pub enum WaitAction {
    QueryCompleted,
    /// Make an event that resets itself and is not signalled.
    CreateEvent,
    /// Have the event signalled once the fence reaches the value.
    SetEvent { value: u64 },
    /// Wait for the event, for so many milliseconds at most.
    WaitEvent { timeout_ms: u32 },
    CloseEvent,
    /// The wait is over.
    Finish,
}

/// How far a wait has come.
#[derive(Debug, Clone, Copy, PartialEq, Eq, Structural)]
pub enum WaitStage {
    Querying,
    CreatingEvent,
    SettingEvent,
    WaitingEvent,
    ClosingEvent,
    Over,
}

/// A wait in progress. It ends well whatever happens: once the value is reached, on timeout, and
/// where the device was removed or gives no event.
#[derive(Debug, Clone, Copy, PartialEq, Eq, Structural)]
pub struct FenceWait {
    pub value: u64,
    pub stage: WaitStage,
}

impl FenceWait {
    /// Whether `reply` answers what the wait asks.
    pub open spec fn awaits(self, reply: WaitReply) -> bool {
        match self.stage {
            WaitStage::Querying => reply is Completed,
            WaitStage::Over => false,
            _ => reply is Done,
        }
    }

    /// What the wait asks for.
    pub open spec fn asks(self) -> WaitAction {
        match self.stage {
            WaitStage::Querying => WaitAction::QueryCompleted,
            WaitStage::CreatingEvent => WaitAction::CreateEvent,
            WaitStage::SettingEvent => WaitAction::SetEvent { value: self.value },
            WaitStage::WaitingEvent => WaitAction::WaitEvent { timeout_ms: FENCE_WAIT_TIMEOUT_MS },
            WaitStage::ClosingEvent => WaitAction::CloseEvent,
            WaitStage::Over => WaitAction::Finish,
        }
    }

    /// Where the wait stands after `reply`.
    pub open spec fn next(self, reply: WaitReply) -> WaitStage {
        match (self.stage, reply) {
            (WaitStage::Querying, WaitReply::Completed(reached)) => {
                if reached >= self.value {
                    WaitStage::Over
                } else {
                    WaitStage::CreatingEvent
                }
            },
            (WaitStage::CreatingEvent, WaitReply::Done(true)) => WaitStage::SettingEvent,
            (WaitStage::SettingEvent, WaitReply::Done(true)) => WaitStage::WaitingEvent,
            (WaitStage::SettingEvent, _) => WaitStage::ClosingEvent,
            (WaitStage::WaitingEvent, _) => WaitStage::ClosingEvent,
            _ => WaitStage::Over,
        }
    }

    /// What to ask of the system now.
    pub fn action(&self) -> (r: WaitAction)
        ensures
            r == self.asks(),
    {
        match self.stage {
            WaitStage::Querying => WaitAction::QueryCompleted,
            WaitStage::CreatingEvent => WaitAction::CreateEvent,
            WaitStage::SettingEvent => WaitAction::SetEvent { value: self.value },
            WaitStage::WaitingEvent => WaitAction::WaitEvent { timeout_ms: FENCE_WAIT_TIMEOUT_MS },
            WaitStage::ClosingEvent => WaitAction::CloseEvent,
            WaitStage::Over => WaitAction::Finish,
        }
    }

    /// Tells the wait what came back from the system.
    pub fn advance(&mut self, reply: WaitReply)
        requires
            old(self).awaits(reply),
        ensures
            *final(self) == (FenceWait { stage: old(self).next(reply), ..*old(self) }),
    {
        self.stage =
        match (self.stage, reply) {
            (WaitStage::Querying, WaitReply::Completed(reached)) => {
                if reached >= self.value {
                    WaitStage::Over
                } else {
                    WaitStage::CreatingEvent
                }
            },
            (WaitStage::CreatingEvent, WaitReply::Done(created)) => {
                if created {
                    WaitStage::SettingEvent
                } else {
                    WaitStage::Over
                }
            },
            (WaitStage::SettingEvent, WaitReply::Done(set)) => {
                if set {
                    WaitStage::WaitingEvent
                } else {
                    WaitStage::ClosingEvent
                }
            },
            (WaitStage::WaitingEvent, _) => WaitStage::ClosingEvent,
            _ => WaitStage::Over,
        };
    }
}

/// The wait for `value` after `replies`.
pub open spec fn wait_run(value: u64, replies: Seq<WaitReply>) -> FenceWait
    decreases replies.len(),
{
    if replies.len() == 0 {
        FenceWait { value, stage: WaitStage::Querying }
    } else {
        let wait = wait_run(value, replies.drop_last());
        FenceWait { stage: wait.next(replies.last()), ..wait }
    }
}

/// Whether each of `replies` answers what the wait asked.
pub open spec fn wait_awaits(value: u64, replies: Seq<WaitReply>) -> bool
    decreases replies.len(),
{
    replies.len() == 0 || (wait_awaits(value, replies.drop_last()) && wait_run(
        value,
        replies.drop_last(),
    ).awaits(replies.last()))
}

/// How many events were made and not closed.
pub open spec fn open_events(value: u64, replies: Seq<WaitReply>) -> int
    decreases replies.len(),
{
    if replies.len() == 0 {
        0
    } else {
        let before = open_events(value, replies.drop_last());
        match (wait_run(value, replies.drop_last()).asks(), replies.last()) {
            (WaitAction::CreateEvent, WaitReply::Done(true)) => before + 1,
            (WaitAction::CloseEvent, _) => before - 1,
            _ => before,
        }
    }
}

/// A wait always ends, after at most five calls to the system, and closes the event it made.
pub proof fn law_wait_ends(value: u64, replies: Seq<WaitReply>)
    requires
        wait_awaits(value, replies),
    ensures
        replies.len() <= 5,
        replies.len() == 5 ==> wait_run(value, replies).asks() is Finish,
        wait_run(value, replies).asks() is Finish ==> open_events(value, replies) == 0,
{
    lemma_wait(value, replies);
}

proof fn lemma_wait(value: u64, replies: Seq<WaitReply>)
    requires
        wait_awaits(value, replies),
    ensures
        ({
            let wait = wait_run(value, replies);
            let n = replies.len();
            let events = open_events(value, replies);
            match wait.stage {
                WaitStage::Querying => n == 0 && events == 0,
                WaitStage::CreatingEvent => n == 1 && events == 0,
                WaitStage::SettingEvent => n == 2 && events == 1,
                WaitStage::WaitingEvent => n == 3 && events == 1,
                WaitStage::ClosingEvent => n <= 4 && events == 1,
                WaitStage::Over => n <= 5 && events == 0,
            }
        }),
    decreases replies.len(),
{
    if replies.len() > 0 {
        lemma_wait(value, replies.drop_last());
    }
}

/// A fence that has reached the value is not waited for.
pub proof fn law_reached_is_not_waited_for(value: u64, reached: u64)
    requires
        reached >= value,
    ensures
        (FenceWait { value, stage: WaitStage::Querying }).next(WaitReply::Completed(reached))
            == WaitStage::Over,
{
}

/// What a wait asks next follows from what it asked and what came back: it waits only where the
/// fence is behind, for an event that the fence signals at the value waited for and for five
/// seconds at most, and closes the event whatever came of it.
pub proof fn law_wait_leads_on(wait: FenceWait, reply: WaitReply)
    requires
        wait.awaits(reply),
    ensures
        ({
            let then = (FenceWait { stage: wait.next(reply), ..wait }).asks();
            match (wait.asks(), reply) {
                (WaitAction::QueryCompleted, WaitReply::Completed(reached)) => then == (
                if reached < wait.value {
                    WaitAction::CreateEvent
                } else {
                    WaitAction::Finish
                }),
                (WaitAction::CreateEvent, WaitReply::Done(done)) => then == (if done {
                    WaitAction::SetEvent { value: wait.value }
                } else {
                    WaitAction::Finish
                }),
                (WaitAction::SetEvent { .. }, WaitReply::Done(done)) => then == (if done {
                    WaitAction::WaitEvent { timeout_ms: 5000 }
                } else {
                    WaitAction::CloseEvent
                }),
                (WaitAction::WaitEvent { .. }, _) => then == WaitAction::CloseEvent,
                (WaitAction::CloseEvent, _) => then == WaitAction::Finish,
                _ => false,
            }
        }),
{
}

} // verus!
