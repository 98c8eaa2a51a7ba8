//! Positioning a list of windows in one deferred batch.
//!
//! If the batch is refused at any point, every window is positioned on its own
//! instead, and those that refuse are remembered.

use std::collections::HashSet;
use vstd::prelude::*;

use crate::action::answers;
use crate::action::WindowAction;
use crate::action::WindowEvent;
use crate::entries::DeferEntry;
use crate::types::WindowId;

verus! {

broadcast use vstd::std_specs::hash::group_hash_axioms;

/// What a batch is waiting for.
#[derive(Clone, Copy, Debug, PartialEq, Eq, Structural)]
pub enum BatchStage {
    /// Not begun.
    Idle,
    /// The batch to be opened.
    Beginning,
    /// The entry at this index to be added.
    Deferring(usize),
    /// The batch to be applied.
    Ending,
    /// The entry at this index to be positioned on its own.
    Individually(usize),
    /// Nothing any more.
    Finished,
}

/// The progress of positioning a list of windows.
#[derive(Debug)]
pub struct PositionBatch {
    pub stage: BatchStage,
    /// How many windows were positioned, once finished.
    pub applied: u32,
    /// The windows that could not be positioned.
    pub failed: HashSet<WindowId>,
}

/// The mathematical content of a `PositionBatch`.
#[verifier::ext_equal]
pub struct Batch {
    pub stage: BatchStage,
    pub applied: u32,
    pub failed: Set<WindowId>,
}

impl View for PositionBatch {
    type V = Batch;

    open spec fn view(&self) -> Batch {
        Batch { stage: self.stage, applied: self.applied, failed: self.failed@ }
    }
}

/// The request to position an entry on its own.
pub open spec fn position_request(entry: DeferEntry) -> WindowAction {
    WindowAction::SetPosition {
        window_id: entry.window_id,
        x: entry.x,
        y: entry.y,
        w: entry.w,
        h: entry.h,
        flags: entry.flags,
    }
}

/// The request to add an entry to a batch.
pub open spec fn defer_request(entry: DeferEntry) -> WindowAction {
    WindowAction::DeferPosition {
        window_id: entry.window_id,
        x: entry.x,
        y: entry.y,
        w: entry.w,
        h: entry.h,
        flags: entry.flags,
    }
}

impl Batch {
    /// Not begun.
    pub open spec fn idle() -> Batch {
        Batch { stage: BatchStage::Idle, applied: 0, failed: Set::empty() }
    }

    /// The request that the batch waits to have answered.
    pub open spec fn pending(self, entries: Seq<DeferEntry>) -> WindowAction {
        match self.stage {
            BatchStage::Beginning => WindowAction::BeginBatch { count: entries.len() as usize },
            BatchStage::Deferring(i) => defer_request(entries[i as int]),
            BatchStage::Ending => WindowAction::EndBatch,
            BatchStage::Individually(i) => position_request(entries[i as int]),
            BatchStage::Idle | BatchStage::Finished => WindowAction::Continue,
        }
    }

    /// The stage fits the list, and at most the windows tried so far failed. A
    /// finished batch has accounted for every entry: it was applied or it failed.
    pub open spec fn consistent(self, entries: Seq<DeferEntry>) -> bool {
        &&& entries.len() <= u32::MAX
        &&& self.failed.finite()
        &&& match self.stage {
            BatchStage::Beginning | BatchStage::Ending => entries.len() > 0 && self.failed
                == Set::<WindowId>::empty(),
            BatchStage::Deferring(i) => i < entries.len() && self.failed
                == Set::<WindowId>::empty(),
            BatchStage::Individually(i) => i < entries.len() && self.failed.len() <= i,
            BatchStage::Idle => self.failed == Set::<WindowId>::empty(),
            BatchStage::Finished => self.applied + self.failed.len() == entries.len(),
        }
    }

    /// Begin: an empty list is finished at once.
    pub open spec fn begun(entries: Seq<DeferEntry>) -> Batch {
        Batch {
            stage: if entries.len() == 0 {
                BatchStage::Finished
            } else {
                BatchStage::Beginning
            },
            ..Batch::idle()
        }
    }

    /// The batch was refused: start over, one window at a time.
    pub open spec fn fall_back(self) -> Batch {
        Batch { stage: BatchStage::Individually(0), ..self }
    }

    /// The batch after the pending request was answered.
    pub open spec fn answered(self, entries: Seq<DeferEntry>, event: WindowEvent) -> Batch {
        match self.stage {
            BatchStage::Beginning => if event == WindowEvent::Accepted(true) {
                Batch { stage: BatchStage::Deferring(0), ..self }
            } else {
                self.fall_back()
            },
            BatchStage::Deferring(i) => if event != WindowEvent::Accepted(true) {
                self.fall_back()
            } else if i + 1 < entries.len() {
                Batch { stage: BatchStage::Deferring((i + 1) as usize), ..self }
            } else {
                Batch { stage: BatchStage::Ending, ..self }
            },
            BatchStage::Ending => if event == WindowEvent::Accepted(true) {
                Batch { stage: BatchStage::Finished, applied: entries.len() as u32, ..self }
            } else {
                self.fall_back()
            },
            BatchStage::Individually(i) => {
                let failed = if event is MoveRefused {
                    self.failed.insert(entries[i as int].window_id)
                } else {
                    self.failed
                };
                if i + 1 < entries.len() {
                    Batch { stage: BatchStage::Individually((i + 1) as usize), failed, ..self }
                } else {
                    Batch {
                        stage: BatchStage::Finished,
                        applied: (entries.len() - failed.len()) as u32,
                        failed,
                    }
                }
            },
            BatchStage::Idle | BatchStage::Finished => self,
        }
    }

    /// How much is left to do.
    pub open spec fn remaining(self, entries: Seq<DeferEntry>) -> nat {
        match self.stage {
            BatchStage::Idle => 2 * entries.len() + 4,
            BatchStage::Beginning => 2 * entries.len() + 3,
            BatchStage::Deferring(i) => (2 * entries.len() + 2 - i) as nat,
            BatchStage::Ending => entries.len() + 2,
            BatchStage::Individually(i) => (entries.len() + 1 - i) as nat,
            BatchStage::Finished => 0,
        }
    }
}

impl PositionBatch {
    /// A batch not begun.
    pub fn new() -> (batch: PositionBatch)
        ensures
            batch@ == Batch::idle(),
    {
        PositionBatch { stage: BatchStage::Idle, applied: 0, failed: HashSet::new() }
    }

    /// The request that waits to be answered; `Continue` when there is none.
    pub fn pending(&self, entries: &Vec<DeferEntry>) -> (action: WindowAction)
        requires
            self@.consistent(entries@),
        ensures
            action == self@.pending(entries@),
    {
        match self.stage {
            BatchStage::Beginning => WindowAction::BeginBatch { count: entries.len() },
            BatchStage::Deferring(i) => {
                let entry = entries[i];
                WindowAction::DeferPosition {
                    window_id: entry.window_id,
                    x: entry.x,
                    y: entry.y,
                    w: entry.w,
                    h: entry.h,
                    flags: entry.flags,
                }
            },
            BatchStage::Ending => WindowAction::EndBatch,
            BatchStage::Individually(i) => {
                let entry = entries[i];
                WindowAction::SetPosition {
                    window_id: entry.window_id,
                    x: entry.x,
                    y: entry.y,
                    w: entry.w,
                    h: entry.h,
                    flags: entry.flags,
                }
            },
            BatchStage::Idle | BatchStage::Finished => WindowAction::Continue,
        }
    }

    /// Begin positioning a list of windows.
    pub fn begin(&mut self, entries: &Vec<DeferEntry>)
        requires
            entries@.len() <= u32::MAX,
        ensures
            final(self)@ == Batch::begun(entries@),
            final(self)@.consistent(entries@),
    {
        self.applied = 0;
        self.failed.clear();
        if entries.len() == 0 {
            self.stage = BatchStage::Finished;
        } else {
            self.stage = BatchStage::Beginning;
        }
    }

    /// Take the answer to the pending request.
    pub fn answer(&mut self, entries: &Vec<DeferEntry>, event: &WindowEvent)
        requires
            old(self)@.consistent(entries@),
            answers(old(self)@.pending(entries@), *event),
            !(old(self)@.stage is Idle),
        ensures
            final(self)@ == old(self)@.answered(entries@, *event),
            final(self)@.consistent(entries@),
    {
        let accepted = matches!(event, WindowEvent::Accepted(true));
        let refused = matches!(event, WindowEvent::MoveRefused(_));
        match self.stage {
            BatchStage::Beginning => {
                if accepted {
                    self.stage = BatchStage::Deferring(0);
                } else {
                    self.stage = BatchStage::Individually(0);
                }
            },
            BatchStage::Deferring(i) => {
                if !accepted {
                    self.stage = BatchStage::Individually(0);
                } else if i + 1 < entries.len() {
                    self.stage = BatchStage::Deferring(i + 1);
                } else {
                    self.stage = BatchStage::Ending;
                }
            },
            BatchStage::Ending => {
                if accepted {
                    self.applied = entries.len() as u32;
                    self.stage = BatchStage::Finished;
                } else {
                    self.stage = BatchStage::Individually(0);
                }
            },
            BatchStage::Individually(i) => {
                if refused {
                    self.failed.insert(entries[i].window_id);
                }
                if i + 1 < entries.len() {
                    self.stage = BatchStage::Individually(i + 1);
                } else {
                    self.applied = (entries.len() - self.failed.len()) as u32;
                    self.stage = BatchStage::Finished;
                }
            },
            BatchStage::Idle | BatchStage::Finished => {},
        }
    }
}

/// Every answer brings a batch closer to its end.
pub proof fn law_batch_progresses(batch: Batch, entries: Seq<DeferEntry>, event: WindowEvent)
    requires
        batch.consistent(entries),
        !(batch.stage is Idle),
        !(batch.stage is Finished),
    ensures
        batch.answered(entries, event).remaining(entries) < batch.remaining(entries),
{
}

/// Every answer leaves the batch consistent. So once the batch is finished, the
/// entries applied and the windows that failed make up the whole list.
pub proof fn law_a_finished_batch_accounts_for_every_entry(
    batch: Batch,
    entries: Seq<DeferEntry>,
    event: WindowEvent,
)
    requires
        batch.consistent(entries),
    ensures
        ({
            let after = batch.answered(entries, event);
            &&& after.consistent(entries)
            &&& after.stage is Finished ==> after.applied + after.failed.len() == entries.len()
        }),
{
}

/// A batch that is accepted to the end fails nobody and counts every window.
pub proof fn law_accepted_batch_fails_nobody(batch: Batch, entries: Seq<DeferEntry>)
    requires
        batch.consistent(entries),
        batch.stage is Ending,
    ensures
        ({
            let done = batch.answered(entries, WindowEvent::Accepted(true));
            done.stage is Finished && done.failed == Set::<WindowId>::empty() && done.applied
                == entries.len()
        }),
{
}

/// A window fails exactly by refusing its own move: no other answer adds to
/// the failures, and none takes away.
pub proof fn law_only_refusals_fail(
    batch: Batch,
    entries: Seq<DeferEntry>,
    event: WindowEvent,
    id: WindowId,
)
    requires
        batch.consistent(entries),
    ensures
        batch.answered(entries, event).failed.contains(id) <==> batch.failed.contains(id) || (
        batch.stage is Individually && event is MoveRefused
            && entries[batch.stage->Individually_0 as int].window_id == id),
{
}

} // verus!
