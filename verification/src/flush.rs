//! The display flush adapter: a dirty region goes to the panel as a run of
//! row batches, top to bottom, and the first fault ends the adapter's work
//! for good.
//!
//! The adapter decides what is written and in which order; the transfer
//! itself is the caller's. The caller takes the batch that is due, writes it
//! to the panel and reports how that went, until no batch is due.

use vstd::prelude::*;
use crate::fault::PanelFault;
use crate::panel::BATCH_HEIGHT;
use crate::region::DisplayRegion;
use crate::region::RegionModel;
use crate::region::lemma_batch_bounded;

verus! {

/// The adapter as mathematics sees it.
pub struct FlushModel {
    /// The batches that are still to be written, the next one first.
    pub pending: Seq<RegionModel>,
    /// The fault that ended the adapter's work, if one did.
    pub fault: Option<PanelFault>,
}

impl FlushModel {
    /// An adapter with nothing to write and no fault.
    pub open spec fn idle() -> FlushModel {
        FlushModel { pending: Seq::empty(), fault: None }
    }

    /// Every pending batch is well formed, has at least one row and at most a
    /// batch height of them; after a fault nothing is pending.
    pub open spec fn wf(self) -> bool {
        &&& forall|i: int|
            0 <= i < self.pending.len() ==> (#[trigger] self.pending[i]).wf() && 1
                <= self.pending[i].height() <= BATCH_HEIGHT
        &&& self.fault is Some ==> self.pending.len() == 0
    }

    /// The adapter after a region was handed to it: the region's batches
    /// join the end of what is pending. After a fault nothing is taken.
    pub open spec fn submit(self, region: RegionModel) -> FlushModel {
        if self.fault is Some {
            self
        } else {
            FlushModel { pending: self.pending + region.batches(), fault: None }
        }
    }

    /// The batch that is due, if one is.
    pub open spec fn due(self) -> Option<RegionModel> {
        if self.pending.len() > 0 {
            Some(self.pending[0])
        } else {
            None
        }
    }

    /// The adapter after the transfer of the due batch ended with `outcome`:
    /// a success leaves the batches behind it, a fault leaves none and
    /// stays. Where no batch was due nothing changes.
    pub open spec fn complete(self, outcome: Result<(), PanelFault>) -> FlushModel {
        if self.pending.len() == 0 {
            self
        } else {
            match outcome {
                Ok(_) => FlushModel { pending: self.pending.drop_first(), fault: self.fault },
                Err(fault) => FlushModel { pending: Seq::empty(), fault: Some(fault) },
            }
        }
    }

    /// How the adapter's work stands: the fault, if there was one.
    pub open spec fn outcome(self) -> Result<(), PanelFault> {
        match self.fault {
            Some(fault) => Err(fault),
            None => Ok(()),
        }
    }
}

/// Handing over a region keeps the adapter well formed, so every batch that
/// ever falls due has at most a batch height of rows.
pub proof fn lemma_submit_wf(m: FlushModel, region: RegionModel)
    requires
        m.wf(),
        region.wf(),
    ensures
        m.submit(region).wf(),
{
    let after = m.submit(region);
    assert forall|i: int| 0 <= i < after.pending.len() implies (#[trigger] after.pending[i]).wf()
        && 1 <= after.pending[i].height() <= BATCH_HEIGHT by {
        if m.fault is None && i >= m.pending.len() {
            let k = i - m.pending.len();
            lemma_batch_bounded(region, k);
            assert(after.pending[i] == region.batch(k));
        }
    }
}

/// Reporting a transfer keeps the adapter well formed.
pub proof fn lemma_complete_wf(m: FlushModel, outcome: Result<(), PanelFault>)
    requires
        m.wf(),
    ensures
        m.complete(outcome).wf(),
{
    let after = m.complete(outcome);
    assert forall|i: int| 0 <= i < after.pending.len() implies (#[trigger] after.pending[i]).wf()
        && 1 <= after.pending[i].height() <= BATCH_HEIGHT by {
        if m.pending.len() > 0 && outcome is Ok {
            assert(after.pending[i] == m.pending[i + 1]);
        }
    }
}

/// The adapter after `n` transfers in a row have succeeded.
pub open spec fn after_successes(m: FlushModel, n: nat) -> FlushModel
    decreases n,
{
    if n == 0 {
        m
    } else {
        after_successes(m, (n - 1) as nat).complete(Ok(()))
    }
}

/// An idle adapter that is handed a region offers the region's batches in
/// order: once the first `k` transfers have succeeded, batch `k` is due, and
/// after the last one nothing is.
pub proof fn lemma_batches_fall_due_in_order(region: RegionModel, k: int)
    requires
        region.wf(),
        0 <= k <= region.batch_count(),
    ensures
        after_successes(FlushModel::idle().submit(region), k as nat).fault is None,
        after_successes(FlushModel::idle().submit(region), k as nat).pending
            == region.batches().subrange(k, region.batch_count()),
        k < region.batch_count() ==> after_successes(
            FlushModel::idle().submit(region),
            k as nat,
        ).due() == Some(region.batch(k)),
        k == region.batch_count() ==> after_successes(
            FlushModel::idle().submit(region),
            k as nat,
        ).due() is None,
    decreases k,
{
    let start = FlushModel::idle().submit(region);
    let all = region.batches();
    if k == 0 {
        assert(start.pending =~= all.subrange(0, region.batch_count()));
    } else {
        lemma_batches_fall_due_in_order(region, k - 1);
        let before = after_successes(start, (k - 1) as nat);
        assert(before.pending.drop_first() =~= all.subrange(k, region.batch_count()));
    }
}

/// A fault is final: whatever is handed over or reported afterwards, no
/// batch falls due again and the fault stays the adapter's outcome.
pub proof fn lemma_fault_is_final(
    m: FlushModel,
    fault: PanelFault,
    region: RegionModel,
    outcome: Result<(), PanelFault>,
)
    requires
        m.wf(),
        m.fault == Some(fault),
    ensures
        m.due() is None,
        m.outcome() == Err::<(), PanelFault>(fault),
        m.submit(region) == m,
        m.complete(outcome) == m,
{
}

/// A fault on the due batch drops every batch behind it.
pub proof fn lemma_fault_drops_the_rest(m: FlushModel, fault: PanelFault)
    requires
        m.wf(),
        m.due() is Some,
    ensures
        m.complete(Err(fault)).due() is None,
        m.complete(Err(fault)).outcome() == Err::<(), PanelFault>(fault),
{
}

/// Cuts dirty regions into row batches and keeps track of which batch goes
/// to the panel next.
#[derive(Debug)]
pub struct DisplayFlushAdapter {
    queue: Vec<DisplayRegion>,
    fault: Option<PanelFault>,
}

impl View for DisplayFlushAdapter {
    type V = FlushModel;

    closed spec fn view(&self) -> FlushModel {
        FlushModel {
            pending: Seq::new(self.queue@.len(), |i: int| self.queue@[i]@),
            fault: self.fault,
        }
    }
}

impl DisplayFlushAdapter {
    /// Whether the adapter is in a state that it can reach.
    pub open spec fn wf(&self) -> bool {
        self@.wf()
    }

    /// An adapter with nothing to write and no fault.
    pub fn new() -> (adapter: DisplayFlushAdapter)
        ensures
            adapter.wf(),
            adapter@ == FlushModel::idle(),
    {
        let adapter = DisplayFlushAdapter { queue: Vec::new(), fault: None };
        assert(adapter@.pending =~= Seq::empty());
        adapter
    }

    /// Takes a dirty region: its batches join the end of what is pending.
    /// After a fault the region is dropped.
    pub fn submit(&mut self, region: &DisplayRegion)
        requires
            old(self).wf(),
            region.wf(),
        ensures
            final(self).wf(),
            final(self)@ == old(self)@.submit(region@),
    {
        if self.fault.is_some() {
            return ;
        }
        let mut batches = region.split();
        let ghost before = self.queue@;
        let ghost added = batches@;
        self.queue.append(&mut batches);
        proof {
            lemma_submit_wf(old(self)@, region@);
            assert(self.queue@ == before + added);
            assert(self@.pending =~= old(self)@.pending + region@.batches());
        }
    }

    /// The batch that is to be written to the panel next, if one is.
    pub fn next_batch(&self) -> (batch: Option<&DisplayRegion>)
        requires
            self.wf(),
        ensures
            batch is Some <==> self@.due() is Some,
            batch matches Some(b) ==> Some(b@) == self@.due() && b.wf() && 1 <= b@.height()
                <= BATCH_HEIGHT,
    {
        if self.queue.len() > 0 {
            let b = &self.queue[0];
            assert(self@.pending[0] == b@);
            Some(b)
        } else {
            None
        }
    }

    /// Reports how the transfer of the due batch ended. After a success the
    /// following batch is due; after a fault none is, and none will be.
    /// Where no batch was due the report is dropped.
    pub fn complete(&mut self, outcome: Result<(), PanelFault>)
        requires
            old(self).wf(),
        ensures
            final(self).wf(),
            final(self)@ == old(self)@.complete(outcome),
    {
        if self.queue.len() == 0 {
            return ;
        }
        proof {
            lemma_complete_wf(old(self)@, outcome);
        }
        match outcome {
            Ok(_) => {
                let _ = self.queue.remove(0);
                assert(self@.pending =~= old(self)@.pending.drop_first());
            },
            Err(fault) => {
                self.queue.clear();
                self.fault = Some(fault);
                assert(self@.pending =~= Seq::empty());
            },
        }
    }

    /// How the adapter's work stands: the fault that ended it, if one did.
    pub fn outcome(&self) -> (r: Result<(), PanelFault>)
        ensures
            r == self@.outcome(),
    {
        match self.fault {
            Some(fault) => Err(fault),
            None => Ok(()),
        }
    }

    /// Number of batches that are still to be written.
    pub fn pending(&self) -> (n: usize)
        ensures
            n == self@.pending.len(),
    {
        self.queue.len()
    }
}

} // verus!
