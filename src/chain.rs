use vstd::prelude::*;

use crate::dispatch::{ceil_div, lemma_dispatch_covers_exactly, WORKGROUP_SIZE};
use crate::profiler::{ProfilerState, TimestampProfiler};
use crate::stage::{Command, CorrectionStage};

verus! {

/// The commands of `stages`, one stage after the other.
pub open spec fn chain_commands(stages: Seq<CorrectionStage>) -> Seq<Command>
    decreases stages.len(),
{
    if stages.len() == 0 {
        Seq::empty()
    } else {
        chain_commands(stages.drop_last()) + stages.last().commands()
    }
}

/// Correction stages run in order within one compute pass; the order is the only
/// synchronisation between a stage that writes a surface and a later one that reads it.
/// A stage left out is left out when the chain is built, never skipped while it runs.
pub struct Pipeline {
    pub stages: Vec<CorrectionStage>,
}

impl Pipeline {
    pub open spec fn wf(&self) -> bool {
        forall|i: int| 0 <= i < self.stages@.len() ==> (#[trigger] self.stages@[i]).wf()
    }

    /// Orders `stages` into one pipeline, first to last.
    pub fn chain(stages: Vec<CorrectionStage>) -> (r: Pipeline)
        ensures
            r.stages@ == stages@,
    {
        Pipeline { stages }
    }

    fn record_stages(&self, rec: &mut Vec<Command>)
        ensures
            final(rec)@ == old(rec)@ + chain_commands(self.stages@),
    {
        let ghost start = rec@;
        let mut i: usize = 0;
        while i < self.stages.len()
            invariant
                i <= self.stages@.len(),
                rec@ == start + chain_commands(self.stages@.take(i as int)),
            decreases self.stages@.len() - i,
        {
            self.stages[i].record(rec);
            i = i + 1;
            assert(self.stages@.take(i as int).drop_last() =~= self.stages@.take(i - 1 as int));
            assert(rec@ =~= start + chain_commands(self.stages@.take(i as int)));
        }
        assert(self.stages@.take(i as int) =~= self.stages@);
    }

    /// The recording of one compute pass that runs every stage in order.
    pub fn run(&self) -> (r: Vec<Command>)
        ensures
            r@ == chain_commands(self.stages@),
    {
        let mut rec: Vec<Command> = Vec::new();
        self.record_stages(&mut rec);
        assert(rec@ =~= chain_commands(self.stages@));
        rec
    }

    /// As `run`, with the profiler's start marker just before the first stage and its end
    /// marker just after the last.
    pub fn run_profiled(&self, profiler: &mut TimestampProfiler) -> (r: Vec<Command>)
        requires
            old(profiler).span < 0x8000_0000,
        ensures
            r@ == seq![Command::WriteTimestamp { query: old(profiler).start_query() }]
                + chain_commands(self.stages@) + seq![
                Command::WriteTimestamp { query: old(profiler).end_query() },
            ],
            final(profiler).span == old(profiler).span,
            final(profiler).state == ProfilerState::Closed,
    {
        let mut rec: Vec<Command> = Vec::new();
        profiler.begin(&mut rec);
        self.record_stages(&mut rec);
        profiler.end(&mut rec);
        assert(rec@ =~= seq![Command::WriteTimestamp { query: old(profiler).start_query() }]
            + chain_commands(self.stages@) + seq![
            Command::WriteTimestamp { query: old(profiler).end_query() },
        ]);
        rec
    }
}

/// A non-empty chain ends with the last stage's dispatch, which covers each sample of the
/// last stage's `width` by `height` output surface with exactly one invocation and launches
/// no workgroup past the surface; the recording is a function of the stages alone, so running
/// the same chain twice records the same commands.
pub proof fn lemma_chain_ends_with_covering_dispatch(a: Pipeline, b: Pipeline)
    requires
        a.wf(),
        a.stages@.len() > 0,
        a.stages@ == b.stages@,
    ensures
        ({
            let last = a.stages@.last();
            let e = last.width as int * last.height as int;
            let n = ceil_div(e, WORKGROUP_SIZE as int);
            &&& chain_commands(a.stages@).last() == (Command::Dispatch { x: n as u64, y: 1, z: 1 })
            &&& n * WORKGROUP_SIZE >= e
            &&& e > 0 ==> (n - 1) * WORKGROUP_SIZE < e
            &&& chain_commands(a.stages@) == chain_commands(b.stages@)
        }),
{
    let last = a.stages@.last();
    let e = last.width as int * last.height as int;
    assert(e >= 0) by (nonlinear_arith)
        requires
            e == last.width as int * last.height as int,
    ;
    lemma_dispatch_covers_exactly(e as nat);
}

} // verus!
