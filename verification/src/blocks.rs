use vstd::prelude::*;

verus! {

/// What the chain does next on its way to a target block.
#[derive(Debug, Clone, Copy, PartialEq, Eq, Structural)]
pub enum BlockAdvance {
    /// The target block has been reached (or lies in the past): nothing is done.
    Done,
    /// Block `finalize` is finalized, then block `initialize` becomes the
    /// current block and is initialized.
    Advance { finalize: u64, initialize: u64 },
}

/// The step taken from block `current` towards block `target`.
pub open spec fn next_advance(current: u64, target: u64) -> BlockAdvance {
    if current < target {
        BlockAdvance::Advance { finalize: current, initialize: (current + 1) as u64 }
    } else {
        BlockAdvance::Done
    }
}

/// Decides the next step of running the chain from `current_block` to
/// `target_block`: finalize the current block and move to the following one
/// while the target lies ahead, stop otherwise.
pub fn run_to_block_step(current_block: u64, target_block: u64) -> (step: BlockAdvance)
    ensures
        step == next_advance(current_block, target_block),
{
    if current_block < target_block {
        BlockAdvance::Advance { finalize: current_block, initialize: current_block + 1 }
    } else {
        BlockAdvance::Done
    }
}

/// The blocks finalized, in order, when the steps are followed from `current`
/// until they say `Done`.
pub open spec fn finalized_blocks(current: u64, target: u64) -> Seq<u64>
    decreases target - current,
{
    match next_advance(current, target) {
        BlockAdvance::Done => Seq::empty(),
        BlockAdvance::Advance { finalize, initialize } => seq![finalize] + finalized_blocks(
            initialize,
            target,
        ),
    }
}

/// The block that is current once the steps are followed from `current` until
/// they say `Done`.
pub open spec fn reached_block(current: u64, target: u64) -> u64
    decreases target - current,
{
    match next_advance(current, target) {
        BlockAdvance::Done => current,
        BlockAdvance::Advance { finalize, initialize } => reached_block(initialize, target),
    }
}

/// Following the steps from `current` ends on `target` when `target` lies ahead,
/// and stays on `current` otherwise.
pub proof fn lemma_run_reaches_target(current: u64, target: u64)
    ensures
        reached_block(current, target) == if current < target {
            target
        } else {
            current
        },
    decreases target - current,
{
    if current < target {
        lemma_run_reaches_target((current + 1) as u64, target);
    }
}

/// Following the steps from `current` finalizes every block from `current` up
/// to, but not including, `target`, each once and in increasing order; nothing
/// is finalized when `target` does not lie ahead.
pub proof fn lemma_run_finalizes_each_block_once(current: u64, target: u64)
    ensures
        finalized_blocks(current, target) == if current < target {
            Seq::new((target - current) as nat, |i: int| (current + i) as u64)
        } else {
            Seq::empty()
        },
    decreases target - current,
{
    if current < target {
        lemma_run_finalizes_each_block_once((current + 1) as u64, target);
        assert(finalized_blocks(current, target) =~= Seq::new(
            (target - current) as nat,
            |i: int| (current + i) as u64,
        ));
    }
}

/// Once the target is reached, a further step does nothing.
pub proof fn lemma_run_stops_at_target(current: u64, target: u64)
    ensures
        next_advance(reached_block(current, target), target) == BlockAdvance::Done,
{
    lemma_run_reaches_target(current, target);
}

} // verus!
