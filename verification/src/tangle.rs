//! Choosing the parents of blocks so that the blocks form a figure.
//!
//! A blowball is a tip with a chain of blocks that all point back at it:
//! every block has the tip and the block before it for parents.  A
//! sidetangle grows beside the tangle from a handful of tips: every block
//! takes the two oldest entries of a frontier for parents, the older of
//! which leaves the frontier, and joins the frontier itself.
//!
//! Building a block and sending it are the caller's work: the caller asks
//! for the parents, builds the block, and reports its identifier.

use iota_sdk::types::block::BlockId;
use std::collections::VecDeque;
use vstd::prelude::*;

verus! {

/// The number of blocks of a figure.
pub const ROUNDS: u32 = 1000;

/// The tag that the blocks of a blowball carry.
pub const BLOWBALL_TAG: &'static str = "blowball";

/// The tag that the blocks of a sidetangle carry.
pub const SIDETANGLE_TAG: &'static str = "sidetangle";

/// The SDK's identifier of a block.
#[verifier::external_type_specification]
#[verifier::external_body]
pub struct ExBlockId(BlockId);

/// What the caller is to do next.
#[derive(Clone, Copy, Debug, PartialEq, Eq)]
pub enum TangleAction {
    /// Build a block with the parents `first` and `second`.
    Build { first: BlockId, second: BlockId },
    /// Stop: the figure is complete.
    Stop,
}

/// A blowball in the making.
#[derive(Clone, Copy, Debug, PartialEq, Eq)]
pub struct Blowball {
    /// The tip that every block points back at.
    pub tip: BlockId,
    /// The block that was built last; the tip before any was built.
    pub latest: BlockId,
    /// The number of blocks that were built.
    pub built: u32,
}

impl Blowball {
    /// Whether every block of the figure was built.
    pub open spec fn is_complete(self) -> bool {
        self.built >= ROUNDS
    }

    /// What is to be done in this state.
    pub open spec fn action(self) -> TangleAction {
        if self.is_complete() {
            TangleAction::Stop
        } else {
            TangleAction::Build { first: self.tip, second: self.latest }
        }
    }

    /// The state after the block `block_id` was built.
    pub open spec fn after(self, block_id: BlockId) -> Blowball {
        Blowball { tip: self.tip, latest: block_id, built: (self.built + 1) as u32 }
    }

    /// A blowball around `tip`, with no block yet.
    pub fn begin(tip: BlockId) -> (ball: Blowball)
        ensures
            ball == (Blowball { tip, latest: tip, built: 0 }),
    {
        Blowball { tip, latest: tip, built: 0 }
    }

    /// What is to be done next.
    pub fn next(&self) -> (action: TangleAction)
        ensures
            action == self.action(),
    {
        if self.built >= ROUNDS {
            TangleAction::Stop
        } else {
            TangleAction::Build { first: self.tip, second: self.latest }
        }
    }

    /// The state after the block `block_id` was built; where no block was
    /// asked for, the state as it is.
    pub fn attached(&self, block_id: BlockId) -> (ball: Blowball)
        ensures
            ball == if self.is_complete() {
                *self
            } else {
                self.after(block_id)
            },
    {
        if self.built >= ROUNDS {
            *self
        } else {
            Blowball { tip: self.tip, latest: block_id, built: self.built + 1 }
        }
    }
}

/// The first block of a blowball has the tip for both parents.
pub proof fn lemma_blowball_begins_at_tip(tip: BlockId)
    ensures
        (Blowball { tip, latest: tip, built: 0 }).action() == (TangleAction::Build {
            first: tip,
            second: tip,
        }),
{
}

/// Every later block of a blowball has the tip and the block before it
/// for parents, and the tip stays what it was.
pub proof fn lemma_blowball_points_back(ball: Blowball, block_id: BlockId)
    requires
        ball.built + 1 < ROUNDS,
    ensures
        ball.after(block_id).tip == ball.tip,
        ball.after(block_id).action() == (TangleAction::Build {
            first: ball.tip,
            second: block_id,
        }),
{
}

/// A blowball is complete when `ROUNDS` blocks were built, and not before.
pub proof fn lemma_blowball_completes(ball: Blowball, block_id: BlockId)
    requires
        !ball.is_complete(),
    ensures
        ball.after(block_id).built == ball.built + 1,
        ball.after(block_id).is_complete() <==> ball.built + 1 == ROUNDS,
        ball.after(block_id).action() is Stop <==> ball.built + 1 == ROUNDS,
{
}

/// The parents that a frontier gives: its two oldest entries.
pub open spec fn frontier_action(frontier: Seq<BlockId>, built: nat) -> TangleAction {
    if built >= ROUNDS {
        TangleAction::Stop
    } else {
        TangleAction::Build { first: frontier[0], second: frontier[1] }
    }
}

/// The frontier after the block `block_id` was built: the oldest entry
/// has left, and the new block has joined at the end.
pub open spec fn frontier_after(frontier: Seq<BlockId>, block_id: BlockId) -> Seq<BlockId> {
    frontier.drop_first().push(block_id)
}

/// A frontier keeps its length.
pub proof fn lemma_frontier_keeps_length(frontier: Seq<BlockId>, block_id: BlockId)
    requires
        frontier.len() >= 1,
    ensures
        frontier_after(frontier, block_id).len() == frontier.len(),
{
}

/// The second parent of a block is the first parent of the block after
/// it, and the new block is the youngest entry of the frontier.
pub proof fn lemma_frontier_moves_on(frontier: Seq<BlockId>, block_id: BlockId)
    requires
        frontier.len() >= 2,
    ensures
        frontier_after(frontier, block_id)[0] == frontier[1],
        frontier_after(frontier, block_id).last() == block_id,
        forall|i: int|
            0 <= i < frontier.len() - 1 ==> #[trigger] frontier_after(frontier, block_id)[i]
                == frontier[i + 1],
{
}

/// Beside a frontier of two, every block has the block before it for its
/// second parent.
pub proof fn lemma_frontier_of_two_chains(frontier: Seq<BlockId>, block_id: BlockId, built: nat)
    requires
        frontier.len() == 2,
        built < ROUNDS,
    ensures
        frontier_action(frontier_after(frontier, block_id), built) == (TangleAction::Build {
            first: frontier[1],
            second: block_id,
        }),
{
}

/// A sidetangle in the making.
pub struct Sidetangle {
    frontier: VecDeque<BlockId>,
    built: u32,
}

impl Sidetangle {
    #[verifier::type_invariant]
    spec fn holds_two(self) -> bool {
        self.frontier@.len() >= 2
    }

    /// The blocks that may still become parents, oldest first.
    pub closed spec fn frontier(self) -> Seq<BlockId> {
        self.frontier@
    }

    /// The number of blocks that were built.
    pub closed spec fn built(self) -> nat {
        self.built as nat
    }

    /// A sidetangle that grows from `tips`, with no block yet; `None`
    /// where there are fewer than two tips.
    pub fn begin(tips: Vec<BlockId>) -> (r: Option<Sidetangle>)
        ensures
            r is Some <==> tips@.len() >= 2,
            r matches Some(tangle) ==> tangle.frontier() == tips@ && tangle.built() == 0,
    {
        if tips.len() < 2 {
            return None;
        }
        let mut frontier: VecDeque<BlockId> = VecDeque::new();
        let mut i: usize = 0;
        while i < tips.len()
            invariant
                i <= tips@.len(),
                frontier@ == tips@.subrange(0, i as int),
            decreases tips@.len() - i,
        {
            frontier.push_back(tips[i]);
            i = i + 1;
        }
        assert(frontier@ =~= tips@);
        Some(Sidetangle { frontier, built: 0 })
    }

    /// What is to be done next.
    pub fn next(&self) -> (action: TangleAction)
        ensures
            self.frontier().len() >= 2,
            action == frontier_action(self.frontier(), self.built()),
    {
        proof {
            use_type_invariant(self);
        }
        if self.built >= ROUNDS {
            TangleAction::Stop
        } else {
            TangleAction::Build { first: self.frontier[0], second: self.frontier[1] }
        }
    }

    /// The sidetangle after the block `block_id` was built; where no block
    /// was asked for, the sidetangle as it is.
    pub fn attached(self, block_id: BlockId) -> (tangle: Sidetangle)
        ensures
            self.built() < ROUNDS ==> tangle.frontier() == frontier_after(self.frontier(), block_id)
                && tangle.built() == self.built() + 1,
            self.built() >= ROUNDS ==> tangle.frontier() == self.frontier() && tangle.built()
                == self.built(),
    {
        proof {
            use_type_invariant(&self);
        }
        if self.built >= ROUNDS {
            return self;
        }
        let Sidetangle { mut frontier, built } = self;
        let _ = frontier.pop_front();
        frontier.push_back(block_id);
        assert(frontier@ =~= frontier_after(self.frontier@, block_id));
        Sidetangle { frontier, built: built + 1 }
    }
}

} // verus!
