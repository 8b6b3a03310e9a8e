//! Splitting a run of rounds among workers.
//!
//! A run covers the rounds `offset .. offset + total` and is cut into
//! `workers` contiguous pieces.  Every piece but the last holds
//! `total / workers` rounds; the last one also takes what the division
//! leaves over.

use vstd::arithmetic::div_mod::lemma_fundamental_div_mod;
use vstd::arithmetic::div_mod::lemma_mod_bound;
use vstd::arithmetic::mul::lemma_mul_inequality;
use vstd::arithmetic::mul::lemma_mul_is_commutative;
use vstd::arithmetic::mul::lemma_mul_is_distributive_add;
use vstd::prelude::*;

verus! {

/// A half-open interval of rounds, `start .. end`.
#[derive(Clone, Copy, Debug, PartialEq, Eq, Structural)]
pub struct RoundRange {
    pub start: u32,
    pub end: u32,
}

impl RoundRange {
    /// Whether `round` lies in the interval.
    pub open spec fn holds(self, round: int) -> bool {
        self.start <= round < self.end
    }

    /// The number of rounds in the interval.
    pub open spec fn count(self) -> nat {
        if self.start <= self.end {
            (self.end - self.start) as nat
        } else {
            0
        }
    }

    /// Whether `round` lies in the interval.
    pub fn contains(&self, round: u32) -> (r: bool)
        ensures
            r == self.holds(round as int),
    {
        self.start <= round && round < self.end
    }

    /// The number of rounds in the interval.
    pub fn len(&self) -> (r: u32)
        ensures
            r == self.count(),
    {
        if self.start <= self.end {
            self.end - self.start
        } else {
            0
        }
    }
}

/// The number of rounds that each worker but the last is given.
pub open spec fn share(total: nat, workers: nat) -> nat {
    total / workers
}

/// The first round of the piece of worker `worker`.
pub open spec fn piece_start(offset: nat, total: nat, workers: nat, worker: nat) -> nat {
    offset + worker * share(total, workers)
}

/// The round after the last one of the piece of worker `worker`.  The last
/// worker's piece runs to the end of the run.
pub open spec fn piece_end(offset: nat, total: nat, workers: nat, worker: nat) -> nat {
    if worker + 1 == workers {
        offset + total
    } else {
        offset + (worker + 1) * share(total, workers)
    }
}

/// Whether a run can be split: there is a worker, and the last round's
/// successor is a `u32`.
pub open spec fn splittable(offset: nat, total: nat, workers: nat) -> bool {
    workers > 0 && offset + total <= u32::MAX
}

/// Every boundary between pieces lies inside the run: `worker` shares do
/// not exceed `total` while `worker <= workers`.
pub proof fn lemma_shares_fit(total: nat, workers: nat, worker: nat)
    requires
        workers > 0,
        worker <= workers,
    ensures
        worker * share(total, workers) <= total,
        workers * share(total, workers) + total % workers == total,
{
    let amount = share(total, workers);
    lemma_fundamental_div_mod(total as int, workers as int);
    lemma_mod_bound(total as int, workers as int);
    lemma_mul_inequality(worker as int, workers as int, amount as int);
}

/// Every piece but the last holds one share of the rounds; the last one
/// holds a share and what the division leaves over.
pub proof fn lemma_piece_sizes(offset: nat, total: nat, workers: nat, worker: nat)
    requires
        worker < workers,
    ensures
        worker + 1 < workers ==> piece_end(offset, total, workers, worker) - piece_start(
            offset,
            total,
            workers,
            worker,
        ) == share(total, workers),
        worker + 1 == workers ==> piece_end(offset, total, workers, worker) - piece_start(
            offset,
            total,
            workers,
            worker,
        ) == share(total, workers) + total % workers,
{
    let amount = share(total, workers);
    lemma_shares_fit(total, workers, worker);
    lemma_mul_is_distributive_add(amount as int, worker as int, 1);
    lemma_mul_is_commutative(amount as int, worker as int);
    lemma_mul_is_commutative(amount as int, (worker + 1) as int);
}

/// A piece begins where the piece before it ends.
pub proof fn lemma_pieces_adjoin(offset: nat, total: nat, workers: nat, worker: nat)
    requires
        worker + 1 < workers,
    ensures
        piece_end(offset, total, workers, worker) == piece_start(
            offset,
            total,
            workers,
            worker + 1,
        ),
{
}

/// The first piece begins at `offset` and the last one ends at
/// `offset + total`.
pub proof fn lemma_pieces_span(offset: nat, total: nat, workers: nat)
    requires
        workers > 0,
    ensures
        piece_start(offset, total, workers, 0) == offset,
        piece_end(offset, total, workers, (workers - 1) as nat) == offset + total,
{
    assert(0 * share(total, workers) == 0) by (nonlinear_arith);
}

/// A piece does not end before it begins, and lies inside the run.
pub proof fn lemma_piece_within_run(offset: nat, total: nat, workers: nat, worker: nat)
    requires
        worker < workers,
    ensures
        offset <= piece_start(offset, total, workers, worker),
        piece_start(offset, total, workers, worker) <= piece_end(offset, total, workers, worker),
        piece_end(offset, total, workers, worker) <= offset + total,
{
    let amount = share(total, workers);
    lemma_shares_fit(total, workers, worker);
    lemma_shares_fit(total, workers, worker + 1);
    lemma_mul_inequality(worker as int, (worker + 1) as int, amount as int);
}

/// The pieces come in the workers' order: an earlier worker's piece ends
/// before a later worker's piece begins.
pub proof fn lemma_pieces_in_order(offset: nat, total: nat, workers: nat, a: nat, b: nat)
    requires
        a < b < workers,
    ensures
        piece_end(offset, total, workers, a) <= piece_start(offset, total, workers, b),
{
    lemma_mul_inequality((a + 1) as int, b as int, share(total, workers) as int);
}

/// No round belongs to two workers.
pub proof fn lemma_one_owner_at_most(
    offset: nat,
    total: nat,
    workers: nat,
    a: nat,
    b: nat,
    round: nat,
)
    requires
        a < workers,
        b < workers,
        piece_start(offset, total, workers, a) <= round < piece_end(offset, total, workers, a),
        piece_start(offset, total, workers, b) <= round < piece_end(offset, total, workers, b),
    ensures
        a == b,
{
    if a < b {
        lemma_pieces_in_order(offset, total, workers, a, b);
    } else if b < a {
        lemma_pieces_in_order(offset, total, workers, b, a);
    }
}

/// The worker whose piece holds `round`.
pub open spec fn owner(offset: nat, total: nat, workers: nat, round: nat) -> nat {
    let amount = share(total, workers);
    if amount == 0 || (round - offset) / (amount as int) >= workers {
        (workers - 1) as nat
    } else {
        ((round - offset) / (amount as int)) as nat
    }
}

/// Every round of the run belongs to a worker.
pub proof fn lemma_every_round_owned(offset: nat, total: nat, workers: nat, round: nat)
    requires
        workers > 0,
        offset <= round < offset + total,
    ensures
        owner(offset, total, workers, round) < workers,
        piece_start(offset, total, workers, owner(offset, total, workers, round)) <= round,
        round < piece_end(offset, total, workers, owner(offset, total, workers, round)),
{
    let amount = share(total, workers);
    let w = owner(offset, total, workers, round);
    let d = round - offset;
    lemma_shares_fit(total, workers, (workers - 1) as nat);
    if amount == 0 {
        assert((workers - 1) * 0 == 0) by (nonlinear_arith);
    } else {
        let q = d / (amount as int);
        lemma_fundamental_div_mod(d, amount as int);
        lemma_mod_bound(d, amount as int);
        lemma_mul_is_commutative(q, amount as int);
        assert(0 <= q) by (nonlinear_arith)
            requires
                0 <= d,
                0 < amount,
                q == d / (amount as int),
        ;
        if q >= workers {
            lemma_mul_inequality(workers - 1, q, amount as int);
        } else {
            lemma_mul_is_distributive_add(amount as int, q, 1);
            lemma_mul_is_commutative(q + 1, amount as int);
        }
    }
}

/// The piece of one worker.
pub fn worker_range(offset: u32, total: u32, workers: u32, worker: u32) -> (r: RoundRange)
    requires
        splittable(offset as nat, total as nat, workers as nat),
        worker < workers,
    ensures
        r.start == piece_start(offset as nat, total as nat, workers as nat, worker as nat),
        r.end == piece_end(offset as nat, total as nat, workers as nat, worker as nat),
{
    let amount: u32 = total / workers;
    proof {
        lemma_shares_fit(total as nat, workers as nat, worker as nat);
        lemma_shares_fit(total as nat, workers as nat, (worker + 1) as nat);
        lemma_shares_fit(total as nat, workers as nat, workers as nat);
    }
    let start: u32 = offset + worker * amount;
    let end: u32 = if worker == workers - 1 {
        offset + (worker + 1) * amount + total % workers
    } else {
        offset + (worker + 1) * amount
    };
    RoundRange { start, end }
}

/// The pieces of all workers, in the workers' order; `None` where the run
/// cannot be split.
pub fn split(offset: u32, total: u32, workers: u32) -> (r: Option<Vec<RoundRange>>)
    ensures
        r is Some <==> splittable(offset as nat, total as nat, workers as nat),
        r matches Some(pieces) ==> {
            &&& pieces.len() == workers
            &&& forall|i: int|
                0 <= i < workers ==> {
                    &&& (#[trigger] pieces[i]).start == piece_start(
                        offset as nat,
                        total as nat,
                        workers as nat,
                        i as nat,
                    )
                    &&& pieces[i].end == piece_end(
                        offset as nat,
                        total as nat,
                        workers as nat,
                        i as nat,
                    )
                }
        },
{
    if workers == 0 || total > u32::MAX - offset {
        return None;
    }
    let mut pieces: Vec<RoundRange> = Vec::new();
    let mut worker: u32 = 0;
    while worker < workers
        invariant
            splittable(offset as nat, total as nat, workers as nat),
            worker <= workers,
            pieces.len() == worker,
            forall|i: int|
                0 <= i < worker ==> {
                    &&& (#[trigger] pieces[i]).start == piece_start(
                        offset as nat,
                        total as nat,
                        workers as nat,
                        i as nat,
                    )
                    &&& pieces[i].end == piece_end(
                        offset as nat,
                        total as nat,
                        workers as nat,
                        i as nat,
                    )
                },
        decreases workers - worker,
    {
        pieces.push(worker_range(offset, total, workers, worker));
        worker = worker + 1;
    }
    Some(pieces)
}

} // verus!
