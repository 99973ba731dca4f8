//! How many steps a manufacture has left. Where the dependencies have no
//! cycle (each resource's dependencies have a lower rank than it) and no
//! resource has more than `width` of them, every reply that answers the
//! pending request brings a manufacture, and an order, closer to its end.
use vstd::prelude::*;

use super::{
    answers, waits_on, Frame, ManufacturePhase, MovePhase, OrderPhase, PlaceOrder, Progress, Reply,
    ResManufacture, ResMoveAuto,
};

verus! {

/// The steps that making a resource of rank `r` can take at most, from
/// reading its dependencies to adding it at the destination.
pub open spec fn make_budget(r: nat, width: nat) -> int
    decreases r,
{
    2 + width * (4 + if r == 0 {
        0
    } else {
        make_budget((r - 1) as nat, width)
    })
}

/// The steps that bringing one dependency of a resource of rank `r` to the
/// destination and using it up there can take at most.
pub open spec fn dependency_budget(r: nat, width: nat) -> int {
    4 + if r == 0 {
        0
    } else {
        make_budget((r - 1) as nat, width)
    }
}

proof fn lemma_budget_unfold(r: nat, width: nat)
    ensures
        make_budget(r, width) == 2 + width * dependency_budget(r, width),
        make_budget(r, width) >= 2,
        dependency_budget(r, width) >= 4,
    decreases r,
{
    if r > 0 {
        lemma_budget_unfold((r - 1) as nat, width);
    }
    assert(width * dependency_budget(r, width) >= 0) by (nonlinear_arith)
        requires
            dependency_budget(r, width) >= 4,
    ;
}

proof fn lemma_budget_grows(a: nat, b: nat, width: nat)
    requires
        a <= b,
    ensures
        make_budget(a, width) <= make_budget(b, width),
    decreases b,
{
    if a < b {
        lemma_budget_grows(a, (b - 1) as nat, width);
        let bp = make_budget((b - 1) as nat, width);
        let w = width as int;
        assert(make_budget(b, width) == 2 + w * (4 + bp));
        lemma_budget_unfold((b - 1) as nat, width);
        let dp = dependency_budget((b - 1) as nat, width);
        assert(bp == 2 + w * dp);
        assert(2 + w * (4 + bp) >= bp) by (nonlinear_arith)
            requires
                w >= 0,
                bp == 2 + w * dp,
                dp >= 4,
        ;
    }
}

/// Whether the dependencies of `f` are at most `width` and each of lower rank
/// than the resource of `f`.
pub open spec fn deps_ranked<N>(f: Frame<N>, rank: spec_fn(u64) -> nat, width: nat) -> bool {
    &&& f.deps@.len() <= width
    &&& forall|i: int| 0 <= i < f.deps@.len() ==> rank(#[trigger] f.deps@[i].0) < rank(f.res_id)
}

/// The steps left to the resources below the top, each waiting for its
/// current dependency: using that one up, resolving the later ones, and
/// adding the resource at the destination.
pub open spec fn waiting_steps<N>(frames: Seq<Frame<N>>, rank: spec_fn(u64) -> nat, width: nat) -> int
    decreases frames.len(),
{
    if frames.len() == 0 {
        0
    } else {
        let f = frames.last();
        waiting_steps(frames.drop_last(), rank, width) + (f.deps@.len() - f.index - 1)
            * dependency_budget(rank(f.res_id), width) + 2
    }
}

proof fn lemma_waiting_steps_nonneg<N>(frames: Seq<Frame<N>>, rank: spec_fn(u64) -> nat, width: nat)
    requires
        forall|k: int| 0 <= k < frames.len() ==> (#[trigger] frames[k]).index < frames[k].deps@.len(),
    ensures
        waiting_steps(frames, rank, width) >= 0,
    decreases frames.len(),
{
    if frames.len() > 0 {
        let f = frames.last();
        lemma_waiting_steps_nonneg(frames.drop_last(), rank, width);
        lemma_budget_unfold(rank(f.res_id), width);
        let later = f.deps@.len() - f.index - 1;
        let d = dependency_budget(rank(f.res_id), width);
        assert(frames[frames.len() - 1].index < frames[frames.len() - 1].deps@.len());
        assert(later * d >= 0) by (nonlinear_arith)
            requires
                later >= 0,
                d >= 0,
        ;
    }
}

impl<N: Copy> ResManufacture<N> {
    /// Whether every frame whose dependencies were read has them ranked.
    pub open spec fn ranked(self, rank: spec_fn(u64) -> nat, width: nat) -> bool {
        forall|k: int|
            0 <= k < self.frames@.len() && (k < self.frames@.len() - 1 || self.phase
                != ManufacturePhase::AwaitDependencies) ==> deps_ranked(
                #[trigger] self.frames@[k],
                rank,
                width,
            )
    }

    /// Whether dependencies that `reply` reads are ranked.
    pub open spec fn fits(self, reply: Reply<N>, rank: spec_fn(u64) -> nat, width: nat) -> bool {
        self.phase == ManufacturePhase::AwaitDependencies ==> (reply matches Reply::Dependencies(
            Ok(deps),
        ) ==> deps_ranked(Frame { deps, index: 0, ..self.top() }, rank, width))
    }

    /// The steps left to the resource being made now.
    pub open spec fn top_steps(self, rank: spec_fn(u64) -> nat, width: nat) -> int {
        let f = self.top();
        let d = dependency_budget(rank(f.res_id), width);
        let later = f.deps@.len() - f.index - 1;
        match self.phase {
            ManufacturePhase::AwaitDependencies => make_budget(rank(f.res_id), width),
            ManufacturePhase::Moving => later * d + match self.mover.phase {
                MovePhase::AwaitLocations => d,
                MovePhase::AwaitWithdrawal { .. } => 3,
                MovePhase::AwaitDeposit { .. } => 2,
            } + 1,
            ManufacturePhase::AwaitConsume => later * d + 2,
            ManufacturePhase::AwaitProduce => 1,
        }
    }

    /// The steps the manufacture has left at most.
    pub open spec fn remaining(self, rank: spec_fn(u64) -> nat, width: nat) -> int {
        waiting_steps(self.frames@.drop_last(), rank, width) + self.top_steps(rank, width)
    }
}

/// A manufacture that keeps its state has steps left.
proof fn lemma_manufacture_remaining_positive<N: Copy>(
    m: ResManufacture<N>,
    rank: spec_fn(u64) -> nat,
    width: nat,
)
    requires
        m.wf(),
    ensures
        m.remaining(rank, width) > 0,
        m.phase != ManufacturePhase::AwaitDependencies ==> (m.top().deps@.len() - m.top().index - 1)
            * dependency_budget(rank(m.top().res_id), width) >= 0,
{
    let f = m.top();
    let d = dependency_budget(rank(f.res_id), width);
    let later = f.deps@.len() - f.index - 1;
    let below = m.frames@.drop_last();
    lemma_budget_unfold(rank(f.res_id), width);
    assert forall|k: int| 0 <= k < below.len() implies (#[trigger] below[k]).index
        < below[k].deps@.len() by {
        assert(waits_on(m.frames@[k], m.frames@[k + 1]));
    }
    lemma_waiting_steps_nonneg(below, rank, width);
    if m.phase != ManufacturePhase::AwaitDependencies {
        assert(later * d >= 0) by (nonlinear_arith)
            requires
                later >= 0,
                d >= 0,
        ;
    }
}

/// A manufacture ends: where each resource's dependencies are at most
/// `width` and of lower rank than it, every reply that answers the pending
/// request and does not end the manufacture leaves it fewer steps, of a count
/// that is above zero while it runs, and keeps the dependencies it read
/// ranked.
pub proof fn lemma_manufacture_progresses<N: Copy>(
    m: ResManufacture<N>,
    reply: Reply<N>,
    rank: spec_fn(u64) -> nat,
    width: nat,
    next: ResManufacture<N>,
)
    requires
        m.wf(),
        width <= usize::MAX,
        m.ranked(rank, width),
        answers(m.pending(), reply),
        m.fits(reply, rank, width),
        m.steps_to(reply, Progress::Next(next)),
    ensures
        m.remaining(rank, width) > 0,
        next.remaining(rank, width) < m.remaining(rank, width),
        next.ranked(rank, width),
{
    let last = m.frames@.len() - 1;
    let f = m.top();
    let r = rank(f.res_id);
    let d = dependency_budget(r, width);
    let later = f.deps@.len() - f.index - 1;
    let below = m.frames@.drop_last();
    lemma_budget_unfold(r, width);
    lemma_manufacture_remaining_positive(m, rank, width);
    match m.phase {
        ManufacturePhase::AwaitDependencies => {
            if let Reply::Dependencies(Ok(deps)) = reply {
                let len = deps@.len() as int;
                let w = width as int;
                assert(next.frames@.drop_last() =~= below);
                assert(next.top() == Frame { deps, index: 0, ..f });
                assert(next.top_steps(rank, width) == (len - 1) * d + d + 1);
                assert((len - 1) * d + d <= w * d) by (nonlinear_arith)
                    requires
                        len <= w,
                        d >= 0,
                ;
                assert forall|k: int|
                    0 <= k < next.frames@.len() && (k < next.frames@.len() - 1 || next.phase
                        != ManufacturePhase::AwaitDependencies) implies deps_ranked(
                    #[trigger] next.frames@[k],
                    rank,
                    width,
                ) by {
                    if k < last {
                        assert(next.frames@[k] == m.frames@[k]);
                    }
                }
            }
        },
        ManufacturePhase::Moving => {
            assert(deps_ranked(m.frames@[last], rank, width));
            if let Reply::AvailableLocations(Ok(locations)) = reply {
                if m.mover.phase == MovePhase::AwaitLocations && locations@.len() == 0 {
                    let dep = f.deps@[f.index as int].0;
                    assert(rank(dep) < r);
                    lemma_budget_grows(rank(dep), (r - 1) as nat, width);
                    assert(next.frames@.drop_last() == m.frames@);
                    assert(m.frames@.drop_last() == below);
                    assert forall|k: int|
                        0 <= k < next.frames@.len() && (k < next.frames@.len() - 1 || next.phase
                            != ManufacturePhase::AwaitDependencies) implies deps_ranked(
                        #[trigger] next.frames@[k],
                        rank,
                        width,
                    ) by {
                        assert(next.frames@.drop_last()[k] == next.frames@[k]);
                    }
                }
            }
        },
        ManufacturePhase::AwaitConsume => {
            if reply is LineAdded && f.index + 1 < f.deps@.len() {
                let j = f.index as int;
                assert((later - 1) * d + d == later * d) by (nonlinear_arith);
                assert(next.frames@.drop_last() =~= below);
                assert(next.top() == Frame { index: (j + 1) as usize, ..f });
                assert(next.top_steps(rank, width) == (later - 1) * d + d + 1);
                assert forall|k: int|
                    0 <= k < next.frames@.len() && (k < next.frames@.len() - 1 || next.phase
                        != ManufacturePhase::AwaitDependencies) implies deps_ranked(
                    #[trigger] next.frames@[k],
                    rank,
                    width,
                ) by {
                    if k < last {
                        assert(next.frames@[k] == m.frames@[k]);
                    }
                }
            }
        },
        ManufacturePhase::AwaitProduce => {
            if m.frames@.len() > 1 {
                assert(below.drop_last() == next.frames@.drop_last());
                assert(below.last() == next.top());
                assert forall|k: int|
                    0 <= k < next.frames@.len() && (k < next.frames@.len() - 1 || next.phase
                        != ManufacturePhase::AwaitDependencies) implies deps_ranked(
                    #[trigger] next.frames@[k],
                    rank,
                    width,
                ) by {
                    assert(next.frames@[k] == m.frames@[k]);
                }
            }
        },
    }
}

/// The steps that a move has left at most.
pub open spec fn move_steps<N>(mover: ResMoveAuto<N>) -> int {
    match mover.phase {
        MovePhase::AwaitLocations => 3,
        MovePhase::AwaitWithdrawal { .. } => 2,
        MovePhase::AwaitDeposit { .. } => 1,
    }
}

impl<N: Copy> PlaceOrder<N> {
    /// Whether the manufacture under way, if any, has the dependencies it
    /// read ranked.
    pub open spec fn ranked(self, rank: spec_fn(u64) -> nat, width: nat) -> bool {
        self.phase == OrderPhase::Manufacturing ==> self.maker.ranked(rank, width)
    }

    /// Whether dependencies that `reply` reads for the manufacture under way
    /// are ranked.
    pub open spec fn fits(self, reply: Reply<N>, rank: spec_fn(u64) -> nat, width: nat) -> bool {
        self.phase == OrderPhase::Manufacturing ==> self.maker.fits(reply, rank, width)
    }

    /// The steps the order has left at most.
    pub open spec fn remaining(self, rank: spec_fn(u64) -> nat, width: nat) -> int {
        match self.phase {
            OrderPhase::AwaitAvailability => make_budget(rank(self.res_id), width) + 4,
            OrderPhase::Manufacturing => self.maker.remaining(rank, width) + 3,
            OrderPhase::Moving => move_steps(self.mover),
        }
    }
}

/// An order ends: where each resource's dependencies are at most `width` and
/// of lower rank than it, every reply that answers the pending request and
/// does not end the order leaves it fewer steps, of a count that is above
/// zero while it runs.
pub proof fn lemma_order_progresses<N: Copy>(
    o: PlaceOrder<N>,
    reply: Reply<N>,
    rank: spec_fn(u64) -> nat,
    width: nat,
    next: PlaceOrder<N>,
)
    requires
        o.wf(),
        width <= usize::MAX,
        o.ranked(rank, width),
        answers(o.pending(), reply),
        o.fits(reply, rank, width),
        o.steps_to(reply, Progress::Next(next)),
    ensures
        o.remaining(rank, width) > 0,
        next.remaining(rank, width) < o.remaining(rank, width),
        next.ranked(rank, width),
{
    lemma_budget_unfold(rank(o.res_id), width);
    match o.phase {
        OrderPhase::AwaitAvailability => {
            if next.phase == OrderPhase::Manufacturing {
                assert(next.maker.frames@.drop_last().len() == 0);
            }
        },
        OrderPhase::Manufacturing => {
            lemma_manufacture_remaining_positive(o.maker, rank, width);
            if next.phase == OrderPhase::Manufacturing {
                lemma_manufacture_progresses(o.maker, reply, rank, width, next.maker);
            }
        },
        OrderPhase::Moving => {},
    }
}

} // verus!
