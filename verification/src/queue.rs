//! Queues: the handle, and the order of work when benchmarking on one.
use vstd::prelude::*;

verus! {

/// A queue (`CNqueue`) in a context, both held as addresses.
#[derive(Debug)]
pub struct Queue {
    pub ctx: usize,
    pub raw: usize,
}

impl Queue {
    /// The raw queue.
    pub fn as_raw(&self) -> (raw: usize)
        ensures
            raw == self.raw,
    {
        self.raw
    }
}

/// One step of a benchmark on a queue.
#[derive(Clone, Copy, PartialEq, Eq, Structural, Hash, Debug)]
pub enum BenchAction {
    /// Run the benchmarked work with this index.
    Call(usize),
    /// Record the starting notifier on the queue.
    RecordStart,
    /// Record the ending notifier on the queue and wait for it.
    RecordEnd,
}

/// Where a benchmark is: warming up before call `i`, timing before call `i`, or done.
#[derive(Clone, Copy, PartialEq, Eq, Structural, Hash, Debug)]
enum BenchPhase {
    WarmUp(usize),
    Timed(usize),
    Finished,
}

/// The order of work of a benchmark: `warm_up` untimed calls with indices `0..warm_up`, the
/// starting record, `times` timed calls with indices `0..times`, then the ending record.
pub open spec fn bench_schedule(times: nat, warm_up: nat) -> Seq<BenchAction> {
    Seq::new(warm_up, |i: int| BenchAction::Call(i as usize)) + seq![BenchAction::RecordStart]
        + Seq::new(times, |i: int| BenchAction::Call(i as usize)) + seq![BenchAction::RecordEnd]
}

/// The steps of a benchmark, handed out one at a time.
pub struct BenchPlan {
    times: usize,
    warm_up: usize,
    phase: BenchPhase,
}

impl BenchPlan {
    #[verifier::type_invariant]
    spec fn inv(self) -> bool {
        match self.phase {
            BenchPhase::WarmUp(i) => i <= self.warm_up,
            BenchPhase::Timed(i) => i <= self.times,
            BenchPhase::Finished => true,
        }
    }

    /// How many timed calls the benchmark makes.
    pub closed spec fn times(self) -> nat {
        self.times as nat
    }

    /// How many untimed calls come first.
    pub closed spec fn warm_up(self) -> nat {
        self.warm_up as nat
    }

    /// How many steps have been handed out.
    pub closed spec fn position(self) -> nat {
        match self.phase {
            BenchPhase::WarmUp(i) => i as nat,
            BenchPhase::Timed(i) => (self.warm_up + 1 + i) as nat,
            BenchPhase::Finished => (self.warm_up + self.times + 2) as nat,
        }
    }

    /// The whole order of work.
    pub open spec fn schedule(self) -> Seq<BenchAction> {
        bench_schedule(self.times(), self.warm_up())
    }

    /// The next step, or `None` once the ending record has been handed out.
    pub fn next(&mut self) -> (a: Option<BenchAction>)
        ensures
            final(self).times() == old(self).times(),
            final(self).warm_up() == old(self).warm_up(),
            old(self).position() < old(self).schedule().len() ==> {
                &&& a == Some(old(self).schedule()[old(self).position() as int])
                &&& final(self).position() == old(self).position() + 1
            },
            old(self).position() >= old(self).schedule().len() ==> {
                &&& a is None
                &&& final(self).position() == old(self).position()
            },
            final(self).position() <= final(self).schedule().len(),
    {
        proof {
            use_type_invariant(&*self);
        }
        let ghost sched = self.schedule();
        let ghost w = self.warm_up as int;
        let ghost t = self.times as int;
        assert(sched.len() == w + t + 2);
        match self.phase {
            BenchPhase::WarmUp(i) => {
                if i < self.warm_up {
                    self.phase = BenchPhase::WarmUp(i + 1);
                    assert(sched[i as int] == BenchAction::Call(i));
                    Some(BenchAction::Call(i))
                } else {
                    self.phase = BenchPhase::Timed(0);
                    assert(sched[w] == BenchAction::RecordStart);
                    Some(BenchAction::RecordStart)
                }
            },
            BenchPhase::Timed(i) => {
                if i < self.times {
                    self.phase = BenchPhase::Timed(i + 1);
                    assert(sched[w + 1 + i] == BenchAction::Call(i));
                    Some(BenchAction::Call(i))
                } else {
                    self.phase = BenchPhase::Finished;
                    assert(sched[w + 1 + t] == BenchAction::RecordEnd);
                    Some(BenchAction::RecordEnd)
                }
            },
            BenchPhase::Finished => None,
        }
    }
}

impl Queue {
    /// The plan of a benchmark of `times` timed calls after `warm_up` untimed ones, from its
    /// first step. At least one call is timed, as the mean time is the elapsed time over `times`.
    pub fn bench(&self, times: usize, warm_up: usize) -> (plan: BenchPlan)
        requires
            times >= 1,
        ensures
            plan.times() == times,
            plan.warm_up() == warm_up,
            plan.position() == 0,
    {
        BenchPlan { times, warm_up, phase: BenchPhase::WarmUp(0) }
    }
}

/// A benchmark makes `warm_up + times` calls, brackets exactly the `times` timed ones between
/// its two records, and gives the timed calls the indices `0..times`.
pub proof fn lemma_bench_schedule(times: nat, warm_up: nat)
    ensures
        bench_schedule(times, warm_up).len() == warm_up + times + 2,
        bench_schedule(times, warm_up)[warm_up as int] == BenchAction::RecordStart,
        bench_schedule(times, warm_up)[(warm_up + times + 1) as int] == BenchAction::RecordEnd,
        bench_schedule(times, warm_up).subrange(0, warm_up as int) == Seq::new(
            warm_up,
            |i: int| BenchAction::Call(i as usize),
        ),
        bench_schedule(times, warm_up).subrange(warm_up + 1 as int, (warm_up + 1 + times) as int) == Seq::new(
            times,
            |i: int| BenchAction::Call(i as usize),
        ),
{
    let s = bench_schedule(times, warm_up);
    assert(s.subrange(0, warm_up as int) =~= Seq::new(warm_up, |i: int| BenchAction::Call(i as usize)));
    assert(s.subrange(warm_up + 1 as int, (warm_up + 1 + times) as int) =~= Seq::new(
        times,
        |i: int| BenchAction::Call(i as usize),
    ));
}

} // verus!
