//! Startup profiling: named stages with start instants and measured
//! durations, used to find where startup spends its time.
//!
//! Instants are carried as milliseconds of a monotonic clock the caller
//! reads; the profiler itself never looks at a clock, it only records and
//! sums.

use vstd::prelude::*;

verus! {

/// One profiled stage: when it began, and how long it took once it ended.
pub struct Stage {
    pub name: String,
    pub start_ms: u64,
    pub duration_ms: Option<u64>,
}

/// The model of one profiled stage.
pub ghost struct StageModel {
    pub name: Seq<char>,
    pub start: u64,
    pub duration: Option<u64>,
}

/// The model of one stage.
pub open spec fn spec_stage_model(s: Stage) -> StageModel {
    StageModel { name: s.name@, start: s.start_ms, duration: s.duration_ms }
}

/// Whether a stage answers to `name` and has not ended yet.
pub open spec fn spec_open_match(s: StageModel, name: Seq<char>) -> bool {
    s.name == name && s.duration is None
}

/// The duration recorded when a stage that began at `s.start` ends at
/// `now`: their difference, or zero if the clock readings are out of
/// order.
pub open spec fn spec_stage_duration(s: StageModel, now: u64) -> u64 {
    if now >= s.start {
        (now - s.start) as u64
    } else {
        0
    }
}

/// The milliseconds all ended stages took together.
pub open spec fn spec_total_ms(s: Seq<StageModel>) -> int
    decreases s.len(),
{
    if s.len() == 0 {
        0
    } else {
        spec_total_ms(s.drop_last()) + match s.last().duration {
            Some(d) => d as int,
            None => 0,
        }
    }
}

/// An ended prefix of the stages never sums to more than all of them.
proof fn lemma_total_take_le(s: Seq<StageModel>, i: int)
    requires
        0 <= i <= s.len(),
    ensures
        spec_total_ms(s.take(i)) <= spec_total_ms(s),
    decreases s.len() - i,
{
    if i < s.len() {
        assert(s.take(i + 1).drop_last() =~= s.take(i));
        lemma_total_take_le(s, i + 1);
    } else {
        assert(s.take(i) =~= s);
    }
}

/// Records the stages of one startup, in the order they began.
pub struct StartupProfiler {
    stages: Vec<Stage>,
}

impl View for StartupProfiler {
    type V = Seq<StageModel>;

    closed spec fn view(&self) -> Seq<StageModel> {
        self.stages@.map_values(|s: Stage| spec_stage_model(s))
    }
}

impl StartupProfiler {
    /// A profiler with no stages yet.
    pub fn new() -> (p: StartupProfiler)
        ensures
            p@ == Seq::<StageModel>::empty(),
    {
        let p = StartupProfiler { stages: Vec::new() };
        proof {
            assert(p@ =~= Seq::<StageModel>::empty());
        }
        p
    }

    /// Record that a stage named `name` began at `now_ms`.
    pub fn start_stage(&mut self, name: &str, now_ms: u64)
        ensures
            final(self)@ == old(self)@.push(
                StageModel { name: name@, start: now_ms, duration: None },
            ),
    {
        self.stages.push(Stage { name: name.to_owned(), start_ms: now_ms, duration_ms: None });
        proof {
            assert(self@ =~= old(self)@.push(
                StageModel { name: name@, start: now_ms, duration: None },
            ));
        }
    }

    /// Record that the earliest still-open stage named `name` ended at
    /// `now_ms`, and answer its duration; answer nothing when no open
    /// stage has that name.
    pub fn end_stage(&mut self, name: &str, now_ms: u64) -> (r: Option<u64>)
        ensures
            match r {
                Some(d) => exists|i: int|
                    {
                        &&& 0 <= i < old(self)@.len()
                        &&& spec_open_match(#[trigger] old(self)@[i], name@)
                        &&& (forall|j: int|
                            0 <= j < i ==> !spec_open_match(#[trigger] old(self)@[j], name@))
                        &&& d == spec_stage_duration(old(self)@[i], now_ms)
                        &&& final(self)@ == old(self)@.update(
                            i,
                            StageModel { duration: Some(d), ..old(self)@[i] },
                        )
                    },
                None => {
                    &&& forall|j: int|
                        0 <= j < old(self)@.len() ==> !spec_open_match(
                            #[trigger] old(self)@[j],
                            name@,
                        )
                    &&& final(self)@ == old(self)@
                },
            },
    {
        let owned = name.to_owned();
        let n = self.stages.len();
        let mut i: usize = 0;
        while i < n
            invariant
                n == self.stages.len(),
                i <= n,
                owned@ == name@,
                *self == *old(self),
                forall|j: int| 0 <= j < i ==> !spec_open_match(#[trigger] self@[j], name@),
            decreases n - i,
        {
            if self.stages[i].name == owned && self.stages[i].duration_ms.is_none() {
                let start = self.stages[i].start_ms;
                let d = now_ms.saturating_sub(start);
                let ghost idx = i as int;
                proof {
                    assert(self@[idx] == spec_stage_model(self.stages@[idx]));
                    assert(spec_open_match(old(self)@[idx], name@));
                    assert(d == spec_stage_duration(old(self)@[idx], now_ms));
                }
                self.stages[i].duration_ms = Some(d);
                proof {
                    assert(self@ =~= old(self)@.update(
                        idx,
                        StageModel { duration: Some(d), ..old(self)@[idx] },
                    ));
                }
                return Some(d);
            }
            proof {
                assert(self@[i as int] == spec_stage_model(self.stages@[i as int]));
                assert(!spec_open_match(self@[i as int], name@));
            }
            i += 1;
        }
        None
    }

    /// The stages recorded so far, in the order they began.
    pub fn stages(&self) -> (r: &Vec<Stage>)
        ensures
            r@.map_values(|s: Stage| spec_stage_model(s)) == self@,
    {
        &self.stages
    }

    /// The milliseconds all ended stages took together.
    pub fn summary_total_ms(&self) -> (total: u64)
        requires
            spec_total_ms(self@) <= u64::MAX,
        ensures
            total == spec_total_ms(self@),
    {
        let n = self.stages.len();
        let mut total: u64 = 0;
        let mut i: usize = 0;
        while i < n
            invariant
                n == self.stages.len(),
                i <= n,
                spec_total_ms(self@) <= u64::MAX,
                total == spec_total_ms(self@.take(i as int)),
            decreases n - i,
        {
            proof {
                assert(self@.take(i as int + 1).drop_last() =~= self@.take(i as int));
                lemma_total_take_le(self@, i as int + 1);
            }
            let step = match self.stages[i].duration_ms {
                Some(d) => d,
                None => 0,
            };
            total = total + step;
            i += 1;
        }
        proof {
            assert(self@.take(n as int) =~= self@);
        }
        total
    }
}

impl Default for StartupProfiler {
    /// A profiler with no stages yet.
    fn default() -> (p: Self)
        ensures
            p@ == Seq::<StageModel>::empty(),
    {
        StartupProfiler::new()
    }
}

} // verus!
