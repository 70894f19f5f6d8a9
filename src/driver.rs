//! The run: one resolver request, then one statistics request per build, with
//! the net durations added up as they come in.
//!
//! The run decides and the caller performs: each step names the request to make
//! next, or the outcome. The caller hands back what that request produced.
use vstd::prelude::*;
use crate::endpoint::{Request, get, dependent_builds_url, build_statistics_url, dependents_url, statistics_url};
use crate::model::{Config, Builds, BuildStatistics, SumrError, build_ids, build_time, ids_of, metric_of, METRIC_NAME};

verus! {

/// Sum of a sequence of durations.
pub open spec fn sum(s: Seq<u32>) -> int
    decreases s.len(),
{
    if s.len() == 0 {
        0
    } else {
        sum(s.drop_last()) + s.last()
    }
}

/// A sum of `n` durations is at most `n` times the largest one.
pub proof fn lemma_sum_bound(s: Seq<u32>)
    ensures
        0 <= sum(s) <= s.len() * 0xffff_ffff,
    decreases s.len(),
{
    if s.len() > 0 {
        lemma_sum_bound(s.drop_last());
    }
}

/// What the run asks of its caller, or how it ended.
pub enum Step {
    /// Perform this GET and hand its decoded body back.
    Fetch(Request),
    /// Every build was measured; the total net duration.
    Done(u128),
    /// The run stopped at the first failure.
    Failed(SumrError),
}

/// Where a run stands.
#[derive(PartialEq, Eq, Structural)]
pub enum Phase {
    /// Waiting for the resolver response.
    Resolving,
    /// Waiting for the statistics of the next build.
    Measuring,
    /// Done or failed; nothing is asked any more.
    Finished,
}

/// A run over the builds that a root build depends on.
pub struct Run {
    base_url: String,
    username: String,
    password: String,
    phase: Phase,
    ids: Vec<u32>,
    next: usize,
    total: u128,
    measured: Ghost<Seq<u32>>,
}

impl Run {
    /// Where the run stands.
    pub closed spec fn spec_phase(&self) -> Phase {
        self.phase
    }

    /// The builds to measure, as the resolver listed them.
    pub closed spec fn spec_ids(&self) -> Seq<u32> {
        self.ids@
    }

    /// Net durations received so far, one per measured build, in order.
    pub closed spec fn spec_measured(&self) -> Seq<u32> {
        self.measured@
    }

    /// The server and credentials of the run.
    pub closed spec fn spec_base_url(&self) -> Seq<char> {
        self.base_url@
    }

    pub closed spec fn spec_username(&self) -> Seq<char> {
        self.username@
    }

    pub closed spec fn spec_password(&self) -> Seq<char> {
        self.password@
    }

    /// The running total is the sum of what was measured, and one duration was
    /// measured for each build before the next.
    pub closed spec fn wf(&self) -> bool {
        &&& self.next as int == self.measured@.len()
        &&& self.next <= self.ids@.len()
        &&& self.total as int == sum(self.measured@)
        &&& self.phase == Phase::Resolving ==> self.ids@.len() == 0
        &&& self.phase == Phase::Measuring ==> self.next < self.ids@.len()
    }

    /// The next request the run would make while measuring.
    pub open spec fn asks_statistics_of(&self, step: Step, id: u32) -> bool {
        step matches Step::Fetch(req) && req.is_get(
            statistics_url(self.spec_base_url(), id),
            self.spec_username(),
            self.spec_password(),
        )
    }

    /// Starts a run for `config`; the first step asks the resolver.
    pub fn new(config: &Config) -> (r: (Run, Step))
        ensures
            r.0.wf(),
            r.0.spec_phase() == Phase::Resolving,
            r.0.spec_measured().len() == 0,
            r.0.spec_base_url() == config.base_url@,
            r.0.spec_username() == config.username@,
            r.0.spec_password() == config.password@,
            r.1 matches Step::Fetch(req) && req.is_get(
                dependents_url(config.base_url@, config.build_id@),
                config.username@,
                config.password@,
            ),
    {
        let url = dependent_builds_url(config.base_url.as_str(), config.build_id.as_str());
        let req = get(url, config.username.as_str(), config.password.as_str());
        let run = Run {
            base_url: config.base_url.clone(),
            username: config.username.clone(),
            password: config.password.clone(),
            phase: Phase::Resolving,
            ids: Vec::new(),
            next: 0,
            total: 0,
            measured: Ghost(Seq::empty()),
        };
        (run, Step::Fetch(req))
    }

    /// Where the run stands.
    pub fn phase(&self) -> (r: Phase)
        ensures
            r == self.spec_phase(),
    {
        match self.phase {
            Phase::Resolving => Phase::Resolving,
            Phase::Measuring => Phase::Measuring,
            Phase::Finished => Phase::Finished,
        }
    }

    /// The running total of the net durations received so far.
    pub fn total(&self) -> (r: u128)
        requires
            self.wf(),
        ensures
            r as int == sum(self.spec_measured()),
    {
        self.total
    }

    fn statistics_request(&self, id: u32) -> (r: Request)
        ensures
            r.is_get(statistics_url(self.base_url@, id), self.username@, self.password@),
    {
        let url = build_statistics_url(self.base_url.as_str(), id);
        get(url, self.username.as_str(), self.password.as_str())
    }

    /// Takes the resolver's outcome. A failure ends the run with it; an empty
    /// list ends it with a total of zero; otherwise the first build is measured.
    pub fn on_builds(&mut self, outcome: Result<Builds, SumrError>) -> (r: Step)
        requires
            old(self).wf(),
            old(self).spec_phase() == Phase::Resolving,
        ensures
            final(self).wf(),
            final(self).spec_measured().len() == 0,
            final(self).spec_base_url() == old(self).spec_base_url(),
            final(self).spec_username() == old(self).spec_username(),
            final(self).spec_password() == old(self).spec_password(),
            match outcome {
                Err(e) => r == Step::Failed(e) && final(self).spec_phase() == Phase::Finished,
                Ok(builds) => {
                    &&& final(self).spec_ids() == ids_of(builds.build@)
                    &&& builds.build@.len() == 0 ==> r == Step::Done(0) && final(self).spec_phase()
                        == Phase::Finished
                    &&& builds.build@.len() > 0 ==> final(self).spec_phase() == Phase::Measuring
                        && final(self).asks_statistics_of(r, builds.build@[0].id)
                },
            },
    {
        match outcome {
            Err(e) => {
                self.phase = Phase::Finished;
                Step::Failed(e)
            },
            Ok(builds) => {
                self.ids = build_ids(&builds);
                if self.ids.len() == 0 {
                    self.phase = Phase::Finished;
                    Step::Done(0)
                } else {
                    self.phase = Phase::Measuring;
                    let id = self.ids[0];
                    Step::Fetch(self.statistics_request(id))
                }
            },
        }
    }

    /// Takes the statistics of the build being measured. Its net duration is
    /// added to the total, and the next build is measured or the total is
    /// returned. A failure, or statistics without the net duration, ends the run.
    pub fn on_statistics(&mut self, outcome: Result<BuildStatistics, SumrError>) -> (r: Step)
        requires
            old(self).wf(),
            old(self).spec_phase() == Phase::Measuring,
        ensures
            final(self).wf(),
            final(self).spec_ids() == old(self).spec_ids(),
            final(self).spec_base_url() == old(self).spec_base_url(),
            final(self).spec_username() == old(self).spec_username(),
            final(self).spec_password() == old(self).spec_password(),
            ({
                let id = old(self).spec_ids()[old(self).spec_measured().len() as int];
                match outcome {
                    Err(e) => r == Step::Failed(e) && final(self).spec_phase() == Phase::Finished
                        && final(self).spec_measured() == old(self).spec_measured(),
                    Ok(stats) => match metric_of(stats.property@, METRIC_NAME@) {
                        None => r == Step::Failed(SumrError::MissingMetric(id))
                            && final(self).spec_phase() == Phase::Finished
                            && final(self).spec_measured() == old(self).spec_measured(),
                        Some(v) => {
                            let measured = old(self).spec_measured().push(v);
                            &&& final(self).spec_measured() == measured
                            &&& measured.len() < old(self).spec_ids().len() ==> {
                                &&& final(self).spec_phase() == Phase::Measuring
                                &&& final(self).asks_statistics_of(r, old(self).spec_ids()[measured.len() as int])
                            }
                            &&& measured.len() == old(self).spec_ids().len() ==> {
                                &&& final(self).spec_phase() == Phase::Finished
                                &&& r == Step::Done(sum(measured) as u128)
                            }
                        },
                    },
                }
            }),
    {
        let n = self.ids.len();
        let id = self.ids[self.next];
        match outcome {
            Err(e) => {
                self.phase = Phase::Finished;
                Step::Failed(e)
            },
            Ok(stats) => match build_time(&stats, id) {
                Err(e) => {
                    self.phase = Phase::Finished;
                    Step::Failed(e)
                },
                Ok(v) => {
                    proof {
                        lemma_sum_bound(self.measured@);
                        assert(self.measured@.push(v).drop_last() =~= self.measured@);
                    }
                    assert(self.total + v as u128 <= 0xffff_ffff_ffff_ffff * 0xffff_ffffu128 + 0xffff_ffff) by (nonlinear_arith)
                        requires
                            self.total <= self.next * 0xffff_ffff,
                            self.next <= 0xffff_ffff_ffff_ffff,
                            v <= 0xffff_ffff,
                    ;
                    self.total = self.total + v as u128;
                    assert(self.next < n);
                    self.next = self.next + 1;
                    self.measured = Ghost(self.measured@.push(v));
                    if self.next < self.ids.len() {
                        let id = self.ids[self.next];
                        Step::Fetch(self.statistics_request(id))
                    } else {
                        self.phase = Phase::Finished;
                        Step::Done(self.total)
                    }
                },
            },
        }
    }
}

} // verus!
