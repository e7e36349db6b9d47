//! Repeated publication: a job publishes its payload template `count`
//! times, the placeholder `{N}` replaced by the 1-based iteration, and
//! waits `period` milliseconds after each publication where the period is
//! not zero. The scheduler hands out one step at a time; the caller
//! performs it.

use vstd::prelude::*;
use crate::text::{decimal, decimal_string, substitute_placeholder, substituted};

verus! {

/// Delivery guarantee asked of the bus for a publication.
#[derive(Clone, Copy, Debug, PartialEq, Eq, Structural)]
pub enum Reliability {
    Reliable,
    BestEffort,
}

/// The reliability that the `unreliable` flag asks for.
pub fn reliability_for(unreliable: bool) -> (r: Reliability)
    ensures
        r == (if unreliable {
            Reliability::BestEffort
        } else {
            Reliability::Reliable
        }),
{
    if unreliable {
        Reliability::BestEffort
    } else {
        Reliability::Reliable
    }
}

/// A repeated publication on one key.
#[derive(Debug)]
pub struct PublishJob {
    pub key: String,
    pub payload: String,
    pub attachment: Option<String>,
    pub count: u32,
    pub period: u64,
    pub reliability: Reliability,
}

/// What the caller does next for a job.
#[derive(Debug)]
pub enum PublishStep {
    /// Publish `payload` (with `attachment`, where there is one) on the job's key.
    Publish {
        iteration: u32,
        payload: String,
        attachment: Option<String>,
        reliability: Reliability,
    },
    /// Suspend for `millis` milliseconds.
    Sleep { millis: u64 },
    /// The job is over.
    Done,
}

/// The number of steps of a job before it is over.
pub open spec fn total_steps(count: nat, period: nat) -> nat {
    if period > 0 {
        2 * count
    } else {
        count
    }
}

/// The iteration that step `k` publishes, if it publishes.
pub open spec fn iteration_at(count: nat, period: nat, k: int) -> Option<nat> {
    if k < 0 || k >= total_steps(count, period) {
        None
    } else if period > 0 {
        if k % 2 == 0 {
            Some((k / 2 + 1) as nat)
        } else {
            None
        }
    } else {
        Some((k + 1) as nat)
    }
}

/// Whether step `k` waits for the period.
pub open spec fn sleeps_at(count: nat, period: nat, k: int) -> bool {
    0 <= k < total_steps(count, period) && period > 0 && k % 2 == 1
}

/// The payload of iteration `i`.
pub open spec fn payload_of(template: Seq<char>, i: nat) -> Seq<char> {
    substituted(template, decimal(i))
}

/// Whether `step` is step `k` of `job`.
pub open spec fn step_of(job: PublishJob, k: int, step: PublishStep) -> bool {
    match iteration_at(job.count as nat, job.period as nat, k) {
        Some(i) => step matches PublishStep::Publish { iteration, payload, attachment, reliability }
            && iteration == i && payload@ == payload_of(job.payload@, i) && attachment
            == job.attachment && reliability == job.reliability,
        None => if sleeps_at(job.count as nat, job.period as nat, k) {
            step == (PublishStep::Sleep { millis: job.period })
        } else {
            step is Done
        },
    }
}

/// Whether some step publishes iteration `i`.
pub open spec fn published(count: nat, period: nat, i: nat) -> bool {
    exists|k: int| iteration_at(count, period, k) == Some(i)
}

/// A job publishes each iteration from 1 to `count` exactly once, in
/// increasing order, and publishes at no other step; each publishing step
/// carries the template with `{N}` replaced by the decimal iteration.
pub proof fn lemma_publishes_each_iteration_once(job: PublishJob)
    ensures
        forall|k: int|
            #![trigger iteration_at(job.count as nat, job.period as nat, k)]
            iteration_at(job.count as nat, job.period as nat, k) is Some ==> 1 <= iteration_at(
                job.count as nat,
                job.period as nat,
                k,
            )->0 <= job.count && 0 <= k < total_steps(job.count as nat, job.period as nat),
        forall|i: nat|
            1 <= i <= job.count ==> #[trigger] published(job.count as nat, job.period as nat, i),
        forall|k1: int, k2: int|
            k1 < k2 && iteration_at(job.count as nat, job.period as nat, k1) is Some
                && iteration_at(job.count as nat, job.period as nat, k2) is Some
                ==> iteration_at(job.count as nat, job.period as nat, k1)->0 < iteration_at(
                job.count as nat,
                job.period as nat,
                k2,
            )->0,
        forall|k: int, step: PublishStep|
            step_of(job, k, step) && iteration_at(job.count as nat, job.period as nat, k) is Some
                ==> (step matches PublishStep::Publish { iteration, payload, .. } && iteration
                == iteration_at(job.count as nat, job.period as nat, k)->0 && payload@
                == payload_of(job.payload@, iteration as nat)),
{
    let count = job.count as nat;
    let period = job.period as nat;
    assert forall|i: nat| 1 <= i <= count implies #[trigger] published(count, period, i) by {
        if period > 0 {
            let k = 2 * (i - 1);
            assert(k % 2 == 0 && k / 2 == i - 1) by (nonlinear_arith)
                requires
                    k == 2 * (i - 1),
                    i >= 1,
            ;
            assert(iteration_at(count, period, k) == Some(i));
        } else {
            assert(iteration_at(count, period, i - 1) == Some(i));
        }
    }
    assert forall|k1: int, k2: int|
        k1 < k2 && iteration_at(count, period, k1) is Some && iteration_at(
            count,
            period,
            k2,
        ) is Some implies iteration_at(count, period, k1)->0 < iteration_at(count, period, k2)->0 by {
        if period > 0 {
            assert(k1 / 2 < k2 / 2) by (nonlinear_arith)
                requires
                    0 <= k1 < k2,
                    k1 % 2 == 0,
                    k2 % 2 == 0,
            ;
        }
    }
    assert forall|k: int|
        #![trigger iteration_at(count, period, k)]
        iteration_at(count, period, k) is Some implies 1 <= iteration_at(count, period, k)->0
            <= count && 0 <= k < total_steps(count, period) by {
        if period > 0 {
            assert(k / 2 + 1 <= count) by (nonlinear_arith)
                requires
                    0 <= k < 2 * count,
            ;
        }
    }
}

/// Between two consecutive publications a job with a period waits for it
/// once, and a job without one does not wait at all.
pub proof fn lemma_waits_between_publications(count: nat, period: nat, k1: int, k2: int)
    requires
        k1 < k2,
        iteration_at(count, period, k1) is Some,
        iteration_at(count, period, k2) is Some,
        forall|k: int| k1 < k < k2 ==> iteration_at(count, period, k) is None,
    ensures
        period > 0 ==> k2 == k1 + 2 && sleeps_at(count, period, k1 + 1),
        period == 0 ==> k2 == k1 + 1,
        forall|k: int| period == 0 ==> !sleeps_at(count, period, k),
{
    if period > 0 {
        assert(k1 + 2 <= k2) by (nonlinear_arith)
            requires
                k1 < k2,
                k1 % 2 == 0,
                k2 % 2 == 0,
        ;
        assert((k1 + 2) % 2 == 0 && (k1 + 1) % 2 == 1) by (nonlinear_arith)
            requires
                k1 % 2 == 0,
        ;
        if k1 + 2 < k2 {
            assert(iteration_at(count, period, k1 + 2) is Some);
        }
    } else {
        if k1 + 1 < k2 {
            assert(iteration_at(count, period, k1 + 1) is Some);
        }
    }
}

/// A job under way.
pub struct PublishScheduler {
    job: PublishJob,
    position: u64,
}

impl PublishScheduler {
    /// The job being run.
    pub closed spec fn spec_job(&self) -> PublishJob {
        self.job
    }

    /// The number of steps handed out so far.
    pub closed spec fn spec_position(&self) -> nat {
        self.position as nat
    }

    pub closed spec fn wf(&self) -> bool {
        self.position <= total_steps(self.job.count as nat, self.job.period as nat)
    }

    /// Starts `job` at its first step.
    pub fn new(job: PublishJob) -> (r: PublishScheduler)
        ensures
            r.wf(),
            r.spec_job() == job,
            r.spec_position() == 0,
    {
        PublishScheduler { job, position: 0 }
    }

    /// The job being run.
    pub fn job(&self) -> (r: &PublishJob)
        ensures
            *r == self.spec_job(),
    {
        &self.job
    }

    /// Hands out the next step and moves past it; once the job is over,
    /// every call hands out `Done`.
    pub fn next_step(&mut self) -> (r: PublishStep)
        requires
            old(self).wf(),
        ensures
            final(self).wf(),
            final(self).spec_job() == old(self).spec_job(),
            step_of(old(self).spec_job(), old(self).spec_position() as int, r),
            final(self).spec_position() == if old(self).spec_position() < total_steps(
                old(self).spec_job().count as nat,
                old(self).spec_job().period as nat,
            ) {
                old(self).spec_position() + 1
            } else {
                old(self).spec_position()
            },
    {
        let count = self.job.count as u64;
        let total: u64 = if self.job.period > 0 {
            2 * count
        } else {
            count
        };
        let k = self.position;
        if k >= total {
            return PublishStep::Done;
        }
        self.position = k + 1;
        if self.job.period > 0 && k % 2 == 1 {
            return PublishStep::Sleep { millis: self.job.period };
        }
        let iteration: u32 = if self.job.period > 0 {
            (k / 2 + 1) as u32
        } else {
            (k + 1) as u32
        };
        let digits = decimal_string(iteration as u64);
        let payload = substitute_placeholder(self.job.payload.as_str(), digits.as_str());
        let attachment = match &self.job.attachment {
            Some(a) => Some(a.clone()),
            None => None,
        };
        PublishStep::Publish { iteration, payload, attachment, reliability: self.job.reliability }
    }
}

} // verus!
