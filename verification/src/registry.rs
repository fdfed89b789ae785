//! The queue of downloads waiting for a concurrency slot.

use vstd::prelude::*;

use std::collections::VecDeque;

use crate::text::str_eq;

verus! {

/// A download that has not been spawned yet: everything needed to start the
/// process later, so nothing has to be resolved again at spawn time.
pub struct PendingJob {
    pub job_id: String,
    pub url: String,
    pub download_to: String,
    /// Already mode-applied (see `args::apply_mode`).
    pub parameters: Vec<String>,
    pub ffmpeg_path: Option<String>,
    /// The template's name when the job was queued, kept for history.
    pub template_name: Option<String>,
}

/// Some queued job has this id.
pub open spec fn has_id(q: Seq<PendingJob>, id: Seq<char>) -> bool {
    exists|i: int| 0 <= i < q.len() && (#[trigger] q[i]).job_id@ == id
}

/// The queue without the jobs that have this id, the others in their order.
pub open spec fn without_id(q: Seq<PendingJob>, id: Seq<char>) -> Seq<PendingJob>
    decreases q.len(),
{
    if q.len() == 0 {
        seq![]
    } else if q[0].job_id@ == id {
        without_id(q.drop_first(), id)
    } else {
        seq![q[0]] + without_id(q.drop_first(), id)
    }
}

/// Jobs waiting for a slot, oldest first.
pub struct PendingQueue {
    jobs: VecDeque<PendingJob>,
}

impl View for PendingQueue {
    type V = Seq<PendingJob>;

    closed spec fn view(&self) -> Seq<PendingJob> {
        self.jobs@
    }
}

impl PendingQueue {
    /// An empty queue.
    pub fn new() -> (q: Self)
        ensures
            q@ == Seq::<PendingJob>::empty(),
    {
        PendingQueue { jobs: VecDeque::new() }
    }

    /// The number of queued jobs.
    pub fn len(&self) -> (n: usize)
        ensures
            n == self@.len(),
    {
        self.jobs.len()
    }

    /// Queues a job behind every job already waiting.
    pub fn push_pending(&mut self, job: PendingJob)
        ensures
            final(self)@ == old(self)@.push(job),
    {
        self.jobs.push_back(job);
    }

    /// Takes the oldest queued job, if any.
    pub fn pop_pending(&mut self) -> (r: Option<PendingJob>)
        ensures
            old(self)@.len() == 0 ==> r is None && final(self)@ == old(self)@,
            old(self)@.len() > 0 ==> r == Some(old(self)@[0]) && final(self)@ == old(
                self,
            )@.drop_first(),
    {
        let r = self.jobs.pop_front();
        proof {
            if old(self)@.len() > 0 {
                assert(self.jobs@ =~= old(self)@.drop_first());
            }
        }
        r
    }

    /// Removes a not-yet-spawned job (Cancel on a queued row). Returns true
    /// exactly when a job with that id was queued; every other job keeps its
    /// place.
    pub fn remove_pending(&mut self, job_id: &str) -> (r: bool)
        ensures
            final(self)@ == without_id(old(self)@, job_id@),
            r == has_id(old(self)@, job_id@),
    {
        let mut kept: VecDeque<PendingJob> = VecDeque::new();
        let ghost orig = self.jobs@;
        let mut removed = false;
        assert(orig.skip(0) =~= orig);
        while self.jobs.len() > 0
            invariant
                kept@ + without_id(self.jobs@, job_id@) == without_id(orig, job_id@),
                removed == (has_id(orig, job_id@) && !has_id(self.jobs@, job_id@)) || (removed
                    && has_id(orig, job_id@)),
                has_id(orig, job_id@) == (removed || has_id(self.jobs@, job_id@)),
            decreases self.jobs@.len(),
        {
            let ghost before = self.jobs@;
            let job = self.jobs.pop_front().unwrap();
            assert(self.jobs@ =~= before.drop_first());
            proof {
                lemma_has_id_unfold(before, job_id@);
            }
            if str_eq(job.job_id.as_str(), job_id) {
                removed = true;
            } else {
                let ghost k = kept@;
                kept.push_back(job);
                assert(kept@ + without_id(self.jobs@, job_id@) =~= k + without_id(before, job_id@));
            }
        }
        assert(without_id(self.jobs@, job_id@) =~= Seq::<PendingJob>::empty());
        assert(kept@ + Seq::<PendingJob>::empty() =~= kept@);
        self.jobs = kept;
        removed
    }

    /// Empties the queue and returns every job that was in it, oldest first.
    pub fn drain_pending(&mut self) -> (r: Vec<PendingJob>)
        ensures
            r@ == old(self)@,
            final(self)@ == Seq::<PendingJob>::empty(),
    {
        let mut out: Vec<PendingJob> = Vec::new();
        let ghost orig = self.jobs@;
        while self.jobs.len() > 0
            invariant
                out@ + self.jobs@ == orig,
            decreases self.jobs@.len(),
        {
            let ghost before = self.jobs@;
            let j = self.jobs.pop_front().unwrap();
            out.push(j);
            assert(out@ + self.jobs@ =~= orig);
        }
        assert(out@ =~= orig);
        out
    }
}

proof fn lemma_has_id_unfold(q: Seq<PendingJob>, id: Seq<char>)
    requires
        q.len() > 0,
    ensures
        has_id(q, id) == (q[0].job_id@ == id || has_id(q.drop_first(), id)),
{
    if has_id(q, id) && q[0].job_id@ != id {
        let i = choose|i: int| 0 <= i < q.len() && (#[trigger] q[i]).job_id@ == id;
        assert(q.drop_first()[i - 1] == q[i]);
    }
    if has_id(q.drop_first(), id) {
        let i = choose|i: int| 0 <= i < q.len() - 1 && (#[trigger] q.drop_first()[i]).job_id@ == id;
        assert(q[i + 1] == q.drop_first()[i]);
    }
}

/// Law: removing an id leaves no job with that id, and the queue shrinks
/// exactly when one was queued.
pub proof fn law_removed_job_is_gone(q: Seq<PendingJob>, id: Seq<char>)
    ensures
        !has_id(without_id(q, id), id),
        without_id(q, id).len() <= q.len(),
        (without_id(q, id).len() < q.len()) == has_id(q, id),
    decreases q.len(),
{
    if q.len() > 0 {
        law_removed_job_is_gone(q.drop_first(), id);
        lemma_has_id_unfold(q, id);
        let rest = without_id(q.drop_first(), id);
        if q[0].job_id@ != id {
            let w = seq![q[0]] + rest;
            if has_id(w, id) {
                lemma_has_id_unfold(w, id);
                assert(w.drop_first() =~= rest);
            }
        }
    }
}

/// Law: removing an id keeps every job with another id, in order — a job
/// with another id is still queued afterwards.
pub proof fn law_remove_keeps_others(q: Seq<PendingJob>, id: Seq<char>, i: int)
    requires
        0 <= i < q.len(),
        q[i].job_id@ != id,
    ensures
        without_id(q, id).contains(q[i]),
    decreases q.len(),
{
    let rest = without_id(q.drop_first(), id);
    if i == 0 {
        assert((seq![q[0]] + rest)[0] == q[0]);
    } else {
        assert(q.drop_first()[i - 1] == q[i]);
        law_remove_keeps_others(q.drop_first(), id, i - 1);
        let j = choose|j: int| 0 <= j < rest.len() && rest[j] == q[i];
        if q[0].job_id@ != id {
            assert((seq![q[0]] + rest)[j + 1] == q[i]);
        }
    }
}

} // verus!
