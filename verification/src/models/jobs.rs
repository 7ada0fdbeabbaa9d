//! Job application rows and their manager.

use vstd::prelude::*;

use crate::models::auth::UserCtx;
use crate::models::Error;

verus! {

/// Where a job application stands.
#[derive(Debug, Clone, Copy, PartialEq, Eq, Structural)]
pub enum JobApplicationStatus {
    Pending,
    Accepted,
    Rejected,
}

/// One job application row. The creation time is kept as a timestamp in
/// microseconds, the form in which the store hands it over.
#[derive(Debug)]
pub struct Job {
    pub id: i64,
    pub title: String,
    pub company: String,
    pub application_link: String,
    pub ctime: i64,
    pub user_id: String,
    pub status: JobApplicationStatus,
}

impl Clone for Job {
    fn clone(&self) -> (res: Self)
        ensures
            res == self,
    {
        Job {
            id: self.id,
            title: self.title.clone(),
            company: self.company.clone(),
            application_link: self.application_link.clone(),
            ctime: self.ctime,
            user_id: self.user_id.clone(),
            status: self.status,
        }
    }
}

/// A partial job update: only present fields overwrite the stored row.
#[derive(Debug)]
pub struct JobApplicationPatch {
    pub title: Option<String>,
    pub application_link: Option<String>,
    pub company: Option<String>,
    pub status: Option<String>,
}

impl JobApplicationPatch {
    /// A patch counts as empty when none of the three descriptive fields is
    /// present; the status field alone does not make a patch non-empty.
    pub open spec fn spec_is_empty(&self) -> bool {
        self.title is None && self.application_link is None && self.company is None
    }

    #[verifier::when_used_as_spec(spec_is_empty)]
    pub fn is_empty(&self) -> (r: bool)
        ensures
            r == self.spec_is_empty(),
    {
        self.title.is_none() && self.application_link.is_none() && self.company.is_none()
    }
}

/// Character-for-character equality of two string slices.
fn str_eq(a: &str, b: &str) -> (r: bool)
    ensures
        r == (a@ == b@),
{
    let a_len = a.unicode_len();
    let b_len = b.unicode_len();
    if a_len != b_len {
        return false;
    }
    let mut i: usize = 0;
    while i < a_len
        invariant
            a_len == a@.len(),
            b_len == b@.len(),
            a_len == b_len,
            i <= a_len,
            forall|k: int| 0 <= k < i ==> a@[k] == b@[k],
        decreases a_len - i,
    {
        if a.get_char(i) != b.get_char(i) {
            return false;
        }
        i += 1;
    }
    proof {
        assert(a@ =~= b@);
    }
    true
}

/// What `parse_job_status` makes of a status string: the three known names
/// map to their variant, anything else falls back to `Pending`.
pub open spec fn spec_parse_job_status(s: Seq<char>) -> JobApplicationStatus {
    if s == "pending"@ {
        JobApplicationStatus::Pending
    } else if s == "accepted"@ {
        JobApplicationStatus::Accepted
    } else if s == "rejected"@ {
        JobApplicationStatus::Rejected
    } else {
        JobApplicationStatus::Pending
    }
}

/// Turn a status string into a status, defaulting to `Pending` on anything
/// unknown.
pub fn parse_job_status(status: &str) -> (r: JobApplicationStatus)
    ensures
        r == spec_parse_job_status(status@),
{
    if str_eq(status, "pending") {
        JobApplicationStatus::Pending
    } else if str_eq(status, "accepted") {
        JobApplicationStatus::Accepted
    } else if str_eq(status, "rejected") {
        JobApplicationStatus::Rejected
    } else {
        JobApplicationStatus::Pending
    }
}

/// The job-application manager: every decision it takes about job rows.
pub struct JobAppManager;

/// The job rows of `jobs` that belong to `user_id`, in their stored order.
pub open spec fn owned_jobs(jobs: Seq<Job>, user_id: Seq<char>) -> Seq<Job> {
    jobs.filter(|j: Job| j.user_id@ == user_id)
}

/// Newest first: creation times never increase along the sequence.
pub open spec fn sorted_newest_first(jobs: Seq<Job>) -> bool {
    forall|i: int, j: int| 0 <= i <= j < jobs.len() ==> jobs[i].ctime >= jobs[j].ctime
}

impl JobAppManager {
    /// Decide a create request. An empty patch is rejected outright; anything
    /// else becomes a fresh `Pending` row owned by the caller, under the row
    /// id and creation time the store assigns.
    pub fn create(data: JobApplicationPatch, user_ctx: UserCtx, job_id: i64, ctime: i64) -> (r:
        Result<Job, Error>)
        requires
            !data.spec_is_empty() ==> data.title is Some && data.company is Some
                && data.application_link is Some,
        ensures
            data.spec_is_empty() ==> (r matches Err(e) && e is MissingData),
            !data.spec_is_empty() ==> (r matches Ok(j) && j == (Job {
                id: job_id,
                title: data.title->0,
                company: data.company->0,
                application_link: data.application_link->0,
                ctime: ctime,
                user_id: user_ctx.user_id,
                status: JobApplicationStatus::Pending,
            })),
    {
        if data.is_empty() {
            return Err(Error::MissingData);
        }
        Ok(
            Job {
                id: job_id,
                title: data.title.unwrap(),
                company: data.company.unwrap(),
                application_link: data.application_link.unwrap(),
                ctime,
                user_id: user_ctx.user_id,
                status: JobApplicationStatus::Pending,
            },
        )
    }

    /// The caller's own job applications, newest first. The result holds
    /// exactly the rows of `jobs` whose owner is the caller, ordered by
    /// descending creation time.
    #[verifier::loop_isolation(false)]
    pub fn list(jobs: Vec<Job>, user_ctx: UserCtx) -> (r: Vec<Job>)
        ensures
            sorted_newest_first(r@),
            r@.to_multiset() == owned_jobs(jobs@, user_ctx.user_id@).to_multiset(),
            forall|k: int| 0 <= k < r@.len() ==> #[trigger] r@[k].user_id@ == user_ctx.user_id@,
    {
        let ghost pred = (|j: Job| j.user_id@ == user_ctx.user_id@);
        let mut out: Vec<Job> = Vec::new();
        let mut i: usize = 0;
        proof {
            reveal(Seq::filter);
            assert(jobs@.take(0).filter(pred) =~= Seq::<Job>::empty());
            assert(out@.to_multiset() =~= jobs@.take(0).filter(pred).to_multiset());
        }
        while i < jobs.len()
            invariant
                i <= jobs@.len(),
                sorted_newest_first(out@),
                out@.to_multiset() == jobs@.take(i as int).filter(pred).to_multiset(),
                forall|k: int| 0 <= k < out@.len() ==> #[trigger] out@[k].user_id@
                    == user_ctx.user_id@,
            decreases jobs@.len() - i,
        {
            let job = (&jobs[i]).clone();
            proof {
                jobs@.lemma_take_succ_push(i as int);
                jobs@.take(i as int).lemma_filter_push(job, pred);
            }
            if job.user_id == user_ctx.user_id {
                let mut pos: usize = 0;
                while pos < out.len() && out[pos].ctime >= job.ctime
                    invariant
                        pos <= out@.len(),
                        forall|k: int| 0 <= k < pos ==> #[trigger] out@[k].ctime >= job.ctime,
                    decreases out@.len() - pos,
                {
                    pos += 1;
                }
                let ghost prev = out@;
                out.insert(pos, job);
                proof {
                    vstd::seq_lib::to_multiset_insert(prev, pos as int, job);
                    vstd::seq_lib::to_multiset_build(jobs@.take(i as int).filter(pred), job);
                    assert(sorted_newest_first(out@)) by {
                        assert forall|a: int, b: int| 0 <= a <= b < out@.len() implies out@[a].ctime
                            >= out@[b].ctime by {
                            if a < pos && b == pos {
                                assert(prev[a].ctime >= job.ctime);
                            } else if a == pos && b > pos {
                                assert(prev[pos as int].ctime < job.ctime);
                            }
                        }
                    }
                }
            }
            i += 1;
        }
        proof {
            jobs@.lemma_take_len();
        }
        out
    }

    /// Set the status of the caller's own row from a status string; any other
    /// field stays as it was. A row owned by someone else is refused.
    pub fn update_job_status(current: Job, job_status: &str, utx: UserCtx) -> (r: Result<
        Job,
        Error,
    >)
        ensures
            current.user_id@ != utx.user_id@ ==> (r matches Err(e) && e is NotAuthorized),
            current.user_id@ == utx.user_id@ ==> (r matches Ok(j) && j.id == current.id && j.title
                == current.title && j.company == current.company && j.application_link
                == current.application_link && j.ctime == current.ctime && j.user_id
                == current.user_id && j.status == spec_parse_job_status(job_status@)),
    {
        if !(current.user_id == utx.user_id) {
            return Err(Error::NotAuthorized);
        }
        let status = parse_job_status(job_status);
        Ok(
            Job {
                id: current.id,
                title: current.title,
                company: current.company,
                application_link: current.application_link,
                ctime: current.ctime,
                user_id: current.user_id,
                status,
            },
        )
    }

    /// Merge a patch into the caller's own row: a present field overwrites the
    /// stored value, an absent field leaves it unchanged. A row owned by a
    /// different user is refused, and the patch is then not applied.
    pub fn update(utx: UserCtx, current: Job, data: JobApplicationPatch) -> (r: Result<Job, Error>)
        ensures
            current.user_id@ != utx.user_id@ ==> (r matches Err(e) && e is NotAuthorized),
            current.user_id@ == utx.user_id@ ==> (r matches Ok(j) && j.id == current.id && j.ctime
                == current.ctime && j.user_id == current.user_id && j.title == (if data.title
                is Some {
                data.title->0
            } else {
                current.title
            }) && j.company == (if data.company is Some {
                data.company->0
            } else {
                current.company
            }) && j.application_link == (if data.application_link is Some {
                data.application_link->0
            } else {
                current.application_link
            }) && j.status == (if data.status is Some {
                spec_parse_job_status(data.status->0@)
            } else {
                current.status
            })),
    {
        if !(current.user_id == utx.user_id) {
            return Err(Error::NotAuthorized);
        }
        let status = match data.status {
            Some(s) => parse_job_status(s.as_str()),
            None => current.status,
        };
        let title = match data.title {
            Some(t) => t,
            None => current.title,
        };
        let company = match data.company {
            Some(c) => c,
            None => current.company,
        };
        let application_link = match data.application_link {
            Some(l) => l,
            None => current.application_link,
        };
        Ok(
            Job {
                id: current.id,
                title,
                company,
                application_link,
                ctime: current.ctime,
                user_id: current.user_id,
                status,
            },
        )
    }

    /// Allow a delete only of the caller's own row.
    pub fn delete(utx: UserCtx, current: Job) -> (r: Result<(), Error>)
        ensures
            r is Ok <==> current.user_id@ == utx.user_id@,
            current.user_id@ != utx.user_id@ ==> (r matches Err(e) && e is NotAuthorized),
    {
        if !(current.user_id == utx.user_id) {
            return Err(Error::NotAuthorized);
        }
        Ok(())
    }
}

} // verus!
