//! Tracking of background deploys: finding a job, applying what the deploy
//! stream reports, and the lines shown in its log.
use vstd::prelude::*;
use crate::client::app::{deploy_in_progress, DeployJob, DeployState};
use crate::client::model::{job_view, jobs_view, opt_view, JobView};
use crate::proto::{DeployEvent, Event};
use crate::text::{concat, concat3, has_suffix};

verus! {

/// The first position from `k` on of a job with this id, or -1.
pub open spec fn job_index_from(jobs: Seq<JobView>, id: usize, k: int) -> int
    decreases jobs.len() - k,
{
    if k < 0 || k >= jobs.len() {
        -1
    } else if jobs[k].id == id {
        k
    } else {
        job_index_from(jobs, id, k + 1)
    }
}

/// The first position of a job with this id, or -1.
pub open spec fn job_index(jobs: Seq<JobView>, id: usize) -> int {
    job_index_from(jobs, id, 0)
}

pub proof fn lemma_job_index_from(jobs: Seq<JobView>, id: usize, k: int)
    requires
        0 <= k,
    ensures
        job_index_from(jobs, id, k) == -1 || (k <= job_index_from(jobs, id, k) < jobs.len()
            && jobs[job_index_from(jobs, id, k)].id == id),
    decreases jobs.len() - k,
{
    if k < jobs.len() && jobs[k].id != id {
        lemma_job_index_from(jobs, id, k + 1);
    }
}

/// No first position means no job with that id from `k` on.
pub proof fn lemma_job_index_none(jobs: Seq<JobView>, id: usize, k: int, q: int)
    requires
        0 <= k <= q < jobs.len(),
        jobs[q].id == id,
    ensures
        job_index_from(jobs, id, k) != -1,
    decreases q - k,
{
    if jobs[k].id != id {
        lemma_job_index_none(jobs, id, k + 1, q);
    }
}

/// The position of the first job with this id.
pub fn find_job(jobs: &Vec<DeployJob>, id: usize) -> (r: Option<usize>)
    ensures
        match r {
            Some(i) => i as int == job_index(jobs_view(jobs@), id) && i < jobs@.len(),
            None => job_index(jobs_view(jobs@), id) == -1,
        },
{
    let mut i: usize = 0;
    while i < jobs.len()
        invariant
            i <= jobs@.len(),
            job_index(jobs_view(jobs@), id) == job_index_from(jobs_view(jobs@), id, i as int),
        decreases jobs@.len() - i,
    {
        if jobs[i].id == id {
            return Some(i);
        }
        i = i + 1;
    }
    None
}

/// The job with this id, for changing it in place.
pub fn find_job_mut(jobs: &mut Vec<DeployJob>, id: usize) -> (r: Option<&mut DeployJob>)
    ensures
        job_index(jobs_view(old(jobs)@), id) == -1 ==> r is None && final(jobs)@ == old(jobs)@,
        job_index(jobs_view(old(jobs)@), id) != -1 ==> (r matches Some(j) && ({
            let i = job_index(jobs_view(old(jobs)@), id);
            &&& 0 <= i < old(jobs)@.len()
            &&& *j == old(jobs)@[i]
            &&& final(jobs)@ == old(jobs)@.update(i, *final(j))
        })),
{
    let mut i: usize = 0;
    let n = jobs.len();
    while i < n
        invariant
            i <= n == jobs@.len(),
            jobs@ == old(jobs)@,
            job_index(jobs_view(jobs@), id) == job_index_from(jobs_view(jobs@), id, i as int),
        decreases n - i,
    {
        if jobs[i].id == id {
            proof {
                lemma_job_index_from(jobs_view(jobs@), id, 0);
            }
            return Some(&mut jobs[i]);
        }
        i = i + 1;
    }
    None
}

/// Applying a change to one job changes its view at the same position.
pub proof fn lemma_jobs_view_update(v: Seq<DeployJob>, i: int, j: DeployJob)
    requires
        0 <= i < v.len(),
    ensures
        jobs_view(v.update(i, j)) == jobs_view(v).update(i, job_view(j)),
{
    assert(jobs_view(v.update(i, j)) =~= jobs_view(v).update(i, job_view(j)));
}

/// `jobs` with `f` applied to the first job with this id, if there is one.
pub open spec fn update_job(jobs: Seq<JobView>, id: usize, f: spec_fn(JobView) -> JobView) -> Seq<
    JobView,
> {
    let i = job_index(jobs, id);
    if i == -1 {
        jobs
    } else {
        jobs.update(i, f(jobs[i]))
    }
}

/// The log line a deploy event adds to its job, if any.
pub open spec fn event_line(e: Option<Event>) -> Option<Seq<char>> {
    match e {
        Some(Event::Log { line, is_stderr }) => Some(
            if is_stderr {
                "[err] "@ + line@
            } else {
                line@
            },
        ),
        Some(Event::Complete { app_id }) => Some("\u{2705} Deployed \u{2014} "@ + app_id@),
        Some(Event::Error { message }) => Some("\u{274c} "@ + message@),
        Some(Event::Progress { stage, percent_text }) => Some(
            "["@ + percent_text@ + "%] "@ + stage@,
        ),
        None => None,
    }
}

/// Every event that carries something adds exactly one line to its deploy
/// log, and the line shows what the event carries: a build output line as
/// it is (standard error marked `[err] ` in front), the app id of a
/// completion, the message of an error, and a stage with its percentage.
/// A log line changes nothing but the log.
pub proof fn law_event_lines(j: JobView, e: Option<Event>)
    ensures
        e is None <==> event_line(e) is None,
        e matches Some(Event::Log { line, is_stderr }) ==> if !is_stderr {
            &&& event_line(e) == Some(line@)
            &&& after_event(j, e) == (JobView { logs: j.logs.push(line@), ..j })
        } else {
            let l = event_line(e)->0;
            &&& event_line(e) is Some
            &&& l.len() == line@.len() + 6
            &&& l.subrange(0, 6) == "[err] "@
            &&& l.subrange(6, l.len() as int) == line@
            &&& after_event(j, e) == (JobView { logs: j.logs.push(l), ..j })
        },
        e matches Some(Event::Complete { app_id }) ==> event_line(e) is Some && has_suffix(
            event_line(e)->0,
            app_id@,
        ) && after_event(j, e).app_id == Some(app_id@) && after_event(j, e).status == "complete"@
            && after_event(j, e).logs.len() == j.logs.len() + 1,
        e matches Some(Event::Error { message }) ==> event_line(e) is Some && has_suffix(
            event_line(e)->0,
            message@,
        ) && after_event(j, e).error == Some(message@) && after_event(j, e).status == "failed"@
            && after_event(j, e).logs.len() == j.logs.len() + 1,
        e matches Some(Event::Progress { stage, percent_text }) ==> event_line(e) is Some
            && has_suffix(event_line(e)->0, stage@) && after_event(j, e).status == stage@
            && after_event(j, e).logs.len() == j.logs.len() + 1,
{
    reveal_strlit("[err] ");
    match e {
        Some(Event::Log { line, is_stderr }) => {
            if is_stderr {
                let l = "[err] "@ + line@;
                assert(l.subrange(0, 6) =~= "[err] "@);
                assert(l.subrange(6, l.len() as int) =~= line@);
            }
        },
        Some(Event::Complete { app_id }) => {
            let l = "\u{2705} Deployed \u{2014} "@ + app_id@;
            assert(l.subrange(l.len() - app_id@.len(), l.len() as int) =~= app_id@);
        },
        Some(Event::Error { message }) => {
            let l = "\u{274c} "@ + message@;
            assert(l.subrange(l.len() - message@.len(), l.len() as int) =~= message@);
        },
        Some(Event::Progress { stage, percent_text }) => {
            let l = "["@ + percent_text@ + "%] "@ + stage@;
            assert(l.subrange(l.len() - stage@.len(), l.len() as int) =~= stage@);
        },
        None => {},
    }
}

/// Looking a job up by id finds the first job with that id, and finds
/// nothing exactly when no job has it.
pub proof fn law_job_lookup(jobs: Seq<JobView>, id: usize)
    ensures
        job_index(jobs, id) != -1 ==> 0 <= job_index(jobs, id) < jobs.len() && jobs[job_index(
            jobs,
            id,
        )].id == id && forall|k: int| 0 <= k < job_index(jobs, id) ==> #[trigger] jobs[k].id != id,
        job_index(jobs, id) == -1 <==> forall|k: int| 0 <= k < jobs.len() ==> #[trigger] jobs[k].id
            != id,
{
    lemma_job_index_from(jobs, id, 0);
    lemma_job_index_first(jobs, id, 0);
    if exists|q: int| 0 <= q < jobs.len() && #[trigger] jobs[q].id == id {
        let q = choose|q: int| 0 <= q < jobs.len() && #[trigger] jobs[q].id == id;
        lemma_job_index_none(jobs, id, 0, q);
    }
}

proof fn lemma_job_index_first(jobs: Seq<JobView>, id: usize, k: int)
    requires
        0 <= k,
    ensures
        forall|m: int|
            k <= m < jobs.len() && (job_index_from(jobs, id, k) == -1 || m < job_index_from(
                jobs,
                id,
                k,
            )) ==> #[trigger] jobs[m].id != id,
    decreases jobs.len() - k,
{
    if k < jobs.len() && jobs[k].id != id {
        lemma_job_index_first(jobs, id, k + 1);
    }
}

/// A status report or a failure changes only the job's status (and, for a
/// failure, its error) and adds one log line that shows it; the job's
/// identity, name, source and target stay as they were.
pub proof fn law_status_and_failure(j: JobView, status: Seq<char>, error: Seq<char>)
    ensures
        after_status(j, status).status == status,
        after_status(j, status).logs.len() == j.logs.len() + 1,
        after_status(j, status).logs.subrange(0, j.logs.len() as int) == j.logs,
        after_status(j, status).logs.last() == seq!['['] + status + seq![']'],
        after_status(j, status).id == j.id && after_status(j, status).name == j.name
            && after_status(j, status).app_id == j.app_id && after_status(j, status).error
            == j.error && after_status(j, status).server_index == j.server_index,
        after_failure(j, error).status == "failed"@,
        after_failure(j, error).error == Some(error),
        after_failure(j, error).logs.subrange(0, j.logs.len() as int) == j.logs,
        has_suffix(after_failure(j, error).logs.last(), error),
        after_failure(j, error).id == j.id && after_failure(j, error).name == j.name
            && after_failure(j, error).app_id == j.app_id && after_failure(j, error).server_index
            == j.server_index,
{
    reveal_strlit("[");
    reveal_strlit("]");
    assert("["@ + status + "]"@ =~= seq!['['] + status + seq![']']);
    assert(after_status(j, status).logs.subrange(0, j.logs.len() as int) =~= j.logs);
    assert(after_failure(j, error).logs.subrange(0, j.logs.len() as int) =~= j.logs);
    let l = "\u{274c} "@ + error;
    assert(l.subrange(l.len() - error.len(), l.len() as int) =~= error);
}

/// A job after a status report: the status is replaced and logged in
/// brackets.
pub open spec fn after_status(j: JobView, status: Seq<char>) -> JobView {
    JobView { status, logs: j.logs.push("["@ + status + "]"@), ..j }
}

/// A job after an event of its deploy stream: the event's line is logged; a
/// completion, an error or a stage change sets the status (and the app id or
/// the error).
pub open spec fn after_event(j: JobView, e: Option<Event>) -> JobView {
    let logged = match event_line(e) {
        Some(l) => JobView { logs: j.logs.push(l), ..j },
        None => j,
    };
    match e {
        Some(Event::Complete { app_id }) => JobView {
            status: "complete"@,
            app_id: Some(app_id@),
            ..logged
        },
        Some(Event::Error { message }) => JobView {
            status: "failed"@,
            error: Some(message@),
            ..logged
        },
        Some(Event::Progress { stage, .. }) => JobView { status: stage@, ..logged },
        _ => logged,
    }
}

/// A job after a failure: status `"failed"`, the error kept and logged.
pub open spec fn after_failure(j: JobView, error: Seq<char>) -> JobView {
    JobView {
        status: "failed"@,
        error: Some(error),
        logs: j.logs.push("\u{274c} "@ + error),
        ..j
    }
}

/// The line a deploy event adds to its job's log, if any.
pub fn format_deploy_event(event: &DeployEvent) -> (r: Option<String>)
    ensures
        opt_view(r) == event_line(event.event),
{
    match &event.event {
        Some(Event::Log { line, is_stderr }) => {
            if *is_stderr {
                Some(concat("[err] ", line.as_str()))
            } else {
                Some(line.clone())
            }
        },
        Some(Event::Complete { app_id }) => Some(concat("\u{2705} Deployed \u{2014} ", app_id.as_str())),
        Some(Event::Error { message }) => Some(concat("\u{274c} ", message.as_str())),
        Some(Event::Progress { stage, percent_text }) => {
            let head = concat3("[", percent_text.as_str(), "%] ");
            Some(concat(head.as_str(), stage.as_str()))
        },
        None => None,
    }
}

fn push_log(logs: &mut Vec<String>, line: String)
    ensures
        final(logs).deep_view() == old(logs).deep_view().push(line@),
{
    logs.push(line);
    assert(logs.deep_view() =~= old(logs).deep_view().push(line@));
}

/// Records a status report on a job.
pub fn record_status(job: &mut DeployJob, status: String)
    ensures
        job_view(*final(job)) == after_status(job_view(*old(job)), status@),
{
    let line = concat3("[", status.as_str(), "]");
    job.status = status;
    push_log(&mut job.logs, line);
}

/// Records an event of the deploy stream on a job.
pub fn record_event(job: &mut DeployJob, event: &DeployEvent)
    ensures
        job_view(*final(job)) == after_event(job_view(*old(job)), event.event),
{
    match format_deploy_event(event) {
        Some(line) => push_log(&mut job.logs, line),
        None => {},
    }
    match &event.event {
        Some(Event::Complete { app_id }) => {
            job.status = crate::text::owned("complete");
            job.app_id = Some(app_id.clone());
        },
        Some(Event::Error { message }) => {
            job.status = crate::text::owned("failed");
            job.error = Some(message.clone());
        },
        Some(Event::Progress { stage, .. }) => {
            job.status = stage.clone();
        },
        _ => {},
    }
}

/// Records a failure on a job.
pub fn record_failure(job: &mut DeployJob, error: &str)
    ensures
        job_view(*final(job)) == after_failure(job_view(*old(job)), error@),
{
    job.status = crate::text::owned("failed");
    job.error = Some(crate::text::owned(error));
    push_log(&mut job.logs, concat("\u{274c} ", error));
}

/// A single-device deploy as mathematical values.
pub struct StateView {
    pub id: usize,
    pub name: Seq<char>,
    pub runtime: Seq<char>,
    pub source_path: Seq<char>,
    pub status: Seq<char>,
    pub logs: Seq<Seq<char>>,
    pub app_id: Option<Seq<char>>,
    pub error: Option<Seq<char>>,
}

pub open spec fn state_view(d: DeployState) -> StateView {
    StateView {
        id: d.id,
        name: d.name@,
        runtime: d.runtime@,
        source_path: d.source_path@,
        status: d.status@,
        logs: d.logs.deep_view(),
        app_id: opt_view(d.app_id),
        error: opt_view(d.error),
    }
}

pub open spec fn states_view(v: Seq<DeployState>) -> Seq<StateView> {
    v.map_values(|d: DeployState| state_view(d))
}

/// The first position from `k` on of a deploy with this id, or -1.
pub open spec fn state_index_from(ds: Seq<StateView>, id: usize, k: int) -> int
    decreases ds.len() - k,
{
    if k < 0 || k >= ds.len() {
        -1
    } else if ds[k].id == id {
        k
    } else {
        state_index_from(ds, id, k + 1)
    }
}

/// The first position of a deploy with this id, or -1.
pub open spec fn state_index(ds: Seq<StateView>, id: usize) -> int {
    state_index_from(ds, id, 0)
}

pub proof fn lemma_state_index_from(ds: Seq<StateView>, id: usize, k: int)
    requires
        0 <= k,
    ensures
        state_index_from(ds, id, k) == -1 || (k <= state_index_from(ds, id, k) < ds.len()
            && ds[state_index_from(ds, id, k)].id == id),
    decreases ds.len() - k,
{
    if k < ds.len() && ds[k].id != id {
        lemma_state_index_from(ds, id, k + 1);
    }
}

/// No first position means no deploy with that id from `k` on.
pub proof fn lemma_state_index_none(ds: Seq<StateView>, id: usize, k: int, q: int)
    requires
        0 <= k <= q < ds.len(),
        ds[q].id == id,
    ensures
        state_index_from(ds, id, k) != -1,
    decreases q - k,
{
    if ds[k].id != id {
        lemma_state_index_none(ds, id, k + 1, q);
    }
}

/// `ds` with `f` applied to the first deploy with this id, if there is one.
pub open spec fn update_state(ds: Seq<StateView>, id: usize, f: spec_fn(StateView) -> StateView) -> Seq<
    StateView,
> {
    let i = state_index(ds, id);
    if i == -1 {
        ds
    } else {
        ds.update(i, f(ds[i]))
    }
}

/// A deploy after a status report.
pub open spec fn state_after_status(d: StateView, status: Seq<char>) -> StateView {
    StateView { status, logs: d.logs.push("["@ + status + "]"@), ..d }
}

/// A deploy after an event of its stream (as `after_event`).
pub open spec fn state_after_event(d: StateView, e: Option<Event>) -> StateView {
    let logged = match event_line(e) {
        Some(l) => StateView { logs: d.logs.push(l), ..d },
        None => d,
    };
    match e {
        Some(Event::Complete { app_id }) => StateView {
            status: "complete"@,
            app_id: Some(app_id@),
            ..logged
        },
        Some(Event::Error { message }) => StateView {
            status: "failed"@,
            error: Some(message@),
            ..logged
        },
        Some(Event::Progress { stage, .. }) => StateView { status: stage@, ..logged },
        _ => logged,
    }
}

/// A deploy after a failure.
pub open spec fn state_after_failure(d: StateView, error: Seq<char>) -> StateView {
    StateView {
        status: "failed"@,
        error: Some(error),
        logs: d.logs.push("\u{274c} "@ + error),
        ..d
    }
}

/// The position of the first deploy with this id.
pub fn find_state(ds: &Vec<DeployState>, id: usize) -> (r: Option<usize>)
    ensures
        match r {
            Some(i) => i as int == state_index(states_view(ds@), id) && i < ds@.len(),
            None => state_index(states_view(ds@), id) == -1,
        },
{
    let mut i: usize = 0;
    while i < ds.len()
        invariant
            i <= ds@.len(),
            state_index(states_view(ds@), id) == state_index_from(states_view(ds@), id, i as int),
        decreases ds@.len() - i,
    {
        if ds[i].id == id {
            return Some(i);
        }
        i = i + 1;
    }
    None
}

/// The deploy with this id, for changing it in place.
pub fn find_state_mut(ds: &mut Vec<DeployState>, id: usize) -> (r: Option<&mut DeployState>)
    ensures
        state_index(states_view(old(ds)@), id) == -1 ==> r is None && final(ds)@ == old(ds)@,
        state_index(states_view(old(ds)@), id) != -1 ==> (r matches Some(d) && ({
            let i = state_index(states_view(old(ds)@), id);
            &&& 0 <= i < old(ds)@.len()
            &&& *d == old(ds)@[i]
            &&& final(ds)@ == old(ds)@.update(i, *final(d))
        })),
{
    let mut i: usize = 0;
    let n = ds.len();
    while i < n
        invariant
            i <= n == ds@.len(),
            ds@ == old(ds)@,
            state_index(states_view(ds@), id) == state_index_from(states_view(ds@), id, i as int),
        decreases n - i,
    {
        if ds[i].id == id {
            proof {
                lemma_state_index_from(states_view(ds@), id, 0);
            }
            return Some(&mut ds[i]);
        }
        i = i + 1;
    }
    None
}

/// Applying a change to one deploy changes its view at the same position.
pub proof fn lemma_states_view_update(v: Seq<DeployState>, i: int, d: DeployState)
    requires
        0 <= i < v.len(),
    ensures
        states_view(v.update(i, d)) == states_view(v).update(i, state_view(d)),
{
    assert(states_view(v.update(i, d)) =~= states_view(v).update(i, state_view(d)));
}

/// Records a status report on a deploy.
pub fn record_state_status(d: &mut DeployState, status: String)
    ensures
        state_view(*final(d)) == state_after_status(state_view(*old(d)), status@),
{
    let line = concat3("[", status.as_str(), "]");
    d.status = status;
    push_log(&mut d.logs, line);
}

/// Records an event of the deploy stream on a deploy.
pub fn record_state_event(d: &mut DeployState, event: &DeployEvent)
    ensures
        state_view(*final(d)) == state_after_event(state_view(*old(d)), event.event),
{
    match format_deploy_event(event) {
        Some(line) => push_log(&mut d.logs, line),
        None => {},
    }
    match &event.event {
        Some(Event::Complete { app_id }) => {
            d.status = crate::text::owned("complete");
            d.app_id = Some(app_id.clone());
        },
        Some(Event::Error { message }) => {
            d.status = crate::text::owned("failed");
            d.error = Some(message.clone());
        },
        Some(Event::Progress { stage, .. }) => {
            d.status = stage.clone();
        },
        _ => {},
    }
}

/// Records a failure on a deploy.
pub fn record_state_failure(d: &mut DeployState, error: &str)
    ensures
        state_view(*final(d)) == state_after_failure(state_view(*old(d)), error@),
{
    d.status = crate::text::owned("failed");
    d.error = Some(crate::text::owned(error));
    push_log(&mut d.logs, concat("\u{274c} ", error));
}

} // verus!
