//! Archiving a repository: an export job is submitted and polled with a
//! growing wait until it ends, and its artifact then takes the place of the
//! previous one without the previous one ever being lost.

use vstd::prelude::*;
use crate::text::{decimal, join2, same_text, spec_decimal, texts};

verus! {

/// The media type that the provider's job requests ask for.
pub const GITHUB_ACCEPT: &'static str = "application/vnd.github+json";

/// The version of the provider's interface that the job requests name.
pub const GITHUB_API_VERSION: &'static str = "2022-11-28";

/// Where the artifacts live, below the destination.
pub const ARCHIVE_DIRECTORY: &'static str = "github/archive";

/// The wait before the first poll, in seconds.
pub const BASE_WAIT_SECS: u64 = 2;

/// The longest wait between two polls, in seconds.
pub const MAX_WAIT_SECS: u64 = 64;

/// The state of an export job.
#[derive(Debug, PartialEq, Eq, Clone, Copy, Structural)]
pub enum MigrationState {
    Pending,
    Exporting,
    Exported,
    Failed,
}

/// An export job at the provider.
#[derive(Debug, PartialEq, Eq, Clone, Copy, Structural)]
pub struct MigrationJob {
    pub id: u64,
    pub state: MigrationState,
}

/// The state that a provider's word names. A word that names none of the
/// others counts as an export still under way.
pub open spec fn spec_parse_state(word: Seq<char>) -> MigrationState {
    if word == "exported"@ {
        MigrationState::Exported
    } else if word == "failed"@ {
        MigrationState::Failed
    } else if word == "pending"@ {
        MigrationState::Pending
    } else {
        MigrationState::Exporting
    }
}

impl MigrationState {
    /// Reads the state from the provider's word for it.
    pub fn parse(word: &str) -> (state: MigrationState)
        ensures
            state == spec_parse_state(word@),
    {
        if same_text(word, "exported") {
            MigrationState::Exported
        } else if same_text(word, "failed") {
            MigrationState::Failed
        } else if same_text(word, "pending") {
            MigrationState::Pending
        } else {
            MigrationState::Exporting
        }
    }

    /// Whether the job has ended, well or badly.
    pub fn is_terminal(&self) -> (r: bool)
        ensures
            r == (*self == MigrationState::Exported || *self == MigrationState::Failed),
    {
        match self {
            MigrationState::Exported => true,
            MigrationState::Failed => true,
            _ => false,
        }
    }
}

/// The wait that follows a wait of `wait` seconds: twice as long, until the
/// longest wait is reached.
pub open spec fn spec_next_wait(wait: u64) -> u64 {
    if wait < MAX_WAIT_SECS {
        (2 * wait) as u64
    } else {
        wait
    }
}

/// The wait that follows `wait`.
pub fn next_wait(wait: u64) -> (r: u64)
    ensures
        r == spec_next_wait(wait),
{
    if wait < MAX_WAIT_SECS {
        2 * wait
    } else {
        wait
    }
}

/// The wait before poll number `n`, counted from zero.
pub open spec fn backoff(n: nat) -> u64
    decreases n,
{
    if n == 0 {
        BASE_WAIT_SECS
    } else {
        spec_next_wait(backoff((n - 1) as nat))
    }
}

/// The waits are 2, 4, 8, 16, 32 and from then on 64 seconds: each twice
/// the one before until the longest wait is reached, and never longer.
pub proof fn lemma_backoff_doubles_to_the_cap(n: nat)
    ensures
        n == 0 ==> backoff(n) == 2,
        n == 1 ==> backoff(n) == 4,
        n == 2 ==> backoff(n) == 8,
        n == 3 ==> backoff(n) == 16,
        n == 4 ==> backoff(n) == 32,
        n >= 5 ==> backoff(n) == 64,
        BASE_WAIT_SECS <= backoff(n) <= MAX_WAIT_SECS,
    decreases n,
{
    if n > 0 {
        lemma_backoff_doubles_to_the_cap((n - 1) as nat);
    }
}

/// The address at which jobs are created.
pub open spec fn spec_migrations_url() -> Seq<char> {
    "https://api.github.com/user/migrations"@
}

/// The address at which the state of job `id` is read.
pub open spec fn spec_status_url(id: u64) -> Seq<char> {
    spec_migrations_url() + "/"@ + spec_decimal(id as nat)
}

/// The address from which the artifact of job `id` is downloaded.
pub open spec fn spec_download_url(id: u64) -> Seq<char> {
    spec_status_url(id) + "/archive"@
}

/// The address at which jobs are created.
pub fn migrations_url() -> (r: String)
    ensures
        r@ == spec_migrations_url(),
{
    "https://api.github.com/user/migrations".to_owned()
}

/// The address at which the state of job `id` is read.
pub fn status_url(id: u64) -> (r: String)
    ensures
        r@ == spec_status_url(id),
{
    let number = decimal(id);
    let r = join2("https://api.github.com/user/migrations/", number.as_str());
    proof {
        reveal_strlit("https://api.github.com/user/migrations/");
        reveal_strlit("https://api.github.com/user/migrations");
        reveal_strlit("/");
        assert("https://api.github.com/user/migrations/"@ =~= spec_migrations_url() + "/"@);
        assert(r@ =~= spec_status_url(id));
    }
    r
}

/// The address from which the artifact of job `id` is downloaded.
pub fn download_url(id: u64) -> (r: String)
    ensures
        r@ == spec_download_url(id),
{
    let status = status_url(id);
    join2(status.as_str(), "/archive")
}

/// The repositories that a job is created for: exactly the one to archive.
pub fn job_repositories(repository: &str) -> (r: Vec<String>)
    ensures
        texts(r@) == seq![repository@],
{
    let mut r: Vec<String> = Vec::new();
    r.push(repository.to_owned());
    assert(texts(r@) =~= seq![repository@]);
    r
}

/// The name of the artifact of `repository`: `<repository>.zip`.
pub fn archive_file_name(repository: &str) -> (r: String)
    ensures
        r@ == repository@ + ".zip"@,
{
    join2(repository, ".zip")
}

/// The name of the staging file of `repository`: `<repository>.zip.new`.
pub fn staging_file_name(repository: &str) -> (r: String)
    ensures
        r@ == repository@ + ".zip.new"@,
{
    join2(repository, ".zip.new")
}

/// One step of putting a new artifact in place.
#[derive(Debug, PartialEq, Eq, Clone, Copy, Structural)]
pub enum SwapStep {
    /// Delete a staging file that an earlier run left behind.
    RemoveStaging,
    /// Download the artifact into the staging file, to the end.
    WriteStaging,
    /// Delete the previous artifact.
    RemoveCurrent,
    /// Rename the staging file to the artifact's name, in one step.
    Promote,
}

/// The steps that put a new artifact in place, in the only order that never
/// loses an artifact: stage the new one completely, only then delete the
/// old one, then rename.
pub open spec fn spec_swap_plan(current_exists: bool, staging_exists: bool) -> Seq<SwapStep> {
    (if staging_exists {
        seq![SwapStep::RemoveStaging]
    } else {
        Seq::empty()
    }) + seq![SwapStep::WriteStaging] + (if current_exists {
        seq![SwapStep::RemoveCurrent]
    } else {
        Seq::empty()
    }) + seq![SwapStep::Promote]
}

/// Plans the steps by what is found in the archive directory.
pub fn swap_plan(current_exists: bool, staging_exists: bool) -> (r: Vec<SwapStep>)
    ensures
        r@ == spec_swap_plan(current_exists, staging_exists),
{
    let mut r: Vec<SwapStep> = Vec::new();
    if staging_exists {
        r.push(SwapStep::RemoveStaging);
    }
    r.push(SwapStep::WriteStaging);
    if current_exists {
        r.push(SwapStep::RemoveCurrent);
    }
    r.push(SwapStep::Promote);
    assert(r@ =~= spec_swap_plan(current_exists, staging_exists));
    r
}

/// What a file of the archive directory holds: the artifact of a job,
/// written to the end or not.
#[derive(Debug, PartialEq, Eq, Clone, Copy, Structural)]
pub struct Artifact {
    pub job: u64,
    pub complete: bool,
}

/// The two files of one repository in the archive directory.
#[derive(Debug, PartialEq, Eq, Clone, Copy, Structural)]
pub struct ArchiveDir {
    /// `<repository>.zip`, the artifact that counts.
    pub current: Option<Artifact>,
    /// `<repository>.zip.new`.
    pub staging: Option<Artifact>,
}

/// The complete artifact of `job`.
pub open spec fn whole(job: u64) -> Artifact {
    Artifact { job, complete: true }
}

/// The directory after `step` was carried out for the artifact of `job`.
pub open spec fn after_step(dir: ArchiveDir, step: SwapStep, job: u64) -> ArchiveDir {
    match step {
        SwapStep::RemoveStaging => ArchiveDir { staging: None, ..dir },
        SwapStep::WriteStaging => ArchiveDir { staging: Some(whole(job)), ..dir },
        SwapStep::RemoveCurrent => ArchiveDir { current: None, ..dir },
        SwapStep::Promote => ArchiveDir { current: dir.staging, staging: None },
    }
}

/// The directory where the process died in the middle of `step`: a
/// download leaves a staging file that is not complete; every other step
/// is done at once or not at all.
pub open spec fn torn_step(dir: ArchiveDir, step: SwapStep, job: u64) -> ArchiveDir {
    match step {
        SwapStep::WriteStaging => ArchiveDir {
            staging: Some(Artifact { job, complete: false }),
            ..dir
        },
        _ => dir,
    }
}

/// The directory after `steps` were carried out in order.
pub open spec fn after_steps(dir: ArchiveDir, steps: Seq<SwapStep>, job: u64) -> ArchiveDir
    decreases steps.len(),
{
    if steps.len() == 0 {
        dir
    } else {
        after_step(after_steps(dir, steps.drop_last(), job), steps.last(), job)
    }
}

/// A directory whose current artifact, if there is one, is complete.
pub open spec fn presentable(dir: ArchiveDir) -> bool {
    dir.current matches Some(artifact) ==> artifact.complete
}

/// A directory in which the swap for `job` has lost nothing of `before`:
/// the artifact that counted still counts, or the new one is completely
/// there, staged or already in place.
pub open spec fn nothing_lost(before: ArchiveDir, now: ArchiveDir, job: u64) -> bool {
    ||| now.current == before.current
    ||| now.current is None && now.staging == Some(whole(job))
    ||| now.current == Some(whole(job))
}

impl ArchiveDir {
    /// Carries out `step` for the artifact of `job`.
    pub fn apply(&mut self, step: SwapStep, job: u64)
        ensures
            *final(self) == after_step(*old(self), step, job),
    {
        match step {
            SwapStep::RemoveStaging => {
                self.staging = None;
            },
            SwapStep::WriteStaging => {
                self.staging = Some(Artifact { job, complete: true });
            },
            SwapStep::RemoveCurrent => {
                self.current = None;
            },
            SwapStep::Promote => {
                self.current = self.staging;
                self.staging = None;
            },
        }
    }

    /// Dies in the middle of `step`.
    pub fn tear(&mut self, step: SwapStep, job: u64)
        ensures
            *final(self) == torn_step(*old(self), step, job),
    {
        match step {
            SwapStep::WriteStaging => {
                self.staging = Some(Artifact { job, complete: false });
            },
            _ => {},
        }
    }

    /// Carries out the whole plan for what the directory holds.
    pub fn swap_in(&mut self, job: u64)
        ensures
            *final(self) == (ArchiveDir { current: Some(whole(job)), staging: None }),
    {
        let plan = swap_plan(self.current.is_some(), self.staging.is_some());
        let ghost start = *self;
        let mut i: usize = 0;
        while i < plan.len()
            invariant
                i <= plan.len(),
                plan@ == spec_swap_plan(start.current is Some, start.staging is Some),
                *self == after_steps(start, plan@.take(i as int), job),
            decreases plan.len() - i,
        {
            assert(plan@.take(i as int + 1).drop_last() =~= plan@.take(i as int));
            self.apply(plan[i], job);
            i += 1;
        }
        proof {
            assert(plan@.take(plan.len() as int) =~= plan@);
            lemma_swap_recovers(start, job);
        }
    }
}

proof fn lemma_steps_unfold(dir: ArchiveDir, steps: Seq<SwapStep>, job: u64)
    ensures
        steps.len() == 0 ==> after_steps(dir, steps, job) == dir,
        steps.len() == 1 ==> after_steps(dir, steps, job) == after_step(dir, steps[0], job),
        steps.len() == 2 ==> after_steps(dir, steps, job) == after_step(
            after_step(dir, steps[0], job),
            steps[1],
            job,
        ),
        steps.len() == 3 ==> after_steps(dir, steps, job) == after_step(
            after_step(after_step(dir, steps[0], job), steps[1], job),
            steps[2],
            job,
        ),
        steps.len() == 4 ==> after_steps(dir, steps, job) == after_step(
            after_step(after_step(after_step(dir, steps[0], job), steps[1], job), steps[2], job),
            steps[3],
            job,
        ),
    decreases steps.len(),
{
    if steps.len() > 0 {
        lemma_steps_unfold(dir, steps.drop_last(), job);
    }
}

/// Wherever the swap is interrupted, between two steps or in the middle of
/// one, the directory presents no half-written artifact, and nothing is
/// lost: the previous artifact still counts, or the new one is completely
/// there.
pub proof fn lemma_swap_never_loses_an_archive(dir: ArchiveDir, job: u64, done: nat)
    requires
        presentable(dir),
        done <= spec_swap_plan(dir.current is Some, dir.staging is Some).len(),
    ensures
        ({
            let plan = spec_swap_plan(dir.current is Some, dir.staging is Some);
            let now = after_steps(dir, plan.take(done as int), job);
            &&& presentable(now)
            &&& nothing_lost(dir, now, job)
            &&& done < plan.len() ==> presentable(torn_step(now, plan[done as int], job))
            &&& done < plan.len() ==> nothing_lost(
                dir,
                torn_step(now, plan[done as int], job),
                job,
            )
        }),
{
    let plan = spec_swap_plan(dir.current is Some, dir.staging is Some);
    lemma_steps_unfold(dir, plan.take(done as int), job);
}

/// A swap that runs to its end leaves the new artifact, complete, as the
/// one that counts, and no staging file: whatever the directory held
/// before, also what an interrupted swap left there.
pub proof fn lemma_swap_recovers(dir: ArchiveDir, job: u64)
    ensures
        after_steps(dir, spec_swap_plan(dir.current is Some, dir.staging is Some), job) == (
        ArchiveDir { current: Some(whole(job)), staging: None }),
{
    let plan = spec_swap_plan(dir.current is Some, dir.staging is Some);
    lemma_steps_unfold(dir, plan, job);
}

/// Why a repository was not archived.
#[derive(Debug, PartialEq, Eq, Clone, Copy, Structural)]
pub enum JobError {
    /// The job could not be created.
    CreateFailed,
    /// The state of the job could not be read.
    StatusFailed,
    /// The provider reported that the job failed.
    JobFailed,
    /// The artifact could not be downloaded.
    DownloadFailed,
    /// A file of the archive directory could not be written, deleted or
    /// renamed.
    Io,
}

/// How the archiving of one repository ended.
#[derive(Debug, PartialEq, Eq, Clone, Copy, Structural)]
pub enum ArchiveOutcome {
    Archived,
    Failed(JobError),
}

/// Where the poller stands.
#[derive(Debug, PartialEq, Eq, Clone, Copy, Structural)]
pub enum PollState {
    Start,
    /// The request that creates the job is under way.
    Submitted,
    /// The job is exporting; the poller sleeps `wait` seconds.
    Waiting { job: u64, wait: u64 },
    /// The job's state is being read; the next sleep takes `wait` seconds.
    Polling { job: u64, wait: u64 },
    /// The job is exported; its artifact is being put in place.
    Swapping { job: u64 },
    Finished(ArchiveOutcome),
}

/// What happened since the last action.
#[derive(Debug, PartialEq, Eq, Clone, Copy, Structural)]
pub enum PollEvent {
    Begin,
    Created(MigrationJob),
    /// A request to the provider failed or its answer could not be read.
    RequestFailed,
    Slept,
    Status(MigrationState),
    Swapped,
    DownloadFailed,
    SwapFailed,
}

/// What to do next.
#[derive(Debug, PartialEq, Eq, Clone, Copy, Structural)]
pub enum PollAction {
    /// Create a job for the one repository.
    Submit,
    Sleep { secs: u64 },
    Poll { job: u64 },
    /// Download the artifact of `job` and put it in place by the swap plan.
    Swap { job: u64 },
    Finish(ArchiveOutcome),
}

/// The end of the archiving with `outcome`.
pub open spec fn poll_finish(outcome: ArchiveOutcome) -> Option<(PollState, PollAction)> {
    Some((PollState::Finished(outcome), PollAction::Finish(outcome)))
}

/// What follows when job `job` is seen in `state`: the swap where it is
/// exported, the end where it failed, and otherwise a sleep of `wait`
/// seconds before the next poll.
pub open spec fn after_status(job: u64, state: MigrationState, wait: u64) -> Option<
    (PollState, PollAction),
> {
    match state {
        MigrationState::Exported => Some((PollState::Swapping { job }, PollAction::Swap { job })),
        MigrationState::Failed => poll_finish(ArchiveOutcome::Failed(JobError::JobFailed)),
        _ => Some((PollState::Waiting { job, wait }, PollAction::Sleep { secs: wait })),
    }
}

/// The transition function of the poller: the next state and the action for
/// an event that the state expects, `None` for any other event.
pub open spec fn spec_poll_step(state: PollState, event: PollEvent) -> Option<
    (PollState, PollAction),
> {
    match (state, event) {
        (PollState::Start, PollEvent::Begin) => Some((PollState::Submitted, PollAction::Submit)),
        (PollState::Submitted, PollEvent::Created(job)) => after_status(
            job.id,
            job.state,
            BASE_WAIT_SECS,
        ),
        (PollState::Submitted, PollEvent::RequestFailed) => poll_finish(
            ArchiveOutcome::Failed(JobError::CreateFailed),
        ),
        (PollState::Waiting { job, wait }, PollEvent::Slept) => Some(
            (PollState::Polling { job, wait: spec_next_wait(wait) }, PollAction::Poll { job }),
        ),
        (PollState::Polling { job, wait }, PollEvent::Status(state)) => after_status(
            job,
            state,
            wait,
        ),
        (PollState::Polling { job, wait }, PollEvent::RequestFailed) => poll_finish(
            ArchiveOutcome::Failed(JobError::StatusFailed),
        ),
        (PollState::Swapping { job }, PollEvent::Swapped) => poll_finish(ArchiveOutcome::Archived),
        (PollState::Swapping { job }, PollEvent::DownloadFailed) => poll_finish(
            ArchiveOutcome::Failed(JobError::DownloadFailed),
        ),
        (PollState::Swapping { job }, PollEvent::SwapFailed) => poll_finish(
            ArchiveOutcome::Failed(JobError::Io),
        ),
        _ => None,
    }
}

/// The action that is under way in `state`.
pub open spec fn poll_due(state: PollState) -> Option<PollAction> {
    match state {
        PollState::Start => None,
        PollState::Submitted => Some(PollAction::Submit),
        PollState::Waiting { job, wait } => Some(PollAction::Sleep { secs: wait }),
        PollState::Polling { job, wait } => Some(PollAction::Poll { job }),
        PollState::Swapping { job } => Some(PollAction::Swap { job }),
        PollState::Finished(outcome) => Some(PollAction::Finish(outcome)),
    }
}

/// The action that a step answers with is the one under way in the state
/// that the step leads to.
pub proof fn lemma_poll_step_answers_what_is_due(state: PollState, event: PollEvent)
    ensures
        spec_poll_step(state, event) matches Some((next, action)) ==> poll_due(next) == Some(
            action,
        ),
{
}

/// The artifact is put in place only for a job that was seen exported, and
/// a job that was seen failed ends the archiving as failed at once.
pub proof fn lemma_swap_only_after_export(state: PollState, event: PollEvent)
    ensures
        spec_poll_step(state, event) matches Some((next, action)) ==> (action is Swap ==> (event
            matches PollEvent::Created(job) && job.state == MigrationState::Exported) || event
            == PollEvent::Status(MigrationState::Exported)),
        (event == PollEvent::Status(MigrationState::Failed) && state is Polling) ==> spec_poll_step(
            state,
            event,
        ) == poll_finish(ArchiveOutcome::Failed(JobError::JobFailed)),
{
}

/// The poller of one repository's export job. Its state changes by `step`
/// alone, so the swap is reached only through a job that was seen exported.
#[derive(Debug)]
pub struct ArchivePoller {
    state: PollState,
}

impl View for ArchivePoller {
    type V = PollState;

    closed spec fn view(&self) -> PollState {
        self.state
    }
}

impl ArchivePoller {
    /// A poller at its start.
    pub fn new() -> (r: ArchivePoller)
        ensures
            r@ == PollState::Start,
    {
        ArchivePoller { state: PollState::Start }
    }

    /// Where the poller stands.
    pub fn state(&self) -> (r: PollState)
        ensures
            r == self@,
    {
        self.state
    }

    /// Takes an event and answers with the action that is due. An event that
    /// the state does not expect is answered with `None` and changes
    /// nothing.
    pub fn step(&mut self, event: PollEvent) -> (r: Option<PollAction>)
        ensures
            match spec_poll_step(old(self)@, event) {
                Some((next, action)) => final(self)@ == next && r == Some(action),
                None => final(self)@ == old(self)@ && r is None,
            },
    {
        let (next, action) = match (self.state, event) {
            (PollState::Start, PollEvent::Begin) => (PollState::Submitted, PollAction::Submit),
            (PollState::Submitted, PollEvent::Created(job)) => seen(
                job.id,
                job.state,
                BASE_WAIT_SECS,
            ),
            (PollState::Submitted, PollEvent::RequestFailed) => ended(
                ArchiveOutcome::Failed(JobError::CreateFailed),
            ),
            (PollState::Waiting { job, wait }, PollEvent::Slept) => (
                PollState::Polling { job, wait: next_wait(wait) },
                PollAction::Poll { job },
            ),
            (PollState::Polling { job, wait }, PollEvent::Status(state)) => seen(job, state, wait),
            (PollState::Polling { job, wait }, PollEvent::RequestFailed) => ended(
                ArchiveOutcome::Failed(JobError::StatusFailed),
            ),
            (PollState::Swapping { job }, PollEvent::Swapped) => ended(ArchiveOutcome::Archived),
            (PollState::Swapping { job }, PollEvent::DownloadFailed) => ended(
                ArchiveOutcome::Failed(JobError::DownloadFailed),
            ),
            (PollState::Swapping { job }, PollEvent::SwapFailed) => ended(
                ArchiveOutcome::Failed(JobError::Io),
            ),
            _ => {
                return None;
            },
        };
        self.state = next;
        Some(action)
    }
}

fn ended(outcome: ArchiveOutcome) -> (r: (PollState, PollAction))
    ensures
        Some(r) == poll_finish(outcome),
{
    (PollState::Finished(outcome), PollAction::Finish(outcome))
}

fn seen(job: u64, state: MigrationState, wait: u64) -> (r: (PollState, PollAction))
    ensures
        Some(r) == after_status(job, state, wait),
{
    match state {
        MigrationState::Exported => (PollState::Swapping { job }, PollAction::Swap { job }),
        MigrationState::Failed => ended(ArchiveOutcome::Failed(JobError::JobFailed)),
        _ => (PollState::Waiting { job, wait }, PollAction::Sleep { secs: wait }),
    }
}

/// How putting the artifact in place goes in a recorded exchange.
#[derive(Debug, PartialEq, Eq, Clone, Copy, Structural)]
pub enum SwapResult {
    Swapped,
    DownloadFailed,
    SwapFailed,
}

/// A recorded exchange with the provider: the answer to the request that
/// creates the job, the answers to the polls in order, `None` where a
/// request fails, and how the swap goes.
#[derive(Debug, PartialEq)]
pub struct JobScript {
    pub created: Option<MigrationJob>,
    pub statuses: Vec<Option<MigrationState>>,
    pub swap: SwapResult,
}

/// What an archiving did: how it ended, and how long it slept before each
/// poll.
#[derive(Debug, PartialEq)]
pub struct PollTrace {
    pub outcome: ArchiveOutcome,
    pub sleeps: Vec<u64>,
}

/// How the archiving ends for each way the swap can go.
pub open spec fn swap_outcome(swap: SwapResult) -> ArchiveOutcome {
    match swap {
        SwapResult::Swapped => ArchiveOutcome::Archived,
        SwapResult::DownloadFailed => ArchiveOutcome::Failed(JobError::DownloadFailed),
        SwapResult::SwapFailed => ArchiveOutcome::Failed(JobError::Io),
    }
}

/// How an archiving ends, and after how many polls, when its job was last
/// seen in `state` after `polls` polls and the answers still to come are
/// `statuses`. `None` where the answers end before the job does.
pub open spec fn polls_trace(
    statuses: Seq<Option<MigrationState>>,
    state: MigrationState,
    polls: nat,
    swap: SwapResult,
) -> Option<(ArchiveOutcome, nat)>
    decreases statuses.len(),
{
    match state {
        MigrationState::Exported => Some((swap_outcome(swap), polls)),
        MigrationState::Failed => Some((ArchiveOutcome::Failed(JobError::JobFailed), polls)),
        _ => if statuses.len() == 0 {
            None
        } else {
            match statuses[0] {
                None => Some((ArchiveOutcome::Failed(JobError::StatusFailed), polls + 1)),
                Some(next) => polls_trace(statuses.drop_first(), next, polls + 1, swap),
            }
        },
    }
}

/// How an archiving ends against a recorded exchange, and after how many
/// polls.
pub open spec fn scripted_poll(
    created: Option<MigrationJob>,
    statuses: Seq<Option<MigrationState>>,
    swap: SwapResult,
) -> Option<(ArchiveOutcome, nat)> {
    match created {
        None => Some((ArchiveOutcome::Failed(JobError::CreateFailed), 0)),
        Some(job) => polls_trace(statuses, job.state, 0, swap),
    }
}

spec fn poll_outlook(state: PollState, slept: nat, script: JobScript) -> Option<
    (ArchiveOutcome, nat),
> {
    match state {
        PollState::Start => None,
        PollState::Submitted => scripted_poll(script.created, script.statuses@, script.swap),
        PollState::Waiting { job, wait } => polls_trace(
            script.statuses@.skip(slept as int),
            MigrationState::Pending,
            slept,
            script.swap,
        ),
        PollState::Polling { job, wait } => polls_trace(
            script.statuses@.skip(slept - 1),
            MigrationState::Pending,
            (slept - 1) as nat,
            script.swap,
        ),
        PollState::Swapping { job } => Some((swap_outcome(script.swap), slept)),
        PollState::Finished(outcome) => Some((outcome, slept)),
    }
}

spec fn poll_fits(state: PollState, slept: nat, script: JobScript) -> bool {
    match state {
        PollState::Start => false,
        PollState::Submitted => slept == 0,
        PollState::Waiting { job, wait } => wait == backoff(slept) && slept
            <= script.statuses@.len(),
        PollState::Polling { job, wait } => slept >= 1 && wait == backoff(slept) && slept
            <= script.statuses@.len(),
        _ => true,
    }
}

/// Runs the poller against a recorded exchange and returns what it did, or
/// `None` where the record ends before the job does. The sleeps are the
/// waits of the backoff in order: 2, 4, 8 seconds and so on up to 64.
pub fn poll_scripted(script: &JobScript) -> (r: Option<PollTrace>)
    ensures
        match scripted_poll(script.created, script.statuses@, script.swap) {
            Some((outcome, polls)) => r matches Some(trace) && trace.outcome == outcome
                && trace.sleeps@.len() == polls && forall|i: int|
                0 <= i < polls ==> #[trigger] trace.sleeps@[i] == backoff(i as nat),
            None => r is None,
        },
{
    let mut poller = ArchivePoller::new();
    let mut sleeps: Vec<u64> = Vec::new();
    let mut pending = poller.step(PollEvent::Begin);
    loop
        invariant
            pending == poll_due(poller@),
            poll_fits(poller@, sleeps@.len(), *script),
            forall|i: int| 0 <= i < sleeps@.len() ==> #[trigger] sleeps@[i] == backoff(i as nat),
            scripted_poll(script.created, script.statuses@, script.swap) == poll_outlook(
                poller@,
                sleeps@.len(),
                *script,
            ),
        decreases
                (if poller@ is Finished {
                    0nat
                } else {
                    1nat
                }),
                script.statuses@.len() + 1 - sleeps@.len(),
                (match poller@ {
                    PollState::Submitted => 3nat,
                    PollState::Polling { job, wait } => 2nat,
                    PollState::Waiting { job, wait } => 1nat,
                    _ => 0nat,
                }),
    {
        let ghost before = poller@;
        let ghost all = script.statuses@;
        let action = match pending {
            Some(action) => action,
            None => {
                return None;
            },
        };
        let event = match action {
            PollAction::Submit => match script.created {
                Some(job) => PollEvent::Created(job),
                None => PollEvent::RequestFailed,
            },
            PollAction::Sleep { secs } => {
                if sleeps.len() >= script.statuses.len() {
                    return None;
                }
                sleeps.push(secs);
                PollEvent::Slept
            },
            PollAction::Poll { job } => {
                let answer = script.statuses[sleeps.len() - 1];
                proof {
                    let rest = all.skip(sleeps@.len() - 1);
                    assert(rest[0] == answer);
                    assert(rest.drop_first() =~= all.skip(sleeps@.len() as int));
                }
                match answer {
                    Some(state) => PollEvent::Status(state),
                    None => PollEvent::RequestFailed,
                }
            },
            PollAction::Swap { job } => match script.swap {
                SwapResult::Swapped => PollEvent::Swapped,
                SwapResult::DownloadFailed => PollEvent::DownloadFailed,
                SwapResult::SwapFailed => PollEvent::SwapFailed,
            },
            PollAction::Finish(outcome) => {
                return Some(PollTrace { outcome, sleeps });
            },
        };
        proof {
            lemma_poll_step_answers_what_is_due(before, event);
            assert(all.skip(0) =~= all);
        }
        pending = poller.step(event);
    }
}

} // verus!
