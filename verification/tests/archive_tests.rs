use gitout::archive::{
    archive_file_name, download_url, job_repositories, migrations_url, next_wait, poll_scripted, staging_file_name,
    status_url, swap_plan, ArchiveDir, ArchiveOutcome, ArchivePoller, Artifact, JobError,
    JobScript, MigrationJob, MigrationState, PollAction, PollEvent, PollState, PollTrace,
    SwapResult, SwapStep, ARCHIVE_DIRECTORY, BASE_WAIT_SECS, GITHUB_ACCEPT, GITHUB_API_VERSION, MAX_WAIT_SECS,
};

fn whole(job: u64) -> Option<Artifact> {
    Some(Artifact {
        job,
        complete: true,
    })
}

fn job(id: u64, state: MigrationState) -> Option<MigrationJob> {
    Some(MigrationJob { id, state })
}

#[test]
fn the_provider_constants_are_as_documented() {
    assert_eq!(GITHUB_ACCEPT, "application/vnd.github+json");
    assert_eq!(GITHUB_API_VERSION, "2022-11-28");
    assert_eq!(ARCHIVE_DIRECTORY, "github/archive");
    assert_eq!(BASE_WAIT_SECS, 2);
    assert_eq!(MAX_WAIT_SECS, 64);
}

#[test]
fn states_are_read_from_the_providers_words() {
    assert_eq!(MigrationState::parse("exported"), MigrationState::Exported);
    assert_eq!(MigrationState::parse("failed"), MigrationState::Failed);
    assert_eq!(MigrationState::parse("pending"), MigrationState::Pending);
    assert_eq!(MigrationState::parse("exporting"), MigrationState::Exporting);
}

#[test]
fn an_unknown_word_counts_as_still_exporting() {
    assert_eq!(MigrationState::parse(""), MigrationState::Exporting);
    assert_eq!(MigrationState::parse("Exported"), MigrationState::Exporting);
    assert_eq!(MigrationState::parse("failed "), MigrationState::Exporting);
}

#[test]
fn only_exported_and_failed_are_terminal() {
    assert!(MigrationState::Exported.is_terminal());
    assert!(MigrationState::Failed.is_terminal());
    assert!(!MigrationState::Pending.is_terminal());
    assert!(!MigrationState::Exporting.is_terminal());
}

#[test]
fn the_wait_doubles_up_to_the_cap() {
    let mut wait = BASE_WAIT_SECS;
    let mut seen = vec![wait];
    for _ in 0..7 {
        wait = next_wait(wait);
        seen.push(wait);
    }
    assert_eq!(seen, vec![2, 4, 8, 16, 32, 64, 64, 64]);
    assert_eq!(next_wait(63), 126);
    assert_eq!(next_wait(u64::MAX), u64::MAX);
}

#[test]
fn the_addresses_are_keyed_by_the_job() {
    assert_eq!(migrations_url(), "https://api.github.com/user/migrations");
    assert_eq!(
        status_url(79),
        "https://api.github.com/user/migrations/79"
    );
    assert_eq!(
        download_url(1234567),
        "https://api.github.com/user/migrations/1234567/archive"
    );
    assert_eq!(status_url(0), "https://api.github.com/user/migrations/0");
}

#[test]
fn a_job_names_exactly_one_repository() {
    assert_eq!(job_repositories("owner/repo"), vec!["owner/repo"]);
}

#[test]
fn the_files_are_named_after_the_repository() {
    assert_eq!(archive_file_name("owner/repo"), "owner/repo.zip");
    assert_eq!(staging_file_name("owner/repo"), "owner/repo.zip.new");
}

#[test]
fn the_plan_stages_before_it_deletes() {
    assert_eq!(
        swap_plan(true, true),
        vec![
            SwapStep::RemoveStaging,
            SwapStep::WriteStaging,
            SwapStep::RemoveCurrent,
            SwapStep::Promote
        ]
    );
    assert_eq!(
        swap_plan(true, false),
        vec![
            SwapStep::WriteStaging,
            SwapStep::RemoveCurrent,
            SwapStep::Promote
        ]
    );
    assert_eq!(
        swap_plan(false, true),
        vec![
            SwapStep::RemoveStaging,
            SwapStep::WriteStaging,
            SwapStep::Promote
        ]
    );
    assert_eq!(
        swap_plan(false, false),
        vec![SwapStep::WriteStaging, SwapStep::Promote]
    );
}

#[test]
fn a_swap_replaces_the_previous_artifact() {
    let mut dir = ArchiveDir {
        current: whole(1),
        staging: None,
    };
    dir.swap_in(2);
    assert_eq!(
        dir,
        ArchiveDir {
            current: whole(2),
            staging: None
        }
    );
}

#[test]
fn an_interruption_after_staging_keeps_the_previous_artifact() {
    let mut dir = ArchiveDir {
        current: whole(1),
        staging: None,
    };
    let plan = swap_plan(true, false);
    dir.apply(plan[0], 2);
    assert_eq!(
        dir,
        ArchiveDir {
            current: whole(1),
            staging: whole(2)
        }
    );
}

#[test]
fn an_interruption_after_deletion_is_recovered_by_a_new_run() {
    let mut dir = ArchiveDir {
        current: whole(1),
        staging: None,
    };
    let plan = swap_plan(true, false);
    dir.apply(plan[0], 2);
    dir.apply(plan[1], 2);
    assert_eq!(
        dir,
        ArchiveDir {
            current: None,
            staging: whole(2)
        }
    );
    assert_eq!(
        swap_plan(dir.current.is_some(), dir.staging.is_some()),
        vec![
            SwapStep::RemoveStaging,
            SwapStep::WriteStaging,
            SwapStep::Promote
        ]
    );
    dir.swap_in(3);
    assert_eq!(
        dir,
        ArchiveDir {
            current: whole(3),
            staging: None
        }
    );
}

#[test]
fn an_interrupted_download_is_never_presented() {
    let mut dir = ArchiveDir {
        current: whole(1),
        staging: None,
    };
    dir.tear(SwapStep::WriteStaging, 2);
    assert_eq!(dir.current, whole(1));
    assert_eq!(
        dir.staging,
        Some(Artifact {
            job: 2,
            complete: false
        })
    );
    dir.swap_in(3);
    assert_eq!(
        dir,
        ArchiveDir {
            current: whole(3),
            staging: None
        }
    );
}

#[test]
fn other_steps_are_done_at_once_or_not_at_all() {
    let before = ArchiveDir {
        current: whole(1),
        staging: whole(2),
    };
    for step in [
        SwapStep::RemoveStaging,
        SwapStep::RemoveCurrent,
        SwapStep::Promote,
    ] {
        let mut dir = before;
        dir.tear(step, 2);
        assert_eq!(dir, before);
    }
}

#[test]
fn a_job_that_is_exported_at_once_is_swapped_without_sleep() {
    let mut poller = ArchivePoller::new();
    assert_eq!(poller.step(PollEvent::Begin), Some(PollAction::Submit));
    assert_eq!(
        poller.step(PollEvent::Created(MigrationJob {
            id: 5,
            state: MigrationState::Exported
        })),
        Some(PollAction::Swap { job: 5 })
    );
    assert_eq!(
        poller.step(PollEvent::Swapped),
        Some(PollAction::Finish(ArchiveOutcome::Archived))
    );
    assert_eq!(poller.state(), PollState::Finished(ArchiveOutcome::Archived));
}

#[test]
fn a_pending_job_is_polled_after_two_seconds() {
    let mut poller = ArchivePoller::new();
    poller.step(PollEvent::Begin);
    assert_eq!(
        poller.step(PollEvent::Created(MigrationJob {
            id: 9,
            state: MigrationState::Pending
        })),
        Some(PollAction::Sleep { secs: 2 })
    );
    assert_eq!(poller.step(PollEvent::Slept), Some(PollAction::Poll { job: 9 }));
    assert_eq!(
        poller.step(PollEvent::Status(MigrationState::Exporting)),
        Some(PollAction::Sleep { secs: 4 })
    );
    assert_eq!(poller.state(), PollState::Waiting { job: 9, wait: 4 });
}

#[test]
fn a_failed_job_ends_the_archiving() {
    let mut poller = ArchivePoller::new();
    poller.step(PollEvent::Begin);
    assert_eq!(
        poller.step(PollEvent::Created(MigrationJob {
            id: 9,
            state: MigrationState::Failed
        })),
        Some(PollAction::Finish(ArchiveOutcome::Failed(
            JobError::JobFailed
        )))
    );
    assert_eq!(poller.step(PollEvent::Slept), None);
}

#[test]
fn the_sleeps_follow_the_backoff() {
    let script = JobScript {
        created: job(1, MigrationState::Pending),
        statuses: vec![
            Some(MigrationState::Pending),
            Some(MigrationState::Exporting),
            Some(MigrationState::Exporting),
            Some(MigrationState::Exporting),
            Some(MigrationState::Exporting),
            Some(MigrationState::Exporting),
            Some(MigrationState::Exporting),
            Some(MigrationState::Exported),
            Some(MigrationState::Failed),
        ],
        swap: SwapResult::Swapped,
    };
    assert_eq!(
        poll_scripted(&script),
        Some(PollTrace {
            outcome: ArchiveOutcome::Archived,
            sleeps: vec![2, 4, 8, 16, 32, 64, 64, 64],
        })
    );
}

#[test]
fn each_request_that_fails_has_its_own_error() {
    let created = JobScript {
        created: None,
        statuses: vec![],
        swap: SwapResult::Swapped,
    };
    assert_eq!(
        poll_scripted(&created),
        Some(PollTrace {
            outcome: ArchiveOutcome::Failed(JobError::CreateFailed),
            sleeps: vec![]
        })
    );
    let status = JobScript {
        created: job(1, MigrationState::Exporting),
        statuses: vec![Some(MigrationState::Exporting), None],
        swap: SwapResult::Swapped,
    };
    assert_eq!(
        poll_scripted(&status),
        Some(PollTrace {
            outcome: ArchiveOutcome::Failed(JobError::StatusFailed),
            sleeps: vec![2, 4]
        })
    );
    let failed = JobScript {
        created: job(1, MigrationState::Pending),
        statuses: vec![Some(MigrationState::Failed)],
        swap: SwapResult::Swapped,
    };
    assert_eq!(
        poll_scripted(&failed).unwrap().outcome,
        ArchiveOutcome::Failed(JobError::JobFailed)
    );
    let download = JobScript {
        created: job(1, MigrationState::Exported),
        statuses: vec![],
        swap: SwapResult::DownloadFailed,
    };
    assert_eq!(
        poll_scripted(&download).unwrap().outcome,
        ArchiveOutcome::Failed(JobError::DownloadFailed)
    );
    let io = JobScript {
        created: job(1, MigrationState::Exported),
        statuses: vec![],
        swap: SwapResult::SwapFailed,
    };
    assert_eq!(
        poll_scripted(&io).unwrap().outcome,
        ArchiveOutcome::Failed(JobError::Io)
    );
}

#[test]
fn a_job_that_never_ends_is_polled_as_long_as_answers_come() {
    let script = JobScript {
        created: job(1, MigrationState::Pending),
        statuses: vec![Some(MigrationState::Exporting); 3],
        swap: SwapResult::Swapped,
    };
    assert_eq!(poll_scripted(&script), None);
}

#[test]
fn the_poller_ignores_what_it_does_not_expect() {
    let mut poller = ArchivePoller::new();
    assert_eq!(poller.step(PollEvent::Slept), None);
    assert_eq!(poller.state(), PollState::Start);
    poller.step(PollEvent::Begin);
    assert_eq!(poller.step(PollEvent::Swapped), None);
    assert_eq!(poller.state(), PollState::Submitted);
}
