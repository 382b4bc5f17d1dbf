use gitout::config::{Config, Git, GitHub, GitHubClone, RemoteEntry, SslConfig};
use gitout::dispatch::{
    dispatch_mode, gist_targets, git_targets, needs_listing, plan_run, progress_label,
    remote_targets, repository_targets, run_batch_scripted, tally, validate_paths, BatchKind,
    ConfigurationError, Credentials, DispatchMode, RepositorySet, RepositoryTarget, RunReport,
};
use gitout::github::Repositories;
use gitout::mirror::{FailureReason, FetchResult, RetryPolicy, SyncOutcome, TargetScript};
use gitout::transport::{PathKind, TransportErrorKind};
use toml::value::{Table, Value};

fn names(list: &[&str]) -> Vec<String> {
    list.iter().map(|s| s.to_string()).collect()
}

fn listing(owned: &[&str], starred: &[&str], watched: &[&str], gists: &[&str]) -> Repositories {
    Repositories {
        owned: names(owned),
        starred: names(starred),
        watched: names(watched),
        gists: names(gists),
    }
}

fn rules(starred: bool, watched: bool, repos: &[&str], ignored: &[&str]) -> GitHubClone {
    GitHubClone {
        starred,
        watched,
        gists: true,
        repos: names(repos),
        ignored: names(ignored),
    }
}

fn account(clone: GitHubClone) -> GitHub {
    GitHub {
        user: "user".to_string(),
        token: "token".to_string(),
        clone,
    }
}

fn credentials() -> Option<Credentials> {
    Some(Credentials {
        username: "user".to_string(),
        secret: "token".to_string(),
    })
}

#[test]
fn a_run_needs_a_destination_directory() {
    assert_eq!(
        validate_paths(false, PathKind::Missing, PathKind::Other),
        Err(ConfigurationError::DestinationMissing)
    );
    assert_eq!(
        validate_paths(false, PathKind::Other, PathKind::Other),
        Err(ConfigurationError::DestinationNotDirectory)
    );
    assert_eq!(
        validate_paths(false, PathKind::Directory, PathKind::Other),
        Ok(())
    );
}

#[test]
fn a_dry_run_needs_no_destination() {
    assert_eq!(validate_paths(true, PathKind::Missing, PathKind::Other), Ok(()));
    assert_eq!(validate_paths(true, PathKind::Other, PathKind::Other), Ok(()));
}

#[test]
fn a_run_needs_a_configuration_file() {
    assert_eq!(
        validate_paths(false, PathKind::Directory, PathKind::Missing),
        Err(ConfigurationError::ConfigMissing)
    );
    assert_eq!(
        validate_paths(true, PathKind::Directory, PathKind::Directory),
        Err(ConfigurationError::ConfigIsDirectory)
    );
}

#[test]
fn the_destination_is_checked_before_the_configuration() {
    assert_eq!(
        validate_paths(false, PathKind::Missing, PathKind::Missing),
        Err(ConfigurationError::DestinationMissing)
    );
}

#[test]
fn a_name_offered_three_times_stands_once() {
    let found = listing(&["me/shared", "me/own"], &["me/shared", "you/star"], &[], &[]);
    let set = RepositorySet::build(true, &found, &rules(true, false, &["me/shared"], &[]));
    assert_eq!(set.names(), &names(&["me/shared", "me/own", "you/star"]));
    assert_eq!(set.len(), 3);
    assert!(set.contains("me/shared"));
    let count = set.names().iter().filter(|n| n.as_str() == "me/shared").count();
    assert_eq!(count, 1);
}

#[test]
fn an_ignored_name_is_absent_whatever_offers_it() {
    let found = listing(&["me/a", "me/b"], &["me/b", "you/c"], &["me/b"], &[]);
    let set = RepositorySet::build(true, &found, &rules(true, true, &["me/b"], &["me/b"]));
    assert!(!set.contains("me/b"));
    assert_eq!(set.names(), &names(&["me/a", "you/c"]));
}

#[test]
fn the_rules_decide_which_lists_are_taken() {
    let found = listing(&["me/own"], &["you/star"], &["they/watch"], &["gist"]);
    let none = RepositorySet::build(false, &found, &rules(false, false, &[], &[]));
    assert_eq!(none.len(), 0);
    let explicit = RepositorySet::build(false, &found, &rules(false, false, &["x/y"], &[]));
    assert_eq!(explicit.names(), &names(&["x/y"]));
    let starred = RepositorySet::build(false, &found, &rules(true, false, &[], &[]));
    assert_eq!(starred.names(), &names(&["you/star"]));
    let watched = RepositorySet::build(false, &found, &rules(false, true, &[], &[]));
    assert_eq!(watched.names(), &names(&["they/watch"]));
    let all = RepositorySet::build(true, &found, &rules(true, true, &["x/y"], &[]));
    assert_eq!(
        all.names(),
        &names(&["me/own", "x/y", "you/star", "they/watch"])
    );
    assert!(!all.contains("gist"));
}

#[test]
fn repository_targets_are_fetched_from_the_provider() {
    let github = account(rules(false, false, &["example/two"], &[]));
    let set = RepositorySet::build(false, &listing(&[], &[], &[], &[]), &github.clone);
    assert_eq!(
        repository_targets(&github, &set),
        vec![RepositoryTarget {
            logical_name: "example/two".to_string(),
            remote_url: "https://github.com/example/two.git".to_string(),
            local_relative_path: "github/clone/example/two".to_string(),
            credentials: credentials(),
        }]
    );
}

#[test]
fn gist_targets_follow_the_listing() {
    let github = account(rules(false, false, &[], &["abc"]));
    let found = listing(&[], &[], &[], &["abc", "def"]);
    assert_eq!(
        gist_targets(&github, &found),
        vec![
            RepositoryTarget {
                logical_name: "abc".to_string(),
                remote_url: "https://gist.github.com/abc.git".to_string(),
                local_relative_path: "github/gists/abc".to_string(),
                credentials: credentials(),
            },
            RepositoryTarget {
                logical_name: "def".to_string(),
                remote_url: "https://gist.github.com/def.git".to_string(),
                local_relative_path: "github/gists/def".to_string(),
                credentials: credentials(),
            },
        ]
    );
}

#[test]
fn gists_can_be_switched_off() {
    let mut clone = rules(false, false, &[], &[]);
    clone.gists = false;
    let found = listing(&[], &[], &[], &["abc"]);
    assert!(gist_targets(&account(clone), &found).is_empty());
}

#[test]
fn plain_remotes_have_no_credentials() {
    let mut repos = Table::new();
    repos.insert(
        "example".to_string(),
        Value::from("https://example.com/example.git"),
    );
    repos.insert("a/b".to_string(), Value::from("ssh://host/b.git"));
    let targets = git_targets(&Git { repos }).unwrap();
    assert_eq!(
        targets,
        vec![
            RepositoryTarget {
                logical_name: "a/b".to_string(),
                remote_url: "ssh://host/b.git".to_string(),
                local_relative_path: "git/a/b".to_string(),
                credentials: None,
            },
            RepositoryTarget {
                logical_name: "example".to_string(),
                remote_url: "https://example.com/example.git".to_string(),
                local_relative_path: "git/example".to_string(),
                credentials: None,
            },
        ]
    );
}

#[test]
fn a_remote_that_is_no_string_is_rejected() {
    let mut repos = Table::new();
    repos.insert("a".to_string(), Value::from("https://example.com/a.git"));
    repos.insert("b".to_string(), Value::Integer(1));
    repos.insert("c".to_string(), Value::Boolean(false));
    assert_eq!(
        git_targets(&Git { repos }),
        Err(ConfigurationError::RemoteNotText { position: 1 })
    );
    let entries = vec![RemoteEntry {
        path: "only".to_string(),
        url: None,
    }];
    assert_eq!(
        remote_targets(&entries),
        Err(ConfigurationError::RemoteNotText { position: 0 })
    );
}

#[test]
fn no_remotes_give_no_targets() {
    assert_eq!(git_targets(&Git { repos: Table::new() }), Ok(vec![]));
    assert_eq!(remote_targets(&vec![]), Ok(vec![]));
}

#[test]
fn every_outcome_is_counted_once() {
    let outcomes = vec![
        SyncOutcome::Updated,
        SyncOutcome::Failed(FailureReason::Filesystem),
        SyncOutcome::Unchanged,
        SyncOutcome::FallbackSucceeded,
        SyncOutcome::Failed(FailureReason::Transport {
            kind: TransportErrorKind::Auth,
            attempts: 6,
        }),
    ];
    assert_eq!(
        tally(&outcomes),
        RunReport {
            succeeded: 3,
            failed: 2
        }
    );
    assert_eq!(
        tally(&vec![]),
        RunReport {
            succeeded: 0,
            failed: 0
        }
    );
}

#[test]
fn the_count_does_not_depend_on_the_order() {
    let mut outcomes = vec![
        SyncOutcome::Failed(FailureReason::Filesystem),
        SyncOutcome::Updated,
        SyncOutcome::Unchanged,
    ];
    let forward = tally(&outcomes);
    outcomes.reverse();
    assert_eq!(tally(&outcomes), forward);
}

#[test]
fn one_failing_target_does_not_stop_the_others() {
    let good = |transferred: bool| TargetScript {
        prepare_ok: true,
        fetches: vec![FetchResult::Fetched { transferred }],
        fallback_ok: false,
    };
    let bad = TargetScript {
        prepare_ok: true,
        fetches: vec![FetchResult::Failed(TransportErrorKind::Network); 6],
        fallback_ok: false,
    };
    let scripts = vec![good(true), good(false), bad, good(true), good(false)];
    let batch = run_batch_scripted(RetryPolicy::standard(), false, &scripts).unwrap();
    assert_eq!(
        batch.outcomes,
        vec![
            SyncOutcome::Updated,
            SyncOutcome::Unchanged,
            SyncOutcome::Failed(FailureReason::Transport {
                kind: TransportErrorKind::Network,
                attempts: 6
            }),
            SyncOutcome::Updated,
            SyncOutcome::Unchanged,
        ]
    );
    assert_eq!(
        batch.report,
        RunReport {
            succeeded: 4,
            failed: 1
        }
    );
}

#[test]
fn a_dry_batch_changes_nothing_however_many_targets() {
    let scripts: Vec<TargetScript> = (0..20)
        .map(|_| TargetScript {
            prepare_ok: false,
            fetches: vec![],
            fallback_ok: false,
        })
        .collect();
    let batch = run_batch_scripted(RetryPolicy::standard(), true, &scripts).unwrap();
    assert_eq!(batch.outcomes, vec![SyncOutcome::Unchanged; 20]);
    assert_eq!(
        batch.report,
        RunReport {
            succeeded: 20,
            failed: 0
        }
    );
}

#[test]
fn a_batch_with_a_short_record_gives_nothing() {
    let scripts = vec![TargetScript {
        prepare_ok: true,
        fetches: vec![],
        fallback_ok: false,
    }];
    assert_eq!(
        run_batch_scripted(RetryPolicy::standard(), false, &scripts),
        None
    );
}

#[test]
fn the_mode_follows_the_number_of_workers() {
    assert_eq!(dispatch_mode(0), DispatchMode::Sequential);
    assert_eq!(dispatch_mode(1), DispatchMode::Sequential);
    assert_eq!(dispatch_mode(8), DispatchMode::Parallel { workers: 8 });
}

#[test]
fn the_progress_line_counts_from_the_position() {
    assert_eq!(progress_label(1, 1), "(1/1)");
    assert_eq!(progress_label(3, 12), "(3/12)");
    assert_eq!(progress_label(100, 250), "(100/250)");
}

fn full_config(gists: bool) -> Config {
    let mut repos = Table::new();
    repos.insert(
        "example".to_string(),
        Value::from("https://example.com/example.git"),
    );
    let mut clone = rules(true, false, &["example/two"], &["you/skip"]);
    clone.gists = gists;
    Config {
        version: 0,
        github: Some(account(clone)),
        git: Some(Git { repos }),
        ssl: SslConfig::default(),
    }
}

#[test]
fn a_run_is_planned_batch_by_batch() {
    let found = listing(&["me/own"], &["you/star", "you/skip"], &["they/watch"], &["g1"]);
    let batches = plan_run(true, &full_config(true), Some(&found)).unwrap();
    let kinds: Vec<BatchKind> = batches.iter().map(|b| b.kind).collect();
    assert_eq!(
        kinds,
        vec![BatchKind::Gists, BatchKind::Repositories, BatchKind::Remotes]
    );
    assert_eq!(batches[0].targets, gist_targets(&account(rules(false, false, &[], &[])), &found));
    let planned: Vec<&str> = batches[1]
        .targets
        .iter()
        .map(|t| t.logical_name.as_str())
        .collect();
    assert_eq!(planned, vec!["me/own", "example/two", "you/star"]);
    assert_eq!(batches[2].targets.len(), 1);
    assert_eq!(batches[2].targets[0].local_relative_path, "git/example");
}

#[test]
fn a_run_without_gists_has_no_gist_batch() {
    let found = listing(&[], &[], &[], &["g1"]);
    let batches = plan_run(false, &full_config(false), Some(&found)).unwrap();
    let kinds: Vec<BatchKind> = batches.iter().map(|b| b.kind).collect();
    assert_eq!(kinds, vec![BatchKind::Repositories, BatchKind::Remotes]);
}

#[test]
fn a_failed_listing_leaves_the_account_out() {
    let batches = plan_run(true, &full_config(true), None).unwrap();
    assert_eq!(batches.len(), 1);
    assert_eq!(batches[0].kind, BatchKind::Remotes);
}

#[test]
fn an_empty_configuration_plans_nothing() {
    let config = Config {
        version: 0,
        github: None,
        git: None,
        ssl: SslConfig::default(),
    };
    assert!(!needs_listing(&config));
    assert_eq!(plan_run(true, &config, None), Ok(vec![]));
    assert!(needs_listing(&full_config(true)));
}

#[test]
fn an_invalid_remote_stops_the_planning() {
    let mut config = full_config(true);
    let mut repos = Table::new();
    repos.insert("bad".to_string(), Value::Integer(3));
    config.git = Some(Git { repos });
    let found = listing(&["me/own"], &[], &[], &[]);
    assert_eq!(
        plan_run(true, &config, Some(&found)),
        Err(ConfigurationError::RemoteNotText { position: 0 })
    );
}
