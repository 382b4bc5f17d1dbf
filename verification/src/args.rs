//! The arguments of a run.

use std::path::PathBuf;
use vstd::prelude::*;
use crate::dispatch::{dispatch_mode, DispatchMode};

verus! {

/// A path of the file system, as std holds it.
#[verifier::external_type_specification]
#[verifier::external_body]
pub struct ExPathBuf(PathBuf);

/// `PathBuf`'s `clone`, which the derived `Clone` of `Args` calls for its
/// two paths. Trusted: the copy is the same path.
pub assume_specification[ <PathBuf as Clone>::clone ](path: &PathBuf) -> (r: PathBuf)
    ensures
        r == *path,
;

/// What a run was asked to do.
#[derive(Debug, PartialEq, Clone)]
pub struct Args {
    pub config: PathBuf,
    pub destination: PathBuf,
    pub verbose: bool,
    pub dry_run: bool,
    pub owned: bool,
    pub starred: bool,
    pub watched: bool,
    pub interval: Option<u64>,
    pub workers: usize,
}

/// The switches of a command line.
#[derive(Debug, PartialEq, Eq, Clone, Copy, Structural)]
pub struct Flags {
    pub verbose: bool,
    pub dry_run: bool,
    pub owned: bool,
    pub starred: bool,
    pub watched: bool,
}

impl Args {
    /// Puts the arguments together. The destination given by flag wins over
    /// the one given by position; without either there are no arguments.
    pub fn assemble(
        config: PathBuf,
        positional: Option<PathBuf>,
        flagged: Option<PathBuf>,
        flags: Flags,
        interval: Option<u64>,
        workers: usize,
    ) -> (r: Option<Args>)
        ensures
            r is Some <==> flagged is Some || positional is Some,
            r matches Some(args) ==> {
                &&& args.config == config
                &&& args.destination == if flagged is Some {
                    flagged->0
                } else {
                    positional->0
                }
                &&& args.verbose == flags.verbose
                &&& args.dry_run == flags.dry_run
                &&& args.owned == flags.owned
                &&& args.starred == flags.starred
                &&& args.watched == flags.watched
                &&& args.interval == interval
                &&& args.workers == workers
            },
    {
        let destination = match flagged {
            Some(path) => path,
            None => match positional {
                Some(path) => path,
                None => {
                    return None;
                },
            },
        };
        Some(
            Args {
                config,
                destination,
                verbose: flags.verbose,
                dry_run: flags.dry_run,
                owned: flags.owned,
                starred: flags.starred,
                watched: flags.watched,
                interval,
                workers,
            },
        )
    }

    /// How the targets of the run are worked off.
    pub fn mode(&self) -> (mode: DispatchMode)
        ensures
            self.workers > 1 ==> mode == (DispatchMode::Parallel { workers: self.workers }),
            self.workers <= 1 ==> mode == DispatchMode::Sequential,
    {
        dispatch_mode(self.workers)
    }
}

} // verus!
