//! The dispatcher's plan: which repositories a run mirrors, from where and to
//! where, and how the outcomes of a run add up.

use vstd::prelude::*;
use crate::config::{
    entries_view, table_entries, Config, Git, GitHub, GitHubClone, GitHubCloneView, RemoteEntry,
};
use crate::github::{Repositories, RepositoriesView};
use crate::mirror::{run_scripted, scripted_trace, RetryPolicy, SyncOutcome, TargetScript};
use crate::text::{contains_text, decimal, join2, join3, spec_decimal, texts};
use crate::transport::PathKind;

verus! {

/// Why a run cannot start.
#[derive(Debug, PartialEq, Eq, Clone, Copy, Structural)]
pub enum ConfigurationError {
    DestinationMissing,
    DestinationNotDirectory,
    ConfigMissing,
    ConfigIsDirectory,
    /// The remote at this place of the table, counted from zero, has a
    /// value that is no string.
    RemoteNotText { position: usize },
}

/// What the paths of a run must be: the destination a directory, unless the
/// run is a dry run; the configuration something that is no directory.
pub open spec fn spec_validate_paths(dry_run: bool, destination: PathKind, config: PathKind) -> Result<
    (),
    ConfigurationError,
> {
    if !dry_run && destination == PathKind::Missing {
        Err(ConfigurationError::DestinationMissing)
    } else if !dry_run && destination == PathKind::Other {
        Err(ConfigurationError::DestinationNotDirectory)
    } else if config == PathKind::Missing {
        Err(ConfigurationError::ConfigMissing)
    } else if config == PathKind::Directory {
        Err(ConfigurationError::ConfigIsDirectory)
    } else {
        Ok(())
    }
}

/// Checks the paths of a run before any work starts.
pub fn validate_paths(dry_run: bool, destination: PathKind, config: PathKind) -> (r: Result<
    (),
    ConfigurationError,
>)
    ensures
        r == spec_validate_paths(dry_run, destination, config),
{
    if !dry_run {
        match destination {
            PathKind::Missing => {
                return Err(ConfigurationError::DestinationMissing);
            },
            PathKind::Other => {
                return Err(ConfigurationError::DestinationNotDirectory);
            },
            PathKind::Directory => {},
        }
    }
    match config {
        PathKind::Missing => Err(ConfigurationError::ConfigMissing),
        PathKind::Directory => Err(ConfigurationError::ConfigIsDirectory),
        PathKind::Other => Ok(()),
    }
}

/// A user name and the secret that goes with it.
#[derive(Debug, PartialEq)]
pub struct Credentials {
    pub username: String,
    pub secret: String,
}

/// One repository to mirror.
#[derive(Debug, PartialEq)]
pub struct RepositoryTarget {
    pub logical_name: String,
    pub remote_url: String,
    /// Where the mirror lives, below the destination.
    pub local_relative_path: String,
    pub credentials: Option<Credentials>,
}

/// The model of a `RepositoryTarget`.
pub struct TargetView {
    pub logical_name: Seq<char>,
    pub remote_url: Seq<char>,
    pub local_relative_path: Seq<char>,
    pub credentials: Option<(Seq<char>, Seq<char>)>,
}

impl View for RepositoryTarget {
    type V = TargetView;

    open spec fn view(&self) -> TargetView {
        TargetView {
            logical_name: self.logical_name@,
            remote_url: self.remote_url@,
            local_relative_path: self.local_relative_path@,
            credentials: match self.credentials {
                Some(c) => Some((c.username@, c.secret@)),
                None => None,
            },
        }
    }
}

/// The views of a list of targets, in order.
pub open spec fn targets_view(list: Seq<RepositoryTarget>) -> Seq<TargetView> {
    Seq::new(list.len(), |i: int| list[i]@)
}

/// The target of a repository of the hosted account: it is fetched from
/// the provider under its name, with the account's credentials, into
/// `github/clone/<owner>/<repo>`.
pub open spec fn repository_target(user: Seq<char>, token: Seq<char>, name: Seq<char>) -> TargetView {
    TargetView {
        logical_name: name,
        remote_url: "https://github.com/"@ + name + ".git"@,
        local_relative_path: "github/clone/"@ + name,
        credentials: Some((user, token)),
    }
}

/// The target of a gist: `github/gists/<name>`.
pub open spec fn gist_target(user: Seq<char>, token: Seq<char>, name: Seq<char>) -> TargetView {
    TargetView {
        logical_name: name,
        remote_url: "https://gist.github.com/"@ + name + ".git"@,
        local_relative_path: "github/gists/"@ + name,
        credentials: Some((user, token)),
    }
}

/// The target of a plain git remote: `git/<path>`, without credentials.
pub open spec fn remote_target(path: Seq<char>, url: Seq<char>) -> TargetView {
    TargetView {
        logical_name: path,
        remote_url: url,
        local_relative_path: "git/"@ + path,
        credentials: None,
    }
}

/// The names that the inclusion rules offer, in the order in which they are
/// taken up: the owned repositories where asked for, the repositories that
/// the configuration names, then the starred and the watched ones where
/// switched on.
pub open spec fn candidates(owned: bool, listing: RepositoriesView, clone: GitHubCloneView) -> Seq<
    Seq<char>,
> {
    (if owned {
        listing.owned
    } else {
        Seq::empty()
    }) + clone.repos + (if clone.starred {
        listing.starred
    } else {
        Seq::empty()
    }) + (if clone.watched {
        listing.watched
    } else {
        Seq::empty()
    })
}

/// `acc` after the names of `list` were offered in order: a name is taken
/// in unless it is ignored or already there.
pub open spec fn offer_names(acc: Seq<Seq<char>>, list: Seq<Seq<char>>, ignored: Seq<Seq<char>>) -> Seq<
    Seq<char>,
>
    decreases list.len(),
{
    if list.len() == 0 {
        acc
    } else {
        let before = offer_names(acc, list.drop_last(), ignored);
        let name = list.last();
        if ignored.contains(name) || before.contains(name) {
            before
        } else {
            before.push(name)
        }
    }
}

/// The names of the repository set of a run.
pub open spec fn repository_names(owned: bool, listing: RepositoriesView, clone: GitHubCloneView) -> Seq<
    Seq<char>,
> {
    offer_names(Seq::empty(), candidates(owned, listing, clone), clone.ignored)
}

proof fn lemma_offer_split(
    acc: Seq<Seq<char>>,
    a: Seq<Seq<char>>,
    b: Seq<Seq<char>>,
    ignored: Seq<Seq<char>>,
)
    ensures
        offer_names(acc, a + b, ignored) == offer_names(offer_names(acc, a, ignored), b, ignored),
    decreases b.len(),
{
    if b.len() == 0 {
        assert(a + b =~= a);
    } else {
        lemma_offer_split(acc, a, b.drop_last(), ignored);
        assert((a + b).drop_last() =~= a + b.drop_last());
        assert((a + b).last() == b.last());
    }
}

proof fn lemma_offer_distinct(acc: Seq<Seq<char>>, list: Seq<Seq<char>>, ignored: Seq<Seq<char>>)
    requires
        acc.no_duplicates(),
    ensures
        offer_names(acc, list, ignored).no_duplicates(),
    decreases list.len(),
{
    if list.len() > 0 {
        lemma_offer_distinct(acc, list.drop_last(), ignored);
    }
}

proof fn lemma_offer_membership(
    acc: Seq<Seq<char>>,
    list: Seq<Seq<char>>,
    ignored: Seq<Seq<char>>,
    name: Seq<char>,
)
    ensures
        offer_names(acc, list, ignored).contains(name) <==> acc.contains(name) || (list.contains(
            name,
        ) && !ignored.contains(name)),
    decreases list.len(),
{
    if list.len() > 0 {
        let before = offer_names(acc, list.drop_last(), ignored);
        lemma_offer_membership(acc, list.drop_last(), ignored, name);
        let last = list.last();
        assert(list =~= list.drop_last().push(last));
        if list.contains(name) {
            let i = choose|i: int| 0 <= i < list.len() && list[i] == name;
            if i < list.len() - 1 {
                assert(list.drop_last()[i] == name);
            }
        }
        if list.drop_last().contains(name) {
            let i = choose|i: int| 0 <= i < list.drop_last().len() && list.drop_last()[i] == name;
            assert(list[i] == name);
        }
        if !(ignored.contains(last) || before.contains(last)) {
            let after = before.push(last);
            assert(after[before.len() as int] == last);
            if before.contains(name) {
                let i = choose|i: int| 0 <= i < before.len() && before[i] == name;
                assert(after[i] == name);
            }
        }
    }
}

/// No name stands twice in a repository set, however often the lists that
/// it is built from offer it.
pub proof fn lemma_repository_names_distinct(
    owned: bool,
    listing: RepositoriesView,
    clone: GitHubCloneView,
)
    ensures
        repository_names(owned, listing, clone).no_duplicates(),
{
    lemma_offer_distinct(Seq::empty(), candidates(owned, listing, clone), clone.ignored);
}

/// A name is in the repository set exactly if some inclusion rule offers it
/// and the ignore list does not hold it: an ignored name is absent whatever
/// offers it.
pub proof fn lemma_repository_names_membership(
    owned: bool,
    listing: RepositoriesView,
    clone: GitHubCloneView,
    name: Seq<char>,
)
    ensures
        repository_names(owned, listing, clone).contains(name) <==> candidates(
            owned,
            listing,
            clone,
        ).contains(name) && !clone.ignored.contains(name),
{
    lemma_offer_membership(Seq::empty(), candidates(owned, listing, clone), clone.ignored, name);
}

/// Which names a repository set holds does not depend on the order in which
/// they are offered, nor on how often: lists that offer the same names give
/// sets of the same names.
pub proof fn lemma_names_whatever_the_order(
    first: Seq<Seq<char>>,
    second: Seq<Seq<char>>,
    ignored: Seq<Seq<char>>,
)
    requires
        first.to_set() == second.to_set(),
    ensures
        offer_names(Seq::empty(), first, ignored).to_set() == offer_names(
            Seq::empty(),
            second,
            ignored,
        ).to_set(),
{
    let a = offer_names(Seq::empty(), first, ignored);
    let b = offer_names(Seq::empty(), second, ignored);
    assert forall|name: Seq<char>| a.to_set().contains(name) == b.to_set().contains(name) by {
        lemma_offer_membership(Seq::empty(), first, ignored, name);
        lemma_offer_membership(Seq::empty(), second, ignored, name);
        assert(first.contains(name) == first.to_set().contains(name));
        assert(second.contains(name) == second.to_set().contains(name));
        assert(a.contains(name) == a.to_set().contains(name));
        assert(b.contains(name) == b.to_set().contains(name));
    }
    assert(a.to_set() =~= b.to_set());
}

fn offer(names: &mut Vec<String>, list: &Vec<String>, ignored: &Vec<String>)
    ensures
        texts(final(names)@) == offer_names(texts(old(names)@), texts(list@), texts(ignored@)),
{
    let ghost start = texts(names@);
    let ghost offered = texts(list@);
    let mut i: usize = 0;
    while i < list.len()
        invariant
            i <= list.len(),
            offered == texts(list@),
            texts(names@) == offer_names(start, offered.take(i as int), texts(ignored@)),
        decreases list.len() - i,
    {
        let ghost so_far = texts(names@);
        let name = &list[i];
        proof {
            assert(offered.take(i as int + 1).drop_last() =~= offered.take(i as int));
            assert(offered.take(i as int + 1).last() == name@);
        }
        if !contains_text(ignored, name.as_str()) && !contains_text(names, name.as_str()) {
            names.push(name.clone());
            assert(texts(names@) =~= so_far.push(name@));
        }
        i += 1;
    }
    assert(offered.take(list.len() as int) =~= offered);
}

/// The repositories of the hosted account that a run mirrors: each name
/// once, in the order in which the inclusion rules first offer it.
#[derive(Debug, PartialEq)]
pub struct RepositorySet {
    names: Vec<String>,
}

impl View for RepositorySet {
    type V = Seq<Seq<char>>;

    closed spec fn view(&self) -> Seq<Seq<char>> {
        texts(self.names@)
    }
}

impl RepositorySet {
    #[verifier::type_invariant]
    spec fn distinct(self) -> bool {
        texts(self.names@).no_duplicates()
    }

    /// Builds the set from the account's listing and the inclusion rules:
    /// the union of what the rules offer, without what is ignored.
    pub fn build(owned: bool, listing: &Repositories, clone: &GitHubClone) -> (set: RepositorySet)
        ensures
            set@ == repository_names(owned, listing@, clone@),
            set@.no_duplicates(),
    {
        let ghost ignored = clone@.ignored;
        let ghost none = Seq::<Seq<char>>::empty();
        let mut names: Vec<String> = Vec::new();
        assert(texts(names@) =~= none);
        let empty: Vec<String> = Vec::new();
        assert(texts(empty@) =~= none);
        offer(&mut names, if owned { &listing.owned } else { &empty }, &clone.ignored);
        let ghost one = if owned { listing@.owned } else { none };
        offer(&mut names, &clone.repos, &clone.ignored);
        offer(&mut names, if clone.starred { &listing.starred } else { &empty }, &clone.ignored);
        let ghost three = if clone.starred { listing@.starred } else { none };
        offer(&mut names, if clone.watched { &listing.watched } else { &empty }, &clone.ignored);
        let ghost four = if clone.watched { listing@.watched } else { none };
        proof {
            lemma_offer_split(none, one, clone@.repos, ignored);
            lemma_offer_split(none, one + clone@.repos, three, ignored);
            lemma_offer_split(none, one + clone@.repos + three, four, ignored);
            lemma_repository_names_distinct(owned, listing@, clone@);
        }
        RepositorySet { names }
    }

    /// The names, each once.
    pub fn names(&self) -> (r: &Vec<String>)
        ensures
            texts(r@) == self@,
            self@.no_duplicates(),
    {
        proof {
            use_type_invariant(self);
        }
        &self.names
    }

    /// How many repositories the set holds.
    pub fn len(&self) -> (n: usize)
        ensures
            n == self@.len(),
    {
        self.names.len()
    }

    /// Whether the set holds `name`.
    pub fn contains(&self, name: &str) -> (r: bool)
        ensures
            r == self@.contains(name@),
    {
        contains_text(&self.names, name)
    }
}

/// The targets of the account's gists, where gists are mirrored at all.
pub open spec fn spec_gist_targets(
    user: Seq<char>,
    token: Seq<char>,
    enabled: bool,
    names: Seq<Seq<char>>,
) -> Seq<TargetView> {
    if enabled {
        Seq::new(names.len(), |i: int| gist_target(user, token, names[i]))
    } else {
        Seq::empty()
    }
}

/// The targets of the repositories named, in order.
pub open spec fn spec_repository_targets(user: Seq<char>, token: Seq<char>, names: Seq<Seq<char>>) -> Seq<
    TargetView,
> {
    Seq::new(names.len(), |i: int| repository_target(user, token, names[i]))
}

/// The targets of the remotes of a table whose values are all strings.
pub open spec fn spec_remote_targets(entries: Seq<(Seq<char>, Option<Seq<char>>)>) -> Seq<
    TargetView,
> {
    Seq::new(entries.len(), |i: int| remote_target(entries[i].0, entries[i].1->0))
}

/// `position` is the place of the first remote of `entries` whose value is
/// no string.
pub open spec fn first_not_text(entries: Seq<(Seq<char>, Option<Seq<char>>)>, position: int) -> bool {
    &&& 0 <= position < entries.len()
    &&& entries[position].1 is None
    &&& forall|j: int| 0 <= j < position ==> (#[trigger] entries[j]).1 is Some
}

/// What stands in the way of planning the remotes of `entries`: the first
/// remote whose value is no string.
pub open spec fn remotes_rejected(
    entries: Seq<(Seq<char>, Option<Seq<char>>)>,
    error: ConfigurationError,
) -> bool {
    exists|p: int| #[trigger]
        first_not_text(entries, p) && error == (ConfigurationError::RemoteNotText {
            position: p as usize,
        })
}

fn credentials_of(github: &GitHub) -> (r: Credentials)
    ensures
        r.username@ == github.user@,
        r.secret@ == github.token@,
{
    Credentials { username: github.user.clone(), secret: github.token.clone() }
}

/// The target of a name of the hosted account: that of a gist or that of a
/// repository.
pub open spec fn hosted_target(user: Seq<char>, token: Seq<char>, name: Seq<char>, gist: bool) -> TargetView {
    if gist {
        gist_target(user, token, name)
    } else {
        repository_target(user, token, name)
    }
}

fn hosted_targets(github: &GitHub, names: &Vec<String>, gist: bool) -> (r: Vec<RepositoryTarget>)
    ensures
        targets_view(r@) == Seq::new(
            names.len() as nat,
            |i: int| hosted_target(github.user@, github.token@, texts(names@)[i], gist),
        ),
{
    let ghost want = Seq::new(
        names.len() as nat,
        |i: int| hosted_target(github.user@, github.token@, texts(names@)[i], gist),
    );
    let mut r: Vec<RepositoryTarget> = Vec::new();
    let mut i: usize = 0;
    assert(targets_view(r@) =~= want.take(0));
    while i < names.len()
        invariant
            i <= names.len(),
            want == Seq::new(
                names.len() as nat,
                |i: int| hosted_target(github.user@, github.token@, texts(names@)[i], gist),
            ),
            targets_view(r@) == want.take(i as int),
        decreases names.len() - i,
    {
        let ghost so_far = targets_view(r@);
        let name = &names[i];
        assert(texts(names@)[i as int] == name@);
        let target = RepositoryTarget {
            logical_name: name.clone(),
            remote_url: join3(
                if gist {
                    "https://gist.github.com/"
                } else {
                    "https://github.com/"
                },
                name.as_str(),
                ".git",
            ),
            local_relative_path: join2(
                if gist {
                    "github/gists/"
                } else {
                    "github/clone/"
                },
                name.as_str(),
            ),
            credentials: Some(credentials_of(github)),
        };
        assert(target@ == want[i as int]);
        r.push(target);
        i += 1;
        assert(targets_view(r@) =~= so_far.push(want[i - 1]));
        assert(want.take(i as int) =~= want.take(i - 1).push(want[i - 1]));
    }
    assert(want.take(names.len() as int) =~= want);
    r
}

/// The targets of the account's gists: one for each gist of the listing in
/// order, none where the configuration switches gists off.
pub fn gist_targets(github: &GitHub, listing: &Repositories) -> (r: Vec<RepositoryTarget>)
    ensures
        targets_view(r@) == spec_gist_targets(
            github.user@,
            github.token@,
            github.clone.gists,
            listing@.gists,
        ),
{
    if github.clone.gists {
        let r = hosted_targets(github, &listing.gists, true);
        assert(targets_view(r@) =~= spec_gist_targets(
            github.user@,
            github.token@,
            true,
            listing@.gists,
        ));
        r
    } else {
        let r: Vec<RepositoryTarget> = Vec::new();
        assert(targets_view(r@) =~= Seq::empty());
        r
    }
}

/// The targets of a repository set, in the set's order.
pub fn repository_targets(github: &GitHub, set: &RepositorySet) -> (r: Vec<RepositoryTarget>)
    ensures
        targets_view(r@) == spec_repository_targets(github.user@, github.token@, set@),
{
    let r = hosted_targets(github, set.names(), false);
    assert(targets_view(r@) =~= spec_repository_targets(github.user@, github.token@, set@));
    r
}

/// The targets of the remotes read from a table, in the table's order. A
/// remote whose value is no string makes the configuration invalid: the
/// first such remote is reported and no target is built.
pub fn remote_targets(entries: &Vec<RemoteEntry>) -> (r: Result<
    Vec<RepositoryTarget>,
    ConfigurationError,
>)
    ensures
        r is Ok <==> forall|i: int|
            0 <= i < entries.len() ==> (#[trigger] entries_view(entries@)[i]).1 is Some,
        r matches Ok(targets) ==> targets_view(targets@) == spec_remote_targets(
            entries_view(entries@),
        ),
        r matches Err(e) ==> remotes_rejected(entries_view(entries@), e),
{
    let ghost all = entries_view(entries@);
    let ghost want = spec_remote_targets(all);
    let mut r: Vec<RepositoryTarget> = Vec::new();
    let mut i: usize = 0;
    assert(targets_view(r@) =~= want.take(0));
    while i < entries.len()
        invariant
            i <= entries.len(),
            all == entries_view(entries@),
            want == spec_remote_targets(all),
            targets_view(r@) == want.take(i as int),
            forall|j: int| 0 <= j < i ==> (#[trigger] all[j]).1 is Some,
        decreases entries.len() - i,
    {
        let ghost so_far = targets_view(r@);
        let entry = &entries[i];
        assert(all[i as int] == entry@);
        match &entry.url {
            None => {
                assert(first_not_text(all, i as int));
                return Err(ConfigurationError::RemoteNotText { position: i });
            },
            Some(url) => {
                let target = RepositoryTarget {
                    logical_name: entry.path.clone(),
                    remote_url: url.clone(),
                    local_relative_path: join2("git/", entry.path.as_str()),
                    credentials: None,
                };
                assert(target@ == want[i as int]);
                r.push(target);
            },
        }
        i += 1;
        assert(targets_view(r@) =~= so_far.push(want[i - 1]));
        assert(want.take(i as int) =~= want.take(i - 1).push(want[i - 1]));
    }
    assert(want.take(entries.len() as int) =~= want);
    Ok(r)
}

/// The targets of the plain git remotes of the configuration: what
/// `remote_targets` makes of the table's entries.
pub fn git_targets(git: &Git) -> (r: Result<Vec<RepositoryTarget>, ConfigurationError>)
    ensures
        r is Ok <==> forall|i: int|
            0 <= i < table_entries(git.repos).len() ==> (#[trigger] table_entries(
                git.repos,
            )[i]).1 is Some,
        r matches Ok(targets) ==> targets_view(targets@) == spec_remote_targets(
            table_entries(git.repos),
        ),
        r matches Err(e) ==> remotes_rejected(table_entries(git.repos), e),
{
    let entries = git.remotes();
    remote_targets(&entries)
}

/// What the targets of a batch are.
#[derive(Debug, PartialEq, Eq, Clone, Copy, Structural)]
pub enum BatchKind {
    Gists,
    Repositories,
    Remotes,
}

/// The targets of one kind that a run works off together.
#[derive(Debug, PartialEq)]
pub struct Batch {
    pub kind: BatchKind,
    pub targets: Vec<RepositoryTarget>,
}

/// The model of a `Batch`.
pub struct BatchView {
    pub kind: BatchKind,
    pub targets: Seq<TargetView>,
}

impl View for Batch {
    type V = BatchView;

    open spec fn view(&self) -> BatchView {
        BatchView { kind: self.kind, targets: targets_view(self.targets@) }
    }
}

/// The views of a list of batches, in order.
pub open spec fn batches_view(list: Seq<Batch>) -> Seq<BatchView> {
    Seq::new(list.len(), |i: int| list[i]@)
}

/// The batches of the hosted account: the gists where they are mirrored,
/// then the repository set.
pub open spec fn spec_account_batches(
    owned: bool,
    github: GitHub,
    listing: RepositoriesView,
) -> Seq<BatchView> {
    (if github.clone.gists {
        seq![
            BatchView {
                kind: BatchKind::Gists,
                targets: spec_gist_targets(github.user@, github.token@, true, listing.gists),
            },
        ]
    } else {
        Seq::empty()
    }) + seq![
        BatchView {
            kind: BatchKind::Repositories,
            targets: spec_repository_targets(
                github.user@,
                github.token@,
                repository_names(owned, listing, github.clone@),
            ),
        },
    ]
}

/// The batches of a run, in the order in which they are worked off: those
/// of the hosted account where one is configured and its listing is at
/// hand, then the plain remotes where there are any configured. Without a
/// listing nothing of the account is planned: a listing that failed must
/// not pass for an empty account.
pub open spec fn spec_plan(owned: bool, config: Config, listing: Option<RepositoriesView>) -> Seq<
    BatchView,
> {
    (match (config.github, listing) {
        (Some(github), Some(found)) => spec_account_batches(owned, github, found),
        _ => Seq::empty(),
    }) + (match config.git {
        Some(git) => seq![
            BatchView {
                kind: BatchKind::Remotes,
                targets: spec_remote_targets(table_entries(git.repos)),
            },
        ],
        None => Seq::empty(),
    })
}

/// The model of a listing that may be missing.
pub open spec fn listing_view(listing: Option<&Repositories>) -> Option<RepositoriesView> {
    match listing {
        Some(found) => Some(found@),
        None => None,
    }
}

/// Whether a run has to list the account before it can be planned.
pub fn needs_listing(config: &Config) -> (r: bool)
    ensures
        r == config.github is Some,
{
    config.github.is_some()
}

/// Plans a run: every batch with its targets, before any of them is
/// touched. `listing` is what listing the account gave, `None` where it was
/// not listed or the listing failed. A remote that is no string makes the
/// configuration invalid, and nothing is planned.
pub fn plan_run(owned: bool, config: &Config, listing: Option<&Repositories>) -> (r: Result<
    Vec<Batch>,
    ConfigurationError,
>)
    ensures
        r is Ok <==> (config.git matches Some(git) ==> forall|i: int|
            0 <= i < table_entries(git.repos).len() ==> (#[trigger] table_entries(
                git.repos,
            )[i]).1 is Some),
        r matches Ok(batches) ==> batches_view(batches@) == spec_plan(
            owned,
            *config,
            listing_view(listing),
        ),
        r matches Err(e) ==> config.git is Some && remotes_rejected(
            table_entries(config.git->0.repos),
            e,
        ),
{
    let mut batches: Vec<Batch> = Vec::new();
    match (&config.github, listing) {
        (Some(github), Some(found)) => {
            if github.clone.gists {
                batches.push(Batch { kind: BatchKind::Gists, targets: gist_targets(github, found) });
            }
            let set = RepositorySet::build(owned, found, &github.clone);
            batches.push(
                Batch {
                    kind: BatchKind::Repositories,
                    targets: repository_targets(github, &set),
                },
            );
            assert(batches_view(batches@) =~= spec_account_batches(owned, *github, found@));
        },
        _ => {
            assert(batches_view(batches@) =~= Seq::empty());
        },
    }
    let ghost account = batches_view(batches@);
    match &config.git {
        Some(git) => {
            let targets = match git_targets(git) {
                Ok(targets) => targets,
                Err(e) => {
                    return Err(e);
                },
            };
            batches.push(Batch { kind: BatchKind::Remotes, targets });
            assert(batches_view(batches@) =~= account + seq![batches[batches.len() - 1]@]);
        },
        None => {
            assert(batches_view(batches@) =~= account + Seq::empty());
        },
    }
    Ok(batches)
}

/// Two repositories of different names are mirrored to different places,
/// so no two targets of a repository set share a directory.
pub proof fn lemma_repository_paths_distinct(
    user: Seq<char>,
    token: Seq<char>,
    names: Seq<Seq<char>>,
)
    requires
        names.no_duplicates(),
    ensures
        forall|i: int, j: int|
            0 <= i < names.len() && 0 <= j < names.len() && i != j ==> (
            #[trigger] spec_repository_targets(user, token, names)[i]).local_relative_path != (
            #[trigger] spec_repository_targets(user, token, names)[j]).local_relative_path,
{
    let prefix = "github/clone/"@;
    let targets = spec_repository_targets(user, token, names);
    assert forall|i: int, j: int|
        0 <= i < names.len() && 0 <= j < names.len() && i != j implies (
    #[trigger] targets[i]).local_relative_path != (#[trigger] targets[j]).local_relative_path by {
        let a = prefix + names[i];
        let b = prefix + names[j];
        assert(a.skip(prefix.len() as int) =~= names[i]);
        assert(b.skip(prefix.len() as int) =~= names[j]);
    }
}

/// How a run went as a whole.
#[derive(Debug, PartialEq, Eq, Clone, Copy, Structural)]
pub struct RunReport {
    pub succeeded: usize,
    pub failed: usize,
}

/// How many of the outcomes are failures.
pub open spec fn failures(outcomes: Seq<SyncOutcome>) -> nat
    decreases outcomes.len(),
{
    if outcomes.len() == 0 {
        0
    } else {
        failures(outcomes.drop_last()) + if outcomes.last() is Failed {
            1nat
        } else {
            0nat
        }
    }
}

/// There are no more failures than outcomes.
pub proof fn lemma_failures_bounded(outcomes: Seq<SyncOutcome>)
    ensures
        failures(outcomes) <= outcomes.len(),
    decreases outcomes.len(),
{
    if outcomes.len() > 0 {
        lemma_failures_bounded(outcomes.drop_last());
    }
}

/// The failures of a run are those of its parts added up, however the
/// targets are divided: one after the other or among workers, the count is
/// the same.
pub proof fn lemma_failures_add_up(first: Seq<SyncOutcome>, second: Seq<SyncOutcome>)
    ensures
        failures(first + second) == failures(first) + failures(second),
        failures(first + second) == failures(second + first),
{
    lemma_failures_concat(first, second);
    lemma_failures_concat(second, first);
}

proof fn lemma_failures_concat(first: Seq<SyncOutcome>, second: Seq<SyncOutcome>)
    ensures
        failures(first + second) == failures(first) + failures(second),
    decreases second.len(),
{
    if second.len() == 0 {
        assert(first + second =~= first);
    } else {
        lemma_failures_concat(first, second.drop_last());
        assert((first + second).drop_last() =~= first + second.drop_last());
        assert((first + second).last() == second.last());
    }
}

proof fn lemma_failures_without(outcomes: Seq<SyncOutcome>, i: int)
    requires
        0 <= i < outcomes.len(),
    ensures
        failures(outcomes) == failures(outcomes.remove(i)) + if outcomes[i] is Failed {
            1nat
        } else {
            0nat
        },
{
    let head = outcomes.subrange(0, i);
    let one = seq![outcomes[i]];
    let tail = outcomes.subrange(i + 1, outcomes.len() as int);
    assert(outcomes =~= head + one + tail);
    assert(outcomes.remove(i) =~= head + tail);
    lemma_failures_concat(head + one, tail);
    lemma_failures_concat(head, one);
    lemma_failures_concat(head, tail);
    assert(one.drop_last() =~= Seq::empty());
    assert(failures(one.drop_last()) == 0);
}

/// The failures of a run do not depend on the order in which its targets
/// end: the same outcomes in any order give the same count.
pub proof fn lemma_failures_whatever_the_order(first: Seq<SyncOutcome>, second: Seq<SyncOutcome>)
    requires
        first.to_multiset() == second.to_multiset(),
    ensures
        failures(first) == failures(second),
        first.len() == second.len(),
    decreases first.len(),
{
    first.to_multiset_ensures();
    second.to_multiset_ensures();
    if first.len() > 0 {
        let n = first.len() - 1;
        let x = first[n];
        assert(first.contains(x));
        assert(first.to_multiset().count(x) > 0);
        assert(second.to_multiset().count(x) > 0);
        assert(second.contains(x));
        let j = choose|j: int| 0 <= j < second.len() && second[j] == x;
        assert(first.remove(n).to_multiset() == second.remove(j).to_multiset());
        first.remove_ensures(n);
        lemma_failures_whatever_the_order(first.remove(n), second.remove(j));
        lemma_failures_without(first, n);
        lemma_failures_without(second, j);
    }
}

/// Counts the outcomes of a run: every outcome is counted once, as a
/// failure or as a success.
pub fn tally(outcomes: &Vec<SyncOutcome>) -> (r: RunReport)
    ensures
        r.failed == failures(outcomes@),
        r.succeeded == outcomes.len() - failures(outcomes@),
{
    let mut succeeded: usize = 0;
    let mut failed: usize = 0;
    let mut i: usize = 0;
    assert(outcomes@.take(0) =~= Seq::empty());
    while i < outcomes.len()
        invariant
            i <= outcomes.len(),
            failed == failures(outcomes@.take(i as int)),
            succeeded + failed == i,
        decreases outcomes.len() - i,
    {
        assert(outcomes@.take(i as int + 1).drop_last() =~= outcomes@.take(i as int));
        match outcomes[i] {
            SyncOutcome::Failed(_) => {
                failed += 1;
            },
            _ => {
                succeeded += 1;
            },
        }
        i += 1;
    }
    assert(outcomes@.take(outcomes.len() as int) =~= outcomes@);
    RunReport { succeeded, failed }
}

/// What a run over several targets comes to.
#[derive(Debug, PartialEq)]
pub struct BatchResult {
    /// The outcome of each target, in the order of the targets.
    pub outcomes: Vec<SyncOutcome>,
    pub report: RunReport,
}

/// Runs one synchronizer per recorded transport, one after the other. Each
/// target is attempted whatever became of the others, and its outcome
/// depends on its own transport alone. `None` where some record ends
/// before its run does.
pub fn run_batch_scripted(policy: RetryPolicy, dry_run: bool, scripts: &Vec<TargetScript>) -> (r:
    Option<BatchResult>)
    ensures
        r is Some <==> forall|i: int|
            0 <= i < scripts.len() ==> scripted_trace(policy, dry_run, (#[trigger] scripts[i])@)
                is Some,
        r matches Some(batch) ==> {
            &&& batch.outcomes.len() == scripts.len()
            &&& forall|i: int|
                0 <= i < scripts.len() ==> Some((#[trigger] batch.outcomes[i])) == match scripted_trace(
                    policy,
                    dry_run,
                    scripts[i]@,
                ) {
                    Some(trace) => Some(trace.outcome),
                    None => None,
                }
            &&& batch.report.failed == failures(batch.outcomes@)
            &&& batch.report.succeeded + batch.report.failed == scripts.len()
        },
{
    let mut outcomes: Vec<SyncOutcome> = Vec::new();
    let mut i: usize = 0;
    while i < scripts.len()
        invariant
            i <= scripts.len(),
            outcomes.len() == i,
            forall|j: int|
                0 <= j < i ==> scripted_trace(policy, dry_run, (#[trigger] scripts[j])@) is Some,
            forall|j: int|
                0 <= j < i ==> Some((#[trigger] outcomes[j])) == match scripted_trace(
                    policy,
                    dry_run,
                    scripts[j]@,
                ) {
                    Some(trace) => Some(trace.outcome),
                    None => None,
                },
        decreases scripts.len() - i,
    {
        match run_scripted(policy, dry_run, &scripts[i]) {
            Some(trace) => {
                outcomes.push(trace.outcome);
            },
            None => {
                return None;
            },
        }
        i += 1;
    }
    let report = tally(&outcomes);
    proof {
        lemma_failures_bounded(outcomes@);
    }
    Some(BatchResult { outcomes, report })
}

/// How the targets of a run are worked off.
#[derive(Debug, PartialEq, Eq, Clone, Copy, Structural)]
pub enum DispatchMode {
    /// One after the other, with a progress line before each.
    Sequential,
    /// By a pool of `workers` workers, more than one.
    Parallel { workers: usize },
}

/// The mode for a configured number of workers: a pool where more than one
/// is asked for.
pub fn dispatch_mode(workers: usize) -> (mode: DispatchMode)
    ensures
        workers > 1 ==> mode == (DispatchMode::Parallel { workers }),
        workers <= 1 ==> mode == DispatchMode::Sequential,
{
    if workers > 1 {
        DispatchMode::Parallel { workers }
    } else {
        DispatchMode::Sequential
    }
}

/// The progress line before target number `position` of `total`:
/// `(position/total)`.
pub fn progress_label(position: usize, total: usize) -> (r: String)
    ensures
        r@ == "("@ + spec_decimal(position as nat) + "/"@ + spec_decimal(total as nat) + ")"@,
{
    let a = decimal(position as u64);
    let b = decimal(total as u64);
    let r = join3("(", a.as_str(), "/");
    let r = join3(r.as_str(), b.as_str(), ")");
    r
}

} // verus!
