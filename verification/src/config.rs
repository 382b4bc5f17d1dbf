//! The configuration values that the engine consumes.

use vstd::prelude::*;
use crate::text::texts;

verus! {

/// A table of a configuration document, as `toml` holds it.
#[verifier::external_type_specification]
#[verifier::external_body]
#[verifier::reject_recursive_types(K)]
#[verifier::reject_recursive_types(V)]
pub struct ExTomlMap<K, V>(toml::map::Map<K, V>);

/// A value of a configuration document, as `toml` holds it.
#[verifier::external_type_specification]
#[verifier::external_body]
pub struct ExTomlValue(toml::Value);

/// What a table holds, in the order in which the table hands its entries
/// out: each key, and beside it the text of its value where that value is a
/// string.
pub uninterp spec fn table_entries(table: toml::map::Map<String, toml::Value>) -> Seq<
    (Seq<char>, Option<Seq<char>>),
>;

/// One entry of the table of plain git remotes.
#[derive(Debug, PartialEq)]
pub struct RemoteEntry {
    /// The key: the path under which the mirror is kept.
    pub path: String,
    /// The address, where the entry's value is a string.
    pub url: Option<String>,
}

impl View for RemoteEntry {
    type V = (Seq<char>, Option<Seq<char>>);

    open spec fn view(&self) -> Self::V {
        (
            self.path@,
            match self.url {
                Some(u) => Some(u@),
                None => None,
            },
        )
    }
}

/// The views of a list of entries, in order.
pub open spec fn entries_view(list: Seq<RemoteEntry>) -> Seq<(Seq<char>, Option<Seq<char>>)> {
    Seq::new(list.len(), |i: int| list[i]@)
}

/// Calls `toml::map::Map::iter` and, on each value, `toml::Value::as_str`.
/// Trusted: the entries come out as `table_entries` names them, a key with
/// `Some` text exactly where `as_str` gives one.
#[verifier::external_body]
fn read_table(table: &toml::map::Map<String, toml::Value>) -> (r: Vec<RemoteEntry>)
    ensures
        entries_view(r@) == table_entries(*table),
{
    table.iter().map(|(k, v)| RemoteEntry {
        path: k.clone(),
        url: v.as_str().map(|s| s.to_string()),
    }).collect()
}

/// The whole configuration.
#[derive(Debug, PartialEq)]
pub struct Config {
    pub version: u32,
    pub github: Option<GitHub>,
    pub git: Option<Git>,
    pub ssl: SslConfig,
}

/// The hosted account to mirror.
#[derive(Debug, PartialEq)]
pub struct GitHub {
    pub user: String,
    pub token: String,
    pub clone: GitHubClone,
}

/// Which of the account's repositories are mirrored.
#[derive(Debug, PartialEq)]
pub struct GitHubClone {
    pub starred: bool,
    pub watched: bool,
    pub gists: bool,
    pub repos: Vec<String>,
    pub ignored: Vec<String>,
}

/// The model of a `GitHubClone`.
pub struct GitHubCloneView {
    pub starred: bool,
    pub watched: bool,
    pub gists: bool,
    pub repos: Seq<Seq<char>>,
    pub ignored: Seq<Seq<char>>,
}

impl View for GitHubClone {
    type V = GitHubCloneView;

    open spec fn view(&self) -> GitHubCloneView {
        GitHubCloneView {
            starred: self.starred,
            watched: self.watched,
            gists: self.gists,
            repos: texts(self.repos@),
            ignored: texts(self.ignored@),
        }
    }
}

impl Default for GitHubClone {
    /// Gists are mirrored; starred and watched repositories are not; no
    /// repository is named and none is ignored.
    fn default() -> (r: GitHubClone)
        ensures
            !r.starred,
            !r.watched,
            r.gists,
            r.repos@.len() == 0,
            r.ignored@.len() == 0,
    {
        GitHubClone {
            starred: false,
            watched: false,
            gists: true,
            repos: Vec::new(),
            ignored: Vec::new(),
        }
    }
}

/// Plain git remotes, each under the path that is its key.
#[derive(Debug, PartialEq)]
pub struct Git {
    pub repos: toml::value::Table,
}

impl Git {
    /// The remotes in the table's own order.
    pub fn remotes(&self) -> (r: Vec<RemoteEntry>)
        ensures
            entries_view(r@) == table_entries(self.repos),
    {
        read_table(&self.repos)
    }
}

/// Certificate policy handed to the transport.
#[derive(Debug, PartialEq)]
pub struct SslConfig {
    pub verify_certificates: bool,
    pub cert_file: Option<String>,
}

impl Default for SslConfig {
    /// Certificates are verified, and no certificate file is named.
    fn default() -> (r: SslConfig)
        ensures
            r.verify_certificates,
            r.cert_file is None,
    {
        SslConfig { verify_certificates: true, cert_file: None }
    }
}

impl Config {
    /// Switches on what the command line asks for: a flag that is set wins
    /// over the configuration, one that is not leaves it as it is.
    pub fn apply_flags(&mut self, starred: bool, watched: bool)
        ensures
            final(self).version == old(self).version,
            final(self).git == old(self).git,
            final(self).ssl == old(self).ssl,
            final(self).github is Some == old(self).github is Some,
            old(self).github matches Some(before) ==> {
                let after = final(self).github->0;
                &&& after.user == before.user
                &&& after.token == before.token
                &&& after.clone.gists == before.clone.gists
                &&& after.clone.repos == before.clone.repos
                &&& after.clone.ignored == before.clone.ignored
                &&& after.clone.starred == (starred || before.clone.starred)
                &&& after.clone.watched == (watched || before.clone.watched)
            },
    {
        match &mut self.github {
            Some(github) => {
                if starred {
                    github.clone.starred = true;
                }
                if watched {
                    github.clone.watched = true;
                }
            },
            None => {},
        }
    }
}

} // verus!
