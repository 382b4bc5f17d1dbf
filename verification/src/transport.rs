//! What the engine decides around one transport: how a failure is classed,
//! how a mirror is set up, when progress is reported, and what the fallback
//! runs.

use vstd::prelude::*;

verus! {

/// An error of libgit2, as `git2` hands it out.
#[verifier::external_type_specification]
#[verifier::external_body]
pub struct ExGitError(git2::Error);

/// The kinds of transport failure that the engine tells apart.
#[derive(Debug, PartialEq, Eq, Clone, Copy, Structural)]
pub enum TransportErrorKind {
    Network,
    /// A failure of the TLS layer: the only kind after which the fallback
    /// is tried.
    Ssl,
    Auth,
    Other,
}

/// The classes of `git2::ErrorClass` that matter here; every other class is
/// `Other`.
#[derive(Debug, PartialEq, Eq, Clone, Copy, Structural)]
pub enum ErrorClassTag {
    Net,
    Ssl,
    Http,
    Ssh,
    Other,
}

/// The codes of `git2::ErrorCode` that matter here; every other code is
/// `Other`.
#[derive(Debug, PartialEq, Eq, Clone, Copy, Structural)]
pub enum ErrorCodeTag {
    Auth,
    Other,
}

/// The class that `git2::Error::class` gives for an error, as far as the
/// engine tells classes apart.
pub uninterp spec fn git_error_class(error: git2::Error) -> ErrorClassTag;

/// The code that `git2::Error::code` gives for an error, as far as the
/// engine tells codes apart.
pub uninterp spec fn git_error_code(error: git2::Error) -> ErrorCodeTag;

/// The text that `git2::Error` writes of itself through `Display`.
pub uninterp spec fn git_error_text(error: git2::Error) -> Seq<char>;

/// Calls `git2::Error::class`. Trusted: the result is the class that the
/// error carries, every class that is not the network's or the TLS layer's
/// given as `Other`.
#[verifier::external_body]
fn class_of(error: &git2::Error) -> (r: ErrorClassTag)
    ensures
        r == git_error_class(*error),
{
    match error.class() {
        git2::ErrorClass::Net => ErrorClassTag::Net,
        git2::ErrorClass::Ssl => ErrorClassTag::Ssl,
        git2::ErrorClass::Http => ErrorClassTag::Http,
        git2::ErrorClass::Ssh => ErrorClassTag::Ssh,
        _ => ErrorClassTag::Other,
    }
}

/// Calls `git2::Error::code`. Trusted: the result is the code that the
/// error carries, every code but that of a refused login given as `Other`.
#[verifier::external_body]
fn code_of(error: &git2::Error) -> (r: ErrorCodeTag)
    ensures
        r == git_error_code(*error),
{
    match error.code() {
        git2::ErrorCode::Auth => ErrorCodeTag::Auth,
        _ => ErrorCodeTag::Other,
    }
}

/// Calls `git2::Error`'s `Display` through `to_string`. Trusted: the
/// result is the text that the error writes of itself.
#[verifier::external_body]
fn text_of(error: &git2::Error) -> (r: String)
    ensures
        r@ == git_error_text(*error),
{
    error.to_string()
}

/// The kind of a failure with the given class and code. The class decides
/// first whether the TLS layer failed; a refused login comes next; what is
/// left is a network failure where the class is one of the network's.
pub open spec fn spec_classify(class: ErrorClassTag, code: ErrorCodeTag) -> TransportErrorKind {
    if class == ErrorClassTag::Ssl {
        TransportErrorKind::Ssl
    } else if code == ErrorCodeTag::Auth {
        TransportErrorKind::Auth
    } else if class == ErrorClassTag::Net || class == ErrorClassTag::Http || class
        == ErrorClassTag::Ssh {
        TransportErrorKind::Network
    } else {
        TransportErrorKind::Other
    }
}

/// Classes a failure by its class and code.
pub fn classify(class: ErrorClassTag, code: ErrorCodeTag) -> (kind: TransportErrorKind)
    ensures
        kind == spec_classify(class, code),
{
    match class {
        ErrorClassTag::Ssl => TransportErrorKind::Ssl,
        ErrorClassTag::Net | ErrorClassTag::Http | ErrorClassTag::Ssh => match code {
            ErrorCodeTag::Auth => TransportErrorKind::Auth,
            ErrorCodeTag::Other => TransportErrorKind::Network,
        },
        ErrorClassTag::Other => match code {
            ErrorCodeTag::Auth => TransportErrorKind::Auth,
            ErrorCodeTag::Other => TransportErrorKind::Other,
        },
    }
}

/// A failed transfer as libgit2 reports it: the class and the code of the
/// error, the kind that they amount to, and the error's own words for the
/// log.
#[derive(Debug, PartialEq)]
pub struct TransportError {
    pub kind: TransportErrorKind,
    pub class: ErrorClassTag,
    pub code: ErrorCodeTag,
    pub detail: String,
}

impl TransportError {
    /// Reads a failure of libgit2: the class and the code that the error
    /// carries, the error's own text, and as its kind what `classify` makes
    /// of that class and code.
    pub fn from_git(error: &git2::Error) -> (r: TransportError)
        ensures
            r.class == git_error_class(*error),
            r.code == git_error_code(*error),
            r.detail@ == git_error_text(*error),
            r.kind == spec_classify(r.class, r.code),
    {
        let class = class_of(error);
        let code = code_of(error);
        TransportError { kind: classify(class, code), class, code, detail: text_of(error) }
    }

    /// Whether the fallback may be tried after this failure: only after a
    /// failure of the TLS layer.
    pub fn allows_fallback(&self) -> (r: bool)
        ensures
            r == (self.kind == TransportErrorKind::Ssl),
    {
        match self.kind {
            TransportErrorKind::Ssl => true,
            _ => false,
        }
    }
}

/// What stands at the place of a mirror.
#[derive(Debug, PartialEq, Eq, Clone, Copy, Structural)]
pub enum PathKind {
    Missing,
    Directory,
    /// Something that is no directory.
    Other,
}

/// How a mirror is brought up before the first transfer.
#[derive(Debug, PartialEq, Eq, Clone, Copy, Structural)]
pub enum MirrorSetup {
    /// Open the bare repository that is there and use its `origin`.
    OpenExisting,
    /// Create a bare repository and register `origin`.
    CreateNew,
    /// Delete what is in the way, then create.
    ReplaceWithNew,
}

/// Chooses the setup by what stands at the mirror's place.
pub fn mirror_setup(found: PathKind) -> (setup: MirrorSetup)
    ensures
        found == PathKind::Directory ==> setup == MirrorSetup::OpenExisting,
        found == PathKind::Missing ==> setup == MirrorSetup::CreateNew,
        found == PathKind::Other ==> setup == MirrorSetup::ReplaceWithNew,
{
    match found {
        PathKind::Directory => MirrorSetup::OpenExisting,
        PathKind::Missing => MirrorSetup::CreateNew,
        PathKind::Other => MirrorSetup::ReplaceWithNew,
    }
}

/// Reports the start of a transfer once: at the first sign of activity, and
/// never again.
#[derive(Debug, PartialEq, Eq, Clone, Copy, Structural)]
pub struct ProgressLatch {
    pub fired: bool,
}

impl ProgressLatch {
    /// A latch that has seen nothing.
    pub fn new() -> (r: ProgressLatch)
        ensures
            !r.fired,
    {
        ProgressLatch { fired: false }
    }

    /// Takes one sign of activity. Returns whether it is the first, which is
    /// the one to report.
    pub fn observe(&mut self) -> (first: bool)
        ensures
            first == !old(self).fired,
            final(self).fired,
    {
        let first = !self.fired;
        self.fired = true;
        first
    }
}

/// How many of `n` signs of activity a latch reports.
pub open spec fn reports(fired: bool, n: nat) -> nat
    decreases n,
{
    if n == 0 {
        0
    } else {
        (if fired {
            0nat
        } else {
            1nat
        }) + reports(true, (n - 1) as nat)
    }
}

/// A fresh latch reports exactly one of any number of signs, and none where
/// there is no sign; a latch that has fired reports none.
pub proof fn lemma_reports_once(n: nat)
    ensures
        reports(true, n) == 0,
        reports(false, n) == if n == 0 {
            0nat
        } else {
            1nat
        },
    decreases n,
{
    if n > 0 {
        lemma_reports_once((n - 1) as nat);
    }
}

/// One argument of the fallback's command line.
#[derive(Debug, PartialEq)]
pub enum FallbackArgument {
    /// A word that is passed as it stands.
    Word(String),
    /// The place of the mirror's path, which the caller puts in as the
    /// file system holds it.
    MirrorPath,
}

/// The model of a `FallbackArgument`.
pub enum FallbackArgumentView {
    Word(Seq<char>),
    MirrorPath,
}

impl View for FallbackArgument {
    type V = FallbackArgumentView;

    open spec fn view(&self) -> FallbackArgumentView {
        match self {
            FallbackArgument::Word(word) => FallbackArgumentView::Word(word@),
            FallbackArgument::MirrorPath => FallbackArgumentView::MirrorPath,
        }
    }
}

/// The views of a command line, in order.
pub open spec fn arguments_view(list: Seq<FallbackArgument>) -> Seq<FallbackArgumentView> {
    Seq::new(list.len(), |i: int| list[i]@)
}

/// The arguments of the fallback, which runs the `git` command-line client:
/// a fetch with pruning inside the mirror where one exists, a mirror clone
/// of `url` to the mirror's path where none does.
pub open spec fn spec_fallback_command(mirror_exists: bool, url: Seq<char>) -> Seq<
    FallbackArgumentView,
> {
    if mirror_exists {
        seq![
            FallbackArgumentView::Word("-C"@),
            FallbackArgumentView::MirrorPath,
            FallbackArgumentView::Word("fetch"@),
            FallbackArgumentView::Word("--prune"@),
        ]
    } else {
        seq![
            FallbackArgumentView::Word("clone"@),
            FallbackArgumentView::Word("--mirror"@),
            FallbackArgumentView::Word(url),
            FallbackArgumentView::MirrorPath,
        ]
    }
}

/// Builds the arguments of the fallback.
pub fn fallback_command(mirror_exists: bool, url: &str) -> (r: Vec<FallbackArgument>)
    ensures
        arguments_view(r@) == spec_fallback_command(mirror_exists, url@),
{
    let mut r: Vec<FallbackArgument> = Vec::new();
    if mirror_exists {
        r.push(FallbackArgument::Word("-C".to_owned()));
        r.push(FallbackArgument::MirrorPath);
        r.push(FallbackArgument::Word("fetch".to_owned()));
        r.push(FallbackArgument::Word("--prune".to_owned()));
    } else {
        r.push(FallbackArgument::Word("clone".to_owned()));
        r.push(FallbackArgument::Word("--mirror".to_owned()));
        r.push(FallbackArgument::Word(url.to_owned()));
        r.push(FallbackArgument::MirrorPath);
    }
    assert(arguments_view(r@) =~= spec_fallback_command(mirror_exists, url@));
    r
}

} // verus!
