//! Which certificate settings a run puts into effect, decided from the
//! configuration and from what the process finds around it.

use vstd::prelude::*;
use crate::config::SslConfig;
use crate::text::{opt_text, texts};

verus! {

/// The time allowed for opening a connection, in milliseconds.
pub const CONNECT_TIMEOUT_MILLIS: i32 = 60_000;

/// The time allowed for a transfer as a whole, in milliseconds.
pub const SERVER_TIMEOUT_MILLIS: i32 = 600_000;

/// What a variable of the process environment holds.
#[derive(Debug, PartialEq)]
pub enum EnvValue {
    Unset,
    /// Set to something that is no text.
    NotText,
    Text(String),
}

/// What a run finds around it: the two certificate variables, and for each
/// of the well-known certificate files whether it is there.
#[derive(Debug, PartialEq)]
pub struct SslEnvironment {
    pub cert_file: EnvValue,
    pub cert_dir_set: bool,
    /// One entry for each of `cert_candidates`, in order.
    pub candidates_present: Vec<bool>,
}

/// The settings that a run puts into effect.
#[derive(Debug, PartialEq)]
pub struct SslPlan {
    /// The certificate file to export and to hand to the transport.
    pub cert_file: Option<String>,
    /// The file whose directory becomes the certificate directory, where
    /// it has one.
    pub cert_dir_source: Option<String>,
    /// Whether certificate verification is switched off.
    pub disable_verification: bool,
}

/// The model of an `SslPlan`.
pub struct SslPlanView {
    pub cert_file: Option<Seq<char>>,
    pub cert_dir_source: Option<Seq<char>>,
    pub disable_verification: bool,
}

impl View for SslPlan {
    type V = SslPlanView;

    open spec fn view(&self) -> SslPlanView {
        SslPlanView {
            cert_file: opt_text(self.cert_file),
            cert_dir_source: opt_text(self.cert_dir_source),
            disable_verification: self.disable_verification,
        }
    }
}

/// The certificate files that are tried where none is configured, in the
/// order in which they are tried.
pub open spec fn spec_cert_candidates() -> Seq<Seq<char>> {
    seq![
        "/etc/ssl/certs/ca-certificates.crt"@,
        "/etc/ssl/cert.pem"@,
        "/usr/lib/ssl/cert.pem"@,
    ]
}

/// The first candidate that is there.
pub open spec fn first_present(present: Seq<bool>) -> Option<Seq<char>> {
    if present.len() > 0 && present[0] {
        Some(spec_cert_candidates()[0])
    } else if present.len() > 1 && present[1] {
        Some(spec_cert_candidates()[1])
    } else if present.len() > 2 && present[2] {
        Some(spec_cert_candidates()[2])
    } else {
        None
    }
}

/// The settings of a run. A configured certificate file wins. Without one,
/// and with the file variable unset, the first well-known file that is
/// there is taken. With the file variable set and the directory variable
/// unset, only the directory is derived, from the variable's file.
/// Verification is switched off exactly where the configuration says so.
pub open spec fn spec_plan_ssl(
    configured: Option<Seq<char>>,
    verify: bool,
    env_file: EnvValue,
    env_dir_set: bool,
    present: Seq<bool>,
) -> SslPlanView {
    let (cert_file, cert_dir_source) = match configured {
        Some(file) => (Some(file), Some(file)),
        None => match env_file {
            EnvValue::Unset => (first_present(present), first_present(present)),
            EnvValue::Text(file) => (
                None,
                if env_dir_set {
                    None
                } else {
                    Some(file@)
                },
            ),
            EnvValue::NotText => (None, None),
        },
    };
    SslPlanView { cert_file, cert_dir_source, disable_verification: !verify }
}

/// The well-known certificate files, in the order in which they are tried.
pub fn cert_candidates() -> (r: Vec<String>)
    ensures
        texts(r@) == spec_cert_candidates(),
{
    let mut r: Vec<String> = Vec::new();
    r.push("/etc/ssl/certs/ca-certificates.crt".to_owned());
    r.push("/etc/ssl/cert.pem".to_owned());
    r.push("/usr/lib/ssl/cert.pem".to_owned());
    assert(texts(r@) =~= spec_cert_candidates());
    r
}

fn pick_candidate(present: &Vec<bool>) -> (r: Option<String>)
    ensures
        opt_text(r) == first_present(present@),
{
    if present.len() > 0 && present[0] {
        Some("/etc/ssl/certs/ca-certificates.crt".to_owned())
    } else if present.len() > 1 && present[1] {
        Some("/etc/ssl/cert.pem".to_owned())
    } else if present.len() > 2 && present[2] {
        Some("/usr/lib/ssl/cert.pem".to_owned())
    } else {
        None
    }
}

fn copy_text(text: &Option<String>) -> (r: Option<String>)
    ensures
        opt_text(r) == opt_text(*text),
{
    match text {
        Some(t) => Some(t.clone()),
        None => None,
    }
}

/// Decides the certificate settings of a run.
pub fn plan_ssl(config: &SslConfig, env: &SslEnvironment) -> (plan: SslPlan)
    ensures
        plan@ == spec_plan_ssl(
            opt_text(config.cert_file),
            config.verify_certificates,
            env.cert_file,
            env.cert_dir_set,
            env.candidates_present@,
        ),
{
    let disable_verification = !config.verify_certificates;
    match &config.cert_file {
        Some(file) => SslPlan {
            cert_file: Some(file.clone()),
            cert_dir_source: Some(file.clone()),
            disable_verification,
        },
        None => match &env.cert_file {
            EnvValue::Unset => {
                let found = pick_candidate(&env.candidates_present);
                let source = copy_text(&found);
                SslPlan { cert_file: found, cert_dir_source: source, disable_verification }
            },
            EnvValue::Text(file) => SslPlan {
                cert_file: None,
                cert_dir_source: if env.cert_dir_set {
                    None
                } else {
                    Some(file.clone())
                },
                disable_verification,
            },
            EnvValue::NotText => SslPlan {
                cert_file: None,
                cert_dir_source: None,
                disable_verification,
            },
        },
    }
}

/// `dir` is a beginning of `path` and shorter than it: `path` with
/// something cut off its end.
pub open spec fn cut_from(path: Seq<char>, dir: Seq<char>) -> bool {
    dir.len() < path.len() && dir == path.subrange(0, dir.len() as int)
}

/// The parent that `std::path::Path::parent` gives for a path, as text. It
/// is fixed for one build of the library: how a path divides goes by the
/// platform that the library is built for.
pub uninterp spec fn path_parent(path: Seq<char>) -> Option<Seq<char>>;

/// Calls `std::path::Path::parent` on `path` and hands the result back as
/// text. Trusted: what comes back is the path without its final component,
/// so a shorter beginning of it, and the empty path has no parent.
#[verifier::external_body]
fn parent_of(path: &str) -> (r: Option<String>)
    ensures
        opt_text(r) == path_parent(path@),
        path@.len() == 0 ==> r is None,
        r matches Some(dir) ==> cut_from(path@, dir@),
{
    std::path::Path::new(path).parent().and_then(|p| p.to_str()).map(|p| p.to_string())
}

/// The certificate directory of a plan: the parent of the plan's source
/// file, so the source without its final component. There is none where
/// the plan names no source or an empty one.
pub fn cert_dir(plan: &SslPlan) -> (dir: Option<String>)
    ensures
        opt_text(dir) == match plan.cert_dir_source {
            Some(file) => path_parent(file@),
            None => None,
        },
        plan.cert_dir_source matches Some(file) ==> (file@.len() == 0 ==> dir is None),
        dir matches Some(found) ==> (plan.cert_dir_source matches Some(file) && cut_from(
            file@,
            found@,
        )),
{
    match &plan.cert_dir_source {
        Some(file) => parent_of(file.as_str()),
        None => None,
    }
}

} // verus!
