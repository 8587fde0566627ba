//! What the process is configured with.

use crate::server::alert;
use std::path::PathBuf;
use vstd::prelude::*;

verus! {

/// `std::path::PathBuf`, of which this crate reads nothing: a path is taken
/// from the command line or from the configuration and handed on as it is.
#[verifier::external_type_specification]
#[verifier::external_body]
pub struct ExPathBuf(std::path::PathBuf);

/// `PathBuf::clone`: the copy is the same path.
pub assume_specification[ <std::path::PathBuf as Clone>::clone ](
    path: &std::path::PathBuf,
) -> (copy: std::path::PathBuf)
    ensures
        copy == *path,
;

/// Seconds between the end of a pass and the next cycle, unless configured.
pub const DEFAULT_PERIOD: u64 = 7200;

/// Seconds between a failed attempt and the next one, unless configured.
pub const DEFAULT_RETRY_INTERVAL: u64 = 600;

/// How many failed attempts on one repository are followed by another attempt
/// within one cycle.
pub const RETRY: u8 = 2;

/// Mathematical value of a [`Repo`].
pub struct RepoView {
    pub name: Seq<char>,
    pub url: Seq<char>,
}

/// One watched repository: the name its release is stored under, and the
/// address its latest release is fetched from.
#[derive(Debug)]
pub struct Repo {
    pub name: String,
    pub url: String,
}

impl View for Repo {
    type V = RepoView;

    open spec fn view(&self) -> RepoView {
        RepoView { name: self.name@, url: self.url@ }
    }
}

impl Clone for Repo {
    fn clone(&self) -> (copy: Self)
        ensures
            copy == *self,
    {
        Repo { name: self.name.clone(), url: self.url.clone() }
    }
}

/// Everything the server is started with.  It is read once and not changed
/// afterwards.
#[derive(Debug)]
pub struct ServerConfig {
    /// The value of the authorization header that goes with every fetch.
    pub github_authorization_header: String,
    /// The directory that holds the release store.
    pub db_path: PathBuf,
    /// Seconds between the end of a pass and the next cycle.
    pub period: u64,
    /// Seconds between a failed attempt and the next one.
    pub retry_interval: u64,
    pub alert: alert::Config,
    pub repo_list: Vec<Repo>,
}

impl ServerConfig {
    /// The configuration that holds where none was given: no authorization
    /// header, the store in `db_path`, a cycle every two hours, ten minutes
    /// between attempts, no provider enabled and no repository watched.
    pub fn with_db_path(db_path: PathBuf) -> (config: ServerConfig)
        ensures
            config.github_authorization_header@ == Seq::<char>::empty(),
            config.db_path == db_path,
            config.period == DEFAULT_PERIOD,
            config.retry_interval == DEFAULT_RETRY_INTERVAL,
            config.alert@.slack.webhook_url == Seq::<char>::empty(),
            config.alert@.wechat.webhook_url == Seq::<char>::empty(),
            config.repo_list@ == Seq::<Repo>::empty(),
    {
        ServerConfig {
            github_authorization_header: String::new(),
            db_path,
            period: DEFAULT_PERIOD,
            retry_interval: DEFAULT_RETRY_INTERVAL,
            alert: alert::Config::default(),
            repo_list: Vec::new(),
        }
    }
}

} // verus!
